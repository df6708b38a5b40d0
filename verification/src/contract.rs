//! The transaction contract.

use crate::joining::{Join, Join3, Join4};
use crate::sequencing::{AndThen, MapErr, MapOk, OrElse, Then};
use crate::transmuting::{Abort, Recover, TryAbort, TryRecover};
use std::marker::PhantomData;
use vstd::prelude::*;

verus! {

/// How a borrowed context settles: `settles(cell, last)` says that `last` is the
/// value `cell` holds when its borrow ends.
///
/// A spec function cannot look at the value a mutable reference will hold in
/// the end, so the relations below take that knowledge as an argument.
/// [`Transaction::run`] hands in the real relation; the laws hold for any.
pub type Settles<'a, Ctx> = spec_fn(&'a mut Ctx, Ctx) -> bool;

/// A unit of work over a context of type `Ctx`.
///
/// A value of this trait does nothing until it is run, and may be run any
/// number of times. Each run starts from the context as it then is.
pub trait Transaction<Ctx> {
    /// What a successful run gives.
    type Item;

    /// What a failed run gives.
    type Err;

    /// True if the transaction may be started in `ctx`: every function it will
    /// call, on any path it may take from there, accepts its argument.
    spec fn admits(&self, settles: Settles<'_, Ctx>, ctx: Ctx) -> bool;

    /// True if a run started in `pre` may end in `post` with the result `out`.
    spec fn yields(
        &self,
        settles: Settles<'_, Ctx>,
        pre: Ctx,
        post: Ctx,
        out: Result<Self::Item, Self::Err>,
    ) -> bool;

    /// Runs the transaction once against `ctx`.
    fn run(&self, ctx: &mut Ctx) -> (out: Result<Self::Item, Self::Err>)
        requires
            self.admits(|cell: &mut Ctx, last: Ctx| *final(cell) == last, *old(ctx)),
        ensures
            self.yields(
                |cell: &mut Ctx, last: Ctx| *final(cell) == last,
                *old(ctx),
                *final(ctx),
                out,
            ),
    ;

    /// Continues, whatever the result of `self` is, with the transaction that
    /// `f` makes of that result.
    fn then<F, B, Tx2>(self, f: F) -> (tx: Then<Self, F, Tx2>) where
        Tx2: SucceedsWith<Ctx, B> + FailsWith<Ctx, Self::Err>,
        F: Fn(Result<Self::Item, Self::Err>) -> Tx2,
        Self: Sized,

        ensures
            tx.tx == self,
            tx.f == f,
    {
        Then { tx: self, f: f, _phantom: PhantomData }
    }

    /// Applies `f` to the value of a success. A failure passes unchanged.
    fn map<F, B>(self, f: F) -> (tx: MapOk<Self, F>) where F: Fn(Self::Item) -> B, Self: Sized
        ensures
            tx.tx == self,
            tx.f == f,
    {
        MapOk { tx: self, f: f }
    }

    /// Continues, if `self` succeeds, with the transaction that `f` makes of
    /// its value. A failure of `self` ends the run, and `f` is not called.
    fn and_then<F, B>(self, f: F) -> (tx: AndThen<Self, F, B>) where
        B: FailsWith<Ctx, Self::Err>,
        F: Fn(Self::Item) -> B,
        Self: Sized,

        ensures
            tx.tx == self,
            tx.f == f,
    {
        AndThen { tx: self, f: f, _phantom: PhantomData }
    }

    /// Applies `f` to the error of a failure. A success passes unchanged.
    fn map_err<F, B>(self, f: F) -> (tx: MapErr<Self, F>) where F: Fn(Self::Err) -> B, Self: Sized
        ensures
            tx.tx == self,
            tx.f == f,
    {
        MapErr { tx: self, f: f }
    }

    /// Falls back, if `self` fails, on the transaction that `f` makes of its
    /// error. A success of `self` ends the run, and `f` is not called.
    fn or_else<F, B>(self, f: F) -> (tx: OrElse<Self, F, B>) where
        B: SucceedsWith<Ctx, Self::Item>,
        F: Fn(Self::Err) -> B,
        Self: Sized,

        ensures
            tx.tx == self,
            tx.f == f,
    {
        OrElse { tx: self, f: f, _phantom: PhantomData }
    }

    /// Turns a success into the failure that `f` makes of its value. A failure
    /// passes unchanged.
    fn abort<T, F>(self, f: F) -> (tx: Abort<Self, T, F>) where
        F: Fn(Self::Item) -> Self::Err,
        Self: Sized,

        ensures
            tx.tx == self,
            tx.f == f,
    {
        Abort { tx: self, f: f, _phantom: PhantomData }
    }

    /// Lets `f` decide, on the value of a success, between success and
    /// failure. A failure passes unchanged.
    fn try_abort<F, B>(self, f: F) -> (tx: TryAbort<Self, F, B>) where
        F: Fn(Self::Item) -> Result<B, Self::Err>,
        Self: Sized,

        ensures
            tx.tx == self,
            tx.f == f,
    {
        TryAbort { tx: self, f: f, _phantom: PhantomData }
    }

    /// Turns a failure into the success that `f` makes of its error. A success
    /// passes unchanged.
    fn recover<T, F>(self, f: F) -> (tx: Recover<Self, T, F>) where
        F: Fn(Self::Err) -> Self::Item,
        Self: Sized,

        ensures
            tx.tx == self,
            tx.f == f,
    {
        Recover { tx: self, f: f, _phantom: PhantomData }
    }

    /// Lets `f` decide, on the error of a failure, between success and
    /// failure. A success passes unchanged.
    fn try_recover<F, B>(self, f: F) -> (tx: TryRecover<Self, F, B>) where
        F: Fn(Self::Err) -> Result<Self::Item, B>,
        Self: Sized,

        ensures
            tx.tx == self,
            tx.f == f,
    {
        TryRecover { tx: self, f: f, _phantom: PhantomData }
    }

    /// Runs `self`, then `b`, and pairs up their results.
    fn join<B>(self, b: B) -> (tx: Join<Self, B>) where B: FailsWith<Ctx, Self::Err>, Self: Sized
        ensures
            tx.tx1 == self,
            tx.tx2 == b,
    {
        Join { tx1: self, tx2: b }
    }

    /// Runs `self`, then `b`, then `c`, and puts their results together.
    fn join3<B, C>(self, b: B, c: C) -> (tx: Join3<Self, B, C>) where
        B: FailsWith<Ctx, Self::Err>,
        C: FailsWith<Ctx, Self::Err>,
        Self: Sized,

        ensures
            tx.tx1 == self,
            tx.tx2 == b,
            tx.tx3 == c,
    {
        Join3 { tx1: self, tx2: b, tx3: c }
    }

    /// Runs `self`, then `b`, then `c`, then `d`, and puts their results
    /// together.
    fn join4<B, C, D>(self, b: B, c: C, d: D) -> (tx: Join4<Self, B, C, D>) where
        B: FailsWith<Ctx, Self::Err>,
        C: FailsWith<Ctx, Self::Err>,
        D: FailsWith<Ctx, Self::Err>,
        Self: Sized,

        ensures
            tx.tx1 == self,
            tx.tx2 == b,
            tx.tx3 == c,
            tx.tx4 == d,
    {
        Join4 { tx1: self, tx2: b, tx3: c, tx4: d }
    }
}

/// The transactions over `Ctx` whose failures are of type `E`. A combinator
/// that takes a second transaction asks this of it, so that two error types
/// that differ are refused where the composition is built.
pub trait FailsWith<Ctx, E> {

}

impl<Ctx, Tx> FailsWith<Ctx, Tx::Err> for Tx where Tx: Transaction<Ctx> {

}

/// The transactions over `Ctx` whose successes are of type `T`. A fallback
/// has to be one of them.
pub trait SucceedsWith<Ctx, T> {

}

impl<Ctx, Tx> SucceedsWith<Ctx, Tx::Item> for Tx where Tx: Transaction<Ctx> {

}

/// A value that can be turned into a transaction.
pub trait IntoTransaction {
    /// The transaction it turns into.
    type Tx: Transaction<Self::Ctx, Item = Self::Item, Err = Self::Err>;

    /// The context that transaction runs against.
    type Ctx;

    /// What a failed run gives.
    type Err;

    /// What a successful run gives.
    type Item;

    /// Turns the value into its transaction.
    fn into_transaction(self) -> Self::Tx;
}

} // verus!
