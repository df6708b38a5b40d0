//! Transactions without children: fixed results, deferred computations, and
//! the one kind that reads and writes the context.

use crate::contract::{Settles, Transaction};
use std::marker::PhantomData;
use vstd::prelude::*;

verus! {

/// A transaction that gives a clone of a fixed result.
#[derive(Debug)]
pub struct TxResult<T, E> {
    /// The result that every run clones.
    pub r: Result<T, E>,
}

/// A transaction that succeeds with a clone of a fixed value.
#[derive(Debug)]
pub struct TxOk<T, E> {
    /// The value that every run clones.
    pub ok: T,
    /// Stands for the error type, of which the leaf holds no value.
    pub _phantom: PhantomData<E>,
}

/// A transaction that fails with a clone of a fixed value.
#[derive(Debug)]
pub struct TxErr<T, E> {
    /// The error that every run clones.
    pub err: E,
    /// Stands for the success type, of which the leaf holds no value.
    pub _phantom: PhantomData<T>,
}

/// A transaction that calls a function of no argument on every run.
#[derive(Debug)]
pub struct Lazy<F> {
    /// The function that every run calls.
    pub f: F,
}

/// A transaction that calls a function on the context on every run.
#[derive(Debug)]
pub struct WithCtx<F> {
    /// The function that every run calls on the context.
    pub f: F,
}

/// The results that cloning `r` may give: the same variant, holding a clone.
pub open spec fn cloned_result<T: Clone, E: Clone>(r: Result<T, E>, out: Result<T, E>) -> bool {
    match r {
        Ok(v) => out is Ok && cloned(v, out->Ok_0),
        Err(e) => out is Err && cloned(e, out->Err_0),
    }
}

/// Makes the leaf that gives a clone of `r` on every run.
pub fn result<T, E>(r: Result<T, E>) -> (tx: TxResult<T, E>)
    ensures
        tx.r == r,
{
    TxResult { r: r }
}

/// Makes the leaf that succeeds with a clone of `t` on every run.
pub fn ok<T, E>(t: T) -> (tx: TxOk<T, E>)
    ensures
        tx.ok == t,
{
    TxOk { ok: t, _phantom: PhantomData }
}

/// Makes the leaf that fails with a clone of `e` on every run.
pub fn err<T, E>(e: E) -> (tx: TxErr<T, E>)
    ensures
        tx.err == e,
{
    TxErr { err: e, _phantom: PhantomData }
}

/// Makes the leaf that calls `f` afresh on every run. Nothing is kept from one
/// run to the next.
pub fn lazy<F, T, E>(f: F) -> (tx: Lazy<F>) where F: Fn() -> Result<T, E>
    ensures
        tx.f == f,
{
    Lazy { f: f }
}

/// Makes the leaf that calls `f` on the context on every run. It is the only
/// kind of transaction that reads or writes the context.
pub fn with_ctx<Ctx, F, T, E>(f: F) -> (tx: WithCtx<F>) where F: Fn(&mut Ctx) -> Result<T, E>
    ensures
        tx.f == f,
{
    WithCtx { f: f }
}

impl<Ctx, T, E> Transaction<Ctx> for TxResult<T, E> where T: Clone, E: Clone {
    type Item = T;

    type Err = E;

    open spec fn admits(&self, settles: Settles<'_, Ctx>, ctx: Ctx) -> bool {
        true
    }

    open spec fn yields(&self, settles: Settles<'_, Ctx>, pre: Ctx, post: Ctx, out: Result<T, E>) -> bool {
        post == pre && cloned_result(self.r, out)
    }

    fn run(&self, ctx: &mut Ctx) -> (out: Result<T, E>) {
        match &self.r {
            Ok(v) => Ok::<T, E>(v.clone()),
            Err(e) => Err::<T, E>(e.clone()),
        }
    }
}

impl<Ctx, T, E> Transaction<Ctx> for TxOk<T, E> where T: Clone {
    type Item = T;

    type Err = E;

    open spec fn admits(&self, settles: Settles<'_, Ctx>, ctx: Ctx) -> bool {
        true
    }

    open spec fn yields(&self, settles: Settles<'_, Ctx>, pre: Ctx, post: Ctx, out: Result<T, E>) -> bool {
        post == pre && out is Ok && cloned(self.ok, out->Ok_0)
    }

    fn run(&self, ctx: &mut Ctx) -> (out: Result<T, E>) {
        Ok::<T, E>(self.ok.clone())
    }
}

impl<Ctx, T, E> Transaction<Ctx> for TxErr<T, E> where E: Clone {
    type Item = T;

    type Err = E;

    open spec fn admits(&self, settles: Settles<'_, Ctx>, ctx: Ctx) -> bool {
        true
    }

    open spec fn yields(&self, settles: Settles<'_, Ctx>, pre: Ctx, post: Ctx, out: Result<T, E>) -> bool {
        post == pre && out is Err && cloned(self.err, out->Err_0)
    }

    fn run(&self, ctx: &mut Ctx) -> (out: Result<T, E>) {
        Err::<T, E>(self.err.clone())
    }
}

impl<Ctx, T, E, F> Transaction<Ctx> for Lazy<F> where F: Fn() -> Result<T, E> {
    type Item = T;

    type Err = E;

    open spec fn admits(&self, settles: Settles<'_, Ctx>, ctx: Ctx) -> bool {
        call_requires(self.f, ())
    }

    open spec fn yields(&self, settles: Settles<'_, Ctx>, pre: Ctx, post: Ctx, out: Result<T, E>) -> bool {
        post == pre && call_ensures(self.f, (), out)
    }

    fn run(&self, ctx: &mut Ctx) -> (out: Result<T, E>) {
        (self.f)()
    }
}

impl<Ctx, T, E, F> Transaction<Ctx> for WithCtx<F> where F: Fn(&mut Ctx) -> Result<T, E> {
    type Item = T;

    type Err = E;

    open spec fn admits(&self, settles: Settles<'_, Ctx>, ctx: Ctx) -> bool {
        forall|cell: &mut Ctx| *cell == ctx ==> #[trigger] call_requires(self.f, (cell,))
    }

    open spec fn yields(&self, settles: Settles<'_, Ctx>, pre: Ctx, post: Ctx, out: Result<T, E>) -> bool {
        exists|cell: &mut Ctx|
            *cell == pre && settles(cell, post) && #[trigger] call_ensures(self.f, (cell,), out)
    }

    fn run(&self, ctx: &mut Ctx) -> (out: Result<T, E>) {
        (self.f)(ctx)
    }
}

} // verus!
