//! Combinators that turn a success into a failure, or a failure into a success.

use crate::contract::{Settles, Transaction};
use std::marker::PhantomData;
use vstd::prelude::*;

verus! {

/// Runs `tx` and fails: with `f` of its value if it succeeded, with its own
/// error otherwise. `T` is the success type that the whole is given.
#[derive(Debug)]
pub struct Abort<Tx, T, F> {
    /// The transaction that runs first.
    pub tx: Tx,
    /// The function applied to what it gives.
    pub f: F,
    /// Stands for a type of which the combinator holds no value.
    pub _phantom: PhantomData<T>,
}

/// Runs `tx` and, if it succeeded, lets `f` decide between success and failure.
#[derive(Debug)]
pub struct TryAbort<Tx, F, B> {
    /// The transaction that runs first.
    pub tx: Tx,
    /// The function applied to what it gives.
    pub f: F,
    /// Stands for a type of which the combinator holds no value.
    pub _phantom: PhantomData<B>,
}

/// Runs `tx` and succeeds: with `f` of its error if it failed, with its own
/// value otherwise.
#[derive(Debug)]
pub struct Recover<Tx, T, F> {
    /// The transaction that runs first.
    pub tx: Tx,
    /// The function applied to what it gives.
    pub f: F,
    /// Stands for a type of which the combinator holds no value.
    pub _phantom: PhantomData<T>,
}

/// Runs `tx` and, if it failed, lets `f` decide between success and failure.
#[derive(Debug)]
pub struct TryRecover<Tx, F, B> {
    /// The transaction that runs first.
    pub tx: Tx,
    /// The function applied to what it gives.
    pub f: F,
    /// Stands for a type of which the combinator holds no value.
    pub _phantom: PhantomData<B>,
}

impl<Ctx, Tx, F, T> Transaction<Ctx> for Abort<Tx, T, F> where
    Tx: Transaction<Ctx>,
    F: Fn(Tx::Item) -> Tx::Err,
 {
    type Item = T;

    type Err = Tx::Err;

    open spec fn admits(&self, settles: Settles<'_, Ctx>, ctx: Ctx) -> bool {
        &&& self.tx.admits(settles, ctx)
        &&& forall|post: Ctx, v: Tx::Item| #[trigger]
            self.tx.yields(settles, ctx, post, Ok::<Tx::Item, Tx::Err>(v)) ==> call_requires(
                self.f,
                (v,),
            )
    }

    open spec fn yields(
        &self,
        settles: Settles<'_, Ctx>,
        pre: Ctx,
        post: Ctx,
        out: Result<T, Tx::Err>,
    ) -> bool {
        &&& out is Err
        &&& {
            ||| self.tx.yields(settles, pre, post, Err::<Tx::Item, Tx::Err>(out->Err_0))
            ||| exists|v: Tx::Item| #[trigger]
                self.tx.yields(settles, pre, post, Ok::<Tx::Item, Tx::Err>(v)) && call_ensures(
                    self.f,
                    (v,),
                    out->Err_0,
                )
        }
    }

    fn run(&self, ctx: &mut Ctx) -> (out: Result<T, Tx::Err>) {
        let first: Result<Tx::Item, Tx::Err> = self.tx.run(ctx);
        match first {
            Ok(v) => {
                let e: Tx::Err = (self.f)(v);
                Err::<T, Tx::Err>(e)
            },
            Err(e) => Err::<T, Tx::Err>(e),
        }
    }
}

impl<Ctx, Tx, F, B> Transaction<Ctx> for TryAbort<Tx, F, B> where
    Tx: Transaction<Ctx>,
    F: Fn(Tx::Item) -> Result<B, Tx::Err>,
 {
    type Item = B;

    type Err = Tx::Err;

    open spec fn admits(&self, settles: Settles<'_, Ctx>, ctx: Ctx) -> bool {
        &&& self.tx.admits(settles, ctx)
        &&& forall|post: Ctx, v: Tx::Item| #[trigger]
            self.tx.yields(settles, ctx, post, Ok::<Tx::Item, Tx::Err>(v)) ==> call_requires(
                self.f,
                (v,),
            )
    }

    open spec fn yields(
        &self,
        settles: Settles<'_, Ctx>,
        pre: Ctx,
        post: Ctx,
        out: Result<B, Tx::Err>,
    ) -> bool {
        ||| out is Err && self.tx.yields(
            settles,
            pre,
            post,
            Err::<Tx::Item, Tx::Err>(out->Err_0),
        )
        ||| exists|v: Tx::Item| #[trigger]
            self.tx.yields(settles, pre, post, Ok::<Tx::Item, Tx::Err>(v)) && call_ensures(
                self.f,
                (v,),
                out,
            )
    }

    fn run(&self, ctx: &mut Ctx) -> (out: Result<B, Tx::Err>) {
        let first: Result<Tx::Item, Tx::Err> = self.tx.run(ctx);
        match first {
            Ok(v) => {
                let decided: Result<B, Tx::Err> = (self.f)(v);
                decided
            },
            Err(e) => Err::<B, Tx::Err>(e),
        }
    }
}

impl<Ctx, Tx, F, T> Transaction<Ctx> for Recover<Tx, T, F> where
    Tx: Transaction<Ctx>,
    F: Fn(Tx::Err) -> Tx::Item,
 {
    type Item = Tx::Item;

    type Err = Tx::Err;

    open spec fn admits(&self, settles: Settles<'_, Ctx>, ctx: Ctx) -> bool {
        &&& self.tx.admits(settles, ctx)
        &&& forall|post: Ctx, e: Tx::Err| #[trigger]
            self.tx.yields(settles, ctx, post, Err::<Tx::Item, Tx::Err>(e)) ==> call_requires(
                self.f,
                (e,),
            )
    }

    open spec fn yields(
        &self,
        settles: Settles<'_, Ctx>,
        pre: Ctx,
        post: Ctx,
        out: Result<Tx::Item, Tx::Err>,
    ) -> bool {
        &&& out is Ok
        &&& {
            ||| self.tx.yields(settles, pre, post, Ok::<Tx::Item, Tx::Err>(out->Ok_0))
            ||| exists|e: Tx::Err| #[trigger]
                self.tx.yields(settles, pre, post, Err::<Tx::Item, Tx::Err>(e)) && call_ensures(
                    self.f,
                    (e,),
                    out->Ok_0,
                )
        }
    }

    fn run(&self, ctx: &mut Ctx) -> (out: Result<Tx::Item, Tx::Err>) {
        let first: Result<Tx::Item, Tx::Err> = self.tx.run(ctx);
        match first {
            Ok(v) => Ok::<Tx::Item, Tx::Err>(v),
            Err(e) => {
                let v: Tx::Item = (self.f)(e);
                Ok::<Tx::Item, Tx::Err>(v)
            },
        }
    }
}

impl<Ctx, Tx, F, B> Transaction<Ctx> for TryRecover<Tx, F, B> where
    Tx: Transaction<Ctx>,
    F: Fn(Tx::Err) -> Result<Tx::Item, B>,
 {
    type Item = Tx::Item;

    type Err = B;

    open spec fn admits(&self, settles: Settles<'_, Ctx>, ctx: Ctx) -> bool {
        &&& self.tx.admits(settles, ctx)
        &&& forall|post: Ctx, e: Tx::Err| #[trigger]
            self.tx.yields(settles, ctx, post, Err::<Tx::Item, Tx::Err>(e)) ==> call_requires(
                self.f,
                (e,),
            )
    }

    open spec fn yields(
        &self,
        settles: Settles<'_, Ctx>,
        pre: Ctx,
        post: Ctx,
        out: Result<Tx::Item, B>,
    ) -> bool {
        ||| out is Ok && self.tx.yields(settles, pre, post, Ok::<Tx::Item, Tx::Err>(out->Ok_0))
        ||| exists|e: Tx::Err| #[trigger]
            self.tx.yields(settles, pre, post, Err::<Tx::Item, Tx::Err>(e)) && call_ensures(
                self.f,
                (e,),
                out,
            )
    }

    fn run(&self, ctx: &mut Ctx) -> (out: Result<Tx::Item, B>) {
        let first: Result<Tx::Item, Tx::Err> = self.tx.run(ctx);
        match first {
            Ok(v) => Ok::<Tx::Item, B>(v),
            Err(e) => {
                let decided: Result<Tx::Item, B> = (self.f)(e);
                decided
            },
        }
    }
}

} // verus!
