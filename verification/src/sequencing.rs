//! Combinators that transform a result or continue with another transaction.

use crate::contract::{Settles, Transaction};
use std::marker::PhantomData;
use vstd::prelude::*;

verus! {

/// Runs `tx`, then the transaction that `f` makes of its whole result.
#[derive(Debug)]
pub struct Then<Tx1, F, Tx2> {
    /// The transaction that runs first.
    pub tx: Tx1,
    /// The function applied to what it gives.
    pub f: F,
    /// Stands for a type of which the combinator holds no value.
    pub _phantom: PhantomData<Tx2>,
}

/// Runs `tx` and applies `f` to its success.
#[derive(Debug)]
pub struct MapOk<Tx, F> {
    /// The transaction that runs first.
    pub tx: Tx,
    /// The function applied to what it gives.
    pub f: F,
}

/// Runs `tx`, then, if it succeeded, the transaction that `f` makes of its value.
#[derive(Debug)]
pub struct AndThen<Tx1, F, Tx2> {
    /// The transaction that runs first.
    pub tx: Tx1,
    /// The function applied to what it gives.
    pub f: F,
    /// Stands for a type of which the combinator holds no value.
    pub _phantom: PhantomData<Tx2>,
}

/// Runs `tx` and applies `f` to its failure.
#[derive(Debug)]
pub struct MapErr<Tx, F> {
    /// The transaction that runs first.
    pub tx: Tx,
    /// The function applied to what it gives.
    pub f: F,
}

/// Runs `tx`, then, if it failed, the transaction that `f` makes of its error.
#[derive(Debug)]
pub struct OrElse<Tx1, F, Tx2> {
    /// The transaction that runs first.
    pub tx: Tx1,
    /// The function applied to what it gives.
    pub f: F,
    /// Stands for a type of which the combinator holds no value.
    pub _phantom: PhantomData<Tx2>,
}

impl<Ctx, Tx, U, F> Transaction<Ctx> for MapOk<Tx, F> where
    Tx: Transaction<Ctx>,
    F: Fn(Tx::Item) -> U,
 {
    type Item = U;

    type Err = Tx::Err;

    open spec fn admits(&self, settles: Settles<'_, Ctx>, ctx: Ctx) -> bool {
        &&& self.tx.admits(settles, ctx)
        &&& forall|post: Ctx, v: Tx::Item| #[trigger]
            self.tx.yields(settles, ctx, post, Ok::<Tx::Item, Tx::Err>(v)) ==> call_requires(
                self.f,
                (v,),
            )
    }

    open spec fn yields(
        &self,
        settles: Settles<'_, Ctx>,
        pre: Ctx,
        post: Ctx,
        out: Result<U, Tx::Err>,
    ) -> bool {
        match out {
            Ok(u) => exists|v: Tx::Item| #[trigger]
                self.tx.yields(settles, pre, post, Ok::<Tx::Item, Tx::Err>(v)) && call_ensures(
                    self.f,
                    (v,),
                    u,
                ),
            Err(e) => self.tx.yields(settles, pre, post, Err::<Tx::Item, Tx::Err>(e)),
        }
    }

    fn run(&self, ctx: &mut Ctx) -> (out: Result<U, Tx::Err>) {
        let first: Result<Tx::Item, Tx::Err> = self.tx.run(ctx);
        match first {
            Ok(v) => {
                let u: U = (self.f)(v);
                Ok::<U, Tx::Err>(u)
            },
            Err(e) => Err::<U, Tx::Err>(e),
        }
    }
}

impl<Ctx, Tx, Tx2, F> Transaction<Ctx> for Then<Tx, F, Tx2> where
    Tx2: Transaction<Ctx, Err = Tx::Err>,
    Tx: Transaction<Ctx>,
    F: Fn(Result<Tx::Item, Tx::Err>) -> Tx2,
 {
    type Item = Tx2::Item;

    type Err = Tx2::Err;

    open spec fn admits(&self, settles: Settles<'_, Ctx>, ctx: Ctx) -> bool {
        &&& self.tx.admits(settles, ctx)
        &&& forall|mid: Ctx, first: Result<Tx::Item, Tx::Err>| #[trigger]
            self.tx.yields(settles, ctx, mid, first) ==> {
                &&& call_requires(self.f, (first,))
                &&& forall|next: Tx2| #[trigger]
                    call_ensures(self.f, (first,), next) ==> next.admits(settles, mid)
            }
    }

    open spec fn yields(
        &self,
        settles: Settles<'_, Ctx>,
        pre: Ctx,
        post: Ctx,
        out: Result<Tx2::Item, Tx2::Err>,
    ) -> bool {
        exists|mid: Ctx, first: Result<Tx::Item, Tx::Err>, next: Tx2|
            #![trigger self.tx.yields(settles, pre, mid, first), next.yields(settles, mid, post, out)]
            {
                &&& self.tx.yields(settles, pre, mid, first)
                &&& call_ensures(self.f, (first,), next)
                &&& next.yields(settles, mid, post, out)
            }
    }

    fn run(&self, ctx: &mut Ctx) -> (out: Result<Tx2::Item, Tx2::Err>) {
        let first: Result<Tx::Item, Tx::Err> = self.tx.run(ctx);
        let next: Tx2 = (self.f)(first);
        next.run(ctx)
    }
}

impl<Ctx, Tx, Tx2, F> Transaction<Ctx> for AndThen<Tx, F, Tx2> where
    Tx2: Transaction<Ctx, Err = Tx::Err>,
    Tx: Transaction<Ctx>,
    F: Fn(Tx::Item) -> Tx2,
 {
    type Item = Tx2::Item;

    type Err = Tx2::Err;

    open spec fn admits(&self, settles: Settles<'_, Ctx>, ctx: Ctx) -> bool {
        &&& self.tx.admits(settles, ctx)
        &&& forall|mid: Ctx, v: Tx::Item| #[trigger]
            self.tx.yields(settles, ctx, mid, Ok::<Tx::Item, Tx::Err>(v)) ==> {
                &&& call_requires(self.f, (v,))
                &&& forall|next: Tx2| #[trigger]
                    call_ensures(self.f, (v,), next) ==> next.admits(settles, mid)
            }
    }

    open spec fn yields(
        &self,
        settles: Settles<'_, Ctx>,
        pre: Ctx,
        post: Ctx,
        out: Result<Tx2::Item, Tx2::Err>,
    ) -> bool {
        ||| out is Err && self.tx.yields(
            settles,
            pre,
            post,
            Err::<Tx::Item, Tx::Err>(out->Err_0),
        )
        ||| exists|mid: Ctx, v: Tx::Item, next: Tx2|
            #![trigger self.tx.yields(settles, pre, mid, Ok::<Tx::Item, Tx::Err>(v)), next.yields(settles, mid, post, out)]
            {
                &&& self.tx.yields(settles, pre, mid, Ok::<Tx::Item, Tx::Err>(v))
                &&& call_ensures(self.f, (v,), next)
                &&& next.yields(settles, mid, post, out)
            }
    }

    fn run(&self, ctx: &mut Ctx) -> (out: Result<Tx2::Item, Tx2::Err>) {
        let first: Result<Tx::Item, Tx::Err> = self.tx.run(ctx);
        match first {
            Ok(v) => {
                let next: Tx2 = (self.f)(v);
                next.run(ctx)
            },
            Err(e) => Err::<Tx2::Item, Tx2::Err>(e),
        }
    }
}

impl<Ctx, E, Tx, F> Transaction<Ctx> for MapErr<Tx, F> where
    Tx: Transaction<Ctx>,
    F: Fn(Tx::Err) -> E,
 {
    type Item = Tx::Item;

    type Err = E;

    open spec fn admits(&self, settles: Settles<'_, Ctx>, ctx: Ctx) -> bool {
        &&& self.tx.admits(settles, ctx)
        &&& forall|post: Ctx, e: Tx::Err| #[trigger]
            self.tx.yields(settles, ctx, post, Err::<Tx::Item, Tx::Err>(e)) ==> call_requires(
                self.f,
                (e,),
            )
    }

    open spec fn yields(
        &self,
        settles: Settles<'_, Ctx>,
        pre: Ctx,
        post: Ctx,
        out: Result<Tx::Item, E>,
    ) -> bool {
        match out {
            Ok(v) => self.tx.yields(settles, pre, post, Ok::<Tx::Item, Tx::Err>(v)),
            Err(d) => exists|e: Tx::Err| #[trigger]
                self.tx.yields(settles, pre, post, Err::<Tx::Item, Tx::Err>(e)) && call_ensures(
                    self.f,
                    (e,),
                    d,
                ),
        }
    }

    fn run(&self, ctx: &mut Ctx) -> (out: Result<Tx::Item, E>) {
        let first: Result<Tx::Item, Tx::Err> = self.tx.run(ctx);
        match first {
            Ok(v) => Ok::<Tx::Item, E>(v),
            Err(e) => {
                let d: E = (self.f)(e);
                Err::<Tx::Item, E>(d)
            },
        }
    }
}

impl<Ctx, Tx, Tx2, F> Transaction<Ctx> for OrElse<Tx, F, Tx2> where
    Tx2: Transaction<Ctx, Item = Tx::Item>,
    Tx: Transaction<Ctx>,
    F: Fn(Tx::Err) -> Tx2,
 {
    type Item = Tx2::Item;

    type Err = Tx2::Err;

    open spec fn admits(&self, settles: Settles<'_, Ctx>, ctx: Ctx) -> bool {
        &&& self.tx.admits(settles, ctx)
        &&& forall|mid: Ctx, e: Tx::Err| #[trigger]
            self.tx.yields(settles, ctx, mid, Err::<Tx::Item, Tx::Err>(e)) ==> {
                &&& call_requires(self.f, (e,))
                &&& forall|next: Tx2| #[trigger]
                    call_ensures(self.f, (e,), next) ==> next.admits(settles, mid)
            }
    }

    open spec fn yields(
        &self,
        settles: Settles<'_, Ctx>,
        pre: Ctx,
        post: Ctx,
        out: Result<Tx2::Item, Tx2::Err>,
    ) -> bool {
        ||| out is Ok && self.tx.yields(settles, pre, post, Ok::<Tx::Item, Tx::Err>(out->Ok_0))
        ||| exists|mid: Ctx, e: Tx::Err, next: Tx2|
            #![trigger self.tx.yields(settles, pre, mid, Err::<Tx::Item, Tx::Err>(e)), next.yields(settles, mid, post, out)]
            {
                &&& self.tx.yields(settles, pre, mid, Err::<Tx::Item, Tx::Err>(e))
                &&& call_ensures(self.f, (e,), next)
                &&& next.yields(settles, mid, post, out)
            }
    }

    fn run(&self, ctx: &mut Ctx) -> (out: Result<Tx2::Item, Tx2::Err>) {
        let first: Result<Tx::Item, Tx::Err> = self.tx.run(ctx);
        match first {
            Ok(v) => Ok::<Tx2::Item, Tx2::Err>(v),
            Err(e) => {
                let next: Tx2 = (self.f)(e);
                next.run(ctx)
            },
        }
    }
}

} // verus!
