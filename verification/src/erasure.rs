//! Transactions behind an indirection: erased handles, trait objects, boxes
//! and shared references. Each runs as what it points to.

use crate::contract::{Settles, Transaction};
use vstd::prelude::*;

verus! {

/// The contract of [`Transaction`] with the two result types as parameters,
/// which is what a trait object can carry. Every transaction has it, and the
/// trait object is a transaction in turn.
pub trait DynTransaction<Ctx, T, E> {
    /// [`Transaction::admits`] of the transaction behind the object.
    spec fn dyn_admits(&self, settles: Settles<'_, Ctx>, ctx: Ctx) -> bool;

    /// [`Transaction::yields`] of the transaction behind the object.
    spec fn dyn_yields(
        &self,
        settles: Settles<'_, Ctx>,
        pre: Ctx,
        post: Ctx,
        out: Result<T, E>,
    ) -> bool;

    /// [`Transaction::run`] of the transaction behind the object.
    fn dyn_run(&self, ctx: &mut Ctx) -> (out: Result<T, E>)
        requires
            self.dyn_admits(|cell: &mut Ctx, last: Ctx| *final(cell) == last, *old(ctx)),
        ensures
            self.dyn_yields(
                |cell: &mut Ctx, last: Ctx| *final(cell) == last,
                *old(ctx),
                *final(ctx),
                out,
            ),
    ;
}

impl<Ctx, Tx> DynTransaction<Ctx, Tx::Item, Tx::Err> for Tx where Tx: Transaction<Ctx> {
    open spec fn dyn_admits(&self, settles: Settles<'_, Ctx>, ctx: Ctx) -> bool {
        self.admits(settles, ctx)
    }

    open spec fn dyn_yields(
        &self,
        settles: Settles<'_, Ctx>,
        pre: Ctx,
        post: Ctx,
        out: Result<Tx::Item, Tx::Err>,
    ) -> bool {
        self.yields(settles, pre, post, out)
    }

    fn dyn_run(&self, ctx: &mut Ctx) -> (out: Result<Tx::Item, Tx::Err>) {
        self.run(ctx)
    }
}

impl<'a, Ctx, T, E> Transaction<Ctx> for dyn DynTransaction<Ctx, T, E> + 'a {
    type Item = T;

    type Err = E;

    open spec fn admits(&self, settles: Settles<'_, Ctx>, ctx: Ctx) -> bool {
        self.dyn_admits(settles, ctx)
    }

    open spec fn yields(&self, settles: Settles<'_, Ctx>, pre: Ctx, post: Ctx, out: Result<T, E>) -> bool {
        self.dyn_yields(settles, pre, post, out)
    }

    fn run(&self, ctx: &mut Ctx) -> (out: Result<T, E>) {
        self.dyn_run(ctx)
    }
}

/// A transaction whose concrete type has been forgotten. Handles of
/// differently built transactions have one type, as long as the context and
/// the two result types agree; `'a` bounds what the transaction borrows.
#[verifier::reject_recursive_types(Ctx)]
#[verifier::reject_recursive_types(T)]
#[verifier::reject_recursive_types(E)]
pub struct Boxed<'a, Ctx, T, E> {
    /// The transaction, behind its trait object.
    pub handle: Box<dyn DynTransaction<Ctx, T, E> + 'a>,
}

impl<'a, Ctx, T, E> Transaction<Ctx> for Boxed<'a, Ctx, T, E> {
    type Item = T;

    type Err = E;

    open spec fn admits(&self, settles: Settles<'_, Ctx>, ctx: Ctx) -> bool {
        self.handle.dyn_admits(settles, ctx)
    }

    open spec fn yields(&self, settles: Settles<'_, Ctx>, pre: Ctx, post: Ctx, out: Result<T, E>) -> bool {
        self.handle.dyn_yields(settles, pre, post, out)
    }

    fn run(&self, ctx: &mut Ctx) -> (out: Result<T, E>) {
        self.handle.dyn_run(ctx)
    }
}

/// Erasure, for every transaction.
pub trait Erase<Ctx>: Transaction<Ctx> + Sized {
    /// Forgets the concrete type. The handle admits what `self` admits and
    /// yields what `self` yields: it runs exactly as `self` does.
    fn boxed<'a>(self) -> (handle: Boxed<'a, Ctx, Self::Item, Self::Err>) where Self: 'a
        ensures
            forall|settles: Settles<'_, Ctx>, ctx: Ctx| #[trigger]
                handle.admits(settles, ctx) == self.admits(settles, ctx),
            forall|
                settles: Settles<'_, Ctx>,
                pre: Ctx,
                post: Ctx,
                out: Result<Self::Item, Self::Err>,
            | #[trigger]
                handle.yields(settles, pre, post, out) == self.yields(settles, pre, post, out),
    ;
}

impl<Ctx, Tx> Erase<Ctx> for Tx where Tx: Transaction<Ctx> {
    fn boxed<'a>(self) -> (handle: Boxed<'a, Ctx, Tx::Item, Tx::Err>) where Self: 'a {
        Boxed { handle: Box::new(self) }
    }
}

impl<T, Ctx> Transaction<Ctx> for Box<T> where T: ?Sized + Transaction<Ctx> {
    type Item = T::Item;

    type Err = T::Err;

    open spec fn admits(&self, settles: Settles<'_, Ctx>, ctx: Ctx) -> bool {
        (**self).admits(settles, ctx)
    }

    open spec fn yields(
        &self,
        settles: Settles<'_, Ctx>,
        pre: Ctx,
        post: Ctx,
        out: Result<T::Item, T::Err>,
    ) -> bool {
        (**self).yields(settles, pre, post, out)
    }

    fn run(&self, ctx: &mut Ctx) -> (out: Result<T::Item, T::Err>) {
        (**self).run(ctx)
    }
}

impl<'a, T, Ctx> Transaction<Ctx> for &'a T where T: ?Sized + Transaction<Ctx> {
    type Item = T::Item;

    type Err = T::Err;

    open spec fn admits(&self, settles: Settles<'_, Ctx>, ctx: Ctx) -> bool {
        (**self).admits(settles, ctx)
    }

    open spec fn yields(
        &self,
        settles: Settles<'_, Ctx>,
        pre: Ctx,
        post: Ctx,
        out: Result<T::Item, T::Err>,
    ) -> bool {
        (**self).yields(settles, pre, post, out)
    }

    fn run(&self, ctx: &mut Ctx) -> (out: Result<T::Item, T::Err>) {
        (**self).run(ctx)
    }
}

} // verus!
