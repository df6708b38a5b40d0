//! Combinators that run several transactions one after another and pair up
//! what they give.
//!
//! Every child runs, from the first to the last, whether or not an earlier one
//! failed, and each starts in the context that the one before left. The
//! children's results are then combined: the first failure in the order of the
//! children, or else the tuple of all values.

use crate::contract::{Settles, Transaction};
use vstd::prelude::*;

verus! {

/// Runs two transactions in turn.
#[derive(Debug)]
pub struct Join<Tx1, Tx2> {
    /// The child that runs first.
    pub tx1: Tx1,
    /// The child that runs second.
    pub tx2: Tx2,
}

/// Runs three transactions in turn.
#[derive(Debug)]
pub struct Join3<Tx1, Tx2, Tx3> {
    /// The child that runs first.
    pub tx1: Tx1,
    /// The child that runs second.
    pub tx2: Tx2,
    /// The child that runs third.
    pub tx3: Tx3,
}

/// Runs four transactions in turn.
#[derive(Debug)]
pub struct Join4<Tx1, Tx2, Tx3, Tx4> {
    /// The child that runs first.
    pub tx1: Tx1,
    /// The child that runs second.
    pub tx2: Tx2,
    /// The child that runs third.
    pub tx3: Tx3,
    /// The child that runs fourth.
    pub tx4: Tx4,
}

/// What two results combine to: the first failure, or both values.
pub open spec fn joined<A, B, E>(a: Result<A, E>, b: Result<B, E>) -> Result<(A, B), E> {
    match (a, b) {
        (Err(e), _) => Err(e),
        (Ok(_), Err(e)) => Err(e),
        (Ok(x), Ok(y)) => Ok((x, y)),
    }
}

/// What three results combine to: the first failure, or all three values.
pub open spec fn joined3<A, B, C, E>(a: Result<A, E>, b: Result<B, E>, c: Result<C, E>) -> Result<
    (A, B, C),
    E,
> {
    match (a, b, c) {
        (Err(e), _, _) => Err(e),
        (Ok(_), Err(e), _) => Err(e),
        (Ok(_), Ok(_), Err(e)) => Err(e),
        (Ok(x), Ok(y), Ok(z)) => Ok((x, y, z)),
    }
}

/// What four results combine to: the first failure, or all four values.
pub open spec fn joined4<A, B, C, D, E>(
    a: Result<A, E>,
    b: Result<B, E>,
    c: Result<C, E>,
    d: Result<D, E>,
) -> Result<(A, B, C, D), E> {
    match (a, b, c, d) {
        (Err(e), _, _, _) => Err(e),
        (Ok(_), Err(e), _, _) => Err(e),
        (Ok(_), Ok(_), Err(e), _) => Err(e),
        (Ok(_), Ok(_), Ok(_), Err(e)) => Err(e),
        (Ok(x), Ok(y), Ok(z), Ok(w)) => Ok((x, y, z, w)),
    }
}

impl<Ctx, Tx1, Tx2> Transaction<Ctx> for Join<Tx1, Tx2> where
    Tx1: Transaction<Ctx>,
    Tx2: Transaction<Ctx, Err = Tx1::Err>,
 {
    type Item = (Tx1::Item, Tx2::Item);

    type Err = Tx1::Err;

    open spec fn admits(&self, settles: Settles<'_, Ctx>, ctx: Ctx) -> bool {
        &&& self.tx1.admits(settles, ctx)
        &&& forall|c1: Ctx, a: Result<Tx1::Item, Tx1::Err>| #[trigger]
            self.tx1.yields(settles, ctx, c1, a) ==> self.tx2.admits(settles, c1)
    }

    open spec fn yields(
        &self,
        settles: Settles<'_, Ctx>,
        pre: Ctx,
        post: Ctx,
        out: Result<(Tx1::Item, Tx2::Item), Tx1::Err>,
    ) -> bool {
        exists|c1: Ctx, a: Result<Tx1::Item, Tx1::Err>, b: Result<Tx2::Item, Tx1::Err>|
            #![trigger self.tx1.yields(settles, pre, c1, a), self.tx2.yields(settles, c1, post, b)]
            {
                &&& self.tx1.yields(settles, pre, c1, a)
                &&& self.tx2.yields(settles, c1, post, b)
                &&& out == joined(a, b)
            }
    }

    fn run(&self, ctx: &mut Ctx) -> (out: Result<(Tx1::Item, Tx2::Item), Tx1::Err>) {
        let a: Result<Tx1::Item, Tx1::Err> = self.tx1.run(ctx);
        let b: Result<Tx2::Item, Tx1::Err> = self.tx2.run(ctx);
        match (a, b) {
            (Err(e), _) => Err::<(Tx1::Item, Tx2::Item), Tx1::Err>(e),
            (Ok(_), Err(e)) => Err::<(Tx1::Item, Tx2::Item), Tx1::Err>(e),
            (Ok(x), Ok(y)) => Ok::<(Tx1::Item, Tx2::Item), Tx1::Err>((x, y)),
        }
    }
}

impl<Ctx, Tx1, Tx2, Tx3> Transaction<Ctx> for Join3<Tx1, Tx2, Tx3> where
    Tx1: Transaction<Ctx>,
    Tx2: Transaction<Ctx, Err = Tx1::Err>,
    Tx3: Transaction<Ctx, Err = Tx1::Err>,
 {
    type Item = (Tx1::Item, Tx2::Item, Tx3::Item);

    type Err = Tx1::Err;

    open spec fn admits(&self, settles: Settles<'_, Ctx>, ctx: Ctx) -> bool {
        &&& self.tx1.admits(settles, ctx)
        &&& forall|c1: Ctx, a: Result<Tx1::Item, Tx1::Err>| #[trigger]
            self.tx1.yields(settles, ctx, c1, a) ==> {
                &&& self.tx2.admits(settles, c1)
                &&& forall|c2: Ctx, b: Result<Tx2::Item, Tx1::Err>| #[trigger]
                    self.tx2.yields(settles, c1, c2, b) ==> self.tx3.admits(settles, c2)
            }
    }

    open spec fn yields(
        &self,
        settles: Settles<'_, Ctx>,
        pre: Ctx,
        post: Ctx,
        out: Result<(Tx1::Item, Tx2::Item, Tx3::Item), Tx1::Err>,
    ) -> bool {
        exists|
            c1: Ctx,
            c2: Ctx,
            a: Result<Tx1::Item, Tx1::Err>,
            b: Result<Tx2::Item, Tx1::Err>,
            c: Result<Tx3::Item, Tx1::Err>,
        |
            #![trigger self.tx1.yields(settles, pre, c1, a), self.tx2.yields(settles, c1, c2, b), self.tx3.yields(settles, c2, post, c)]
            {
                &&& self.tx1.yields(settles, pre, c1, a)
                &&& self.tx2.yields(settles, c1, c2, b)
                &&& self.tx3.yields(settles, c2, post, c)
                &&& out == joined3(a, b, c)
            }
    }

    fn run(&self, ctx: &mut Ctx) -> (out: Result<(Tx1::Item, Tx2::Item, Tx3::Item), Tx1::Err>) {
        let a: Result<Tx1::Item, Tx1::Err> = self.tx1.run(ctx);
        let b: Result<Tx2::Item, Tx1::Err> = self.tx2.run(ctx);
        let c: Result<Tx3::Item, Tx1::Err> = self.tx3.run(ctx);
        match (a, b, c) {
            (Err(e), _, _) => Err::<(Tx1::Item, Tx2::Item, Tx3::Item), Tx1::Err>(e),
            (Ok(_), Err(e), _) => Err::<(Tx1::Item, Tx2::Item, Tx3::Item), Tx1::Err>(e),
            (Ok(_), Ok(_), Err(e)) => Err::<(Tx1::Item, Tx2::Item, Tx3::Item), Tx1::Err>(e),
            (Ok(x), Ok(y), Ok(z)) => Ok::<(Tx1::Item, Tx2::Item, Tx3::Item), Tx1::Err>(
                (x, y, z),
            ),
        }
    }
}

impl<Ctx, Tx1, Tx2, Tx3, Tx4> Transaction<Ctx> for Join4<Tx1, Tx2, Tx3, Tx4> where
    Tx1: Transaction<Ctx>,
    Tx2: Transaction<Ctx, Err = Tx1::Err>,
    Tx3: Transaction<Ctx, Err = Tx1::Err>,
    Tx4: Transaction<Ctx, Err = Tx1::Err>,
 {
    type Item = (Tx1::Item, Tx2::Item, Tx3::Item, Tx4::Item);

    type Err = Tx1::Err;

    open spec fn admits(&self, settles: Settles<'_, Ctx>, ctx: Ctx) -> bool {
        &&& self.tx1.admits(settles, ctx)
        &&& forall|c1: Ctx, a: Result<Tx1::Item, Tx1::Err>| #[trigger]
            self.tx1.yields(settles, ctx, c1, a) ==> {
                &&& self.tx2.admits(settles, c1)
                &&& forall|c2: Ctx, b: Result<Tx2::Item, Tx1::Err>| #[trigger]
                    self.tx2.yields(settles, c1, c2, b) ==> {
                        &&& self.tx3.admits(settles, c2)
                        &&& forall|c3: Ctx, c: Result<Tx3::Item, Tx1::Err>| #[trigger]
                            self.tx3.yields(settles, c2, c3, c) ==> self.tx4.admits(settles, c3)
                    }
            }
    }

    open spec fn yields(
        &self,
        settles: Settles<'_, Ctx>,
        pre: Ctx,
        post: Ctx,
        out: Result<(Tx1::Item, Tx2::Item, Tx3::Item, Tx4::Item), Tx1::Err>,
    ) -> bool {
        exists|
            c1: Ctx,
            c2: Ctx,
            c3: Ctx,
            a: Result<Tx1::Item, Tx1::Err>,
            b: Result<Tx2::Item, Tx1::Err>,
            c: Result<Tx3::Item, Tx1::Err>,
            d: Result<Tx4::Item, Tx1::Err>,
        |
            #![trigger self.tx1.yields(settles, pre, c1, a), self.tx2.yields(settles, c1, c2, b), self.tx3.yields(settles, c2, c3, c), self.tx4.yields(settles, c3, post, d)]
            {
                &&& self.tx1.yields(settles, pre, c1, a)
                &&& self.tx2.yields(settles, c1, c2, b)
                &&& self.tx3.yields(settles, c2, c3, c)
                &&& self.tx4.yields(settles, c3, post, d)
                &&& out == joined4(a, b, c, d)
            }
    }

    fn run(&self, ctx: &mut Ctx) -> (out: Result<
        (Tx1::Item, Tx2::Item, Tx3::Item, Tx4::Item),
        Tx1::Err,
    >) {
        let a: Result<Tx1::Item, Tx1::Err> = self.tx1.run(ctx);
        let b: Result<Tx2::Item, Tx1::Err> = self.tx2.run(ctx);
        let c: Result<Tx3::Item, Tx1::Err> = self.tx3.run(ctx);
        let d: Result<Tx4::Item, Tx1::Err> = self.tx4.run(ctx);
        match (a, b, c, d) {
            (Err(e), _, _, _) => Err::<(Tx1::Item, Tx2::Item, Tx3::Item, Tx4::Item), Tx1::Err>(e),
            (Ok(_), Err(e), _, _) => Err::<(Tx1::Item, Tx2::Item, Tx3::Item, Tx4::Item), Tx1::Err>(
                e,
            ),
            (Ok(_), Ok(_), Err(e), _) => Err::<
                (Tx1::Item, Tx2::Item, Tx3::Item, Tx4::Item),
                Tx1::Err,
            >(e),
            (Ok(_), Ok(_), Ok(_), Err(e)) => Err::<
                (Tx1::Item, Tx2::Item, Tx3::Item, Tx4::Item),
                Tx1::Err,
            >(e),
            (Ok(x), Ok(y), Ok(z), Ok(w)) => Ok::<
                (Tx1::Item, Tx2::Item, Tx3::Item, Tx4::Item),
                Tx1::Err,
            >((x, y, z, w)),
        }
    }
}

} // verus!
