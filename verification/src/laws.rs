//! Laws of the algebra: what compositions of transactions amount to.
//!
//! Each law is a proof about the two relations of [`Transaction`], and holds
//! however borrowed contexts settle. A law about `ok(v).and_then(f)` takes the
//! composed transaction as its argument: `v` and `f` are its fields.

use crate::contract::{Settles, Transaction};
use crate::joining::Join;
use crate::leaves::{TxErr, TxOk};
use crate::sequencing::{AndThen, MapOk, OrElse};
use crate::transmuting::{Abort, Recover};
use std::marker::PhantomData;
use vstd::prelude::*;

verus! {

/// True if `a` and `b` cannot be told apart by running them: they may be
/// started in the same contexts, and from each of these they may end in the
/// same contexts with the same results.
pub open spec fn same_behaviour<Ctx, A, B>(a: A, b: B, settles: Settles<'_, Ctx>) -> bool where
    A: Transaction<Ctx>,
    B: Transaction<Ctx, Item = A::Item, Err = A::Err>,
 {
    &&& forall|ctx: Ctx|
        #![trigger a.admits(settles, ctx)]
        #![trigger b.admits(settles, ctx)]
        a.admits(settles, ctx) == b.admits(settles, ctx)
    &&& forall|pre: Ctx, post: Ctx, out: Result<A::Item, A::Err>|
        #![trigger a.yields(settles, pre, post, out)]
        #![trigger b.yields(settles, pre, post, out)]
        a.yields(settles, pre, post, out) == b.yields(settles, pre, post, out)
}

/// True if `f` is the identity: it accepts every value and gives it back.
pub open spec fn is_identity<T, F: Fn(T) -> T>(f: F) -> bool {
    &&& forall|v: T| #[trigger] call_requires(f, (v,))
    &&& forall|v: T, w: T| #[trigger] call_ensures(f, (v,), w) <==> w == v
}

/// True if `f` is `ok`: it accepts every value and gives the fixed success
/// that holds it.
pub open spec fn wraps_in_ok<T, E, F: Fn(T) -> TxOk<T, E>>(f: F) -> bool {
    &&& forall|v: T| #[trigger] call_requires(f, (v,))
    &&& forall|v: T, tx: TxOk<T, E>| #[trigger] call_ensures(f, (v,), tx) <==> tx.ok == v
}

/// True if `h` is `|v| f(v).and_then(g)`: it accepts what `f` accepts, and
/// gives the sequences of what `f` gives with `g`.
pub open spec fn is_sequence_of<T, Tx2, Tx3, F, G, H>(h: H, f: F, g: G) -> bool where
    F: Fn(T) -> Tx2,
    H: Fn(T) -> AndThen<Tx2, G, Tx3>,
 {
    &&& forall|v: T| #[trigger] call_requires(h, (v,)) == call_requires(f, (v,))
    &&& forall|v: T, seq: AndThen<Tx2, G, Tx3>| #[trigger]
        call_ensures(h, (v,), seq) <==> call_ensures(f, (v,), seq.tx) && seq.f == g
}

/// True if a clone of a `T` is always the value that was cloned.
pub open spec fn clones_exactly<T: Clone>() -> bool {
    forall|v: T, w: T| #[trigger] cloned(v, w) ==> w == v
}

/// Mapping with the identity changes nothing: `tx.map(f)` behaves as `tx`,
/// where it succeeds and where it fails.
pub proof fn map_identity<Ctx, Tx, F>(mapped: MapOk<Tx, F>, settles: Settles<'_, Ctx>) where
    Tx: Transaction<Ctx>,
    F: Fn(Tx::Item) -> Tx::Item,

    requires
        is_identity(mapped.f),
    ensures
        same_behaviour(mapped, mapped.tx, settles),
{
    let tx = mapped.tx;
    assert forall|pre: Ctx, post: Ctx, out: Result<Tx::Item, Tx::Err>|
        mapped.yields(settles, pre, post, out) == tx.yields(settles, pre, post, out) by {
        if out is Ok && tx.yields(settles, pre, post, out) {
            assert(tx.yields(settles, pre, post, Ok::<Tx::Item, Tx::Err>(out->Ok_0)));
        }
    }
}

/// Left identity: `ok(v).and_then(f)` behaves as what `f` makes of `v`. As
/// the leaf hands out clones, `f` is called on a clone `w` of `v`: the whole
/// may be started where `f` accepts each `w` and what it makes may be started,
/// and it yields what some transaction made by `f` of some `w` yields.
pub proof fn and_then_left_identity<Ctx, T, E, F, Tx2>(
    composed: AndThen<TxOk<T, E>, F, Tx2>,
    settles: Settles<'_, Ctx>,
) where T: Clone, Tx2: Transaction<Ctx, Err = E>, F: Fn(T) -> Tx2
    ensures
        forall|ctx: Ctx| #[trigger]
            composed.admits(settles, ctx) <==> (forall|w: T| #[trigger]
                cloned(composed.tx.ok, w) ==> {
                    &&& call_requires(composed.f, (w,))
                    &&& forall|next: Tx2| #[trigger]
                        call_ensures(composed.f, (w,), next) ==> next.admits(settles, ctx)
                }),
        forall|pre: Ctx, post: Ctx, out: Result<Tx2::Item, E>| #[trigger]
            composed.yields(settles, pre, post, out) <==> (exists|w: T, next: Tx2|
                #![trigger call_ensures(composed.f, (w,), next)]
                {
                    &&& cloned(composed.tx.ok, w)
                    &&& call_ensures(composed.f, (w,), next)
                    &&& next.yields(settles, pre, post, out)
                }),
{
    let v = composed.tx.ok;
    let f = composed.f;
    assert forall|ctx: Ctx| #[trigger]
        composed.admits(settles, ctx) <==> (forall|w: T| #[trigger]
            cloned(v, w) ==> {
                &&& call_requires(f, (w,))
                &&& forall|next: Tx2| #[trigger]
                    call_ensures(f, (w,), next) ==> next.admits(settles, ctx)
            }) by {
        if composed.admits(settles, ctx) {
            assert forall|w: T| #[trigger] cloned(v, w) implies {
                &&& call_requires(f, (w,))
                &&& forall|next: Tx2| #[trigger]
                    call_ensures(f, (w,), next) ==> next.admits(settles, ctx)
            } by {
                assert(composed.tx.yields(settles, ctx, ctx, Ok::<T, E>(w)));
            }
        }
    }
    assert forall|pre: Ctx, post: Ctx, out: Result<Tx2::Item, E>| #[trigger]
        composed.yields(settles, pre, post, out) <==> (exists|w: T, next: Tx2|
            #![trigger call_ensures(f, (w,), next)]
            {
                &&& cloned(v, w)
                &&& call_ensures(f, (w,), next)
                &&& next.yields(settles, pre, post, out)
            }) by {
        if exists|w: T, next: Tx2|
            #![trigger call_ensures(f, (w,), next)]
            cloned(v, w) && call_ensures(f, (w,), next) && next.yields(settles, pre, post, out) {
            let (w, next) = choose|w: T, next: Tx2|
                #![trigger call_ensures(f, (w,), next)]
                cloned(v, w) && call_ensures(f, (w,), next) && next.yields(
                    settles,
                    pre,
                    post,
                    out,
                );
            assert(composed.tx.yields(settles, pre, pre, Ok::<T, E>(w)));
        }
    }
}

/// Right identity: `tx.and_then(f)` behaves as `tx` where `f` is `ok`,
/// provided that a clone of a value of `tx` is that value.
pub proof fn and_then_right_identity<Ctx, Tx, F>(
    composed: AndThen<Tx, F, TxOk<Tx::Item, Tx::Err>>,
    settles: Settles<'_, Ctx>,
) where Tx: Transaction<Ctx>, Tx::Item: Clone, F: Fn(Tx::Item) -> TxOk<Tx::Item, Tx::Err>
    requires
        wraps_in_ok(composed.f),
        clones_exactly::<Tx::Item>(),
    ensures
        same_behaviour(composed, composed.tx, settles),
{
    let tx = composed.tx;
    let f = composed.f;
    assert forall|pre: Ctx, post: Ctx, out: Result<Tx::Item, Tx::Err>|
        composed.yields(settles, pre, post, out) == tx.yields(settles, pre, post, out) by {
        if tx.yields(settles, pre, post, out) && out is Ok {
            let v = out->Ok_0;
            let next = TxOk::<Tx::Item, Tx::Err> { ok: v, _phantom: PhantomData };
            assert(next.yields(settles, post, post, out));
        }
        if composed.yields(settles, pre, post, out) && !(out is Err && tx.yields(
            settles,
            pre,
            post,
            Err::<Tx::Item, Tx::Err>(out->Err_0),
        )) {
            let (mid, v, next) = choose|mid: Ctx, v: Tx::Item, next: TxOk<Tx::Item, Tx::Err>|
                #![trigger tx.yields(settles, pre, mid, Ok::<Tx::Item, Tx::Err>(v)), next.yields(settles, mid, post, out)]
                {
                    &&& tx.yields(settles, pre, mid, Ok::<Tx::Item, Tx::Err>(v))
                    &&& call_ensures(f, (v,), next)
                    &&& next.yields(settles, mid, post, out)
                };
            assert(next.ok == v && mid == post);
        }
    }
}

/// Associativity: `tx.and_then(f).and_then(g)` behaves as `tx.and_then(h)`
/// where `h` is `|v| f(v).and_then(g)`.
pub proof fn and_then_associative<Ctx, Tx, Tx2, Tx3, F, G, H>(
    left: AndThen<AndThen<Tx, F, Tx2>, G, Tx3>,
    right: AndThen<Tx, H, AndThen<Tx2, G, Tx3>>,
    settles: Settles<'_, Ctx>,
) where
    Tx: Transaction<Ctx>,
    Tx2: Transaction<Ctx, Err = Tx::Err>,
    Tx3: Transaction<Ctx, Err = Tx::Err>,
    F: Fn(Tx::Item) -> Tx2,
    G: Fn(Tx2::Item) -> Tx3,
    H: Fn(Tx::Item) -> AndThen<Tx2, G, Tx3>,

    requires
        right.tx == left.tx.tx,
        is_sequence_of(right.f, left.tx.f, left.f),
    ensures
        same_behaviour(left, right, settles),
{
    assert forall|ctx: Ctx| left.admits(settles, ctx) == right.admits(settles, ctx) by {
        and_then_associative_admits(left, right, settles, ctx);
    }
    assert forall|pre: Ctx, post: Ctx, out: Result<Tx3::Item, Tx3::Err>|
        left.yields(settles, pre, post, out) == right.yields(settles, pre, post, out) by {
        and_then_associative_yields(left, right, settles, pre, post, out);
    }
}

proof fn and_then_associative_admits<Ctx, Tx, Tx2, Tx3, F, G, H>(
    left: AndThen<AndThen<Tx, F, Tx2>, G, Tx3>,
    right: AndThen<Tx, H, AndThen<Tx2, G, Tx3>>,
    settles: Settles<'_, Ctx>,
    ctx: Ctx,
) where
    Tx: Transaction<Ctx>,
    Tx2: Transaction<Ctx, Err = Tx::Err>,
    Tx3: Transaction<Ctx, Err = Tx::Err>,
    F: Fn(Tx::Item) -> Tx2,
    G: Fn(Tx2::Item) -> Tx3,
    H: Fn(Tx::Item) -> AndThen<Tx2, G, Tx3>,

    requires
        right.tx == left.tx.tx,
        is_sequence_of(right.f, left.tx.f, left.f),
    ensures
        left.admits(settles, ctx) == right.admits(settles, ctx),
{
    let tx = right.tx;
    let inner = left.tx;
    let f = inner.f;
    let g = left.f;
    let h = right.f;
    if left.admits(settles, ctx) {
        assert forall|c1: Ctx, v: Tx::Item| #[trigger]
            tx.yields(settles, ctx, c1, Ok::<Tx::Item, Tx::Err>(v)) implies {
            &&& call_requires(h, (v,))
            &&& forall|seq: AndThen<Tx2, G, Tx3>| #[trigger]
                call_ensures(h, (v,), seq) ==> seq.admits(settles, c1)
        } by {
            assert forall|seq: AndThen<Tx2, G, Tx3>| #[trigger]
                call_ensures(h, (v,), seq) implies seq.admits(settles, c1) by {
                assert forall|c2: Ctx, w: Tx2::Item| #[trigger]
                    seq.tx.yields(settles, c1, c2, Ok::<Tx2::Item, Tx::Err>(w)) implies {
                    &&& call_requires(seq.f, (w,))
                    &&& forall|last: Tx3| #[trigger]
                        call_ensures(seq.f, (w,), last) ==> last.admits(settles, c2)
                } by {
                    assert(inner.yields(settles, ctx, c2, Ok::<Tx2::Item, Tx::Err>(w)));
                }
            }
        }
    }
    if right.admits(settles, ctx) {
        assert forall|c1: Ctx, v: Tx::Item| #[trigger]
            tx.yields(settles, ctx, c1, Ok::<Tx::Item, Tx::Err>(v)) implies {
            &&& call_requires(f, (v,))
            &&& forall|next: Tx2| #[trigger]
                call_ensures(f, (v,), next) ==> next.admits(settles, c1)
        } by {
            assert forall|next: Tx2| #[trigger] call_ensures(f, (v,), next) implies next.admits(
                settles,
                c1,
            ) by {
                let seq = AndThen::<Tx2, G, Tx3> {
                    tx: next,
                    f: g,
                    _phantom: PhantomData,
                };
                assert(call_ensures(h, (v,), seq));
            }
        }
        assert forall|c2: Ctx, w: Tx2::Item| #[trigger]
            inner.yields(settles, ctx, c2, Ok::<Tx2::Item, Tx::Err>(w)) implies {
            &&& call_requires(g, (w,))
            &&& forall|last: Tx3| #[trigger]
                call_ensures(g, (w,), last) ==> last.admits(settles, c2)
        } by {
            let (c1, v, next) = choose|c1: Ctx, v: Tx::Item, next: Tx2|
                #![trigger tx.yields(settles, ctx, c1, Ok::<Tx::Item, Tx::Err>(v)), next.yields(settles, c1, c2, Ok::<Tx2::Item, Tx::Err>(w))]
                {
                    &&& tx.yields(settles, ctx, c1, Ok::<Tx::Item, Tx::Err>(v))
                    &&& call_ensures(f, (v,), next)
                    &&& next.yields(settles, c1, c2, Ok::<Tx2::Item, Tx::Err>(w))
                };
            let seq = AndThen::<Tx2, G, Tx3> {
                tx: next,
                f: g,
                _phantom: PhantomData,
            };
            assert(call_ensures(h, (v,), seq));
        }
    }
}

proof fn and_then_associative_yields<Ctx, Tx, Tx2, Tx3, F, G, H>(
    left: AndThen<AndThen<Tx, F, Tx2>, G, Tx3>,
    right: AndThen<Tx, H, AndThen<Tx2, G, Tx3>>,
    settles: Settles<'_, Ctx>,
    pre: Ctx,
    post: Ctx,
    out: Result<Tx3::Item, Tx3::Err>,
) where
    Tx: Transaction<Ctx>,
    Tx2: Transaction<Ctx, Err = Tx::Err>,
    Tx3: Transaction<Ctx, Err = Tx::Err>,
    F: Fn(Tx::Item) -> Tx2,
    G: Fn(Tx2::Item) -> Tx3,
    H: Fn(Tx::Item) -> AndThen<Tx2, G, Tx3>,

    requires
        right.tx == left.tx.tx,
        is_sequence_of(right.f, left.tx.f, left.f),
    ensures
        left.yields(settles, pre, post, out) == right.yields(settles, pre, post, out),
{
    let tx = right.tx;
    let inner = left.tx;
    let f = inner.f;
    let g = left.f;
    let h = right.f;
    if left.yields(settles, pre, post, out) {
        if out is Err && inner.yields(
            settles,
            pre,
            post,
            Err::<Tx2::Item, Tx::Err>(out->Err_0),
        ) {
            let failed = Err::<Tx2::Item, Tx::Err>(out->Err_0);
            if !tx.yields(settles, pre, post, Err::<Tx::Item, Tx::Err>(out->Err_0)) {
                let (c1, v, next) = choose|c1: Ctx, v: Tx::Item, next: Tx2|
                    #![trigger tx.yields(settles, pre, c1, Ok::<Tx::Item, Tx::Err>(v)), next.yields(settles, c1, post, failed)]
                    {
                        &&& tx.yields(settles, pre, c1, Ok::<Tx::Item, Tx::Err>(v))
                        &&& call_ensures(f, (v,), next)
                        &&& next.yields(settles, c1, post, failed)
                    };
                let seq = AndThen::<Tx2, G, Tx3> {
                    tx: next,
                    f: g,
                    _phantom: PhantomData,
                };
                assert(seq.yields(settles, c1, post, out));
            }
        } else {
            let (c2, w, last) = choose|c2: Ctx, w: Tx2::Item, last: Tx3|
                #![trigger inner.yields(settles, pre, c2, Ok::<Tx2::Item, Tx::Err>(w)), last.yields(settles, c2, post, out)]
                {
                    &&& inner.yields(settles, pre, c2, Ok::<Tx2::Item, Tx::Err>(w))
                    &&& call_ensures(g, (w,), last)
                    &&& last.yields(settles, c2, post, out)
                };
            let reached = Ok::<Tx2::Item, Tx::Err>(w);
            let (c1, v, next) = choose|c1: Ctx, v: Tx::Item, next: Tx2|
                #![trigger tx.yields(settles, pre, c1, Ok::<Tx::Item, Tx::Err>(v)), next.yields(settles, c1, c2, reached)]
                {
                    &&& tx.yields(settles, pre, c1, Ok::<Tx::Item, Tx::Err>(v))
                    &&& call_ensures(f, (v,), next)
                    &&& next.yields(settles, c1, c2, reached)
                };
            let seq = AndThen::<Tx2, G, Tx3> {
                tx: next,
                f: g,
                _phantom: PhantomData,
            };
            assert(seq.tx.yields(settles, c1, c2, Ok::<Tx2::Item, Tx::Err>(w)));
            assert(seq.yields(settles, c1, post, out));
        }
    }
    if right.yields(settles, pre, post, out) {
        if !(out is Err && tx.yields(settles, pre, post, Err::<Tx::Item, Tx::Err>(out->Err_0))) {
            let (c1, v, seq) = choose|c1: Ctx, v: Tx::Item, seq: AndThen<Tx2, G, Tx3>|
                #![trigger tx.yields(settles, pre, c1, Ok::<Tx::Item, Tx::Err>(v)), seq.yields(settles, c1, post, out)]
                {
                    &&& tx.yields(settles, pre, c1, Ok::<Tx::Item, Tx::Err>(v))
                    &&& call_ensures(h, (v,), seq)
                    &&& seq.yields(settles, c1, post, out)
                };
            if !(out is Err && seq.tx.yields(
                settles,
                c1,
                post,
                Err::<Tx2::Item, Tx::Err>(out->Err_0),
            )) {
                let (c2, w, last) = choose|c2: Ctx, w: Tx2::Item, last: Tx3|
                    #![trigger seq.tx.yields(settles, c1, c2, Ok::<Tx2::Item, Tx::Err>(w)), last.yields(settles, c2, post, out)]
                    {
                        &&& seq.tx.yields(settles, c1, c2, Ok::<Tx2::Item, Tx::Err>(w))
                        &&& call_ensures(seq.f, (w,), last)
                        &&& last.yields(settles, c2, post, out)
                    };
                assert(inner.yields(settles, pre, c2, Ok::<Tx2::Item, Tx::Err>(w)));
            }
        }
    }
}

/// A failure ends a sequence: `err(e).and_then(f)` may be started in every
/// context, whatever `f` requires, and fails as `err(e)` does, with a clone of
/// `e` and the context as it was. `f` has no part in it.
pub proof fn and_then_short_circuits<Ctx, T, E, F, Tx2>(
    composed: AndThen<TxErr<T, E>, F, Tx2>,
    settles: Settles<'_, Ctx>,
) where E: Clone, Tx2: Transaction<Ctx, Err = E>, F: Fn(T) -> Tx2
    ensures
        forall|ctx: Ctx| #[trigger] composed.admits(settles, ctx),
        forall|pre: Ctx, post: Ctx, out: Result<Tx2::Item, E>| #[trigger]
            composed.yields(settles, pre, post, out) <==> {
                &&& post == pre
                &&& out is Err
                &&& cloned(composed.tx.err, out->Err_0)
            },
{
}

/// A success ends a fallback: `ok(v).or_else(f)` may be started in every
/// context, whatever `f` requires, and succeeds as `ok(v)` does, with a clone
/// of `v` and the context as it was. `f` has no part in it.
pub proof fn or_else_short_circuits<Ctx, T, E, F, Tx2>(
    composed: OrElse<TxOk<T, E>, F, Tx2>,
    settles: Settles<'_, Ctx>,
) where T: Clone, Tx2: Transaction<Ctx, Item = T>, F: Fn(E) -> Tx2
    ensures
        forall|ctx: Ctx| #[trigger] composed.admits(settles, ctx),
        forall|pre: Ctx, post: Ctx, out: Result<T, Tx2::Err>| #[trigger]
            composed.yields(settles, pre, post, out) <==> {
                &&& post == pre
                &&& out is Ok
                &&& cloned(composed.tx.ok, out->Ok_0)
            },
{
}

/// `ok(v).abort(f)` fails with what `f` makes of a clone of `v`, and leaves
/// the context as it was.
pub proof fn abort_of_success<Ctx, A, E, T, F>(
    composed: Abort<TxOk<A, E>, T, F>,
    settles: Settles<'_, Ctx>,
) where A: Clone, F: Fn(A) -> E
    ensures
        forall|ctx: Ctx| #[trigger]
            composed.admits(settles, ctx) <==> (forall|w: A| #[trigger]
                cloned(composed.tx.ok, w) ==> call_requires(composed.f, (w,))),
        forall|pre: Ctx, post: Ctx, out: Result<T, E>| #[trigger]
            composed.yields(settles, pre, post, out) <==> {
                &&& post == pre
                &&& out is Err
                &&& exists|w: A| #[trigger]
                    cloned(composed.tx.ok, w) && call_ensures(composed.f, (w,), out->Err_0)
            },
{
    let v = composed.tx.ok;
    let f = composed.f;
    assert forall|ctx: Ctx| #[trigger]
        composed.admits(settles, ctx) <==> (forall|w: A| #[trigger]
            cloned(v, w) ==> call_requires(f, (w,))) by {
        if composed.admits(settles, ctx) {
            assert forall|w: A| #[trigger] cloned(v, w) implies call_requires(f, (w,)) by {
                assert(composed.tx.yields(settles, ctx, ctx, Ok::<A, E>(w)));
            }
        }
    }
    assert forall|pre: Ctx, post: Ctx, out: Result<T, E>| #[trigger]
        composed.yields(settles, pre, post, out) <==> {
            &&& post == pre
            &&& out is Err
            &&& exists|w: A| #[trigger] cloned(v, w) && call_ensures(f, (w,), out->Err_0)
        } by {
        if post == pre && out is Err && exists|w: A| #[trigger]
            cloned(v, w) && call_ensures(f, (w,), out->Err_0) {
            let w = choose|w: A| #[trigger] cloned(v, w) && call_ensures(f, (w,), out->Err_0);
            assert(composed.tx.yields(settles, pre, post, Ok::<A, E>(w)));
        }
    }
}

/// `err(e).abort(f)` fails as `err(e)` does: with a clone of `e`, whatever `f`
/// is.
pub proof fn abort_of_failure<Ctx, A, E, T, F>(
    composed: Abort<TxErr<A, E>, T, F>,
    settles: Settles<'_, Ctx>,
) where E: Clone, F: Fn(A) -> E
    ensures
        forall|ctx: Ctx| #[trigger] composed.admits(settles, ctx),
        forall|pre: Ctx, post: Ctx, out: Result<T, E>| #[trigger]
            composed.yields(settles, pre, post, out) <==> {
                &&& post == pre
                &&& out is Err
                &&& cloned(composed.tx.err, out->Err_0)
            },
{
}

/// `err(e).recover(f)` succeeds with what `f` makes of a clone of `e`, and
/// leaves the context as it was.
pub proof fn recover_of_failure<Ctx, A, E, T, F>(
    composed: Recover<TxErr<A, E>, T, F>,
    settles: Settles<'_, Ctx>,
) where E: Clone, F: Fn(E) -> A
    ensures
        forall|ctx: Ctx| #[trigger]
            composed.admits(settles, ctx) <==> (forall|d: E| #[trigger]
                cloned(composed.tx.err, d) ==> call_requires(composed.f, (d,))),
        forall|pre: Ctx, post: Ctx, out: Result<A, E>| #[trigger]
            composed.yields(settles, pre, post, out) <==> {
                &&& post == pre
                &&& out is Ok
                &&& exists|d: E| #[trigger]
                    cloned(composed.tx.err, d) && call_ensures(composed.f, (d,), out->Ok_0)
            },
{
    let e = composed.tx.err;
    let f = composed.f;
    assert forall|ctx: Ctx| #[trigger]
        composed.admits(settles, ctx) <==> (forall|d: E| #[trigger]
            cloned(e, d) ==> call_requires(f, (d,))) by {
        if composed.admits(settles, ctx) {
            assert forall|d: E| #[trigger] cloned(e, d) implies call_requires(f, (d,)) by {
                assert(composed.tx.yields(settles, ctx, ctx, Err::<A, E>(d)));
            }
        }
    }
    assert forall|pre: Ctx, post: Ctx, out: Result<A, E>| #[trigger]
        composed.yields(settles, pre, post, out) <==> {
            &&& post == pre
            &&& out is Ok
            &&& exists|d: E| #[trigger] cloned(e, d) && call_ensures(f, (d,), out->Ok_0)
        } by {
        if post == pre && out is Ok && exists|d: E| #[trigger]
            cloned(e, d) && call_ensures(f, (d,), out->Ok_0) {
            let d = choose|d: E| #[trigger] cloned(e, d) && call_ensures(f, (d,), out->Ok_0);
            assert(composed.tx.yields(settles, pre, post, Err::<A, E>(d)));
        }
    }
}

/// `ok(v).recover(f)` succeeds as `ok(v)` does: with a clone of `v`, whatever
/// `f` is.
pub proof fn recover_of_success<Ctx, A, E, T, F>(
    composed: Recover<TxOk<A, E>, T, F>,
    settles: Settles<'_, Ctx>,
) where A: Clone, F: Fn(E) -> A
    ensures
        forall|ctx: Ctx| #[trigger] composed.admits(settles, ctx),
        forall|pre: Ctx, post: Ctx, out: Result<A, E>| #[trigger]
            composed.yields(settles, pre, post, out) <==> {
                &&& post == pre
                &&& out is Ok
                &&& cloned(composed.tx.ok, out->Ok_0)
            },
{
}

/// Of two failures the first one counts: `err(e1).join(err(e2))` fails with a
/// clone of `e1`.
pub proof fn join_of_failures<Ctx, A, B, E>(
    composed: Join<TxErr<A, E>, TxErr<B, E>>,
    settles: Settles<'_, Ctx>,
) where E: Clone
    ensures
        forall|ctx: Ctx| #[trigger] composed.admits(settles, ctx),
        forall|pre: Ctx, post: Ctx, out: Result<(A, B), E>| #[trigger]
            composed.yields(settles, pre, post, out) <==> {
                &&& post == pre
                &&& out is Err
                &&& cloned(composed.tx1.err, out->Err_0)
            },
{
    assert forall|pre: Ctx, post: Ctx, out: Result<(A, B), E>|
        post == pre && out is Err && cloned(
            composed.tx1.err,
            out->Err_0,
        ) implies #[trigger] composed.yields(settles, pre, post, out) by {
        let a = Err::<A, E>(out->Err_0);
        let b = Err::<B, E>(composed.tx2.err);
        assert(composed.tx1.yields(settles, pre, pre, a));
        assert(composed.tx2.yields(settles, pre, post, b));
    }
}

/// Two successes give their pair: `ok(a).join(ok(b))` succeeds with a clone of
/// `a` and a clone of `b`.
pub proof fn join_of_successes<Ctx, A, B, E>(
    composed: Join<TxOk<A, E>, TxOk<B, E>>,
    settles: Settles<'_, Ctx>,
) where A: Clone, B: Clone
    ensures
        forall|ctx: Ctx| #[trigger] composed.admits(settles, ctx),
        forall|pre: Ctx, post: Ctx, out: Result<(A, B), E>| #[trigger]
            composed.yields(settles, pre, post, out) <==> {
                &&& post == pre
                &&& out is Ok
                &&& cloned(composed.tx1.ok, out->Ok_0.0)
                &&& cloned(composed.tx2.ok, out->Ok_0.1)
            },
{
    assert forall|pre: Ctx, post: Ctx, out: Result<(A, B), E>|
        post == pre && out is Ok && cloned(composed.tx1.ok, out->Ok_0.0) && cloned(
            composed.tx2.ok,
            out->Ok_0.1,
        ) implies #[trigger] composed.yields(settles, pre, post, out) by {
        let a = Ok::<A, E>(out->Ok_0.0);
        let b = Ok::<B, E>(out->Ok_0.1);
        assert(composed.tx1.yields(settles, pre, pre, a));
        assert(composed.tx2.yields(settles, pre, post, b));
    }
}

} // verus!
