use transaction::prelude::{ok, with_ctx, Transaction};
use transaction::IntoTransaction;

fn counting(step: i32) -> impl Transaction<i32, Item = i32, Err = String> {
    with_ctx(move |ctx: &mut i32| {
        *ctx += step;
        if *ctx % 3 == 0 {
            Err(format!("{} is a multiple of three", *ctx))
        } else {
            Ok(*ctx)
        }
    })
}

fn outcomes<Tx: Transaction<i32>>(tx: &Tx, runs: usize) -> (Vec<Result<Tx::Item, Tx::Err>>, i32) {
    let mut ctx = 0;
    let mut all = Vec::new();
    for _ in 0..runs {
        all.push(tx.run(&mut ctx));
    }
    (all, ctx)
}

#[test]
fn mapping_with_the_identity_changes_nothing() {
    let (plain, a) = outcomes(&counting(1), 6);
    let (mapped, b) = outcomes(&counting(1).map(|v| v), 6);
    assert_eq!(plain, mapped);
    assert_eq!(a, b);
    assert_eq!(plain[0], Ok(1));
    assert_eq!(plain[2], Err("3 is a multiple of three".to_string()));
}

#[test]
fn sequencing_after_a_fixed_success_is_applying_the_function() {
    let f = |v: i32| counting(v);
    let (direct, a) = outcomes(&f(2), 6);
    let (composed, b) = outcomes(&Transaction::<i32>::and_then(ok::<i32, String>(2), f), 6);
    assert_eq!(direct, composed);
    assert_eq!(a, b);
    assert_eq!(direct[0], Ok(2));
}

#[test]
fn sequencing_with_ok_changes_nothing() {
    let (plain, a) = outcomes(&counting(2), 6);
    let (composed, b) = outcomes(&counting(2).and_then(|v| ok(v)), 6);
    assert_eq!(plain, composed);
    assert_eq!(a, b);
}

#[test]
fn sequencing_is_associative() {
    let f = |v: i32| counting(v);
    let g = |v: i32| counting(v + 1).map(move |w| w - v);
    let (left, a) = outcomes(&counting(1).and_then(f).and_then(g), 8);
    let (right, b) = outcomes(&counting(1).and_then(|v| f(v).and_then(g)), 8);
    assert_eq!(left, right);
    assert_eq!(a, b);
    assert_eq!(left[0], Ok(3));
    assert!(left.iter().any(|r| r.is_err()));
}

struct Seed(i32);

impl IntoTransaction for Seed {
    type Tx = transaction::TxOk<i32, String>;
    type Ctx = i32;
    type Err = String;
    type Item = i32;

    fn into_transaction(self) -> Self::Tx {
        ok(self.0)
    }
}

#[test]
fn a_value_turns_into_its_transaction() {
    let mut ctx = 0;
    let tx = Seed(5).into_transaction();
    assert_eq!(Transaction::<i32>::run(&tx, &mut ctx), Ok(5));
}
