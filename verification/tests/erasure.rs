use transaction::{err, ok, with_ctx, Boxed, DynTransaction, Erase, Transaction};

fn add(n: i32) -> Boxed<'static, i32, i32, String> {
    with_ctx(move |ctx: &mut i32| {
        *ctx += n;
        Ok(*ctx)
    })
    .boxed()
}

fn refuse(why: &'static str) -> Boxed<'static, i32, i32, String> {
    Erase::<i32>::boxed(err::<i32, String>(why.to_string()))
}

#[test]
fn a_handle_runs_as_what_it_wraps() {
    let plain = with_ctx(|ctx: &mut i32| {
        *ctx += 3;
        Ok::<i32, String>(*ctx)
    });
    let mut a = 0;
    let mut b = 0;
    let direct = plain.run(&mut a);
    let erased = add(3).run(&mut b);
    assert_eq!(direct, erased);
    assert_eq!(erased, Ok(3));
    assert_eq!(a, b);
}

#[test]
fn a_handle_of_a_deep_composition_runs_as_the_composition() {
    let build = || {
        with_ctx(|ctx: &mut i32| {
            *ctx += 1;
            Ok::<i32, String>(*ctx)
        })
        .map(|v| v * 2)
        .and_then(|v| {
            with_ctx(move |ctx: &mut i32| {
                *ctx += v;
                if *ctx > 5 {
                    Err(format!("{} is too much", *ctx))
                } else {
                    Ok(*ctx)
                }
            })
        })
        .or_else(|e: String| err::<i32, String>(e.to_uppercase()))
    };
    let mut a = 0;
    let mut b = 0;
    let plain = build();
    let erased = build().boxed().map(|v| v).boxed();
    assert_eq!(plain.run(&mut a), Ok(3));
    assert_eq!(erased.run(&mut b), Ok(3));
    assert_eq!(plain.run(&mut a), Err("12 IS TOO MUCH".to_string()));
    assert_eq!(erased.run(&mut b), Err("12 IS TOO MUCH".to_string()));
    assert_eq!(a, b);
}

#[test]
fn handles_of_different_transactions_share_a_type() {
    let all: Vec<Boxed<'static, i32, i32, String>> = vec![add(1), refuse("no"), add(10), Erase::<i32>::boxed(ok(0))];
    let mut ctx = 0;
    let got: Vec<Result<i32, String>> = all.iter().map(|tx| tx.run(&mut ctx)).collect();
    assert_eq!(got, vec![Ok(1), Err("no".to_string()), Ok(11), Ok(0)]);
    assert_eq!(ctx, 11);
}

#[test]
fn a_handle_may_borrow() {
    let limit = 4;
    let limit_ref = &limit;
    let tx = with_ctx(move |ctx: &mut i32| if *ctx < *limit_ref { Ok(*ctx) } else { Err(*limit_ref) }).boxed();
    let mut ctx = 3;
    assert_eq!(tx.run(&mut ctx), Ok(3));
    ctx = 4;
    assert_eq!(tx.run(&mut ctx), Err(4));
}

#[test]
fn a_reference_runs_as_what_it_points_to() {
    let tx = with_ctx(|ctx: &mut i32| {
        *ctx += 1;
        Ok::<i32, ()>(*ctx)
    });
    let mut ctx = 0;
    assert_eq!((&tx).run(&mut ctx), Ok(1));
    assert_eq!((&tx).map(|v| v + 100).run(&mut ctx), Ok(102));
    assert_eq!(tx.run(&mut ctx), Ok(3));
}

#[test]
fn a_box_runs_as_what_it_holds() {
    let tx = Box::new(with_ctx(|ctx: &mut i32| {
        *ctx += 1;
        Ok::<i32, ()>(*ctx)
    }));
    let mut ctx = 0;
    assert_eq!(tx.run(&mut ctx), Ok(1));
    assert_eq!(tx.and_then(|v| ok(v * 2)).run(&mut ctx), Ok(4));
}

#[test]
fn a_trait_object_runs_as_what_it_is_made_of() {
    let first = with_ctx(|ctx: &mut i32| {
        *ctx += 1;
        Ok::<i32, String>(*ctx)
    });
    let second = first.map(|v| v * 10);
    let borrowed: &dyn DynTransaction<i32, i32, String> = &second;
    let owned: Box<dyn DynTransaction<i32, i32, String>> = Box::new(err::<i32, String>("no".to_string()));
    let mut ctx = 0;
    assert_eq!(borrowed.run(&mut ctx), Ok(10));
    assert_eq!(owned.run(&mut ctx), Err("no".to_string()));
    assert_eq!(borrowed.or_else(|_: String| ok::<i32, String>(0)).run(&mut ctx), Ok(20));
    assert_eq!(ctx, 2);
}
