use std::cell::Cell;
use transaction::{err, ok, result, with_ctx, Transaction};

fn counter() -> impl Transaction<u32, Item = u32, Err = String> {
    with_ctx(|ctx: &mut u32| {
        *ctx += 1;
        Ok::<u32, String>(*ctx)
    })
}

fn failing() -> impl Transaction<u32, Item = u32, Err = String> {
    with_ctx(|ctx: &mut u32| {
        *ctx += 10;
        Err::<u32, String>(format!("failed at {}", *ctx))
    })
}

#[test]
fn map_transforms_a_success() {
    let mut ctx = 0;
    let tx = counter().map(|v| v * 100);
    assert_eq!(tx.run(&mut ctx), Ok(100));
    assert_eq!(tx.run(&mut ctx), Ok(200));
    assert_eq!(ctx, 2);
}

#[test]
fn map_passes_a_failure_and_does_not_call_its_function() {
    let calls = Cell::new(0);
    let mut ctx = 0;
    let tx = failing().map(|v| {
        calls.set(calls.get() + 1);
        v * 100
    });
    assert_eq!(tx.run(&mut ctx), Err("failed at 10".to_string()));
    assert_eq!(calls.get(), 0);
    assert_eq!(ctx, 10);
}

#[test]
fn map_err_transforms_a_failure() {
    let mut ctx = 0;
    let tx = failing().map_err(|e| e.len());
    assert_eq!(tx.run(&mut ctx), Err(12));
    assert_eq!(ctx, 10);
}

#[test]
fn map_err_passes_a_success_and_does_not_call_its_function() {
    let calls = Cell::new(0);
    let mut ctx = 0;
    let tx = counter().map_err(|e| {
        calls.set(calls.get() + 1);
        e.len()
    });
    assert_eq!(tx.run(&mut ctx), Ok(1));
    assert_eq!(calls.get(), 0);
}

#[test]
fn then_continues_after_a_success() {
    let mut ctx = 0;
    let tx = counter().then(|r: Result<u32, String>| {
        with_ctx(move |ctx: &mut u32| {
            *ctx += 5;
            Ok::<String, String>(format!("{:?} then {}", r, *ctx))
        })
    });
    assert_eq!(tx.run(&mut ctx), Ok("Ok(1) then 6".to_string()));
    assert_eq!(ctx, 6);
}

#[test]
fn then_continues_after_a_failure() {
    let mut ctx = 0;
    let tx = failing().then(|r: Result<u32, String>| {
        with_ctx(move |ctx: &mut u32| {
            *ctx += 5;
            Ok::<String, String>(format!("{:?} then {}", r, *ctx))
        })
    });
    assert_eq!(tx.run(&mut ctx), Ok("Err(\"failed at 10\") then 15".to_string()));
    assert_eq!(ctx, 15);
}

#[test]
fn then_gives_the_failure_of_the_second() {
    let mut ctx = 0;
    let tx = counter().then(|r: Result<u32, String>| {
        Transaction::<u32>::and_then(result::<u32, String>(r.map(|v| v + 1)), |v| {
            err::<u32, String>(format!("gave up at {}", v))
        })
    });
    assert_eq!(tx.run(&mut ctx), Err("gave up at 2".to_string()));
    assert_eq!(ctx, 1);
}

#[test]
fn and_then_runs_the_second_on_the_value_of_the_first() {
    let mut ctx = 0;
    let tx = counter().and_then(|v| {
        with_ctx(move |ctx: &mut u32| {
            *ctx += v * 10;
            Ok::<(u32, u32), String>((v, *ctx))
        })
    });
    assert_eq!(tx.run(&mut ctx), Ok((1, 11)));
    assert_eq!(ctx, 11);
    assert_eq!(tx.run(&mut ctx), Ok((12, 132)));
    assert_eq!(ctx, 132);
}

#[test]
fn and_then_stops_at_a_failure_of_the_first() {
    let calls = Cell::new(0);
    let mut ctx = 0;
    let tx = failing().and_then(|v| {
        calls.set(calls.get() + 1);
        ok::<u32, String>(v)
    });
    assert_eq!(tx.run(&mut ctx), Err("failed at 10".to_string()));
    assert_eq!(calls.get(), 0);
    assert_eq!(ctx, 10);
}

#[test]
fn and_then_of_a_fixed_failure_never_calls_its_function() {
    let calls = Cell::new(0);
    let mut ctx = 7u32;
    let tx = Transaction::<u32>::and_then(err::<u32, String>("e".to_string()), |v| {
        calls.set(calls.get() + 1);
        ok::<u32, String>(v)
    });
    assert_eq!(Transaction::<u32>::run(&tx, &mut ctx), Err("e".to_string()));
    assert_eq!(Transaction::<u32>::run(&tx, &mut ctx), Err("e".to_string()));
    assert_eq!(calls.get(), 0);
    assert_eq!(ctx, 7);
}

#[test]
fn and_then_gives_the_failure_of_the_second() {
    let mut ctx = 0;
    let tx = counter().and_then(|v| err::<u32, String>(format!("second failed on {}", v)));
    assert_eq!(tx.run(&mut ctx), Err("second failed on 1".to_string()));
    assert_eq!(ctx, 1);
}

#[test]
fn or_else_falls_back_on_a_failure() {
    let mut ctx = 0;
    let tx = failing().or_else(|e: String| {
        with_ctx(move |ctx: &mut u32| {
            *ctx += 1;
            Ok::<u32, usize>(*ctx + e.len() as u32)
        })
    });
    assert_eq!(tx.run(&mut ctx), Ok(23));
    assert_eq!(ctx, 11);
}

#[test]
fn or_else_of_a_fixed_success_never_calls_its_function() {
    let calls = Cell::new(0);
    let mut ctx = 7u32;
    let tx = Transaction::<u32>::or_else(ok::<u32, String>(3), |e: String| {
        calls.set(calls.get() + 1);
        err::<u32, usize>(e.len())
    });
    assert_eq!(Transaction::<u32>::run(&tx, &mut ctx), Ok(3));
    assert_eq!(Transaction::<u32>::run(&tx, &mut ctx), Ok(3));
    assert_eq!(calls.get(), 0);
    assert_eq!(ctx, 7);
}

#[test]
fn or_else_gives_the_failure_of_the_fallback() {
    let mut ctx = 0;
    let tx = failing().or_else(|e: String| err::<u32, usize>(e.len()));
    assert_eq!(tx.run(&mut ctx), Err(12));
    assert_eq!(ctx, 10);
}
