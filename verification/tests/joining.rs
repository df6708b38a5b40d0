use transaction::{err, ok, with_ctx, Transaction};

fn step(name: &'static str, fails: bool) -> impl Transaction<Vec<&'static str>, Item = usize, Err = &'static str> {
    with_ctx(move |log: &mut Vec<&'static str>| {
        log.push(name);
        if fails {
            Err(name)
        } else {
            Ok(log.len())
        }
    })
}

#[test]
fn join_of_two_failures_gives_the_first() {
    let mut ctx = ();
    let tx = Transaction::<()>::join(err::<i32, &str>("e1"), err::<i32, &str>("e2"));
    assert_eq!(Transaction::<()>::run(&tx, &mut ctx), Err("e1"));
}

#[test]
fn join_of_two_successes_gives_the_pair() {
    let mut ctx = ();
    let tx = Transaction::<()>::join(ok::<i32, ()>(1), ok::<i32, ()>(2));
    assert_eq!(Transaction::<()>::run(&tx, &mut ctx), Ok((1, 2)));
}

#[test]
fn join_runs_both_even_if_the_first_fails() {
    let mut log = Vec::new();
    let tx = step("a", true).join(step("b", true));
    assert_eq!(tx.run(&mut log), Err("a"));
    assert_eq!(log, vec!["a", "b"]);
}

#[test]
fn join_gives_the_failure_of_the_second_if_only_it_fails() {
    let mut log = Vec::new();
    let tx = step("a", false).join(step("b", true));
    assert_eq!(tx.run(&mut log), Err("b"));
    assert_eq!(log, vec!["a", "b"]);
}

#[test]
fn join_lets_the_second_see_what_the_first_wrote() {
    let writes = with_ctx(|ctx: &mut i32| {
        *ctx = 42;
        Ok::<(), ()>(())
    });
    let reads = with_ctx(|ctx: &mut i32| Ok::<i32, ()>(*ctx));
    let mut ctx = 0;
    assert_eq!(writes.join(reads).run(&mut ctx), Ok(((), 42)));
}

#[test]
fn join3_runs_all_in_order() {
    let mut log = Vec::new();
    let tx = step("a", false).join3(step("b", false), step("c", false));
    assert_eq!(tx.run(&mut log), Ok((1, 2, 3)));
    assert_eq!(log, vec!["a", "b", "c"]);
}

#[test]
fn join3_gives_the_first_failure_in_order() {
    let mut log = Vec::new();
    let tx = step("a", false).join3(step("b", true), step("c", true));
    assert_eq!(tx.run(&mut log), Err("b"));
    assert_eq!(log, vec!["a", "b", "c"]);
    log.clear();
    let tx = step("a", false).join3(step("b", false), step("c", true));
    assert_eq!(tx.run(&mut log), Err("c"));
    log.clear();
    let tx = step("a", true).join3(step("b", false), step("c", true));
    assert_eq!(tx.run(&mut log), Err("a"));
    assert_eq!(log, vec!["a", "b", "c"]);
}

#[test]
fn join4_runs_all_in_order() {
    let mut log = Vec::new();
    let tx = step("a", false).join4(step("b", false), step("c", false), step("d", false));
    assert_eq!(tx.run(&mut log), Ok((1, 2, 3, 4)));
    assert_eq!(log, vec!["a", "b", "c", "d"]);
}

#[test]
fn join4_gives_the_first_failure_in_order() {
    let mut log = Vec::new();
    let tx = step("a", false).join4(step("b", false), step("c", false), step("d", true));
    assert_eq!(tx.run(&mut log), Err("d"));
    assert_eq!(log, vec!["a", "b", "c", "d"]);
    log.clear();
    let tx = step("a", false).join4(step("b", false), step("c", true), step("d", true));
    assert_eq!(tx.run(&mut log), Err("c"));
    log.clear();
    let tx = step("a", false).join4(step("b", true), step("c", false), step("d", true));
    assert_eq!(tx.run(&mut log), Err("b"));
    log.clear();
    let tx = step("a", true).join4(step("b", true), step("c", true), step("d", true));
    assert_eq!(tx.run(&mut log), Err("a"));
    assert_eq!(log, vec!["a", "b", "c", "d"]);
}

#[test]
fn joins_of_different_types_of_values() {
    let mut ctx = 0u8;
    let tx = Transaction::<u8>::join3(ok::<i32, String>(1), ok::<&str, String>("two"), ok::<bool, String>(true));
    assert_eq!(Transaction::<u8>::run(&tx, &mut ctx), Ok((1, "two", true)));
}
