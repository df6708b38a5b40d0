use transaction::{with_ctx, Boxed, Erase, Transaction};

struct Counters {
    x: i32,
    y: i32,
}

struct Data;

impl Data {
    fn inc_x<'a>(&'a self) -> Boxed<'a, Counters, i32, String> {
        with_ctx(move |ctx: &mut Counters| {
            let xv = ctx.x;
            ctx.x = xv + 1;
            Ok(xv)
        })
        .boxed()
    }

    fn inc_y<'a>(&'a self) -> Boxed<'a, Counters, i32, String> {
        with_ctx(move |ctx: &mut Counters| {
            let yv = ctx.y;
            ctx.y = yv + 1;
            Ok(yv)
        })
        .boxed()
    }

    fn inc_xy<'a>(&'a self) -> Boxed<'a, Counters, i32, String> {
        self.inc_x().and_then(move |_| self.inc_y()).boxed()
    }

    fn add<'a>(&'a self) -> Boxed<'a, Counters, i32, String> {
        with_ctx(move |ctx: &mut Counters| Ok(ctx.x + ctx.y)).boxed()
    }
}

#[test]
fn incrementing_both_counters_then_reading_their_sum() {
    let data = Data;
    let mut ctx = Counters { x: 0, y: 0 };
    let ret = data.inc_xy().and_then(|_| data.add()).run(&mut ctx);
    assert_eq!(ret, Ok(2));
    assert_eq!(ctx.x, 1);
    assert_eq!(ctx.y, 1);
}

#[test]
fn a_second_run_starts_from_the_context_as_it_is() {
    let data = Data;
    let mut ctx = Counters { x: 0, y: 0 };
    let tx = data.inc_xy().and_then(|_| data.add());
    assert_eq!(tx.run(&mut ctx), Ok(2));
    assert_eq!(tx.run(&mut ctx), Ok(4));
    assert_eq!((ctx.x, ctx.y), (2, 2));
    let mut fresh = Counters { x: 0, y: 0 };
    assert_eq!(tx.run(&mut fresh), Ok(2));
}
