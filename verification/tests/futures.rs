use std::sync::mpsc::channel;
use tangle::{Async, Continue, Future, Promise};

fn unwrap_ok_or_fail(r: Result<u32, ()>) -> Async<u32, ()> {
    let v: u32 = match r {
        Ok(val) => val,
        Err(e) => return Async::Failed(std::convert::From::from(e)),
    };
    assert_eq!(v, 123);
    Async::Done(v)
}

#[test]
fn async_macro() {
    unwrap_ok_or_fail(Ok(123));
}

fn unwrap_err_or_zero(r: Result<u32, u32>) -> Async<u32, u32> {
    let v: u32 = match r {
        Ok(val) => val,
        Err(e) => return Async::Failed(std::convert::From::from(e)),
    };
    let _ = v;
    Async::Done(0)
}

#[test]
fn async_macro_err() {
    assert!(unwrap_err_or_zero(Err(123u32)).is_err());
}

#[test]
fn async_map() {
    let val: Async<u32, ()> = Async::Done(123);
    match val.map(|x| x * 2) {
        Async::Done(v) => assert_eq!(v, 246),
        _ => panic!("Unexpected error."),
    }
}

#[test]
#[should_panic]
fn async_map_fail() {
    let val: Async<u32, ()> = Async::Continue(Future::new(|| Async::Done(123)));

    val.map(|x| x * 2);
}

#[test]
fn async_map_err() {
    let val: Async<(), u32> = Async::Failed(1);
    match val.map_err(|x| x + 5) {
        Async::Failed(e) => assert_eq!(e, 6),
        _ => panic!("Unexpected error"),
    }
}

#[test]
fn from_chan1() {
    let (tx, rx) = channel();
    let f: Future<u32> = Future::from_channel(rx);

    // resolve
    let _f = f
        .map(|n| {
            assert_eq!(n, 555);
            n + 5
        })
        .map(|n| {
            assert_eq!(n, 560);
            n
        });

    // Resolve the future through the sender half of the channel.
    tx.send(555).unwrap();
}

#[test]
fn to_future_macro() {
    let _f: Future<i32, i32> = Future::new(|| {
        if true {
            Async::Done(123)
        } else {
            Async::Failed(5)
        }
    });
}

#[test]
fn resolve_from_value() {
    let val: Future<usize> = Future::unit(5);

    match val.resolve() {
        Async::Done(n) => assert_eq!(n, 5),
        _ => panic!("Unexpected value"),
    }
}

#[test]
fn map_promise() {
    let count: Future<usize> = Future::unit(5);

    let curr: Future<usize> = count.and_then(|_n| Continue(Future::new(|| Async::Done(100))));

    match curr.resolve() {
        Async::Done(n) => assert_eq!(n, 100),
        _ => panic!("Unexpected value"),
    }
}

#[test]
fn chain_immediate_value() {
    let f: Future<usize> = Future::unit(5);
    let r: Future<usize> = f.and_then(|n| Async::Done(n * 100));
    match r.resolve() {
        Async::Done(n) => assert_eq!(n, 500),
        _ => panic!("Unexpected value"),
    }
}

#[test]
fn chain_flattens_two_levels() {
    let f: Future<usize> = Future::unit(5);
    let r: Future<usize> = f.and_then(|n| {
        Continue(Future::new(move || Continue(Future::unit(n * 100))))
    });
    match r.resolve() {
        Async::Done(n) => assert_eq!(n, 500),
        _ => panic!("Unexpected value"),
    }
}

#[test]
fn computation_error_short_circuits() {
    let f: Future<usize, &'static str> = Future::new(|| Async::Failed("x"));
    let r: Future<usize, &'static str> = f.map(|_v| panic!("transform must not run"));
    match r.resolve() {
        Async::Failed(e) => assert_eq!(e, "x"),
        _ => panic!("Unexpected value"),
    }
}

#[test]
fn external_channel_delivers() {
    let (tx, rx) = channel();
    let f: Future<u32> = Future::from_channel(rx);
    tx.send(555).unwrap();
    match f.resolve() {
        Async::Done(n) => assert_eq!(n, 555),
        _ => panic!("Unexpected value"),
    }
}

#[test]
fn resolve_from_error() {
    let val: Future<usize, &'static str> = Future::err("boom");
    match val.resolve() {
        Async::Failed(e) => assert_eq!(e, "boom"),
        _ => panic!("Unexpected value"),
    }
}

#[test]
fn map_on_value_future() {
    let f: Future<u32> = Future::unit(3);
    let r: Future<u32> = f.map(|x| x + 1);
    match r.resolve() {
        Async::Done(n) => assert_eq!(n, 4),
        _ => panic!("Unexpected value"),
    }
}

#[test]
fn value_predicates() {
    let d: Async<u32, u32> = Async::Done(1);
    let e: Async<u32, u32> = Async::Failed(2);
    let c: Async<u32, u32> = Async::Continue(Future::unit(3));
    assert!(d.is_ok() && !d.is_err() && !d.is_future());
    assert!(e.is_err() && !e.is_ok() && !e.is_future());
    assert!(c.is_future() && !c.is_ok() && !c.is_err());
}

#[test]
fn adopt_async_channel() {
    let (tx, rx) = channel();
    tx.send(Async::Done(9)).unwrap();
    let f: Future<u32> = Future::from_async_channel(rx);
    match f.resolve() {
        Async::Done(n) => assert_eq!(n, 9),
        _ => panic!("Unexpected value"),
    }
}

#[test]
fn promise_mints_its_future() {
    let mut p: Promise<u32, ()> = Promise::new();
    let _f: Future<u32, ()> = p.future();
}
