use fnstack::{CallRawMut, Encoding, FnStackMut, Static, StaticFn};

struct Droppable<'a>(&'a mut i32);

impl<'a> Drop for Droppable<'a> {
    fn drop(&mut self) {
        *self.0 += 1;
    }
}

struct ExceedsLimit<'a>(Droppable<'a>, [u8; 128]);

#[test]
fn mutable_test_drop() {
    let mut num_drops = 0;

    {
        let mut droppable = Droppable(&mut num_drops);
        let _closure: FnStackMut<(), (), _> = FnStackMut::new(move |()| {
            let _d = &mut droppable;
        });
    }

    assert_eq!(num_drops, 1);

    {
        let mut obj = ExceedsLimit(Droppable(&mut num_drops), [0; 128]);
        let _closure: FnStackMut<(), (), _, [u8; 16]> = FnStackMut::new(move |()| {
            let _o = &mut obj;
        });
    }

    assert_eq!(num_drops, 2);
}

fn takes_fn<R: CallRawMut<(), ()>>(mut f: FnStackMut<(), (), R>) {
    f.call(());
}

const X: usize = 5;

#[test]
fn mutable_variance_check() {
    let x = &X;
    let f: FnStackMut<_, _, _> = FnStackMut::new(move |()| {
        let _y = x;
    });

    takes_fn(f);
}

#[test]
fn mutable_repeated_calls_mutate_once_each() {
    let mut counter = 5;
    let mut num_drops = 0;
    {
        let d = Droppable(&mut num_drops);
        let total = &mut counter;
        let mut c: FnStackMut<i32, i32, _> = FnStackMut::new(move |x: i32| {
            let _d = &d;
            *total += x;
            *total / x
        });
        assert_eq!(c.encoding(), Encoding::Heap);
        assert_eq!(c.call(2), 3);
        assert_eq!(c.call(2), 4);
        assert_eq!(c.encoding(), Encoding::Heap);
    }
    assert_eq!(counter, 9);
    assert_eq!(num_drops, 1);
}

#[test]
fn mutable_inline_state_persists_between_calls() {
    let mut calls: u8 = 0;
    let mut c: FnStackMut<u8, u8, _> = FnStackMut::new(move |x: u8| {
        calls += 1;
        calls * x
    });
    assert_eq!(c.encoding(), Encoding::Inline);
    assert_eq!(c.call(10), 10);
    assert_eq!(c.call(10), 20);
    assert_eq!(c.call(10), 30);
    assert_eq!(c.encoding(), Encoding::Inline);
}

#[test]
fn mutable_selects_heap_at_capacity() {
    let exact = [3u8; 8];
    let mut c: FnStackMut<usize, u8, _, [u8; 8]> = FnStackMut::new(move |i: usize| exact[i]);
    assert_eq!(c.encoding(), Encoding::Heap);
    assert_eq!(c.call(7), 3);

    let below = [4u8; 7];
    let mut c: FnStackMut<usize, u8, _, [u8; 8]> = FnStackMut::new(move |i: usize| below[i]);
    assert_eq!(c.encoding(), Encoding::Inline);
    assert_eq!(c.call(6), 4);
}

#[test]
fn mutable_from_box_is_heap() {
    let mut sum: i32 = 0;
    let mut c: FnStackMut<i32, i32, _> = FnStackMut::from(Box::new(move |x: i32| {
        sum += x;
        sum
    }));
    assert_eq!(c.encoding(), Encoding::Heap);
    assert_eq!(c.call(4), 4);
    assert_eq!(c.call(5), 9);
}

struct Triple;

impl StaticFn<u32, u32> for Triple {
    fn call(args: u32) -> u32 {
        args * 3
    }
}

#[test]
fn mutable_static_on_zero_capacity() {
    let mut c: FnStackMut<u32, u32, Static<Triple>, [u8; 0]> = FnStackMut::from_static();
    assert_eq!(c.encoding(), Encoding::Static);
    assert_eq!(c.call(5), 15);
    assert_eq!(c.call(7), 21);
}
