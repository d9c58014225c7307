use sum_split::handler::{handle, solve, Output, Request};

fn is_split(val: u32, out: Output) -> bool {
    0 < out.x
        && out.x < val
        && 0 < out.y
        && out.y < val
        && u64::from(out.x) + u64::from(out.y) == u64::from(val)
}

#[test]
fn target_two_splits_into_ones() {
    assert_eq!(handle(Request { val: 2 }), Output { x: 1, y: 1 });
    assert_eq!(solve(2), Some((1, 1)));
}

#[test]
fn target_five_splits_within_one_to_four() {
    let out = handle(Request { val: 5 });
    assert_eq!(out.x + out.y, 5);
    assert!((1..=4).contains(&out.x));
    assert!((1..=4).contains(&out.y));
    assert_eq!(out, Output { x: 2, y: 3 });
}

#[test]
fn target_hundred_splits_within_one_to_ninety_nine() {
    let out = handle(Request { val: 100 });
    assert_eq!(out.x + out.y, 100);
    assert!((1..=99).contains(&out.x));
    assert!((1..=99).contains(&out.y));
    assert_eq!(out, Output { x: 50, y: 50 });
}

#[test]
fn target_zero_gives_sentinel() {
    assert_eq!(handle(Request { val: 0 }), Output { x: 0, y: 0 });
    assert_eq!(solve(0), None);
}

#[test]
fn target_one_gives_sentinel() {
    assert_eq!(handle(Request { val: 1 }), Output { x: 0, y: 0 });
    assert_eq!(solve(1), None);
}

#[test]
fn every_target_from_two_up_gets_a_split() {
    for val in 2..2000u32 {
        let out = handle(Request { val });
        assert!(is_split(val, out), "target {}", val);
    }
}

#[test]
fn largest_target_splits_without_overflow() {
    let out = handle(Request { val: u32::MAX });
    assert_eq!(out, Output { x: 2147483647, y: 2147483648 });
    assert!(is_split(u32::MAX, out));
    let even = handle(Request { val: u32::MAX - 1 });
    assert_eq!(even, Output { x: 2147483647, y: 2147483647 });
}

#[test]
fn odd_target_gives_the_larger_half_to_y() {
    assert_eq!(solve(3), Some((1, 2)));
    assert_eq!(solve(7), Some((3, 4)));
    assert_eq!(solve(101), Some((50, 51)));
}

#[test]
fn answer_other_than_sentinel_sums_to_target_on_every_check() {
    for val in 0..500u32 {
        let first = handle(Request { val });
        let second = handle(Request { val });
        for out in [first, second] {
            if out != (Output { x: 0, y: 0 }) {
                assert_eq!(out.x + out.y, val);
            }
        }
    }
}

#[test]
fn interleaved_requests_do_not_affect_each_other() {
    let alone: Vec<Output> = [0u32, 9, 1, 64, 2, 1001]
        .iter()
        .map(|&val| handle(Request { val }))
        .collect();
    let a = handle(Request { val: 1001 });
    let b = handle(Request { val: 2 });
    let c = handle(Request { val: 64 });
    let d = handle(Request { val: 1 });
    let e = handle(Request { val: 9 });
    let f = handle(Request { val: 0 });
    assert_eq!(vec![f, e, d, c, b, a], alone);
    assert_eq!(alone[1], Output { x: 4, y: 5 });
    assert_eq!(alone[5], Output { x: 500, y: 501 });
}
