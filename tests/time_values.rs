use monotonic_stm32l0::{Duration, Instant, LinkedTim2Tim3};

fn at(ticks: u32) -> Instant {
    LinkedTim2Tim3::zero() + Duration::from_cycles(ticks)
}

#[test]
fn zero_has_no_ticks() {
    assert_eq!(LinkedTim2Tim3::zero().counts(), 0);
}

#[test]
fn ratio_is_one_to_one() {
    let r = LinkedTim2Tim3::ratio();
    assert_eq!(r.numerator, 1);
    assert_eq!(r.denominator, 1);
    let ticks: u64 = 123_456;
    assert_eq!(ticks * r.numerator as u64 / r.denominator as u64, ticks);
}

#[test]
fn cycles_round_trip() {
    for n in [0u32, 1, 6301, 0xFFFF, 0x1_0000, u32::MAX] {
        assert_eq!(Duration::from_cycles(n).as_cycles(), n);
    }
}

#[test]
fn duration_into_u32() {
    let d = Duration::from_cycles(6301);
    let raw: u32 = d.into();
    assert_eq!(raw, 6301);
    let tried: Result<u32, _> = core::convert::TryInto::<u32>::try_into(d);
    assert_eq!(tried, Ok(6301));
}

#[test]
fn duration_default_is_empty() {
    assert_eq!(Duration::default().as_cycles(), 0);
}

#[test]
fn instant_difference_counts_ticks() {
    let a = at(10_000);
    let b = at(2_500);
    assert_eq!((a - b).as_cycles(), 7_500);
    assert_eq!(a.duration_since(b).as_cycles(), 7_500);
}

#[test]
fn instant_difference_of_adjacent_ticks() {
    assert_eq!((at(1) - at(0)).as_cycles(), 1);
    assert_eq!((at(u32::MAX) - at(0)).as_cycles(), u32::MAX);
}

#[test]
fn elapsed_counts_until_now() {
    let start = at(100);
    let now = at(350);
    assert_eq!(start.elapsed(now).as_cycles(), 250);
}

#[test]
fn duration_sum_adds_cycles() {
    let d = Duration::from_cycles(1_000) + Duration::from_cycles(234);
    assert_eq!(d.as_cycles(), 1_234);
    let top = Duration::from_cycles(u32::MAX - 1) + Duration::from_cycles(1);
    assert_eq!(top.as_cycles(), u32::MAX);
}

#[test]
fn duration_difference_and_product() {
    assert_eq!((Duration::from_cycles(9) - Duration::from_cycles(4)).as_cycles(), 5);
    assert_eq!((Duration::from_cycles(9) - Duration::from_cycles(9)).as_cycles(), 0);
    assert_eq!((Duration::from_cycles(6301) * 3).as_cycles(), 18_903);
    assert_eq!((Duration::from_cycles(6301) * 0).as_cycles(), 0);
}

#[test]
fn duration_assign_operators() {
    let mut d = Duration::from_cycles(10);
    d += Duration::from_cycles(5);
    assert_eq!(d.as_cycles(), 15);
    d -= Duration::from_cycles(3);
    assert_eq!(d.as_cycles(), 12);
    d *= 4;
    assert_eq!(d.as_cycles(), 48);
}

#[test]
fn product_is_repeated_addition() {
    let d = Duration::from_cycles(6301);
    let mut sum = Duration::from_cycles(0);
    for _ in 0..5 {
        sum += d;
    }
    assert_eq!(d * 5, sum);
}

#[test]
fn instants_order_by_ticks() {
    assert!(at(5) < at(9));
    assert!(at(9) > at(5));
    assert!(at(7) <= at(7));
    assert_eq!(at(7), at(7));
    assert_eq!(at(5).cmp(&at(9)), core::cmp::Ordering::Less);
    assert_eq!(at(5).partial_cmp(&at(9)), Some(core::cmp::Ordering::Less));
    assert_eq!(core::cmp::max(at(5), at(9)), at(9));
}

#[test]
fn instant_arithmetic_wraps() {
    let last = at(u32::MAX);
    assert_eq!((last + Duration::from_cycles(1)).counts(), 0);
    assert_eq!((last + Duration::from_cycles(10)).counts(), 9);
    assert_eq!((LinkedTim2Tim3::zero() - Duration::from_cycles(1)).counts(), u32::MAX);
    let mut i = at(3);
    i -= Duration::from_cycles(5);
    assert_eq!(i.counts(), u32::MAX - 1);
    i += Duration::from_cycles(2);
    assert_eq!(i.counts(), 0);
}

#[test]
fn periodic_deadline_is_exact() {
    let scheduled = at(1_000);
    let next = scheduled + Duration::from_cycles(6301);
    assert_eq!(next.counts(), 7_301);
    assert_eq!((next - scheduled).as_cycles(), 6301);
    let after = next + Duration::from_cycles(6301);
    assert_eq!(after.counts(), 13_602);
}

#[test]
fn periodic_deadline_across_the_wrap() {
    let scheduled = at(u32::MAX - 100);
    let next = scheduled + Duration::from_cycles(6301);
    assert_eq!(next.counts(), 6_200);
}
