use tui_wrapper::span::Span;

#[test]
fn millis_are_exact() {
    let s = Span::from_millis(1_250);
    assert_eq!(s.as_secs(), 1);
    assert_eq!(s.subsec_nanos(), 250_000_000);
    assert_eq!(s.as_nanos(), 1_250_000_000u128);
}

#[test]
fn zero_is_empty() {
    let z = Span::zero();
    assert_eq!(z.as_secs(), 0);
    assert_eq!(z.subsec_nanos(), 0);
    assert_eq!(z.as_nanos(), 0u128);
    assert_eq!(z, Span::from_secs(0));
    assert_eq!(z, Span::from_millis(0));
}

#[test]
fn seconds_are_exact() {
    let s = Span::from_secs(7);
    assert_eq!(s.as_nanos(), 7_000_000_000u128);
    assert_eq!(s.subsec_nanos(), 0);
}

#[test]
fn largest_values_do_not_overflow() {
    let s = Span::from_secs(u64::MAX);
    assert_eq!(s.as_nanos(), (u64::MAX as u128) * 1_000_000_000u128);
    let m = Span::from_millis(u64::MAX);
    assert_eq!(m.as_nanos(), (u64::MAX as u128) * 1_000_000u128);
    let top = Span::new(u64::MAX, 999_999_999).unwrap();
    assert_eq!(top.as_nanos(), (u64::MAX as u128) * 1_000_000_000u128 + 999_999_999u128);
    assert_eq!(top.saturating_sub(&Span::zero()), top);
    assert_eq!(Span::zero().saturating_sub(&top), Span::zero());
}

#[test]
fn new_takes_parts_below_one_second() {
    let s = Span::new(3, 999_999_999).unwrap();
    assert_eq!(s.as_secs(), 3);
    assert_eq!(s.subsec_nanos(), 999_999_999);
    assert_eq!(s.as_nanos(), 3_999_999_999u128);
}

#[test]
fn new_refuses_a_full_second_of_nanos() {
    assert!(Span::new(0, 1_000_000_000).is_none());
    assert!(Span::new(5, u32::MAX).is_none());
}

#[test]
fn at_least_orders_by_length() {
    let a = Span::new(1, 500).unwrap();
    let b = Span::new(1, 499).unwrap();
    let c = Span::new(0, 999_999_999).unwrap();
    assert!(a.at_least(&a));
    assert!(a.at_least(&b));
    assert!(!b.at_least(&a));
    assert!(b.at_least(&c));
    assert!(!c.at_least(&b));
}

#[test]
fn saturating_sub_borrows_from_the_seconds() {
    let a = Span::new(2, 100).unwrap();
    let b = Span::new(0, 200).unwrap();
    let d = a.saturating_sub(&b);
    assert_eq!(d.as_secs(), 1);
    assert_eq!(d.subsec_nanos(), 999_999_900);
}

#[test]
fn saturating_sub_stops_at_zero() {
    let a = Span::from_millis(20);
    let b = Span::from_millis(50);
    assert_eq!(a.saturating_sub(&b), Span::zero());
    assert_eq!(a.saturating_sub(&a), Span::zero());
    assert_eq!(b.saturating_sub(&a), Span::from_millis(30));
}
