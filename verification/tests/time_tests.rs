use pal::time::Duration;
use pal::time::NANOS_PER_SEC;

#[test]
fn duration_new_carries_overflowing_nanos() {
    let d = Duration::new(1, 1_500_000_000);
    assert_eq!(d.as_secs(), 2);
    assert_eq!(d.subsec_nanos(), 500_000_000);

    let d = Duration::new(3, 999_999_999);
    assert_eq!(d.as_secs(), 3);
    assert_eq!(d.subsec_nanos(), 999_999_999);
}

#[test]
fn duration_checked_add() {
    let a = Duration::new(1, 800_000_000);
    let b = Duration::new(2, 700_000_000);
    let c = a.checked_add(&b).unwrap();
    assert_eq!(c.as_secs(), 4);
    assert_eq!(c.subsec_nanos(), 500_000_000);

    let max = Duration::new(u64::MAX, NANOS_PER_SEC - 1);
    assert!(max.checked_add(&Duration::new(0, 1)).is_none());
    assert!(max.checked_add(&Duration::new(0, 0)).is_some());
}

#[test]
fn duration_checked_sub() {
    let a = Duration::new(3, 200_000_000);
    let b = Duration::new(1, 700_000_000);
    let c = a.checked_sub(&b).unwrap();
    assert_eq!(c.as_secs(), 1);
    assert_eq!(c.subsec_nanos(), 500_000_000);

    assert!(b.checked_sub(&a).is_none());
    let z = a.checked_sub(&a).unwrap();
    assert_eq!(z.as_secs(), 0);
    assert_eq!(z.subsec_nanos(), 0);
}
