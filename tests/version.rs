use std::cmp::Ordering;

use dusk_api::Version;

fn v(major: usize, minor: usize, release: usize, build: usize) -> Version {
    Version { major, minor, release, build }
}

#[test]
fn version_compare_orders_parts_major_first() {
    let a = Version { major: 1, ..Default::default() };
    let b = Version { minor: 1, ..Default::default() };
    let c = v(0, 2, 1, 0);
    assert_eq!(a.compare(&b), Ordering::Greater);
    assert_eq!(b.compare(&c), Ordering::Less);
    assert_eq!(a.compare(&c), Ordering::Greater);
    assert_eq!(a.cmp(&b), Ordering::Greater);
    assert_eq!(b.partial_cmp(&c), Some(Ordering::Less));
}

#[test]
fn version_equal_only_when_all_parts_match() {
    assert_eq!(v(1, 2, 3, 4).compare(&v(1, 2, 3, 4)), Ordering::Equal);
    assert_eq!(v(1, 2, 3, 4), v(1, 2, 3, 4));
    assert_ne!(v(1, 2, 3, 4), v(1, 2, 3, 5));
    assert_eq!(v(1, 2, 3, 4).compare(&v(1, 2, 3, 5)), Ordering::Less);
    assert_eq!(v(1, 2, 4, 0).compare(&v(1, 2, 3, 9)), Ordering::Greater);
}

#[test]
fn version_order_is_total_and_transitive_on_samples() {
    let samples = vec![v(0, 0, 0, 0), v(0, 0, 0, 1), v(0, 1, 0, 0), v(1, 0, 0, 0), v(1, 0, 2, 0), v(2, 0, 0, 0)];
    for a in &samples {
        for b in &samples {
            let ab = a.compare(b);
            let ba = b.compare(a);
            assert_eq!(ab, ba.reverse());
            assert_eq!(ab == Ordering::Equal, a == b);
            for c in &samples {
                if ab == Ordering::Less && b.compare(c) == Ordering::Less {
                    assert_eq!(a.compare(c), Ordering::Less);
                }
            }
        }
    }
}

#[test]
fn version_default_is_zero() {
    assert_eq!(Version::default(), v(0, 0, 0, 0));
}
