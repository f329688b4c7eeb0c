use dusk_api::Version;
use std::cmp::Ordering;

fn v(major: usize, minor: usize, release: usize, build: usize) -> Version {
    Version { major, minor, release, build }
}

#[test]
fn major_decides_first() {
    assert_eq!(v(2, 0, 0, 0).cmp(&v(1, 9, 9, 9)), Ordering::Greater);
    assert_eq!(v(1, 9, 9, 9).cmp(&v(2, 0, 0, 0)), Ordering::Less);
}

#[test]
fn minor_then_release_then_build() {
    assert_eq!(v(1, 2, 0, 0).cmp(&v(1, 3, 0, 0)), Ordering::Less);
    assert_eq!(v(1, 2, 5, 0).cmp(&v(1, 2, 4, 9)), Ordering::Greater);
    assert_eq!(v(1, 2, 3, 4).cmp(&v(1, 2, 3, 5)), Ordering::Less);
    assert_eq!(v(1, 2, 3, 4).cmp(&v(1, 2, 3, 4)), Ordering::Equal);
}

#[test]
fn equality_is_all_numbers() {
    assert!(v(1, 23, 0, 0) == v(1, 23, 0, 0));
    assert!(v(1, 23, 0, 0) != v(1, 23, 0, 1));
    assert!(v(0, 0, 0, 0) != v(1, 0, 0, 0));
}

#[test]
fn partial_cmp_agrees_with_cmp() {
    let vs = [v(0, 0, 0, 0), v(0, 0, 0, 1), v(0, 6, 0, 0), v(1, 23, 0, 0), v(1, 23, 1, 0)];
    for a in vs.iter() {
        for b in vs.iter() {
            assert_eq!(a.partial_cmp(b), Some(a.cmp(b)));
            assert_eq!(a == b, a.cmp(b) == Ordering::Equal);
            assert_eq!(a < b, a.cmp(b) == Ordering::Less);
        }
    }
}

#[test]
fn order_is_antisymmetric_and_transitive() {
    let vs = [v(0, 0, 0, 0), v(0, 0, 9, 1), v(0, 6, 0, 0), v(1, 0, 0, 0), v(1, 23, 1, 0)];
    for a in vs.iter() {
        for b in vs.iter() {
            assert_eq!(b.cmp(a), a.cmp(b).reverse());
            for c in vs.iter() {
                if a <= b && b <= c {
                    assert!(a <= c);
                }
            }
        }
    }
}

#[test]
fn default_is_zero_and_least() {
    let d = Version::default();
    assert_eq!((d.major, d.minor, d.release, d.build), (0, 0, 0, 0));
    assert!(d <= v(0, 0, 0, 0));
    assert!(d < v(0, 0, 0, 1));
}

#[test]
fn derived_ord_sorts_as_cmp() {
    let mut vs = vec![v(1, 0, 0, 0), v(0, 6, 0, 0), v(1, 23, 0, 0), v(0, 0, 0, 1)];
    vs.sort();
    assert_eq!(vs, vec![v(0, 0, 0, 1), v(0, 6, 0, 0), v(1, 0, 0, 0), v(1, 23, 0, 0)]);
}
