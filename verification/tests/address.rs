use bh_mhd::address::{pack, unpack, wrap};
use bh_mhd::grid::SimDimensions;

#[test]
fn pack_concrete() {
    let dims = SimDimensions::new(8, 8, 8);
    assert_eq!(pack(&dims, 1, 2, 3), (19, 1));
    assert_eq!(pack(&dims, 0, 0, 0), (0, 0));
    assert_eq!(pack(&dims, 7, 7, 7), (63, 7));
}

#[test]
fn unpack_concrete() {
    let dims = SimDimensions::new(8, 8, 8);
    assert_eq!(unpack(&dims, 19, 1), (1, 2, 3));
    assert_eq!(unpack(&dims, 0, 0), (0, 0, 0));
    assert_eq!(unpack(&dims, 63, 7), (7, 7, 7));
}

#[test]
fn pack_unpack_roundtrip() {
    let dims = SimDimensions::new(5, 3, 4);
    for r in 0..3u32 {
        for l in 0..4u32 {
            for a in 0..5u32 {
                let (x, y) = pack(&dims, r, l, a);
                assert!(x < dims.width());
                assert!(y < dims.height());
                assert_eq!(unpack(&dims, x, y), (r, l, a));
            }
        }
    }
}

#[test]
fn unpack_pack_roundtrip() {
    let dims = SimDimensions::new(5, 3, 4);
    for x in 0..dims.width() {
        for y in 0..dims.height() {
            let (r, l, a) = unpack(&dims, x, y);
            assert_eq!(pack(&dims, r, l, a), (x, y));
        }
    }
}

#[test]
fn wrap_in_range_values() {
    for k in 0..8i64 {
        assert_eq!(wrap(k, 8), k as u32);
    }
}

#[test]
fn wrap_negative_values() {
    assert_eq!(wrap(-1, 8), 7);
    assert_eq!(wrap(-2, 8), 6);
    assert_eq!(wrap(-8, 8), 0);
    assert_eq!(wrap(-9, 8), 7);
    assert_eq!(wrap(-17, 8), 7);
    assert_eq!(wrap(-1000003, 10), 7);
}

#[test]
fn wrap_large_values() {
    assert_eq!(wrap(8, 8), 0);
    assert_eq!(wrap(17, 8), 1);
    assert_eq!(wrap(1000003, 10), 3);
    assert_eq!(wrap(i64::MAX, 2), 1);
    assert_eq!(wrap(i64::MIN, 2), 0);
    assert_eq!(wrap(i64::MIN, 3), 1);
}

#[test]
fn wrap_extent_one() {
    assert_eq!(wrap(-2, 1), 0);
    assert_eq!(wrap(-1, 1), 0);
    assert_eq!(wrap(0, 1), 0);
    assert_eq!(wrap(5, 1), 0);
}

#[test]
fn wrap_periodicity() {
    for k in -30..30i64 {
        for e in 1..9u32 {
            let w = wrap(k, e);
            assert!(w < e);
            assert_eq!(wrap(k + e as i64, e), w);
            assert_eq!(wrap(k - e as i64, e), w);
        }
    }
}

#[test]
fn width_height() {
    let dims = SimDimensions::new(100, 100, 100);
    assert_eq!(dims.width(), 10000);
    assert_eq!(dims.height(), 100);
}
