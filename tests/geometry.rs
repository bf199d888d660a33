use masonry_baseview::geometry::{floor_u32, size_to_logical, to_logical, to_physical, Ratio, Scale};

#[test]
fn to_logical_divides_exactly() {
    let s = Scale { num: 3, den: 2 };
    assert_eq!(to_logical(7, s), Ratio { num: 14, den: 3 });
    assert_eq!(to_logical(-5, s), Ratio { num: -10, den: 3 });
}

#[test]
fn to_physical_multiplies_exactly() {
    let s = Scale { num: 3, den: 2 };
    assert_eq!(to_physical(Ratio { num: 14, den: 3 }, s), Ratio { num: 42, den: 6 });
}

#[test]
fn extreme_coordinates_do_not_overflow() {
    let s = Scale { num: 65535, den: 65535 };
    let l = to_logical(i32::MIN, s);
    assert_eq!(l, Ratio { num: i32::MIN as i64 * 65535, den: 65535 });
    let p = to_physical(l, s);
    assert_eq!(p.num, i32::MIN as i64 * 65535 * 65535);
    assert_eq!(p.den, 65535 * 65535);
}

#[test]
fn size_to_logical_divides_by_scale() {
    assert_eq!(size_to_logical(1600, Scale { num: 2, den: 1 }), Ratio { num: 1600, den: 2 });
    assert_eq!(size_to_logical(u32::MAX, Scale { num: 1, den: 65535 }), Ratio { num: u32::MAX as i64 * 65535, den: 1 });
}

#[test]
fn floor_u32_saturates_at_both_ends() {
    assert_eq!(floor_u32(Ratio { num: 1601, den: 2 }), 800);
    assert_eq!(floor_u32(Ratio { num: -3, den: 2 }), 0);
    assert_eq!(floor_u32(Ratio { num: i64::MAX, den: 1 }), u32::MAX);
}
