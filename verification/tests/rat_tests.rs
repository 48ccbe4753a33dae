use sbgn_render::rat::{Rat, RAT_LIMIT};
use sbgn_render::transform::ceil_i64;

#[test]
fn whole_and_frac_construct_exactly() {
    let a = Rat::whole(7);
    assert_eq!(a.n, 7);
    assert_eq!(a.d, 1);
    let b = Rat::frac(3, 4);
    assert_eq!(b.n, 3);
    assert_eq!(b.d, 4);
}

#[test]
fn add_reduces_to_lowest_terms() {
    let a = Rat::frac(1, 3);
    let b = Rat::frac(1, 6);
    let c = a.add(&b).unwrap();
    assert_eq!(c.n, 1);
    assert_eq!(c.d, 2);
}

#[test]
fn sub_mul_div_exact_values() {
    let a = Rat::frac(7, 2);
    let b = Rat::frac(1, 2);
    let d = a.sub(&b).unwrap();
    assert_eq!((d.n, d.d), (3, 1));
    let m = a.mul(&b).unwrap();
    assert_eq!((m.n, m.d), (7, 4));
    let q = a.div(&b).unwrap();
    assert_eq!((q.n, q.d), (7, 1));
}

#[test]
fn div_by_zero_is_none() {
    let a = Rat::whole(5);
    let z = Rat::whole(0);
    assert!(a.div(&z).is_none());
}

#[test]
fn add_overflow_is_none() {
    let a = Rat::whole(RAT_LIMIT);
    let r = a.add(&a);
    assert!(r.is_none());
}

#[test]
fn negative_values_reduce_with_sign() {
    let a = Rat::frac(-6, 4);
    let b = Rat::whole(0);
    let c = a.add(&b).unwrap();
    assert_eq!((c.n, c.d), (-3, 2));
}

#[test]
fn eq_val_compares_values_not_representations() {
    let a = Rat::frac(2, 4);
    let b = Rat::frac(1, 2);
    assert!(a.eq_val(&b));
    assert!(!a.eq_val(&Rat::frac(1, 3)));
}

#[test]
fn min_max_pick_by_value() {
    let a = Rat::frac(1, 3);
    let b = Rat::frac(1, 2);
    assert_eq!(a.min(&b), a);
    assert_eq!(a.max(&b), b);
    assert!(a.lt(&b));
    assert!(a.le(&b));
    assert!(!b.le(&a));
}

#[test]
fn neg_and_abs() {
    let a = Rat::frac(-3, 2);
    assert_eq!(a.abs(), Rat::frac(3, 2));
    assert_eq!(a.neg(), Rat::frac(3, 2));
    assert_eq!(Rat::frac(3, 2).neg(), Rat::frac(-3, 2));
}

#[test]
fn ceil_rounds_up() {
    assert_eq!(ceil_i64(&Rat::frac(7, 2)), 4);
    assert_eq!(ceil_i64(&Rat::whole(3)), 3);
    assert_eq!(ceil_i64(&Rat::frac(-7, 2)), -3);
    assert_eq!(ceil_i64(&Rat::frac(1, 100)), 1);
    assert_eq!(ceil_i64(&Rat::whole(0)), 0);
}
