use restricted_types::Restricted;
use restricted_types::RestrictedDyn;

#[test]
fn make_valid() {
    let mut num = RestrictedDyn::new(
        2u32,
        |n: &u32| *n >= 20 && *n <= 40,
        |n: &u32| *n % 20 + 20,
    );
    num.set_unchecked(62);
    num.make_valid();
    assert_eq!(22, *num.deref());
    num = num.add(37);
    assert_eq!(39, *num.deref());

    let r: &u32 = num.as_ref();
    assert_eq!(&39, r);
}

#[test]
fn construction_sanitizes_invalid_input() {
    let num = RestrictedDyn::new(
        2u32,
        |n: &u32| *n >= 20 && *n <= 40,
        |n: &u32| *n % 20 + 20,
    );
    assert_eq!(22, *num.deref());
}

#[test]
fn construction_keeps_valid_input_without_sanitizing() {
    let count = std::cell::Cell::new(0u32);
    let mut num = RestrictedDyn::new(
        25u32,
        |n: &u32| *n >= 20 && *n <= 40,
        |n: &u32| {
            count.set(count.get() + 1);
            *n % 20 + 20
        },
    );
    assert_eq!(25, *num.deref());
    assert_eq!(0, count.get());
    num.make_valid();
    assert_eq!(25, *num.deref());
    assert_eq!(0, count.get());
}

#[test]
fn add_resanitizes_the_sum() {
    let num = RestrictedDyn::new(
        2u32,
        |n: &u32| *n >= 20 && *n <= 40,
        |n: &u32| *n % 20 + 20,
    );
    let num = num.add(37);
    assert_eq!(39, *num.deref());
}

#[test]
fn repair_converges_over_several_iterations() {
    let mut num = RestrictedDyn::new(
        39u32,
        |n: &u32| *n >= 20 && *n <= 40,
        |n: &u32| *n % 20 + 20,
    );
    num.set_unchecked(62);
    assert_eq!(62, *num.deref());
    assert!(num.is_invalid());
    num.make_valid();
    assert_eq!(22, *num.deref());
    assert!(num.is_valid());
}

#[test]
fn strict_construction_with_valid_input() {
    let num: RestrictedDyn<u32, _, fn(&u32) -> u32> =
        RestrictedDyn::new_strict(25, |n: &u32| *n >= 20 && *n <= 40);
    assert_eq!(25, *num.deref());
    assert_eq!(25, num.into_inner());
}

#[test]
fn replacing_the_check_resanitizes_with_existing_sanitizer() {
    let mut num = RestrictedDyn::new(
        80u32,
        (|n: &u32| *n < 100) as fn(&u32) -> bool,
        (|n: &u32| *n / 2) as fn(&u32) -> u32,
    );
    assert_eq!(80, *num.deref());
    num.set_check((|n: &u32| *n < 30) as fn(&u32) -> bool);
    assert_eq!(20, *num.deref());
}

#[test]
fn replacing_the_sanitizer_leaves_the_value_alone() {
    let mut num = RestrictedDyn::new(
        22u32,
        (|n: &u32| *n >= 20 && *n <= 40) as fn(&u32) -> bool,
        (|n: &u32| *n % 20 + 20) as fn(&u32) -> u32,
    );
    num.set_sanitizer((|n: &u32| if *n > 40 { 40 } else { 20 }) as fn(&u32) -> u32);
    assert_eq!(22, *num.deref());
    let num = num.add(100);
    assert_eq!(40, *num.deref());
}

#[test]
fn replacing_both_bounds_resanitizes_with_the_new_pair() {
    let mut num = RestrictedDyn::new(
        39u32,
        (|n: &u32| *n >= 20 && *n <= 40) as fn(&u32) -> bool,
        (|n: &u32| *n % 20 + 20) as fn(&u32) -> u32,
    );
    num.set_bounds(
        (|n: &u32| *n < 10) as fn(&u32) -> bool,
        (|n: &u32| *n % 10) as fn(&u32) -> u32,
    );
    assert_eq!(9, *num.deref());
}

#[test]
fn set_sanitizes_before_commit() {
    let mut num = RestrictedDyn::new(
        22u32,
        |n: &u32| *n >= 20 && *n <= 40,
        |n: &u32| *n % 20 + 20,
    );
    num.set(100);
    assert_eq!(20, *num.deref());
    num.set(33);
    assert_eq!(33, *num.deref());
}

#[test]
fn into_checks_hands_back_check_and_sanitizer() {
    let num = RestrictedDyn::new(
        22u32,
        |n: &u32| *n >= 20 && *n <= 40,
        |n: &u32| *n % 20 + 20,
    );
    let (check, sanitizer) = num.into_checks();
    assert!(check(&25));
    assert!(!check(&50));
    let f = sanitizer.unwrap();
    assert_eq!(22, f(&2));
}

#[test]
fn allowed_and_validity_queries() {
    let num = RestrictedDyn::new(
        22u32,
        |n: &u32| *n >= 20 && *n <= 40,
        |n: &u32| *n % 20 + 20,
    );
    assert!(num.is_allowed(&30));
    assert!(!num.is_allowed(&50));
    assert!(num.is_disallowed(&50));
    assert!(!num.is_disallowed(&30));
    assert!(num.is_valid());
    assert!(!num.is_invalid());
}

#[test]
fn reads_leave_the_value_unchanged() {
    let num = RestrictedDyn::new(
        2u32,
        |n: &u32| *n >= 20 && *n <= 40,
        |n: &u32| *n % 20 + 20,
    );
    assert_eq!(22, *num.deref());
    assert_eq!(22, *num.as_ref());
    assert_eq!(22, num.clone_inner());
    assert!(num.is_valid());
    assert_eq!(22, *num.deref());
    assert_eq!(22, num.into_inner());
}

#[test]
fn sanitize_repairs_an_external_value() {
    let num = RestrictedDyn::new(
        22u32,
        |n: &u32| *n >= 20 && *n <= 40,
        |n: &u32| *n % 20 + 20,
    );
    let mut outside = 62u32;
    num.sanitize(&mut outside);
    assert_eq!(22, outside);
    let mut valid = 33u32;
    num.sanitize(&mut valid);
    assert_eq!(33, valid);
}

#[test]
fn sub_resanitizes_the_difference() {
    let num = RestrictedDyn::new(
        22u32,
        |n: &u32| *n >= 20 && *n <= 40,
        |n: &u32| *n % 20 + 20,
    );
    let num = num.sub(10);
    assert_eq!(32, *num.deref());
}

#[test]
fn mul_resanitizes_the_product() {
    let num = RestrictedDyn::new(
        22u32,
        |n: &u32| *n >= 20 && *n <= 40,
        |n: &u32| *n % 20 + 20,
    );
    let num = num.mul(2);
    assert_eq!(24, *num.deref());
}

#[test]
fn div_resanitizes_the_quotient() {
    let num = RestrictedDyn::new(
        39u32,
        |n: &u32| *n >= 20 && *n <= 40,
        |n: &u32| *n % 20 + 20,
    );
    let num = num.div(3);
    assert_eq!(33, *num.deref());
}

#[test]
fn rem_resanitizes_the_remainder() {
    let num = RestrictedDyn::new(
        39u32,
        |n: &u32| *n >= 20 && *n <= 40,
        |n: &u32| *n % 20 + 20,
    );
    let num = num.rem(25);
    assert_eq!(34, *num.deref());
}

#[test]
fn bitand_resanitizes_the_result() {
    let num = RestrictedDyn::new(
        39u32,
        |n: &u32| *n >= 20 && *n <= 40,
        |n: &u32| *n % 20 + 20,
    );
    let num = num.bitand(60);
    assert_eq!(36, *num.deref());
}

#[test]
fn bitor_resanitizes_the_result() {
    let num = RestrictedDyn::new(
        22u32,
        |n: &u32| *n >= 20 && *n <= 40,
        |n: &u32| *n % 20 + 20,
    );
    let num = num.bitor(9);
    assert_eq!(31, *num.deref());
}

#[test]
fn bitxor_resanitizes_the_result() {
    let num = RestrictedDyn::new(
        22u32,
        |n: &u32| *n >= 20 && *n <= 40,
        |n: &u32| *n % 20 + 20,
    );
    let num = num.bitxor(1);
    assert_eq!(23, *num.deref());
}

#[test]
fn shl_resanitizes_the_result() {
    let num = RestrictedDyn::new(
        22u32,
        |n: &u32| *n >= 20 && *n <= 40,
        |n: &u32| *n % 20 + 20,
    );
    let num = num.shl(1u32);
    assert_eq!(24, *num.deref());
}

#[test]
fn shr_resanitizes_the_result() {
    let num = RestrictedDyn::new(
        39u32,
        |n: &u32| *n >= 20 && *n <= 40,
        |n: &u32| *n % 20 + 20,
    );
    let num = num.shr(1u32);
    assert_eq!(39, *num.deref());
}

#[test]
fn neg_resanitizes_the_result() {
    let num = RestrictedDyn::new(
        5i32,
        |n: &i32| -10 <= *n && *n <= 10,
        |n: &i32| if *n < -10 {
            -10
        } else if *n > 10 {
            10
        } else {
            *n
        },
    );
    let num = num.neg();
    assert_eq!(-5, *num.deref());
    let num = num.mul(-4);
    assert_eq!(10, *num.deref());
}

#[test]
fn not_resanitizes_the_result() {
    let num = RestrictedDyn::new(
        22u32,
        |n: &u32| *n >= 20 && *n <= 40,
        |n: &u32| *n % 20 + 20,
    );
    let num = num.not();
    assert_eq!(33, *num.deref());
}

#[test]
fn indexed_reads_delegate_to_the_value() {
    let num = RestrictedDyn::new(
        [3u32, 1, 2],
        |a: &[u32; 3]| a[0] <= a[1] && a[1] <= a[2],
        |a: &[u32; 3]| {
            let mut b = *a;
            b.sort();
            b
        },
    );
    assert_eq!(1, *num.index(0));
    assert_eq!(2, *num.index(1));
    assert_eq!(3, *num.index(2));
}
