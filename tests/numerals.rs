use unitrix::{IfB1, Null, B0, B1, N1, P1, Z0};

#[test]
fn test_basic_multiplication() {
    let _: Z0 = Z0 * Z0;
    let _: Z0 = Z0 * P1;
    let _: Z0 = Z0 * N1;

    let _: Z0 = P1 * Z0;
    let _: P1 = P1 * P1;
    let _: N1 = P1 * N1;

    let _: Z0 = N1 * Z0;
    let _: N1 = N1 * P1;
    let _: P1 = N1 * N1;
}

#[test]
fn test_b0_multiplication() {
    let b0_p1: B0<P1> = B0::new();
    let _: Z0 = b0_p1 * Z0;
    let _: B0<P1> = b0_p1 * P1;
    let _: B0<N1> = b0_p1 * N1;
}

#[test]
fn test_b1_multiplication() {
    let b1_p1: B1<P1> = B1::new();
    let _: Z0 = b1_p1 * Z0;
}

#[test]
fn mul_test_basic_multiplication() {
    let _: Z0 = Z0 * Z0;
    let _: Z0 = Z0 * P1;
    let _: Z0 = Z0 * N1;

    let _: Z0 = P1 * Z0;
    let _: P1 = P1 * P1;
    let _: N1 = P1 * N1;

    let _: Z0 = N1 * Z0;
    let _: N1 = N1 * P1;
    let _: P1 = N1 * N1;
}

#[test]
fn mul_test_b0_multiplication() {
    let b0_p1: B0<P1> = B0::new();
    let _: Z0 = b0_p1 * Z0;
    let _: B0<P1> = b0_p1 * P1;
    let _: B0<N1> = b0_p1 * N1;
}

#[test]
fn mul_test_b1_multiplication() {
    let b1_p1: B1<P1> = B1::new();
    let _: Z0 = b1_p1 * Z0;
}

#[test]
fn test_shr() {
    let _: Z0 = Z0 >> Z0;
    let _: Z0 = Z0 >> P1;

    let _: P1 = P1 >> Z0;
    let _: Z0 = P1 >> P1;

    let _: N1 = N1 >> Z0;
    let _: N1 = N1 >> P1;

    let b0: B0<P1> = B0::new();
    let _: B0<P1> = b0 >> Z0;
    let _: P1 = b0 >> P1;

    let b1: B1<P1> = B1::new();
    let _: B1<P1> = b1 >> Z0;
    let _: P1 = b1 >> P1;
}

#[test]
fn test_null_default() {
    assert_eq!(Null::default(), Null);
}

#[test]
fn test_null_ordering() {
    assert!(Null <= Null);
    assert!(Null >= Null);
    assert!(!(Null < Null));
    assert!(!(Null > Null));
}

#[test]
fn test_basic_not() {
    assert_eq!(!Z0, N1);
    assert_eq!(!P1, B0::<N1>::new());
    assert_eq!(!N1, Z0);
}

#[test]
fn test_recursive_not() {
    let b0n1 = B0::<N1>::new();
    assert_eq!(!b0n1, P1);

    let b1z0 = B1::<P1>::new();
    assert_eq!(!b1z0, B0::<B0<N1>>::new());
}

#[test]
fn test_neg_z0() {
    let zero = Z0;
    let neg_zero = -zero;
    assert_eq!(neg_zero, Z0);
}

#[test]
fn test_neg_p1() {
    let one = P1;
    let neg_one = -one;
    assert_eq!(neg_one, N1);
}

#[test]
fn test_neg_n1() {
    let neg_one = N1;
    let one = -neg_one;
    assert_eq!(one, P1);
}

#[test]
fn test_neg_b0() {
    type B0P1 = B0<P1>;
    type B0N1 = B0<N1>;

    let b0p1 = B0P1::new();
    let b0n1 = -b0p1;
    assert_eq!(b0n1, B0N1::new());

    let b0n1_orig = B0N1::new();
    let b0p1_again = -b0n1_orig;
    assert_eq!(b0p1_again, B0P1::new());
}

#[test]
fn test_neg_b1() {
    type B1P1 = B1<P1>;
    type B1B0N1 = B1<B0<N1>>;

    let b1p1 = B1P1::new();
    let b1b0n1 = -b1p1;
    assert_eq!(b1b0n1, B1B0N1::new());

    let b1b0n1_orig = B1B0N1::new();
    let b1p1_again = -b1b0n1_orig;
    assert_eq!(b1p1_again, B1P1::new());
}

#[test]
fn test_primitive_or() {
    assert_eq!(Z0 | Z0, Z0);
    assert_eq!(P1 | N1, N1);
    assert_eq!(B0::<P1>::new() | B1::<P1>::new(), B1::<P1>::new());
}

#[test]
fn test_edge_cases() {
    assert_eq!(N1 | Z0, N1);
    assert_eq!(B0::<N1>::new() | N1, N1);
    assert_eq!(
        B1::<P1>::new() | B0::<N1>::new(),
        <<P1 as std::ops::BitOr<N1>>::Output as IfB1>::Output::new()
    );
}
