use unitrix::{
    Add1, Boolean, Cmp, Equal, False, Greater, IntAdd, IntSub, Less, Sub1, True, TypedInt, B0, B1,
    N1, P1, Z0,
};

#[test]
fn numeral_values() {
    assert_eq!(<Z0 as TypedInt>::to_i32(), 0);
    assert_eq!(<P1 as TypedInt>::to_i32(), 1);
    assert_eq!(<N1 as TypedInt>::to_i32(), -1);
    assert_eq!(<B0<P1> as TypedInt>::to_i32(), 2);
    assert_eq!(<B1<P1> as TypedInt>::to_i32(), 3);
    assert_eq!(<B0<N1> as TypedInt>::to_i32(), -2);
    assert_eq!(<B1<B0<N1>> as TypedInt>::to_i32(), -3);
    assert_eq!(<B0<B1<P1>> as TypedInt>::to_i32(), 6);
    assert_eq!(<B0<B0<B0<B0<B0<B0<P1>>>>>> as TypedInt>::to_i32(), 64);
    assert_eq!(<B0<B0<B0<B0<B0<B0<N1>>>>>> as TypedInt>::to_i32(), -64);
}

#[test]
fn increment_boundary_minus_two() {
    let r: N1 = B0::<N1>::new().add1();
    assert_eq!(r, N1);
}

#[test]
fn increment_then_decrement() {
    let x: B1<P1> = B1::<P1>::new().add1().sub1();
    assert_eq!(x, B1::<P1>::new());
    let y: B0<N1> = B0::<N1>::new().add1().sub1();
    assert_eq!(y, B0::<N1>::new());
    let z: Z0 = Z0.sub1().add1();
    assert_eq!(z, Z0);
    let w: B0<P1> = B0::<P1>::new().sub1().add1();
    assert_eq!(w, B0::<P1>::new());
}

#[test]
fn increment_carries() {
    let r: B0<B0<P1>> = B1::<P1>::new().add1();
    assert_eq!(<B0<B0<P1>> as TypedInt>::to_i32(), 4);
    assert_eq!(r, B0::<B0<P1>>::new());
}

#[test]
fn add_three_and_three() {
    let r: B0<B1<P1>> = B1::<P1>::new() + B1::<P1>::new();
    assert_eq!(r, B0::<B1<P1>>::new());
    assert_eq!(<B0<B1<P1>> as TypedInt>::to_i32(), 6);
}

#[test]
fn add_values() {
    let a: P1 = B1::<P1>::new() + B0::<N1>::new();
    assert_eq!(a, P1);
    let b: Z0 = B1::<B0<N1>>::new() + B1::<P1>::new();
    assert_eq!(b, Z0);
    let c: B1<B0<N1>> = N1 + B0::<N1>::new();
    assert_eq!(c, B1::<B0<N1>>::new());
    let d: B1<P1> = B1::<P1>::new().int_add(Z0);
    assert_eq!(d, B1::<P1>::new());
}

#[test]
fn add_commutes_and_associates() {
    let ab: B1<B0<P1>> = B0::<P1>::new() + B1::<P1>::new();
    let ba: B1<B0<P1>> = B1::<P1>::new() + B0::<P1>::new();
    assert_eq!(ab, ba);
    let left: B0<B1<P1>> = (P1 + B0::<P1>::new()) + B1::<P1>::new();
    let right: B0<B1<P1>> = P1 + (B0::<P1>::new() + B1::<P1>::new());
    assert_eq!(left, right);
}

#[test]
fn sub_values() {
    let a: N1 = B0::<P1>::new() - B1::<P1>::new();
    assert_eq!(a, N1);
    let b: P1 = B0::<B0<P1>>::new() - B1::<P1>::new();
    assert_eq!(b, P1);
    let c: B1<B0<N1>> = Z0 - B1::<P1>::new();
    assert_eq!(c, B1::<B0<N1>>::new());
    let d: B0<P1> = P1 - N1;
    assert_eq!(d, B0::<P1>::new());
    let e: Z0 = B1::<P1>::new().int_sub(B1::<P1>::new());
    assert_eq!(e, Z0);
}

#[test]
fn mul_two_by_minus_one() {
    let r: B0<N1> = B0::<P1>::new() * N1;
    assert_eq!(r, B0::<N1>::new());
}

#[test]
fn mul_values() {
    let nine: B1<B0<B0<P1>>> = B1::<P1>::new() * B1::<P1>::new();
    assert_eq!(<B1<B0<B0<P1>>> as TypedInt>::to_i32(), 9);
    assert_eq!(nine, B1::<B0<B0<P1>>>::new());
    let same: B1<P1> = B1::<P1>::new() * P1;
    assert_eq!(same, B1::<P1>::new());
    let zero: Z0 = B1::<B0<N1>>::new() * Z0;
    assert_eq!(zero, Z0);
    let minus_six: B0<B1<B0<N1>>> = B1::<P1>::new() * B0::<N1>::new();
    assert_eq!(<B0<B1<B0<N1>>> as TypedInt>::to_i32(), -6);
    assert_eq!(minus_six, B0::<B1<B0<N1>>>::new());
}

#[test]
fn shift_values() {
    let twelve: B0<B0<B1<P1>>> = B1::<P1>::new() << B0::<P1>::new();
    assert_eq!(twelve, B0::<B0<B1<P1>>>::new());
    let minus_four: B0<B0<N1>> = N1 << B0::<P1>::new();
    assert_eq!(minus_four, B0::<B0<N1>>::new());
    let one: P1 = B1::<P1>::new() >> P1;
    assert_eq!(one, P1);
    let floor: B0<N1> = B1::<B0<N1>>::new() >> P1;
    assert_eq!(floor, B0::<N1>::new());
    let sign: N1 = B0::<N1>::new() >> B0::<P1>::new();
    assert_eq!(sign, N1);
    let gone: Z0 = B1::<P1>::new() >> B0::<P1>::new();
    assert_eq!(gone, Z0);
}

#[test]
fn compare_two_with_one() {
    let r: Greater = B0::<P1>::new().compare(P1);
    assert_eq!(r, P1);
    assert_eq!(<Greater as unitrix::cmp::Ord>::to_ordering(), std::cmp::Ordering::Greater);
}

#[test]
fn compare_values() {
    let a: Less = N1.compare(B0::<P1>::new());
    assert_eq!(a, N1);
    let b: Equal = B1::<P1>::new().compare(B1::<P1>::new());
    assert_eq!(b, Z0);
    let c: Less = B0::<P1>::new().compare(B1::<P1>::new());
    assert_eq!(c, N1);
    let d: Greater = B1::<P1>::new().compare(B0::<P1>::new());
    assert_eq!(d, P1);
    let e: Greater = Z0.compare(B0::<N1>::new());
    assert_eq!(e, P1);
    let f: Less = B1::<B0<N1>>::new().compare(B0::<N1>::new());
    assert_eq!(f, N1);
    assert_eq!(<Less as unitrix::cmp::Ord>::to_ordering(), std::cmp::Ordering::Less);
    assert_eq!(<Equal as unitrix::cmp::Ord>::to_ordering(), std::cmp::Ordering::Equal);
}

#[test]
fn not_round_trip() {
    let a: B0<N1> = !P1;
    assert_eq!(a, B0::<N1>::new());
    let b: P1 = !B0::<N1>::new();
    assert_eq!(b, P1);
    let c: B1<P1> = !!B1::<P1>::new();
    assert_eq!(c, B1::<P1>::new());
}

#[test]
fn bitwise_identities() {
    let a: B1<B0<P1>> = B1::<B0<P1>>::new() & N1;
    assert_eq!(a, B1::<B0<P1>>::new());
    let o: N1 = B1::<B0<P1>>::new() | N1;
    assert_eq!(o, N1);
    let x: Z0 = B1::<B0<P1>>::new() ^ B1::<B0<P1>>::new();
    assert_eq!(x, Z0);
    let y: Z0 = B0::<N1>::new() ^ B0::<N1>::new();
    assert_eq!(y, Z0);
}

#[test]
fn booleans() {
    assert_eq!(!True, False);
    assert_eq!(!False, True);
    assert_eq!(True & False, False);
    assert_eq!(True | False, True);
    assert_eq!(True ^ True, False);
    assert!(True.as_bool());
    assert!(!False.as_bool());
}
