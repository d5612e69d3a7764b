use unitrix::{Var, B0, B1, N1, P1, Z0};

#[test]
fn test_z0_bitand() {
    assert_eq!(Z0 & Z0, Z0);
    assert_eq!(Z0 & P1, Z0);
    assert_eq!(Z0 & N1, Z0);

    let b0 = B0::<P1>::new();
    let b1 = B1::<P1>::new();
    assert_eq!(Z0 & b0, Z0);
    assert_eq!(Z0 & b1, Z0);

    let var = Var(5i32);
    assert_eq!(Z0 & var, Z0);
}

#[test]
fn test_p1_bitand() {
    assert_eq!(P1 & Z0, Z0);
    assert_eq!(P1 & P1, P1);
    assert_eq!(P1 & N1, P1);

    let b0 = B0::<P1>::new();
    let b1 = B1::<P1>::new();
    assert_eq!(P1 & b0, Z0);
    assert_eq!(P1 & b1, P1);

    let var = Var(3i32);
    assert_eq!(P1 & var, Var(3i32 & 1_i32));
}

#[test]
fn test_n1_bitand() {
    assert_eq!(N1 & Z0, Z0);
    assert_eq!(N1 & P1, P1);
    assert_eq!(N1 & N1, N1);

    let b0 = B0::<P1>::new();
    let b1 = B1::<P1>::new();
    assert_eq!(N1 & b0, b0);
    assert_eq!(N1 & b1, b1);

    let var = Var(3i32);
    assert_eq!(N1 & var, N1);
}

#[test]
fn test_b0_bitand() {
    let b0_p1 = B0::<P1>::new();
    let b1_p1 = B1::<P1>::new();
    let b0_n1 = B0::<N1>::new();

    assert_eq!(b0_p1 & Z0, Z0);
    assert_eq!(b0_p1 & P1, Z0);
    assert_eq!(b0_p1 & N1, b0_p1);

    assert_eq!(b0_p1 & b0_p1, B0::<P1>::new());
    assert_eq!(b0_p1 & b1_p1, B0::<P1>::new());
    assert_eq!(b0_n1 & b0_n1, B0::<N1>::new());

    let var = Var(5i32);
    assert_eq!(b0_p1 & var, Var(0i32));
}

#[test]
fn test_b1_bitand() {
    let b0_p1 = B0::<P1>::new();
    let b1_p1 = B1::<P1>::new();
    let b0_n1 = B0::<N1>::new();

    assert_eq!(b1_p1 & Z0, Z0);
    assert_eq!(b1_p1 & P1, P1);
    assert_eq!(b1_p1 & N1, b1_p1);

    assert_eq!(b1_p1 & b0_p1, B0::<P1>::new());
    assert_eq!(b1_p1 & b1_p1, B1::<P1>::new());
    assert_eq!(b0_n1 & b0_n1, B0::<N1>::new());

    let var = Var(5i32);
    assert_eq!(b1_p1 & var, Var(1i32));
}

#[test]
fn test_var_bitand() {
    let var1 = Var(5i32);
    let var2 = Var(3i32);

    assert_eq!(var1 & var2, Var(5i32 & 3i32));

    assert_eq!(var1 & Z0, Z0);
    assert_eq!(var1 & P1, Var(5i32 & 1i32));
    assert_eq!(var1 & N1, N1);

    let b0 = B0::<P1>::new();
    let b1 = B1::<P1>::new();
    assert_eq!(var1 & b0, Var(5i32 & 0));
    assert_eq!(var1 & b1, Var(5i32 & 1));
}

#[test]
fn test_var_or() {
    let v1 = Var(0b1010i8);
    let v2 = Var(0b0101i8);
    assert_eq!(v1 | v2, Var(0b1111i8));
    assert_eq!(v1 | P1, Var(0b1011i8));
}

#[test]
fn test_z0_operations() {
    assert_eq!(Z0 ^ Z0, Z0);
    assert_eq!(Z0 ^ P1, P1);
    assert_eq!(Z0 ^ N1, N1);

    let b0 = B0::<P1>::new();
    let b1 = B1::<P1>::new();
    assert_eq!(Z0 ^ b0, b0);
    assert_eq!(Z0 ^ b1, b1);

    let var = Var(42);
    assert_eq!(Z0 ^ var, var);
}

#[test]
fn test_p1_operations() {
    assert_eq!(P1 ^ Z0, P1);
    assert_eq!(P1 ^ P1, Z0);
    assert_eq!(P1 ^ N1, B0::<N1>::new());

    let b0 = B0::<P1>::new();
    let b1 = B1::<P1>::new();
    assert_eq!(P1 ^ b0, B1::<P1>::new());
    assert_eq!(P1 ^ b1, B0::<P1>::new());

    let var = Var(42);
    assert_eq!(P1 ^ var, Var(42 ^ 1));
}

#[test]
fn test_n1_operations() {
    assert_eq!(N1 ^ Z0, N1);
    assert_eq!(N1 ^ P1, B0::<N1>::new());
    assert_eq!(N1 ^ N1, Z0);

    let b0 = B0::<P1>::new();
    let b1 = B1::<P1>::new();
    assert_eq!(N1 ^ b0, B1::<B0<N1>>::new());
    assert_eq!(N1 ^ b1, B0::<B0<N1>>::new());

    let var = Var(42);
    assert_eq!(N1 ^ var, Var(!42));
}

#[test]
fn test_b0_operations() {
    let b0_p1 = B0::<P1>::new();

    assert_eq!(b0_p1 ^ Z0, b0_p1);
    assert_eq!(b0_p1 ^ P1, B1::<P1>::new());
    assert_eq!(b0_p1 ^ N1, B1::<B0<N1>>::new());
    assert_eq!(b0_p1 ^ B0::<P1>::new(), Z0);
    assert_eq!(b0_p1 ^ B0::<N1>::new(), B0::<B0<N1>>::new());
    assert_eq!(b0_p1 ^ B1::<P1>::new(), P1);

    let var = Var(42);
    assert_eq!(b0_p1 ^ var, Var(2 ^ 42));
}

#[test]
fn test_b1_operations() {
    let b1_p1 = B1::<P1>::new();

    assert_eq!(b1_p1 ^ Z0, b1_p1);
    assert_eq!(b1_p1 ^ P1, B0::<P1>::new());
    assert_eq!(b1_p1 ^ N1, B0::<B0<N1>>::new());
    assert_eq!(b1_p1 ^ B0::<P1>::new(), P1);
    assert_eq!(b1_p1 ^ B1::<P1>::new(), Z0);
    assert_eq!(b1_p1 ^ N1, B0::<B0<N1>>::new());

    let var = Var(42);
    assert_eq!(b1_p1 ^ var, Var(3 ^ 42));
}

#[test]
fn test_var_operations() {
    let var1 = Var(42);
    let var2 = Var(13);

    assert_eq!(var1 ^ var2, Var(42 ^ 13));
    assert_eq!(var1 ^ Z0, var1);
    assert_eq!(var1 ^ P1, Var(42 ^ 1));
    assert_eq!(var1 ^ N1, Var(!42));

    let b0 = B0::<P1>::new();
    let b1 = B1::<P1>::new();
    assert_eq!(var1 ^ b0, Var(42 ^ 2));
    assert_eq!(var1 ^ b1, Var(42 ^ 3));
}

#[test]
fn test_var_not() {
    let var = Var(42i32);
    let res = !var;
    assert_eq!(res.0, !42i32);
}

#[test]
fn test_neg_var() {
    let var = Var(100_i32);
    let neg_var = -var;
    assert_eq!(neg_var, Var(-100));
}

#[test]
fn var_from_numerals() {
    let a: Var<i32> = Var::from(N1);
    assert_eq!(a, Var(-1));
    let b: Var<i8> = Var::from(P1);
    assert_eq!(b, Var(1i8));
    let c: Var<i64> = Var::from(Z0);
    assert_eq!(c, Var(0i64));
    let d: Var<i16> = Var::from(7i16);
    assert_eq!(d, Var(7i16));
}

#[test]
fn var_with_longer_numerals() {
    let v = Var(0b0110_1100i32);
    assert_eq!(v & B1::<B0<P1>>::new(), Var(0b0110_1100 & 5));
    assert_eq!(v | B1::<B0<N1>>::new(), Var(0b0110_1100 | -3));
    assert_eq!(B0::<B0<N1>>::new() ^ v, Var(-4 ^ 0b0110_1100));
}
