//! Signed integers encoded as types: a two's-complement numeral system whose
//! arithmetic, bitwise, shift and comparison operators are resolved by the
//! trait system, each with a machine-checked statement of the value it yields.

pub mod repr;
pub mod bitwise;
pub mod boolean;
pub mod types;
pub mod variable;
pub mod standardization;
pub mod add1;
pub mod sub1;
pub mod neg;
pub mod not;
pub mod add;
pub mod angle;
pub mod sub;
pub mod mul;
pub mod shl;
pub mod shr;
pub mod bitand;
pub mod bitor;
pub mod bitxor;
pub mod cmp;
pub mod laws;
pub mod null;

pub use repr::Repr;
pub use types::{FixedPoint, Float, B0, B1, N1, P1, Z0};
pub use angle::{Degrees, Gradians};
pub use null::Null;
pub use variable::{PrimitiveInt, Var};
pub use boolean::{Boolean, False, Max, Min, True, I, O};
pub use types::{Negative, NonNegOne, NonOne, NonSpecial, NonZero, Positive, TypedInt, TypedNum, Unsigned};
pub use standardization::{IfB0, IfB1};
pub use add1::Add1;
pub use sub1::Sub1;
pub use neg::IntNeg;
pub use not::IntNot;
pub use add::{AddWithCarry, IntAdd};
pub use sub::{IntSub, SubWithBorrow};
pub use mul::IntMul;
pub use shl::IntShl;
pub use shr::IntShr;
pub use bitand::IntAnd;
pub use bitor::IntOr;
pub use bitxor::IntXor;
pub use cmp::{Cmp, Equal, Greater, IfGreater, IfLess, Less};
