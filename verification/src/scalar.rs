//! The capability interface implemented once per scalar kind: it ties each
//! carrier type to its `Kind`, reads a value as a mathematical integer, and
//! converts between the carrier and the wide working type the variable
//! logic computes in. A boolean reads as 0 or 1.

use vstd::prelude::*;

use crate::model::{in_range, Kind};

verus! {

/// A scalar type a process variable can carry.
pub trait Scalar: Copy {
    /// The kind tag of this carrier type.
    spec fn kind() -> Kind;

    /// The value as a mathematical integer (false reads as 0, true as 1).
    spec fn as_int(self) -> int;

    /// Every value of the carrier lies in its kind's range.
    proof fn lemma_range(self)
        ensures
            in_range(Self::kind(), self.as_int()),
    ;

    /// The kind tag, available to executable code.
    fn kind_ex() -> (k: Kind)
        ensures
            k == Self::kind(),
    ;

    /// Widens the value into the working type.
    fn to_core(self) -> (r: i128)
        ensures
            r as int == self.as_int(),
    ;

    /// Narrows an in-range working value back into the carrier.
    fn from_core(v: i128) -> (r: Self)
        requires
            in_range(Self::kind(), v as int),
        ensures
            r.as_int() == v as int,
    ;

    /// The carrier's zero (false for a boolean).
    fn zero() -> (r: Self)
        ensures
            r.as_int() == 0,
    ;

    /// The carrier's one (true for a boolean).
    fn one() -> (r: Self)
        ensures
            r.as_int() == 1,
    ;
}

/// A numeric scalar: every kind but the boolean. Only these carry the
/// arithmetic accessors.
pub trait NumScalar: Scalar {

}

impl Scalar for u8 {
    open spec fn kind() -> Kind {
        Kind::U8
    }

    open spec fn as_int(self) -> int {
        self as int
    }

    proof fn lemma_range(self) {
    }

    fn kind_ex() -> Kind {
        Kind::U8
    }

    fn to_core(self) -> i128 {
        self as i128
    }

    fn from_core(v: i128) -> u8 {
        v as u8
    }

    fn zero() -> u8 {
        0
    }

    fn one() -> u8 {
        1
    }
}

impl NumScalar for u8 {

}

impl Scalar for i8 {
    open spec fn kind() -> Kind {
        Kind::I8
    }

    open spec fn as_int(self) -> int {
        self as int
    }

    proof fn lemma_range(self) {
    }

    fn kind_ex() -> Kind {
        Kind::I8
    }

    fn to_core(self) -> i128 {
        self as i128
    }

    fn from_core(v: i128) -> i8 {
        v as i8
    }

    fn zero() -> i8 {
        0
    }

    fn one() -> i8 {
        1
    }
}

impl NumScalar for i8 {

}

impl Scalar for u16 {
    open spec fn kind() -> Kind {
        Kind::U16
    }

    open spec fn as_int(self) -> int {
        self as int
    }

    proof fn lemma_range(self) {
    }

    fn kind_ex() -> Kind {
        Kind::U16
    }

    fn to_core(self) -> i128 {
        self as i128
    }

    fn from_core(v: i128) -> u16 {
        v as u16
    }

    fn zero() -> u16 {
        0
    }

    fn one() -> u16 {
        1
    }
}

impl NumScalar for u16 {

}

impl Scalar for i16 {
    open spec fn kind() -> Kind {
        Kind::I16
    }

    open spec fn as_int(self) -> int {
        self as int
    }

    proof fn lemma_range(self) {
    }

    fn kind_ex() -> Kind {
        Kind::I16
    }

    fn to_core(self) -> i128 {
        self as i128
    }

    fn from_core(v: i128) -> i16 {
        v as i16
    }

    fn zero() -> i16 {
        0
    }

    fn one() -> i16 {
        1
    }
}

impl NumScalar for i16 {

}

impl Scalar for u32 {
    open spec fn kind() -> Kind {
        Kind::U32
    }

    open spec fn as_int(self) -> int {
        self as int
    }

    proof fn lemma_range(self) {
    }

    fn kind_ex() -> Kind {
        Kind::U32
    }

    fn to_core(self) -> i128 {
        self as i128
    }

    fn from_core(v: i128) -> u32 {
        v as u32
    }

    fn zero() -> u32 {
        0
    }

    fn one() -> u32 {
        1
    }
}

impl NumScalar for u32 {

}

impl Scalar for i32 {
    open spec fn kind() -> Kind {
        Kind::I32
    }

    open spec fn as_int(self) -> int {
        self as int
    }

    proof fn lemma_range(self) {
    }

    fn kind_ex() -> Kind {
        Kind::I32
    }

    fn to_core(self) -> i128 {
        self as i128
    }

    fn from_core(v: i128) -> i32 {
        v as i32
    }

    fn zero() -> i32 {
        0
    }

    fn one() -> i32 {
        1
    }
}

impl NumScalar for i32 {

}

impl Scalar for u64 {
    open spec fn kind() -> Kind {
        Kind::U64
    }

    open spec fn as_int(self) -> int {
        self as int
    }

    proof fn lemma_range(self) {
    }

    fn kind_ex() -> Kind {
        Kind::U64
    }

    fn to_core(self) -> i128 {
        self as i128
    }

    fn from_core(v: i128) -> u64 {
        v as u64
    }

    fn zero() -> u64 {
        0
    }

    fn one() -> u64 {
        1
    }
}

impl NumScalar for u64 {

}

impl Scalar for i64 {
    open spec fn kind() -> Kind {
        Kind::I64
    }

    open spec fn as_int(self) -> int {
        self as int
    }

    proof fn lemma_range(self) {
    }

    fn kind_ex() -> Kind {
        Kind::I64
    }

    fn to_core(self) -> i128 {
        self as i128
    }

    fn from_core(v: i128) -> i64 {
        v as i64
    }

    fn zero() -> i64 {
        0
    }

    fn one() -> i64 {
        1
    }
}

impl NumScalar for i64 {

}

impl Scalar for bool {
    open spec fn kind() -> Kind {
        Kind::Bool
    }

    open spec fn as_int(self) -> int {
        if self {
            1
        } else {
            0
        }
    }

    proof fn lemma_range(self) {
    }

    fn kind_ex() -> Kind {
        Kind::Bool
    }

    fn to_core(self) -> i128 {
        if self {
            1
        } else {
            0
        }
    }

    fn from_core(v: i128) -> bool {
        v == 1
    }

    fn zero() -> bool {
        false
    }

    fn one() -> bool {
        true
    }
}

} // verus!
