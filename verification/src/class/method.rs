//! The value model: one tagged 32-bit integer per stack or local slot.

use std::cmp::Ordering;
use vstd::prelude::*;

verus! {

/// The tag carried by every [`Argument`].
#[derive(Debug, PartialEq, Eq)]
pub enum MethodType {
    Int,
    Void,
    ClassReference { classpath: String },
}

/// A tagged numeric value. The payload is a signed 32-bit integer; for a
/// `ClassReference` it is the handle of an instance in the object store.
#[derive(Debug)]
pub struct Argument {
    pub value: i32,
    pub kind: MethodType,
}

/// The unique integer in the signed 32-bit range that is congruent to `x`
/// modulo 2^32.
pub open spec fn wrap_i32(x: int) -> int {
    let m = x % 0x1_0000_0000;
    if m > 0x7fff_ffff {
        m - 0x1_0000_0000
    } else {
        m
    }
}

/// The quotient of `a` by `b` rounded toward zero.
pub open spec fn div_toward_zero(a: int, b: int) -> int
    recommends
        b != 0,
{
    if a >= 0 && b > 0 {
        a / b
    } else if a >= 0 {
        -(a / (-b))
    } else if b > 0 {
        -((-a) / b)
    } else {
        (-a) / (-b)
    }
}

/// A quotient of non-negative integers lies between zero and the dividend.
proof fn lemma_quotient_bounds(a: int, b: int)
    requires
        a >= 0,
        b > 0,
    ensures
        0 <= a / b <= a,
{
    assert(0 <= a / b <= a) by (nonlinear_arith)
        requires
            a >= 0,
            b > 0,
    ;
}

impl Clone for MethodType {
    fn clone(&self) -> (r: Self)
        ensures
            r == *self,
    {
        match self {
            MethodType::Int => MethodType::Int,
            MethodType::Void => MethodType::Void,
            MethodType::ClassReference { classpath } => MethodType::ClassReference {
                classpath: classpath.clone(),
            },
        }
    }
}

impl Clone for Argument {
    fn clone(&self) -> (r: Self)
        ensures
            r == *self,
    {
        Argument { value: self.value, kind: self.kind.clone() }
    }
}

/// Values are equal when their payloads are, whatever the tags.
impl PartialEq for Argument {
    fn eq(&self, other: &Self) -> (r: bool) {
        self.value == other.value
    }
}

impl vstd::std_specs::cmp::PartialEqSpecImpl for Argument {
    open spec fn obeys_eq_spec() -> bool {
        true
    }

    open spec fn eq_spec(&self, other: &Self) -> bool {
        self.value == other.value
    }
}

/// Values are ordered by their payloads, whatever the tags.
impl PartialOrd for Argument {
    fn partial_cmp(&self, other: &Self) -> (r: Option<Ordering>) {
        if self.value < other.value {
            Some(Ordering::Less)
        } else if self.value > other.value {
            Some(Ordering::Greater)
        } else {
            Some(Ordering::Equal)
        }
    }
}

impl vstd::std_specs::cmp::PartialOrdSpecImpl for Argument {
    open spec fn obeys_partial_cmp_spec() -> bool {
        true
    }

    open spec fn partial_cmp_spec(&self, other: &Self) -> Option<Ordering> {
        if self.value < other.value {
            Some(Ordering::Less)
        } else if self.value > other.value {
            Some(Ordering::Greater)
        } else {
            Some(Ordering::Equal)
        }
    }
}

impl Argument {
    /// Builds a value from its payload and tag.
    pub fn new(value: i32, kind: MethodType) -> (r: Self)
        ensures
            r.value == value,
            r.kind == kind,
    {
        Argument { value, kind }
    }

    /// The raw payload, whatever the tag.
    pub fn value_ref(&self) -> (r: i32)
        ensures
            r == self.value,
    {
        self.value
    }

    /// Whether the tag is `Void`.
    pub fn void(&self) -> (r: bool)
        ensures
            r == (self.kind is Void),
    {
        match self.kind {
            MethodType::Void => true,
            _ => false,
        }
    }

    /// 32-bit two's-complement sum, tagged `Int`.
    pub fn wrapping_iadd(&self, rhs: Argument) -> (r: Argument)
        ensures
            r.value == wrap_i32(self.value + rhs.value),
            r.kind is Int,
    {
        Argument { value: self.value.wrapping_add(rhs.value), kind: MethodType::Int }
    }

    /// 32-bit two's-complement difference, tagged `Int`.
    pub fn wrapping_isub(&self, rhs: Argument) -> (r: Argument)
        ensures
            r.value == wrap_i32(self.value - rhs.value),
            r.kind is Int,
    {
        Argument { value: self.value.wrapping_sub(rhs.value), kind: MethodType::Int }
    }

    /// 32-bit two's-complement product, tagged `Int`.
    pub fn wrapping_imul(&self, rhs: Argument) -> (r: Argument)
        ensures
            r.value == wrap_i32(self.value * rhs.value),
            r.kind is Int,
    {
        Argument { value: self.value.wrapping_mul(rhs.value), kind: MethodType::Int }
    }

    /// Quotient rounded toward zero, wrapped to 32 bits, tagged `Int`. The
    /// one quotient that leaves the range, `i32::MIN / -1`, wraps to
    /// `i32::MIN`.
    pub fn wrapping_idiv(&self, rhs: Argument) -> (r: Argument)
        requires
            rhs.value != 0,
        ensures
            r.value == wrap_i32(div_toward_zero(self.value as int, rhs.value as int)),
            r.kind is Int,
    {
        let a: i64 = self.value as i64;
        let b: i64 = rhs.value as i64;
        proof {
            lemma_quotient_bounds(
                if a >= 0 { a as int } else { -a },
                if b > 0 { b as int } else { -b },
            );
        }
        let wide: i64 = if a >= 0 && b > 0 {
            a / b
        } else if a >= 0 {
            -(a / (-b))
        } else if b > 0 {
            -((-a) / b)
        } else {
            (-a) / (-b)
        };
        let q: i32 = if wide > 0x7fff_ffff {
            i32::MIN
        } else {
            wide as i32
        };
        Argument { value: q, kind: MethodType::Int }
    }
}

} // verus!
