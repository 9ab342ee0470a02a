//! Machine words as numbers: two's complement, and the integer operations of the
//! instruction set.

use vstd::prelude::*;

verus! {

/// The number of values of a 32-bit word.
pub const WORD32: u128 = 0x1_0000_0000;

/// The number of values of a 64-bit word.
pub const WORD64: u128 = 0x1_0000_0000_0000_0000;

/// The integer that `value` stands for in two's complement, where a word has
/// `modulus` values.
pub open spec fn signed(value: nat, modulus: nat) -> int {
    if 2 * value < modulus {
        value as int
    } else {
        value - modulus
    }
}

/// The word that stands for `value`: its residue in `0..modulus`.
pub open spec fn unsigned(value: int, modulus: nat) -> nat {
    (value % (modulus as int)) as nat
}

/// The distance of `value` from zero.
pub open spec fn magnitude(value: int) -> nat {
    if value < 0 {
        (-value) as nat
    } else {
        value as nat
    }
}

/// The quotient of `left` by `right`, rounded toward zero; `right` is not zero.
pub open spec fn truncated_quotient(left: int, right: int) -> int {
    let quotient = (magnitude(left) / magnitude(right)) as int;
    if (left < 0) == (right < 0) {
        quotient
    } else {
        -quotient
    }
}

/// What `truncated_quotient` leaves: it has the sign of `left`; `right` is not zero.
pub open spec fn truncated_remainder(left: int, right: int) -> int {
    let remainder = (magnitude(left) % magnitude(right)) as int;
    if left < 0 {
        -remainder
    } else {
        remainder
    }
}

/// An operation on two integer words.
#[derive(Debug, Clone, Copy, PartialEq, Eq, Structural)]
pub enum IntegerOp {
    Add,
    Subtract,
    Multiply,
    DivideUnsigned,
    DivideSigned,
    ModuloUnsigned,
    ModuloSigned,
}

impl IntegerOp {
    /// Whether the operation divides, so that it has no result for a divisor of zero.
    pub open spec fn divides(self) -> bool {
        match self {
            IntegerOp::Add | IntegerOp::Subtract | IntegerOp::Multiply => false,
            _ => true,
        }
    }

    /// The result of the operation on the words `left` and `right`, where a word has
    /// `modulus` values, or `None` where it divides by zero. Sums, differences and
    /// products wrap around. The signed operations take the words in two's complement,
    /// round the quotient toward zero and wrap it around too: the least integer
    /// divided by -1 is itself, with remainder 0.
    pub open spec fn apply(self, left: nat, right: nat, modulus: nat) -> Option<nat> {
        if self.divides() && right == 0 {
            None
        } else {
            Some(
                match self {
                    IntegerOp::Add => unsigned((left + right) as int, modulus),
                    IntegerOp::Subtract => unsigned(left - right, modulus),
                    IntegerOp::Multiply => unsigned((left * right) as int, modulus),
                    IntegerOp::DivideUnsigned => left / right,
                    IntegerOp::ModuloUnsigned => left % right,
                    IntegerOp::DivideSigned => unsigned(
                        truncated_quotient(signed(left, modulus), signed(right, modulus)),
                        modulus,
                    ),
                    IntegerOp::ModuloSigned => unsigned(
                        truncated_remainder(signed(left, modulus), signed(right, modulus)),
                        modulus,
                    ),
                },
            )
        }
    }

    /// Computes the operation on 64-bit words.
    pub fn apply64(self, left: u64, right: u64) -> (result: Option<u64>)
        ensures
            self.apply(left as nat, right as nat, WORD64 as nat) == match result {
                Some(word) => Some(word as nat),
                None => None,
            },
    {
        match self {
            IntegerOp::Add => Some(left.wrapping_add(right)),
            IntegerOp::Subtract => Some(left.wrapping_sub(right)),
            IntegerOp::Multiply => Some(left.wrapping_mul(right)),
            IntegerOp::DivideUnsigned => if right == 0 {
                None
            } else {
                Some(left / right)
            },
            IntegerOp::ModuloUnsigned => if right == 0 {
                None
            } else {
                Some(left % right)
            },
            IntegerOp::DivideSigned => if right == 0 {
                None
            } else {
                let quotient = magnitude64(left) / magnitude64(right);
                if (left >= 0x8000_0000_0000_0000) == (right >= 0x8000_0000_0000_0000) {
                    Some(quotient)
                } else {
                    Some(negate64(quotient))
                }
            },
            IntegerOp::ModuloSigned => if right == 0 {
                None
            } else {
                let remainder = magnitude64(left) % magnitude64(right);
                if left >= 0x8000_0000_0000_0000 {
                    Some(negate64(remainder))
                } else {
                    Some(remainder)
                }
            },
        }
    }

    /// Computes the operation on 32-bit words.
    pub fn apply32(self, left: u32, right: u32) -> (result: Option<u32>)
        ensures
            self.apply(left as nat, right as nat, WORD32 as nat) == match result {
                Some(word) => Some(word as nat),
                None => None,
            },
    {
        match self {
            IntegerOp::Add => Some(left.wrapping_add(right)),
            IntegerOp::Subtract => Some(left.wrapping_sub(right)),
            IntegerOp::Multiply => Some(left.wrapping_mul(right)),
            IntegerOp::DivideUnsigned => if right == 0 {
                None
            } else {
                Some(left / right)
            },
            IntegerOp::ModuloUnsigned => if right == 0 {
                None
            } else {
                Some(left % right)
            },
            IntegerOp::DivideSigned => if right == 0 {
                None
            } else {
                let quotient = magnitude32(left) / magnitude32(right);
                if (left >= 0x8000_0000) == (right >= 0x8000_0000) {
                    Some(quotient)
                } else {
                    Some(negate32(quotient))
                }
            },
            IntegerOp::ModuloSigned => if right == 0 {
                None
            } else {
                let remainder = magnitude32(left) % magnitude32(right);
                if left >= 0x8000_0000 {
                    Some(negate32(remainder))
                } else {
                    Some(remainder)
                }
            },
        }
    }
}

/// The magnitude of the integer that a 64-bit word stands for.
fn magnitude64(word: u64) -> (result: u64)
    ensures
        result == magnitude(signed(word as nat, WORD64 as nat)),
        word != 0 ==> result != 0,
{
    if word >= 0x8000_0000_0000_0000 {
        (u64::MAX - word) + 1
    } else {
        word
    }
}

/// The word that stands for the negative of what `value` counts.
fn negate64(value: u64) -> (result: u64)
    requires
        value <= 0x8000_0000_0000_0000,
    ensures
        result == unsigned(-(value as int), WORD64 as nat),
        value == unsigned(value as int, WORD64 as nat),
{
    if value == 0 {
        0
    } else {
        (u64::MAX - value) + 1
    }
}

/// The magnitude of the integer that a 32-bit word stands for.
fn magnitude32(word: u32) -> (result: u32)
    ensures
        result == magnitude(signed(word as nat, WORD32 as nat)),
        word != 0 ==> result != 0,
{
    if word >= 0x8000_0000 {
        (u32::MAX - word) + 1
    } else {
        word
    }
}

/// The word that stands for the negative of what `value` counts.
fn negate32(value: u32) -> (result: u32)
    requires
        value <= 0x8000_0000,
    ensures
        result == unsigned(-(value as int), WORD32 as nat),
        value == unsigned(value as int, WORD32 as nat),
{
    if value == 0 {
        0
    } else {
        (u32::MAX - value) + 1
    }
}

} // verus!
