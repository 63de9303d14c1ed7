//! The `add` subcommand: the sum of two unsigned 16-bit numbers.
use vstd::prelude::*;

use crate::decimal::{decimal, push_decimal};

verus! {

/// Add two numbers.
#[derive(Clone, Copy, Debug, PartialEq, Eq, Structural)]
pub struct AddOptions {
    /// The first number.
    pub num1: u16,
    /// The second number.
    pub num2: u16,
}

/// The line that reports `a + b`: `"{a} + {b} = {a + b}"`, where the sum is
/// the exact one, never wrapped to 16 bits.
pub open spec fn sum_line(a: u16, b: u16) -> Seq<char> {
    decimal(a as nat) + seq![' ', '+', ' '] + decimal(b as nat) + seq![' ', '=', ' '] + decimal(
        (a + b) as nat,
    )
}

impl AddOptions {
    /// The exact sum of the two numbers.
    pub fn sum(&self) -> (r: u32)
        ensures
            r == self.num1 + self.num2,
    {
        self.num1 as u32 + self.num2 as u32
    }
}

/// The line that reports the sum of the two numbers of `options`.
pub fn execute(options: AddOptions) -> (r: String)
    ensures
        r@ == sum_line(options.num1, options.num2),
{
    proof {
        reveal_strlit(" + ");
        reveal_strlit(" = ");
    }
    let mut r = String::new();
    push_decimal(&mut r, options.num1 as u32);
    r.append(" + ");
    push_decimal(&mut r, options.num2 as u32);
    r.append(" = ");
    push_decimal(&mut r, options.sum());
    assert(r@ =~= sum_line(options.num1, options.num2));
    r
}

} // verus!
