//! The `sub` subcommand: the difference of two signed 16-bit numbers.
use vstd::prelude::*;

use crate::decimal::{push_signed_decimal, signed_decimal};

verus! {

/// Sub two numbers.
#[derive(Clone, Copy, Debug, PartialEq, Eq, Structural)]
pub struct SubOptions {
    /// The first number.
    pub num1: i16,
    /// The second number.
    pub num2: i16,
}

/// The line that reports `a - b`: `"{a} - {b} = {a - b}"`, where the
/// difference is the exact one, never wrapped to 16 bits.
pub open spec fn difference_line(a: i16, b: i16) -> Seq<char> {
    signed_decimal(a as int) + seq![' ', '-', ' '] + signed_decimal(b as int) + seq![' ', '=', ' ']
        + signed_decimal(a - b)
}

impl SubOptions {
    /// The exact difference of the two numbers.
    pub fn difference(&self) -> (r: i32)
        ensures
            r == self.num1 - self.num2,
    {
        self.num1 as i32 - self.num2 as i32
    }
}

/// The line that reports the difference of the two numbers of `options`.
pub fn execute(options: SubOptions) -> (r: String)
    ensures
        r@ == difference_line(options.num1, options.num2),
{
    proof {
        reveal_strlit(" - ");
        reveal_strlit(" = ");
    }
    let mut r = String::new();
    push_signed_decimal(&mut r, options.num1 as i32);
    r.append(" - ");
    push_signed_decimal(&mut r, options.num2 as i32);
    r.append(" = ");
    push_signed_decimal(&mut r, options.difference());
    assert(r@ =~= difference_line(options.num1, options.num2));
    r
}

} // verus!
