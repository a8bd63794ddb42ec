//! The pass itself: what it holds, and what it asks of the arithmetic it is
//! given.

use crate::number::{decimal, integer_text, Number};
use vstd::prelude::*;

verus! {

/// The four operators that work on the floating-point value of a number.
#[derive(Clone, Copy, Debug, PartialEq, Eq)]
pub enum ArithOp {
    Add,
    Sub,
    Mul,
    Div,
}

/// The pass that turns enums into object literals.
///
/// Numbers are bit patterns here. What needs their floating-point value is
/// given to the pass as two functions: `arith` applies `+ - * /` to two
/// numbers, and `text` writes in decimal a number that is not whole.
pub struct EnumToObjVisitor<A, T> {
    pub arith: A,
    pub text: T,
}

impl<A: Fn(ArithOp, Number, Number) -> Number, T: Fn(Number) -> String> EnumToObjVisitor<A, T> {
    /// Both functions accept every input and are functions: one input, one
    /// result.
    pub open spec fn wf(&self) -> bool {
        &&& forall|op: ArithOp, a: Number, b: Number| call_requires(self.arith, (op, a, b))
        &&& forall|op: ArithOp, a: Number, b: Number, r1: Number, r2: Number|
            call_ensures(self.arith, (op, a, b), r1) && call_ensures(self.arith, (op, a, b), r2)
                ==> r1 == r2
        &&& forall|n: Number| call_requires(self.text, (n,))
        &&& forall|n: Number, r1: String, r2: String|
            call_ensures(self.text, (n,), r1) && call_ensures(self.text, (n,), r2) ==> r1@ == r2@
    }

    /// What `arith` gives for an operator and two numbers.
    pub open spec fn arith_of(&self, op: ArithOp, a: Number, b: Number) -> Number {
        choose|r: Number| call_ensures(self.arith, (op, a, b), r)
    }

    /// What `text` gives for a number.
    pub open spec fn text_of(&self, n: Number) -> Seq<char> {
        (choose|r: String| call_ensures(self.text, (n,), r))@
    }

    /// A number in decimal: a whole number by its digits, any other as
    /// `text` writes it.
    pub open spec fn decimal_text(&self, n: Number) -> Seq<char> {
        match n.whole_number() {
            Some(i) => decimal(i),
            None => self.text_of(n),
        }
    }

    /// The pass with the two functions it is to use.
    pub fn new(arith: A, text: T) -> (r: Self)
        ensures
            r.arith == arith,
            r.text == text,
    {
        EnumToObjVisitor { arith, text }
    }

    /// Applies one of `+ - * /` to two numbers.
    pub fn apply_arith(&self, op: ArithOp, a: Number, b: Number) -> (r: Number)
        requires
            self.wf(),
        ensures
            r == self.arith_of(op, a, b),
    {
        (self.arith)(op, a, b)
    }

    /// A number in decimal.
    pub fn number_text(&self, n: Number) -> (r: String)
        requires
            self.wf(),
        ensures
            r@ == self.decimal_text(n),
    {
        match n.to_integer() {
            Some(i) => integer_text(i),
            None => (self.text)(n),
        }
    }
}

} // verus!
