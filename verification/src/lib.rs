//! Rewrites enumerations in a syntax tree into plain object literals.
//!
//! Two shapes are recognised in a list of statements: an enum declaration,
//! whose members are evaluated where they can be, and an enum that was
//! already compiled to a `var` and a function call that fills it. Either
//! becomes one declaration bound to an object literal.

pub mod access;
pub mod ast;
pub mod compiled;
pub mod duplicate;
pub mod enum_to_obj;
pub mod evaluate;
pub mod laws;
pub mod lower;
pub mod number;
pub mod object;
pub mod pass;
pub mod replace;
pub mod rewrite;

use crate::ast::{Program, ProgramView};
use crate::enum_to_obj::{ArithOp, EnumToObjVisitor};
use crate::number::Number;
use crate::pass::as_items;
use vstd::prelude::*;

verus! {

/// Runs the pass over the top-level list of a program.
pub fn process_transform<A: Fn(ArithOp, Number, Number) -> Number, T: Fn(Number) -> String>(
    program: Program,
    visitor: &mut EnumToObjVisitor<A, T>,
) -> (r: Program)
    requires
        old(visitor).wf(),
    ensures
        *final(visitor) == *old(visitor),
        match (program@, r@) {
            (ProgramView::Module(before), ProgramView::Module(after)) => after == old(
                visitor,
            ).rewritten_items(before),
            (ProgramView::Script(before), ProgramView::Script(after)) => as_items(after) == old(
                visitor,
            ).rewritten_items(as_items(before)),
            _ => false,
        },
{
    match program {
        Program::Module(items) => {
            let mut items = items;
            visitor.visit_mut_module_items(&mut items);
            Program::Module(items)
        },
        Program::Script(stmts) => {
            let mut stmts = stmts;
            visitor.visit_mut_stmts(&mut stmts);
            Program::Script(stmts)
        },
    }
}

} // verus!
