//! The session driver behind the read-eval-print loop: one typechecker and
//! one interpreter whose context and environment persist across lines.
//!
//! Reading lines, parsing them, and printing live outside the library; the
//! driver takes one parsed program at a time and evaluates it against the
//! session state.

use vstd::prelude::*;

use crate::ast::{prog_view, Prog};
use crate::environment::Environment;
use crate::error::{Error, ErrorV};
use crate::interpreter::value::{res_value_view, Builtin, Value, ValueV};
use crate::interpreter::{outs_view, spec_eval_block, Interpreter};
use crate::type_checker::{tc_prog, Typechecker};

verus! {

/// A session: the typechecker's context and the interpreter's environment,
/// both preserved across lines.
pub struct Repl {
    pub tc: Typechecker,
    pub interpreter: Interpreter,
}

impl Repl {
    /// A fresh session: an empty context, and a root environment with the
    /// built-ins pre-defined.
    pub fn new() -> (r: Repl)
        ensures
            r.tc@ == Map::<Seq<char>, crate::ast::Type>::empty(),
            r.interpreter@.env.vals == Map::empty()
                .insert("println"@, ValueV::BuiltinFunction(Builtin::Println))
                .insert("reduce"@, ValueV::BuiltinFunction(Builtin::Reduce)),
            r.interpreter@.env.enclosing is None,
            r.interpreter@.out == Seq::<Seq<ValueV>>::empty(),
    {
        Repl { tc: Typechecker::new(), interpreter: Interpreter::new(Environment::default()) }
    }

    /// One line of the loop: typecheck the parsed program, then evaluate
    /// it. A type error leaves the interpreter untouched; bindings made
    /// before a runtime error remain visible.
    pub fn eval_line(&mut self, program: &Prog, fuel: u64) -> (r: Result<Value, Error>)
        ensures
            ({
                let (tres, c2) = tc_prog(old(self).tc@, prog_view(*program), 0);
                final(self).tc@ == c2 && match tres {
                    Err(e) => res_value_view(r) == Err::<ValueV, ErrorV>(e)
                        && final(self).interpreter@ == old(self).interpreter@,
                    Ok(hirs) => ({
                        let (eres, st2) = spec_eval_block(
                            old(self).interpreter@,
                            hirs,
                            0,
                            fuel as nat,
                        );
                        final(self).interpreter@ == st2 && res_value_view(r) == eres
                    }),
                }
            }),
    {
        match self.tc.typecheck(program) {
            Err(e) => Err(e),
            Ok(hirs) => self.interpreter.run(&hirs, fuel),
        }
    }

    /// Hands the output emitted so far to the caller (who prints it) and
    /// clears the log.
    pub fn take_output(&mut self) -> (r: Vec<Vec<Value>>)
        ensures
            outs_view(r@) == old(self).interpreter@.out,
            final(self).interpreter@.out == Seq::<Seq<ValueV>>::empty(),
            final(self).interpreter@.env == old(self).interpreter@.env,
            final(self).tc@ == old(self).tc@,
    {
        let mut out: Vec<Vec<Value>> = Vec::new();
        core::mem::swap(&mut self.interpreter.out, &mut out);
        out
    }
}

} // verus!
