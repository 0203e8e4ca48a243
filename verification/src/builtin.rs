//! The built-in library functions beyond printing: `reduce`, which folds a
//! list of integers with addition.

use vstd::prelude::*;
use vstd::string::StringExecFns;

use crate::error::{Error, ErrorV};
use crate::interpreter::value::{
    clone_value, lemma_values_view, res_value_view, v_add, values_view, Value, ValueV,
};

verus! {

/// The sum of the elements from position `i` on, folded into `acc` with the
/// language's addition; a non-integer element is a runtime error.
pub open spec fn spec_sum(els: Seq<ValueV>, i: int, acc: ValueV) -> Result<ValueV, ErrorV>
    decreases els.len() - i,
{
    if i < 0 || i >= els.len() {
        Ok(acc)
    } else {
        match v_add(acc, els[i]) {
            Err(e) => Err(e),
            Ok(s) => spec_sum(els, i + 1, s),
        }
    }
}

/// What `reduce` yields: the sum of a non-empty list of integers; anything
/// else is a runtime error.
pub open spec fn spec_reduce(vals: Seq<ValueV>) -> Result<ValueV, ErrorV> {
    if vals.len() == 0 {
        Err(ErrorV::InvalidOperation("reduce expects a list"@))
    } else {
        match vals[0] {
            ValueV::List(els) => if els.len() == 0 {
                Err(ErrorV::InvalidOperation("reduce needs a non-empty list"@))
            } else {
                spec_sum(els, 1, els[0])
            },
            _ => Err(ErrorV::InvalidOperation("reduce expects a list"@)),
        }
    }
}

/// Folds a list of integers with `+`; the first argument must be a
/// non-empty list.
#[verifier::loop_isolation(false)]
pub fn reduce(elems: Vec<Value>) -> (r: Result<Value, Error>)
    ensures
        res_value_view(r) == spec_reduce(values_view(elems@)),
{
    proof {
        lemma_values_view(elems@);
    }
    if elems.len() == 0 {
        return Err(Error::InvalidOperation(String::from_str("reduce expects a list")));
    }
    match &elems[0] {
        Value::List(els) => {
            proof {
                lemma_values_view(els@);
            }
            if els.len() == 0 {
                Err(Error::InvalidOperation(String::from_str("reduce needs a non-empty list")))
            } else {
                let ghost elsv = values_view(els@);
                let mut acc = clone_value(&els[0]);
                let n = els.len();
                for i in 1..n
                    invariant
                        n == els@.len(),
                        n > 0,
                        spec_sum(elsv, 1, elsv[0]) == spec_sum(elsv, i as int, acc@),
                    decreases n - i,
                {
                    acc = match acc.add(clone_value(&els[i])) {
                        Ok(v) => v,
                        Err(e) => {
                            return Err(e);
                        },
                    };
                }
                Ok(acc)
            }
        },
        _ => Err(Error::InvalidOperation(String::from_str("reduce expects a list"))),
    }
}

} // verus!
