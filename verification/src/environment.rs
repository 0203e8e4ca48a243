//! The runtime binding store: a chain of scopes mapping names to values.
//!
//! A scope owns its bindings and its parent. `define` inserts into the
//! current scope only; lookup walks the parent links. The model of a chain
//! is a `Map` per scope, chained the same way.

use vstd::prelude::*;
use vstd::pervasive::unreached;
use vstd::string::StringExecFns;

use crate::interpreter::value::{clone_value, value_view, Builtin, Value, ValueV};

verus! {

/// One scope of the environment chain.
#[derive(Debug)]
pub struct Environment {
    pub vals: Vec<(String, Value)>,
    pub enclosing: Option<Box<Environment>>,
}

/// Model of an [`Environment`]: a map of bindings and an optional parent.
pub ghost struct EnvV {
    pub vals: Map<Seq<char>, ValueV>,
    pub enclosing: Option<Box<EnvV>>,
}

/// The bindings of one scope as a map; a later binding shadows an earlier
/// one of the same name.
pub open spec fn scope_view(s: Seq<(String, Value)>) -> Map<Seq<char>, ValueV>
    decreases s.len(),
{
    if s.len() == 0 {
        Map::empty()
    } else {
        scope_view(s.subrange(0, s.len() - 1)).insert(
            s[s.len() - 1].0@,
            value_view(s[s.len() - 1].1),
        )
    }
}

/// The view of an environment chain.
pub open spec fn env_view(e: Environment) -> EnvV
    decreases e,
{
    EnvV {
        vals: scope_view(e.vals@),
        enclosing: match e.enclosing {
            Some(p) => Some(Box::new(env_view(*p))),
            None => None,
        },
    }
}

impl View for Environment {
    type V = EnvV;

    open spec fn view(&self) -> EnvV {
        env_view(*self)
    }
}

/// Lookup along the chain: the current scope first, then the parents.
pub open spec fn env_lookup(e: EnvV, name: Seq<char>) -> Option<ValueV>
    decreases e,
{
    if e.vals.contains_key(name) {
        Some(e.vals[name])
    } else {
        match e.enclosing {
            Some(p) => env_lookup(*p, name),
            None => None,
        }
    }
}

/// The view of a lookup result.
pub open spec fn opt_value_view(r: Option<Value>) -> Option<ValueV> {
    match r {
        Some(v) => Some(value_view(v)),
        None => None,
    }
}

/// A name bound nowhere in a scope's binding list is not in its map.
proof fn lemma_scope_view_absent(s: Seq<(String, Value)>, key: Seq<char>)
    requires
        forall|j: int| 0 <= j < s.len() ==> s[j].0@ != key,
    ensures
        !scope_view(s).contains_key(key),
    decreases s.len(),
{
    if s.len() > 0 {
        lemma_scope_view_absent(s.subrange(0, s.len() - 1), key);
    }
}

/// The map holds, for a bound name, the value of its latest binding.
proof fn lemma_scope_view_found(s: Seq<(String, Value)>, key: Seq<char>, i: int)
    requires
        0 <= i < s.len(),
        s[i].0@ == key,
        forall|j: int| i < j < s.len() ==> s[j].0@ != key,
    ensures
        scope_view(s).contains_key(key),
        scope_view(s)[key] == value_view(s[i].1),
    decreases s.len(),
{
    if i < s.len() - 1 {
        lemma_scope_view_found(s.subrange(0, s.len() - 1), key, i);
    }
}

impl Default for Environment {
    /// The root scope of a session, with the built-ins pre-defined.
    fn default() -> (e: Environment)
        ensures
            e@.vals == Map::empty()
                .insert("println"@, ValueV::BuiltinFunction(Builtin::Println))
                .insert("reduce"@, ValueV::BuiltinFunction(Builtin::Reduce)),
            e@.enclosing is None,
    {
        let mut env = Environment { vals: Vec::new(), enclosing: None };
        let _ = env.define(
            String::from_str("println"),
            Value::BuiltinFunction(Builtin::Println),
        );
        let _ = env.define(
            String::from_str("reduce"),
            Value::BuiltinFunction(Builtin::Reduce),
        );
        env
    }
}

impl Environment {
    /// Binds `name` to `value` in this scope alone, inserting or
    /// overwriting; never fails.
    pub fn define(&mut self, name: String, value: Value) -> (r: Result<(), String>)
        ensures
            r is Ok,
            final(self)@.vals == old(self)@.vals.insert(name@, value@),
            final(self)@.enclosing == old(self)@.enclosing,
    {
        let ghost old_vals = self.vals@;
        self.vals.push((name, value));
        proof {
            assert(self.vals@.subrange(0, self.vals@.len() - 1) =~= old_vals);
        }
        Ok(())
    }

    /// A fresh empty scope whose parent is `environment`.
    pub fn with_ref(environment: Environment) -> (e: Environment)
        ensures
            e@.vals == Map::<Seq<char>, ValueV>::empty(),
            e@.enclosing == Some(Box::new(environment@)),
    {
        Environment { vals: Vec::new(), enclosing: Some(Box::new(environment)) }
    }

    /// Looks a name up in this scope, then along the parent chain.
    pub fn get_var(&mut self, name: String) -> (r: Option<Value>)
        ensures
            *final(self) == *old(self),
            opt_value_view(r) == env_lookup(old(self)@, name@),
        decreases *self,
    {
        let n = self.vals.len();
        let mut i = n;
        while i > 0
            invariant
                i <= n,
                n == self.vals@.len(),
                forall|j: int| i <= j < n ==> self.vals@[j].0@ != name@,
            decreases i,
        {
            i = i - 1;
            if self.vals[i].0 == name {
                proof {
                    lemma_scope_view_found(self.vals@, name@, i as int);
                }
                return Some(clone_value(&self.vals[i].1));
            }
        }
        proof {
            lemma_scope_view_absent(self.vals@, name@);
        }
        match &mut self.enclosing {
            Some(p) => p.get_var(name),
            None => None,
        }
    }

    /// Discards this scope and hands its parent back; the scope must have
    /// one.
    pub fn into_parent(self) -> (r: Environment)
        requires
            env_view(self).enclosing is Some,
        ensures
            (match env_view(self).enclosing {
                Some(p) => r@ == *p,
                None => false,
            }),
    {
        match self.enclosing {
            Some(p) => *p,
            None => unreached(),
        }
    }
}

} // verus!
