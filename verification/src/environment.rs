//! Environment variables held as a value, and their expansion in stored paths.

use vstd::prelude::*;
use crate::text::{same_text, to_chars};

verus! {

/// The answer to a lookup of a variable that is not defined.
#[derive(Debug)]
pub struct Undefined;

/// A set of environment variables: the values by which `$NAME` and `${NAME}`
/// in a path are replaced. A later definition of a name overrides an
/// earlier one.
#[derive(Debug)]
pub struct Environment {
    pairs: Vec<(String, String)>,
}

/// The variables defined by a list of (name, value) pairs, the last
/// definition of a name winning.
pub open spec fn bindings(pairs: Seq<(String, String)>) -> Map<Seq<char>, Seq<char>>
    decreases pairs.len(),
{
    if pairs.len() == 0 {
        Map::empty()
    } else {
        bindings(pairs.drop_last()).insert(pairs.last().0@, pairs.last().1@)
    }
}

impl View for Environment {
    type V = Map<Seq<char>, Seq<char>>;

    closed spec fn view(&self) -> Map<Seq<char>, Seq<char>> {
        bindings(self.pairs@)
    }
}

impl Environment {
    /// An environment that defines nothing.
    pub fn new() -> (r: Self)
        ensures
            r@ == Map::<Seq<char>, Seq<char>>::empty(),
    {
        Environment { pairs: Vec::new() }
    }

    /// Defines `name` as `value`, replacing an earlier definition.
    pub fn set(&mut self, name: &str, value: &str)
        ensures
            final(self)@ == old(self)@.insert(name@, value@),
    {
        self.pairs.push((name.to_owned(), value.to_owned()));
        assert(self.pairs@.drop_last() =~= old(self).pairs@);
    }

    /// The value of `name`, if it is defined.
    pub fn var(&self, name: &str) -> (r: Option<String>)
        ensures
            match r {
                Some(value) => self@.contains_key(name@) && self@[name@] == value@,
                None => !self@.contains_key(name@),
            },
    {
        let mut i: usize = self.pairs.len();
        assert(self.pairs@.take(i as int) =~= self.pairs@);
        while i > 0
            invariant
                i <= self.pairs.len(),
                self@.contains_key(name@) == bindings(self.pairs@.take(i as int)).contains_key(
                    name@,
                ),
                self@.contains_key(name@) ==> self@[name@] == bindings(
                    self.pairs@.take(i as int),
                )[name@],
            decreases i,
        {
            i = i - 1;
            proof {
                let upto = self.pairs@.take(i + 1);
                assert(upto.drop_last() =~= self.pairs@.take(i as int));
                assert(upto.last() == self.pairs@[i as int]);
            }
            if same_text(self.pairs[i].0.as_str(), name) {
                return Some(self.pairs[i].1.clone());
            }
        }
        None
    }

    /// The lookup that variable expansion performs: the value of a defined
    /// name, and a failure for every other name.
    pub fn lookup(&self, name: &str) -> (r: Result<Option<String>, Undefined>)
        ensures
            match r {
                Ok(Some(value)) => self@.contains_key(name@) && self@[name@] == value@,
                Ok(None) => false,
                Err(_) => !self@.contains_key(name@),
            },
    {
        match self.var(name) {
            Some(value) => Ok(Some(value)),
            None => Err(Undefined),
        }
    }
}

/// The error with which `shellexpand` reports a failed variable lookup.
#[verifier::external_type_specification]
#[verifier::external_body]
#[verifier::reject_recursive_types(E)]
pub struct ExLookupError<E>(shellexpand::LookupError<E>);

/// What `shellexpand::env_with_context` makes of `path` when a lookup of a
/// name in `vars` answers with its value and every other lookup fails: the
/// expanded text, or nothing when the expansion stopped at a failed lookup.
pub uninterp spec fn expansion(path: Seq<char>, vars: Map<Seq<char>, Seq<char>>) -> Option<
    Seq<char>,
>;

/// Calls `shellexpand::env_with_context` on `path`, answering its lookups
/// from `env`. The contract only names the outcome: the text that the call
/// produced is `expansion` of the path and the variables, and the call fails
/// exactly when `expansion` has no text.
#[verifier::external_body]
fn expand_variables(path: &str, env: &Environment) -> (r: Result<
    String,
    shellexpand::LookupError<Undefined>,
>)
    ensures
        match r {
            Ok(text) => expansion(path@, env@) == Some(text@),
            Err(_) => expansion(path@, env@) is None,
        },
{
    shellexpand::env_with_context(path, |name: &str| env.lookup(name)).map(
        |text| text.into_owned(),
    )
}

/// The path with its variable references replaced. A path without `$` has
/// none and stays as it is; so does a path in which a referenced variable
/// cannot be looked up.
pub open spec fn expand_spec(path: Seq<char>, vars: Map<Seq<char>, Seq<char>>) -> Seq<char> {
    if !path.contains('$') {
        path
    } else {
        match expansion(path, vars) {
            Some(text) => text,
            None => path,
        }
    }
}

/// Whether the text holds a `$`.
pub fn has_dollar(text: &str) -> (r: bool)
    ensures
        r == text@.contains('$'),
{
    let chars = to_chars(text);
    let mut i: usize = 0;
    while i < chars.len()
        invariant
            chars@ == text@,
            i <= chars.len(),
            forall|k: int| 0 <= k < i ==> text@[k] != '$',
        decreases chars.len() - i,
    {
        if chars[i] == '$' {
            return true;
        }
        i = i + 1;
    }
    false
}

/// Replaces `$NAME` and `${NAME}` in `path` by the values that `env` gives
/// them. When a referenced name cannot be looked up the path is returned
/// unchanged.
pub fn expand(path: &str, env: &Environment) -> (r: String)
    ensures
        r@ == expand_spec(path@, env@),
{
    if !has_dollar(path) {
        return path.to_owned();
    }
    match expand_variables(path, env) {
        Ok(text) => text,
        Err(_) => path.to_owned(),
    }
}

/// Expanding a second time changes nothing when the first expansion left
/// the path as it was, or left no `$` in it.
pub proof fn lemma_expand_idempotent(path: Seq<char>, vars: Map<Seq<char>, Seq<char>>)
    requires
        expand_spec(path, vars) == path || !expand_spec(path, vars).contains('$'),
    ensures
        expand_spec(expand_spec(path, vars), vars) == expand_spec(path, vars),
{
}

} // verus!
