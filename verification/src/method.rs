//! The request methods that a route can be registered under.

use crate::text::{
    eq_ignore_ascii_case, fold_ascii, lemma_same_ignoring_case_equivalence, same_ignoring_case,
};
use vstd::prelude::*;

verus! {

/// A request method that can stand in a route key.
#[derive(Clone, Copy, Debug, PartialEq, Eq, Structural)]
pub enum Method {
    Get,
    Put,
    Post,
    Patch,
    Delete,
}

impl Method {
    /// The method's name as a request line spells it.
    pub open spec fn spec_name(self) -> Seq<char> {
        match self {
            Method::Get => "GET"@,
            Method::Put => "PUT"@,
            Method::Post => "POST"@,
            Method::Patch => "PATCH"@,
            Method::Delete => "DELETE"@,
        }
    }

    /// The method that `name` spells, in capitals or not; `None` where it
    /// spells none of the five.
    pub open spec fn named(name: Seq<char>) -> Option<Method> {
        if same_ignoring_case(name, Method::Get.spec_name()) {
            Some(Method::Get)
        } else if same_ignoring_case(name, Method::Put.spec_name()) {
            Some(Method::Put)
        } else if same_ignoring_case(name, Method::Post.spec_name()) {
            Some(Method::Post)
        } else if same_ignoring_case(name, Method::Patch.spec_name()) {
            Some(Method::Patch)
        } else if same_ignoring_case(name, Method::Delete.spec_name()) {
            Some(Method::Delete)
        } else {
            None
        }
    }

    /// The method's name in capitals.
    pub fn name(self) -> (name: &'static str)
        ensures
            name@ == self.spec_name(),
    {
        match self {
            Method::Get => "GET",
            Method::Put => "PUT",
            Method::Post => "POST",
            Method::Patch => "PATCH",
            Method::Delete => "DELETE",
        }
    }

    /// Reads a method from its name, whatever the case of its letters.
    pub fn parse(name: &str) -> (method: Option<Method>)
        ensures
            method == Method::named(name@),
    {
        if eq_ignore_ascii_case(name, Method::Get.name()) {
            Some(Method::Get)
        } else if eq_ignore_ascii_case(name, Method::Put.name()) {
            Some(Method::Put)
        } else if eq_ignore_ascii_case(name, Method::Post.name()) {
            Some(Method::Post)
        } else if eq_ignore_ascii_case(name, Method::Patch.name()) {
            Some(Method::Patch)
        } else if eq_ignore_ascii_case(name, Method::Delete.name()) {
            Some(Method::Delete)
        } else {
            None
        }
    }
}

/// The case of a method name's letters does not matter: two names that
/// differ in nothing else spell the same method, or both spell none.
pub proof fn lemma_named_ignores_case(a: Seq<char>, b: Seq<char>)
    requires
        same_ignoring_case(a, b),
    ensures
        Method::named(a) == Method::named(b),
{
    lemma_same_ignoring_case_equivalence(a, b, Method::Get.spec_name());
    lemma_same_ignoring_case_equivalence(a, b, Method::Put.spec_name());
    lemma_same_ignoring_case_equivalence(a, b, Method::Post.spec_name());
    lemma_same_ignoring_case_equivalence(a, b, Method::Patch.spec_name());
    lemma_same_ignoring_case_equivalence(a, b, Method::Delete.spec_name());
    lemma_same_ignoring_case_equivalence(b, a, Method::Get.spec_name());
    lemma_same_ignoring_case_equivalence(b, a, Method::Put.spec_name());
    lemma_same_ignoring_case_equivalence(b, a, Method::Post.spec_name());
    lemma_same_ignoring_case_equivalence(b, a, Method::Patch.spec_name());
    lemma_same_ignoring_case_equivalence(b, a, Method::Delete.spec_name());
}

/// Every method is the one that its own name spells.
pub proof fn lemma_name_spells_method(method: Method)
    ensures
        Method::named(method.spec_name()) == Some(method),
{
    reveal_strlit("GET");
    reveal_strlit("PUT");
    reveal_strlit("POST");
    reveal_strlit("PATCH");
    reveal_strlit("DELETE");
    assert(fold_ascii("PUT"@[0]) != fold_ascii("GET"@[0]));
}

} // verus!
