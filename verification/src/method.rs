//! The request dispatcher: from a method name to an HTTP verb.

use crate::error::RequestError;
use crate::text::{ascii_lower, eq_ignoring_case, same_ignoring_case};
use vstd::prelude::*;

verus! {

/// The HTTP verbs that a request can be made with.
#[derive(Clone, Copy, Debug, PartialEq, Eq, Structural)]
pub enum Method {
    Get,
    Post,
    Put,
    Delete,
    Head,
}

/// The verb that a method name selects: the name is compared without regard
/// to ASCII case, and a name that is none of the five selects nothing.
pub open spec fn method_of(name: Seq<char>) -> Option<Method> {
    if same_ignoring_case(name, "get"@) {
        Some(Method::Get)
    } else if same_ignoring_case(name, "post"@) {
        Some(Method::Post)
    } else if same_ignoring_case(name, "put"@) {
        Some(Method::Put)
    } else if same_ignoring_case(name, "delete"@) {
        Some(Method::Delete)
    } else if same_ignoring_case(name, "head"@) {
        Some(Method::Head)
    } else {
        None
    }
}

impl Method {
    /// The verb as it is written on the wire.
    pub open spec fn verb(self) -> Seq<char> {
        match self {
            Method::Get => "GET"@,
            Method::Post => "POST"@,
            Method::Put => "PUT"@,
            Method::Delete => "DELETE"@,
            Method::Head => "HEAD"@,
        }
    }

    /// Computes [`Method::verb`].
    pub fn as_str(&self) -> (text: &'static str)
        ensures
            text@ == self.verb(),
    {
        match self {
            Method::Get => "GET",
            Method::Post => "POST",
            Method::Put => "PUT",
            Method::Delete => "DELETE",
            Method::Head => "HEAD",
        }
    }
}

/// Selects the verb for a method name, or rejects the name.
pub fn parse_method(name: &str) -> (res: Result<Method, RequestError>)
    ensures
        match res {
            Ok(method) => method_of(name@) == Some(method),
            Err(e) => e == RequestError::InvalidType && method_of(name@) is None,
        },
{
    if eq_ignoring_case(name, "get") {
        Ok(Method::Get)
    } else if eq_ignoring_case(name, "post") {
        Ok(Method::Post)
    } else if eq_ignoring_case(name, "put") {
        Ok(Method::Put)
    } else if eq_ignoring_case(name, "delete") {
        Ok(Method::Delete)
    } else if eq_ignoring_case(name, "head") {
        Ok(Method::Head)
    } else {
        Err(RequestError::InvalidType)
    }
}

/// Every spelling of a verb selects that verb: a method's own wire name, in
/// any mix of upper and lower case, is accepted and gives the method back.
pub proof fn lemma_verb_round_trip(method: Method, name: Seq<char>)
    requires
        same_ignoring_case(name, method.verb()),
    ensures
        method_of(name) == Some(method),
{
    reveal_strlit("get");
    reveal_strlit("post");
    reveal_strlit("put");
    reveal_strlit("delete");
    reveal_strlit("head");
    reveal_strlit("GET");
    reveal_strlit("POST");
    reveal_strlit("PUT");
    reveal_strlit("DELETE");
    reveal_strlit("HEAD");
    let first = ascii_lower(name[0]);
    match method {
        Method::Get => {
            assert(first == 'g' && ascii_lower(name[1]) == 'e' && ascii_lower(name[2]) == 't');
        },
        Method::Post => {
            assert(first == 'p' && ascii_lower(name[1]) == 'o' && ascii_lower(name[2]) == 's'
                && ascii_lower(name[3]) == 't');
        },
        Method::Put => {
            assert(first == 'p' && ascii_lower(name[1]) == 'u' && ascii_lower(name[2]) == 't');
            assert(!same_ignoring_case(name, "get"@));
        },
        Method::Delete => {
            assert(first == 'd' && ascii_lower(name[1]) == 'e' && ascii_lower(name[2]) == 'l'
                && ascii_lower(name[3]) == 'e' && ascii_lower(name[4]) == 't' && ascii_lower(
                name[5],
            ) == 'e');
        },
        Method::Head => {
            assert(first == 'h' && ascii_lower(name[1]) == 'e' && ascii_lower(name[2]) == 'a'
                && ascii_lower(name[3]) == 'd');
            assert(!same_ignoring_case(name, "post"@));
        },
    }
}

/// Nothing but a spelling of a verb selects it: a name that selects a method
/// is that method's wire name up to ASCII case.
pub proof fn lemma_selected_names(method: Method, name: Seq<char>)
    requires
        method_of(name) == Some(method),
    ensures
        same_ignoring_case(name, method.verb()),
{
    reveal_strlit("get");
    reveal_strlit("post");
    reveal_strlit("put");
    reveal_strlit("delete");
    reveal_strlit("head");
    reveal_strlit("GET");
    reveal_strlit("POST");
    reveal_strlit("PUT");
    reveal_strlit("DELETE");
    reveal_strlit("HEAD");
    let lower = method.verb().map_values(|c: char| ascii_lower(c));
    assert(lower.len() == method.verb().len());
    assert(same_ignoring_case(name, lower)) by {
        match method {
            Method::Get => assert(lower =~= "get"@),
            Method::Post => assert(lower =~= "post"@),
            Method::Put => assert(lower =~= "put"@),
            Method::Delete => assert(lower =~= "delete"@),
            Method::Head => assert(lower =~= "head"@),
        }
    }
    assert forall|i: int| 0 <= i < method.verb().len() implies ascii_lower(#[trigger] name[i])
        == ascii_lower(method.verb()[i]) by {
        assert(ascii_lower(lower[i]) == lower[i]);
    }
}

} // verus!
