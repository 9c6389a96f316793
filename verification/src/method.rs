//! HTTP request methods.

use crate::text::same_text;
use vstd::prelude::*;

verus! {

/// The method of an HTTP request.
#[derive(Clone, Copy, Debug, PartialEq, Eq, Structural)]
pub enum Method {
    Head,
    Get,
    Post,
    Put,
    Patch,
    Delete,
    Options,
    Connect,
    Trace,
}

/// The name of a method as it stands on the request line, in capitals.
pub open spec fn method_name(method: Method) -> Seq<char> {
    match method {
        Method::Head => "HEAD"@,
        Method::Get => "GET"@,
        Method::Post => "POST"@,
        Method::Put => "PUT"@,
        Method::Patch => "PATCH"@,
        Method::Delete => "DELETE"@,
        Method::Options => "OPTIONS"@,
        Method::Connect => "CONNECT"@,
        Method::Trace => "TRACE"@,
    }
}

/// Two methods with the same name are the same method.
pub proof fn lemma_method_names_differ(a: Method, b: Method)
    requires
        method_name(a) == method_name(b),
    ensures
        a == b,
{
    reveal_strlit("HEAD");
    reveal_strlit("GET");
    reveal_strlit("POST");
    reveal_strlit("PUT");
    reveal_strlit("PATCH");
    reveal_strlit("DELETE");
    reveal_strlit("OPTIONS");
    reveal_strlit("CONNECT");
    reveal_strlit("TRACE");
    let x = method_name(a);
    let y = method_name(b);
    assert(x.len() == y.len());
    assert(x[0] == y[0]);
    assert(x[1] == y[1]);
}

impl Method {
    /// The name of the method.
    pub fn name(self) -> (r: &'static str)
        ensures
            r@ == method_name(self),
    {
        match self {
            Method::Head => "HEAD",
            Method::Get => "GET",
            Method::Post => "POST",
            Method::Put => "PUT",
            Method::Patch => "PATCH",
            Method::Delete => "DELETE",
            Method::Options => "OPTIONS",
            Method::Connect => "CONNECT",
            Method::Trace => "TRACE",
        }
    }

    /// The method that `name` names. Names are matched letter for letter,
    /// so a name in small letters names no method.
    pub fn from_name(name: &str) -> (r: Option<Method>)
        ensures
            match r {
                Some(method) => method_name(method) == name@,
                None => forall|method: Method| method_name(method) != name@,
            },
            forall|method: Method| method_name(method) == name@ ==> r == Some(method),
    {
        let r = if same_text(name, "HEAD") {
            Some(Method::Head)
        } else if same_text(name, "GET") {
            Some(Method::Get)
        } else if same_text(name, "POST") {
            Some(Method::Post)
        } else if same_text(name, "PUT") {
            Some(Method::Put)
        } else if same_text(name, "PATCH") {
            Some(Method::Patch)
        } else if same_text(name, "DELETE") {
            Some(Method::Delete)
        } else if same_text(name, "OPTIONS") {
            Some(Method::Options)
        } else if same_text(name, "CONNECT") {
            Some(Method::Connect)
        } else if same_text(name, "TRACE") {
            Some(Method::Trace)
        } else {
            None
        };
        proof {
            assert forall|method: Method| method_name(method) == name@ implies r == Some(
                method,
            ) by {
                match r {
                    Some(found) => {
                        lemma_method_names_differ(found, method);
                    },
                    None => {},
                }
            }
        }
        r
    }
}

} // verus!
