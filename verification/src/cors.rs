//! The cross-origin policy: every origin, a fixed list of methods and every
//! request header are permitted, and every reply says so.

use vstd::prelude::*;
use vstd::string::StringExecFns;
use crate::reply::{header, Header, HeaderView, header_views};

verus! {

/// A request method that the policy names.
#[derive(Debug, Clone, Copy, PartialEq, Eq, Structural)]
pub enum Method {
    Get,
    Post,
    Put,
    Delete,
    Patch,
}

impl Method {
    /// The method as it is written on the wire.
    pub open spec fn token(self) -> Seq<char> {
        match self {
            Method::Get => "GET"@,
            Method::Post => "POST"@,
            Method::Put => "PUT"@,
            Method::Delete => "DELETE"@,
            Method::Patch => "PATCH"@,
        }
    }

    /// The method as it is written on the wire.
    pub fn name(self) -> (text: &'static str)
        ensures
            text@ == self.token(),
    {
        match self {
            Method::Get => "GET",
            Method::Post => "POST",
            Method::Put => "PUT",
            Method::Delete => "DELETE",
            Method::Patch => "PATCH",
        }
    }
}

/// The methods that the policy permits, in the order in which they are listed.
pub open spec fn permitted_methods() -> Seq<Method> {
    seq![Method::Get, Method::Post, Method::Put, Method::Delete, Method::Patch]
}

/// The tokens of `methods`, in order, with a comma between neighbours and
/// nothing before the first or after the last.
pub open spec fn comma_separated(methods: Seq<Method>) -> Seq<char>
    decreases methods.len(),
{
    if methods.len() == 0 {
        Seq::empty()
    } else if methods.len() == 1 {
        methods[0].token()
    } else {
        comma_separated(methods.drop_last()) + seq![','] + methods.last().token()
    }
}

/// The three header lines that state the policy.
pub open spec fn policy_headers() -> Seq<HeaderView> {
    seq![
        HeaderView { name: "access-control-allow-origin"@, value: "*"@ },
        HeaderView {
            name: "access-control-allow-methods"@,
            value: comma_separated(permitted_methods()),
        },
        HeaderView { name: "access-control-allow-headers"@, value: "*"@ },
    ]
}

/// Whether `headers` holds every header line of the policy.
pub open spec fn states_policy(headers: Seq<HeaderView>) -> bool {
    forall|i: int|
        0 <= i < policy_headers().len() ==> headers.contains(#[trigger] policy_headers()[i])
}

/// The methods that the policy permits.
pub fn allowed_methods() -> (methods: Vec<Method>)
    ensures
        methods@ == permitted_methods(),
{
    let methods = vec![Method::Get, Method::Post, Method::Put, Method::Delete, Method::Patch];
    assert(methods@ =~= permitted_methods());
    methods
}

/// Writes a list of methods as the value of a header line.
pub fn method_list(methods: &Vec<Method>) -> (text: String)
    ensures
        text@ == comma_separated(methods@),
{
    let mut text = String::new();
    let mut at: usize = 0;
    while at < methods.len()
        invariant
            at <= methods.len(),
            text@ == comma_separated(methods@.subrange(0, at as int)),
        decreases methods.len() - at,
    {
        let ghost written = methods@.subrange(0, at as int);
        let ghost next = methods@.subrange(0, at + 1);
        proof {
            assert(next.drop_last() =~= written);
            assert(next.last() == methods@[at as int]);
            reveal_strlit(",");
            assert(","@ =~= seq![',']);
        }
        if at > 0 {
            text.append(",");
        }
        text.append(methods[at].name());
        proof {
            if at == 0 {
                assert(written.len() == 0);
                assert(text@ =~= methods@[0].token());
            }
        }
        at = at + 1;
    }
    assert(methods@.subrange(0, at as int) =~= methods@);
    text
}

/// The header lines that state the policy, ready to be put on a reply.
pub fn headers() -> (lines: Vec<Header>)
    ensures
        header_views(lines@) == policy_headers(),
{
    let methods = allowed_methods();
    let list = method_list(&methods);
    let lines = vec![
        header("access-control-allow-origin", "*"),
        header("access-control-allow-methods", list.as_str()),
        header("access-control-allow-headers", "*"),
    ];
    assert(header_views(lines@) =~= policy_headers());
    lines
}

/// The permitted methods, written as the value of a header line, are
/// `GET,POST,PUT,DELETE,PATCH`.
pub proof fn permitted_methods_text()
    ensures
        comma_separated(permitted_methods()) == "GET,POST,PUT,DELETE,PATCH"@,
{
    reveal_strlit("GET");
    reveal_strlit("POST");
    reveal_strlit("PUT");
    reveal_strlit("DELETE");
    reveal_strlit("PATCH");
    reveal_strlit("GET,POST,PUT,DELETE,PATCH");
    let all = permitted_methods();
    let four = all.drop_last();
    let three = four.drop_last();
    let two = three.drop_last();
    let one = two.drop_last();
    reveal_with_fuel(comma_separated, 6);
    assert(comma_separated(one) =~= "GET"@);
    assert(comma_separated(two) =~= comma_separated(one) + seq![','] + "POST"@);
    assert(comma_separated(three) =~= comma_separated(two) + seq![','] + "PUT"@);
    assert(comma_separated(four) =~= comma_separated(three) + seq![','] + "DELETE"@);
    assert(comma_separated(all) =~= comma_separated(four) + seq![','] + "PATCH"@);
    assert(comma_separated(all) =~= "GET,POST,PUT,DELETE,PATCH"@);
}

} // verus!
