use vstd::prelude::*;

verus! {

/// The HTTP methods a route can be declared for.
#[derive(PartialEq, Eq, Structural, Hash, Clone, Copy, Debug)]
pub enum HttpMethod {
    Get,
    Post,
    Put,
    Patch,
    Delete,
}

/// The canonical upper-case token of a method.
pub open spec fn method_token(m: HttpMethod) -> Seq<char> {
    match m {
        HttpMethod::Get => seq!['G', 'E', 'T'],
        HttpMethod::Post => seq!['P', 'O', 'S', 'T'],
        HttpMethod::Put => seq!['P', 'U', 'T'],
        HttpMethod::Patch => seq!['P', 'A', 'T', 'C', 'H'],
        HttpMethod::Delete => seq!['D', 'E', 'L', 'E', 'T', 'E'],
    }
}

/// What `str::to_uppercase` makes of a string.
pub uninterp spec fn upper_of(s: Seq<char>) -> Seq<char>;

/// Relies on `str::to_uppercase`: the upper-case form of `s`, which depends
/// on its characters alone.
#[verifier::external_body]
fn uppercase(s: &str) -> (r: String)
    ensures
        r@ == upper_of(s@),
{
    s.to_uppercase()
}

/// The method whose canonical token is exactly `t`, if any.
pub open spec fn method_of_token(t: Seq<char>) -> Option<HttpMethod> {
    if t == method_token(HttpMethod::Get) {
        Some(HttpMethod::Get)
    } else if t == method_token(HttpMethod::Post) {
        Some(HttpMethod::Post)
    } else if t == method_token(HttpMethod::Put) {
        Some(HttpMethod::Put)
    } else if t == method_token(HttpMethod::Patch) {
        Some(HttpMethod::Patch)
    } else if t == method_token(HttpMethod::Delete) {
        Some(HttpMethod::Delete)
    } else {
        None
    }
}

impl HttpMethod {
    /// The method named by a token in any letter case (`get`, `PosT`), or
    /// `None` where the token names none of them.
    pub fn from_token(token: &str) -> (r: Option<HttpMethod>)
        ensures
            r == method_of_token(upper_of(token@)),
    {
        let upper = uppercase(token);
        HttpMethod::from_upper(&upper)
    }

    /// The method whose canonical token is exactly `upper`, if any.
    pub fn from_upper(upper: &String) -> (r: Option<HttpMethod>)
        ensures
            r == method_of_token(upper@),
    {
        if *upper == HttpMethod::Get.to_string() {
            Some(HttpMethod::Get)
        } else if *upper == HttpMethod::Post.to_string() {
            Some(HttpMethod::Post)
        } else if *upper == HttpMethod::Put.to_string() {
            Some(HttpMethod::Put)
        } else if *upper == HttpMethod::Patch.to_string() {
            Some(HttpMethod::Patch)
        } else if *upper == HttpMethod::Delete.to_string() {
            Some(HttpMethod::Delete)
        } else {
            None
        }
    }

    /// The method's canonical token, such as `GET`.
    pub fn to_string(&self) -> (r: String)
        ensures
            r@ == method_token(*self),
    {
        let slice = match self {
            HttpMethod::Get => "GET",
            HttpMethod::Post => "POST",
            HttpMethod::Put => "PUT",
            HttpMethod::Patch => "PATCH",
            HttpMethod::Delete => "DELETE",
        };
        proof {
            reveal_strlit("GET");
            reveal_strlit("POST");
            reveal_strlit("PUT");
            reveal_strlit("PATCH");
            reveal_strlit("DELETE");
        }
        slice.to_owned()
    }
}

} // verus!
