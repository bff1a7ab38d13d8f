//! The hardening headers that every response carries.

use vstd::prelude::*;
use vstd::string::StringExecFns;

verus! {

/// One response header; the name is in lower case.
#[derive(Debug, Clone, PartialEq, Eq)]
pub struct ResponseHeader {
    pub name: String,
    pub value: String,
}

impl View for ResponseHeader {
    type V = (Seq<char>, Seq<char>);

    open spec fn view(&self) -> (Seq<char>, Seq<char>) {
        (self.name@, self.value@)
    }
}

/// The fixed set of hardening headers, in the order in which they are set.
pub open spec fn hardening_headers() -> Seq<(Seq<char>, Seq<char>)> {
    seq![
        ("x-content-type-options"@, "nosniff"@),
        ("x-frame-options"@, "DENY"@),
        ("x-xss-protection"@, "1; mode=block"@),
        ("strict-transport-security"@, "max-age=31536000; includeSubDomains; preload"@),
        ("referrer-policy"@, "strict-origin-when-cross-origin"@),
        (
            "content-security-policy"@,
            "default-src 'self'; script-src 'self'; img-src 'self'; style-src 'self'; font-src 'self'; frame-ancestors 'none'; base-uri 'self'; form-action 'self'"@,
        ),
        (
            "permissions-policy"@,
            "camera=(), microphone=(), geolocation=(), interest-cohort=()"@,
        ),
    ]
}

/// The views of a list of headers.
pub open spec fn headers_view(headers: Seq<ResponseHeader>) -> Seq<(Seq<char>, Seq<char>)> {
    Seq::new(headers.len(), |i: int| headers[i]@)
}

fn header(name: &str, value: &str) -> (r: ResponseHeader)
    ensures
        r@ == (name@, value@),
{
    ResponseHeader { name: String::from_str(name), value: String::from_str(value) }
}

/// The headers to set on a response, whatever the request and the response
/// were: each replaces a header of the same name.
pub fn security_headers() -> (r: Vec<ResponseHeader>)
    ensures
        headers_view(r@) == hardening_headers(),
{
    let mut out: Vec<ResponseHeader> = Vec::new();
    out.push(header("x-content-type-options", "nosniff"));
    out.push(header("x-frame-options", "DENY"));
    out.push(header("x-xss-protection", "1; mode=block"));
    out.push(header("strict-transport-security", "max-age=31536000; includeSubDomains; preload"));
    out.push(header("referrer-policy", "strict-origin-when-cross-origin"));
    out.push(
        header(
            "content-security-policy",
            "default-src 'self'; script-src 'self'; img-src 'self'; style-src 'self'; font-src 'self'; frame-ancestors 'none'; base-uri 'self'; form-action 'self'",
        ),
    );
    out.push(
        header(
            "permissions-policy",
            "camera=(), microphone=(), geolocation=(), interest-cohort=()",
        ),
    );
    assert(headers_view(out@) =~= hardening_headers());
    out
}

} // verus!
