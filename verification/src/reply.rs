use vstd::prelude::*;
use crate::response::Response;
use crate::response::json_body;

verus! {

/// A complete HTTP response as the library hands it to the transport:
/// a status code, a list of headers, and a JSON body.
pub struct HttpReply {
    pub status: u16,
    pub headers: Vec<(String, String)>,
    pub body: String,
}

/// The header pair `h` has the given name and value.
pub open spec fn header_is(h: (String, String), name: Seq<char>, value: Seq<char>) -> bool {
    h.0@ == name && h.1@ == value
}

/// The header list opens with the three permissive cross-origin
/// headers: any origin, any method, any header.
pub open spec fn has_cors_headers(hs: Seq<(String, String)>) -> bool {
    &&& hs.len() >= 3
    &&& header_is(hs[0], "Access-Control-Allow-Origin"@, "*"@)
    &&& header_is(hs[1], "Access-Control-Allow-Methods"@, "*"@)
    &&& header_is(hs[2], "Access-Control-Allow-Headers"@, "*"@)
}

/// The permissive cross-origin headers attached to every reply.
pub fn cors_headers() -> (hs: Vec<(String, String)>)
    ensures
        hs@.len() == 3,
        has_cors_headers(hs@),
{
    let mut hs: Vec<(String, String)> = Vec::new();
    hs.push((String::from_str("Access-Control-Allow-Origin"), String::from_str("*")));
    hs.push((String::from_str("Access-Control-Allow-Methods"), String::from_str("*")));
    hs.push((String::from_str("Access-Control-Allow-Headers"), String::from_str("*")));
    hs
}

/// Builds the reply for a response body: the given status, the
/// permissive cross-origin headers, and the body `{"message":"<m>"}`.
pub fn reply(status: u16, resp: &Response) -> (r: HttpReply)
    ensures
        r.status == status,
        has_cors_headers(r.headers@),
        r.body@ == json_body(resp.message@),
{
    HttpReply { status, headers: cors_headers(), body: resp.to_json() }
}

} // verus!
