use vstd::prelude::*;

verus! {

/// True of characters that can stand inside a JSON string literal
/// without escaping: printable ASCII other than `"` and `\`.
pub open spec fn json_safe_char(c: char) -> bool {
    c != '"' && c != '\\' && 0x20 <= c as u32 && c as u32 <= 0x7e
}

/// True of a string whose every character can stand inside a JSON
/// string literal without escaping.
pub open spec fn is_json_safe(s: Seq<char>) -> bool {
    forall|i: int| 0 <= i < s.len() ==> json_safe_char(s[i])
}

/// The JSON document `{"message":"<m>"}` for a message `m`.
pub open spec fn json_body(message: Seq<char>) -> Seq<char> {
    "{\"message\":\""@ + message + "\"}"@
}

/// Checks at runtime that every character of `s` is JSON-safe.
pub fn json_safe(s: &str) -> (r: bool)
    ensures
        r == is_json_safe(s@),
{
    let n = s.unicode_len();
    let mut i: usize = 0;
    while i < n
        invariant
            i <= n,
            n == s@.len(),
            forall|j: int| 0 <= j < i ==> json_safe_char(s@[j]),
        decreases n - i,
    {
        let c = s.get_char(i);
        let v = c as u32;
        if c == '"' || c == '\\' || v < 0x20 || v > 0x7e {
            return false;
        }
        i += 1;
    }
    true
}

/// The one data entity of the library: the body of every HTTP response,
/// a single human-readable message.
pub struct Response {
    pub message: String,
}

impl Response {
    /// The message is non-empty and needs no JSON escaping, so that
    /// `to_json` yields a valid JSON document.
    pub open spec fn wf(&self) -> bool {
        self.message@.len() > 0 && is_json_safe(self.message@)
    }

    /// Builds a `Response`, accepting exactly the non-empty messages
    /// whose characters need no JSON escaping.
    pub fn new(message: String) -> (r: Option<Response>)
        ensures
            r is Some <==> message@.len() > 0 && is_json_safe(message@),
            r matches Some(resp) ==> resp.message@ == message@ && resp.wf(),
    {
        if message.as_str().unicode_len() == 0 {
            return None;
        }
        if !json_safe(message.as_str()) {
            return None;
        }
        Some(Response { message })
    }

    /// Serialises the response to the JSON document `{"message":"<m>"}`.
    pub fn to_json(&self) -> (r: String)
        ensures
            r@ == json_body(self.message@),
    {
        let mut r = String::from_str("{\"message\":\"");
        r.append(self.message.as_str());
        r.append("\"}");
        proof {
            assert(r@ =~= json_body(self.message@));
        }
        r
    }
}

} // verus!
