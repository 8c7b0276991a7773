//! The JSON texts that requests are answered with.

use vstd::prelude::*;
use crate::support::concat;

verus! {

/// `{"status":"ok","message":"<m>"}`
pub open spec fn ok_json(m: Seq<char>) -> Seq<char> {
    "{\"status\":\"ok\",\"message\":\""@ + m + "\"}"@
}

/// `{"status":"error","message":"<m>"}`
pub open spec fn error_json(m: Seq<char>) -> Seq<char> {
    "{\"status\":\"error\",\"message\":\""@ + m + "\"}"@
}

/// A success answer carrying the message `m`.
pub fn ok_message(m: &str) -> (r: String)
    ensures
        r@ == ok_json(m@),
{
    let mut s = concat("{\"status\":\"ok\",\"message\":\"", m);
    s.append("\"}");
    s
}

/// A failure answer carrying the message `m`.
pub fn error_message(m: &str) -> (r: String)
    ensures
        r@ == error_json(m@),
{
    let mut s = concat("{\"status\":\"error\",\"message\":\"", m);
    s.append("\"}");
    s
}

} // verus!
