//! The lines written to the log for each request and its response.

use vstd::prelude::*;
use crate::models::opt_view;
use crate::support::{concat, decimal, to_decimal};

verus! {

/// Logs each request and the time taken to answer it.
pub struct ReqLogger {}

/// The client address as logged, or `unknown`.
pub open spec fn client_text(ip: Option<Seq<char>>) -> Seq<char> {
    match ip {
        Some(s) => s,
        None => "unknown"@,
    }
}

impl ReqLogger {
    /// The text that identifies a request: method, path and client.
    pub fn request_id(method: &str, uri: &str, client_ip: Option<&str>) -> (r: String)
        ensures
            r@ == method@ + " "@ + uri@ + " "@ + client_text(opt_view(client_ip)),
    {
        let mut s = concat(method, " ");
        s.append(uri);
        s.append(" ");
        match client_ip {
            Some(ip) => s.append(ip),
            None => s.append("unknown"),
        }
        s
    }

    /// The response line: the request, its status, and the time taken in
    /// milliseconds when the start of the request is known.
    pub fn response_line(
        method: &str,
        uri: &str,
        client_ip: Option<&str>,
        status: &str,
        elapsed_ms: Option<u64>,
    ) -> (r: String)
        ensures
            r@ == method@ + " "@ + uri@ + " "@ + client_text(opt_view(client_ip)) + " "@ + status@
                + match elapsed_ms {
                Some(ms) => " "@ + decimal(ms as nat) + "ms"@,
                None => Seq::empty(),
            },
    {
        let mut s = ReqLogger::request_id(method, uri, client_ip);
        s.append(" ");
        s.append(status);
        match elapsed_ms {
            Some(ms) => {
                s.append(" ");
                let digits = to_decimal(ms);
                s.append(digits.as_str());
                s.append("ms");
            },
            None => {
                assert(s@ + Seq::<char>::empty() =~= s@);
            },
        }
        s
    }
}

} // verus!
