//! The lines the server writes to its log.
use vstd::prelude::*;
use vstd::string::StringExecFns;

verus! {

/// The line logged when a client connects from `address` at `timestamp`.
pub fn client_connected_line(timestamp: &str, address: &str) -> (r: String)
    ensures
        r@ == timestamp@ + ": [info] Client Connected from "@ + address@ + "\n"@,
{
    let mut r = timestamp.to_owned();
    r.append(": [info] Client Connected from ");
    r.append(address);
    r.append("\n");
    r
}

/// The line logged when a session fails with `error` at `timestamp`.
pub fn session_error_line(timestamp: &str, error: &str) -> (r: String)
    ensures
        r@ == timestamp@ + ": [error] Session Error "@ + error@ + "\n"@,
{
    let mut r = timestamp.to_owned();
    r.append(": [error] Session Error ");
    r.append(error);
    r.append("\n");
    r
}

} // verus!
