//! Startup configuration: the listening address, resolved once from the
//! optional command-line argument. There is nothing else to configure — no
//! environment, no file, no persisted state.

use vstd::prelude::*;
use vstd::string::StringExecFns;

verus! {

/// Resolves the address to serve on: the command-line argument when one was
/// given, else the default loopback address.
pub fn listen_address(arg: Option<String>) -> (s: String)
    ensures
        match arg {
            Some(a) => s@ == a@,
            None => s@ == "127.0.0.1:50051"@,
        },
{
    match arg {
        Some(a) => a,
        None => String::from_str("127.0.0.1:50051"),
    }
}

} // verus!
