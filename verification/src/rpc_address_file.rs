//! The file through which front-ends find the daemon's RPC endpoint: one
//! line with the address, one line with the shared secret.

use vstd::prelude::*;
use vstd::string::StringExecFns;

verus! {

/// Builds the contents of the RPC address file for the given connection
/// info: the address and the shared secret, each on a line of its own.
/// Putting the text on disk, with the right permissions, is the calling
/// runtime's business.
pub fn write(rpc_address: &str, shared_secret: &str) -> (r: String)
    ensures
        r@ == rpc_address@ + "\n"@ + shared_secret@ + "\n"@,
{
    let mut contents = rpc_address.to_owned();
    contents.append("\n");
    contents.append(shared_secret);
    contents.append("\n");
    contents
}

} // verus!
