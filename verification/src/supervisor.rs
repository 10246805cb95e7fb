//! The engine process's launch configuration.
//!
//! The supervisor starts the external playback engine so that it idles
//! without a loaded track, opens no window, starts at the default volume,
//! and binds its control channel to the address the transport will
//! connect to.  Spawning, stream redirection and liveness polling are
//! process I/O and live outside this crate; the argument list they hand
//! the engine is built and pinned down here.

use vstd::prelude::*;

use vstd::string::StringExecFns;

verus! {

/// The argument list the engine binary is launched with: idle-on-start,
/// no window, the default volume, and the control channel bound to
/// `control_address`.
pub fn engine_args(control_address: &str) -> (args: Vec<String>)
    ensures
        args@.len() == 4,
        args@[0]@ == "--idle=yes"@,
        args@[1]@ == "--force-window=no"@,
        args@[2]@ == "--volume=50"@,
        args@[3]@ == "--input-ipc-server="@ + control_address@,
{
    let mut args: Vec<String> = Vec::new();
    args.push(String::from_str("--idle=yes"));
    args.push(String::from_str("--force-window=no"));
    args.push(String::from_str("--volume=50"));
    args.push(String::from_str("--input-ipc-server=").concat(control_address));
    args
}

} // verus!
