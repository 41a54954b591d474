//! The query side's decisions: the server handle the overlay endpoint is
//! built around, and the routing of a raw HTTP request to the state
//! endpoint or the overlay page.

use vstd::prelude::*;
use vstd::string::StringExecFns;
use std::sync::Arc;
use crate::shared::SharedStore;

verus! {

/// Handle for the overlay's HTTP listener: the address to bind and the
/// shared snapshot every request reads. The accept loop itself is I/O and
/// lives with the caller.
pub struct WebServer {
    /// Address the listener binds, `host:port`.
    pub address: String,
    /// The shared snapshot the state endpoint renders.
    pub state: Arc<SharedStore>,
}

impl WebServer {
    /// Build a server handle for an address and a shared snapshot.
    pub fn new(address: &str, state: Arc<SharedStore>) -> (r: Self)
        ensures
            r.address@ == address@,
            r.state == state,
    {
        WebServer { address: String::from_str(address), state }
    }
}

/// The request-line prefix that selects the state endpoint:
/// the bytes of `GET /api/state`.
pub open spec fn state_request_prefix() -> Seq<u8> {
    seq![0x47u8, 0x45, 0x54, 0x20, 0x2F, 0x61, 0x70, 0x69, 0x2F, 0x73, 0x74, 0x61, 0x74, 0x65]
}

/// Whether a raw request selects the state endpoint: its first line — and
/// so the request itself — starts with `GET /api/state`.
pub open spec fn is_state_request_spec(request: Seq<u8>) -> bool {
    request.len() >= 14 && request.subrange(0, 14) == state_request_prefix()
}

/// Route a raw HTTP request: `true` for the state endpoint, `false` for
/// the overlay page.
pub fn is_state_request(request: &[u8]) -> (r: bool)
    ensures
        r == is_state_request_spec(request@),
{
    if request.len() < 14 {
        return false;
    }
    let r = request[0] == 0x47 && request[1] == 0x45 && request[2] == 0x54
        && request[3] == 0x20 && request[4] == 0x2F && request[5] == 0x61
        && request[6] == 0x70 && request[7] == 0x69 && request[8] == 0x2F
        && request[9] == 0x73 && request[10] == 0x74 && request[11] == 0x61
        && request[12] == 0x74 && request[13] == 0x65;
    proof {
        if r {
            assert(request@.subrange(0, 14) =~= state_request_prefix());
        } else {
            assert(request@.subrange(0, 14) != state_request_prefix()) by {
                if request@.subrange(0, 14) == state_request_prefix() {
                    assert(forall|i: int| 0 <= i < 14
                        ==> request@[i] == #[trigger] request@.subrange(0, 14)[i]);
                }
            }
        }
    }
    r
}

} // verus!
