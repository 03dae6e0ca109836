//! Choosing the loopback port.

use crate::error::{AuthError, AuthErrorView};
use vstd::prelude::*;

verus! {

/// The first port that is tried.
pub const PORT_FIRST: u16 = 15000;

/// The end of the range of ports: the first port that is not tried.
pub const PORT_END: u16 = 29000;

/// `port` lies in the range that is tried.
pub open spec fn in_port_range(port: u16) -> bool {
    PORT_FIRST <= port < PORT_END
}

/// Picks the first port of the range that `try_bind` reports as free.
///
/// `try_bind` binds a port on the loopback address and releases it at once,
/// and says whether that went well. The ports are tried in rising order,
/// each at most once, and none after the first that is free. Another
/// process may still take the port before the listener binds it: the run
/// then fails at that bind.
pub fn select_random_tcp_port<F: Fn(u16) -> bool>(try_bind: F) -> (r: Result<u16, AuthError>)
    requires
        forall|port: u16| in_port_range(port) ==> #[trigger] call_requires(try_bind, (port,)),
    ensures
        match r {
            Ok(port) => {
                &&& in_port_range(port)
                &&& call_ensures(try_bind, (port,), true)
                &&& forall|other: u16|
                    PORT_FIRST <= other < port ==> #[trigger] call_ensures(try_bind, (other,), false)
            },
            Err(e) => {
                &&& e@ == AuthErrorView::NoPortAvailable
                &&& forall|other: u16|
                    in_port_range(other) ==> #[trigger] call_ensures(try_bind, (other,), false)
            },
        },
{
    let mut port: u16 = PORT_FIRST;
    while port < PORT_END
        invariant
            PORT_FIRST <= port <= PORT_END,
            forall|p: u16| in_port_range(p) ==> #[trigger] call_requires(try_bind, (p,)),
            forall|other: u16|
                PORT_FIRST <= other < port ==> #[trigger] call_ensures(try_bind, (other,), false),
        decreases PORT_END - port,
    {
        if try_bind(port) {
            return Ok(port);
        }
        port += 1;
    }
    Err(AuthError::NoPortAvailable)
}

} // verus!
