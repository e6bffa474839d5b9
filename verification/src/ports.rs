//! Finding a port to serve on.

use vstd::prelude::*;

verus! {

/// Tries the ports from `start_port` to `end_port`, both included, in rising order, and
/// returns the first that `is_free` accepts.
///
/// Every port before the one returned was tried and refused; where no port is returned,
/// every port of the range was tried and refused, which is all there is to say of an empty
/// range. No port is tried after the first that is accepted.
pub fn find_first_free_port<F: Fn(u16) -> bool>(
    start_port: u16,
    end_port: u16,
    is_free: F,
) -> (port: Option<u16>)
    requires
        forall|candidate: u16| call_requires(is_free, (candidate,)),
    ensures
        match port {
            Some(found) => {
                &&& start_port <= found <= end_port
                &&& call_ensures(is_free, (found,), true)
                &&& forall|earlier: u16|
                    start_port <= earlier < found ==> call_ensures(is_free, (earlier,), false)
            },
            None => forall|candidate: u16|
                start_port <= candidate <= end_port ==> call_ensures(
                    is_free,
                    (candidate,),
                    false,
                ),
        },
{
    if start_port > end_port {
        return None;
    }
    let mut candidate: u16 = start_port;
    loop
        invariant
            start_port <= candidate <= end_port,
            forall|candidate: u16| call_requires(is_free, (candidate,)),
            forall|earlier: u16|
                start_port <= earlier < candidate ==> call_ensures(is_free, (earlier,), false),
        decreases end_port - candidate,
    {
        if is_free(candidate) {
            return Some(candidate);
        }
        if candidate == end_port {
            return None;
        }
        candidate = candidate + 1;
    }
}

} // verus!
