//! The front-end decision on an inbound request: only the CONNECT method
//! opens a tunnel; every other method is answered with an empty success
//! response and no upstream connection is attempted.

use vstd::prelude::*;

verus! {

/// The ASCII bytes of the method name `CONNECT`.
pub open spec fn connect_method() -> Seq<u8> {
    seq![67u8, 79u8, 78u8, 78u8, 69u8, 67u8, 84u8]
}

/// What to do with an inbound request.
#[derive(Clone, Copy, Debug, PartialEq, Eq, Structural)]
pub enum RequestDecision {
    /// answer with an empty success response and take no further action
    EmptyOk,
    /// answer with an empty success response and open a tunnel for the
    /// request's authority
    OpenTunnel,
}

/// Decide from the request method whether to open a tunnel: exactly the
/// method `CONNECT` does; any other method gets the empty success answer
/// and no upstream connection.
pub fn decide_request(method: &[u8]) -> (r: RequestDecision)
    ensures
        r is OpenTunnel <==> method@ == connect_method(),
        r is EmptyOk <==> method@ != connect_method(),
{
    if method.len() == 7
        && method[0] == 67 && method[1] == 79 && method[2] == 78 && method[3] == 78
        && method[4] == 69 && method[5] == 67 && method[6] == 84
    {
        proof {
            assert(method@ =~= connect_method());
        }
        RequestDecision::OpenTunnel
    } else {
        proof {
            if method@ == connect_method() {
                assert(method@.len() == 7);
                assert(method@[0] == 67 && method@[1] == 79 && method@[2] == 78
                    && method@[3] == 78 && method@[4] == 69 && method@[5] == 67
                    && method@[6] == 84);
            }
        }
        RequestDecision::EmptyOk
    }
}

} // verus!
