//! The SOCKS5 client handshake (RFC 1928), as a byte-level state machine.
//!
//! The machine decides, from its current state and the bytes just read
//! from the upstream, which bytes to send next and how many bytes to read,
//! until the tunnel is established or the handshake has failed. A driver
//! performs the actual socket reads and writes.

use vstd::prelude::*;
use crate::addr::TargetAddr;

verus! {

/// The greeting: version 5, one method offered, "no authentication".
pub open spec fn greeting_spec() -> Seq<u8> {
    seq![5u8, 1u8, 0u8]
}

/// The CONNECT request for a domain-name target: version, command CONNECT,
/// reserved, address type "domain name", host length, host bytes, then the
/// port in network byte order.
pub open spec fn connect_request_spec(host: Seq<u8>, port: u16) -> Seq<u8> {
    seq![5u8, 1u8, 0u8, 3u8, host.len() as u8] + host
        + seq![(port / 256) as u8, (port % 256) as u8]
}

/// A well-formed method-selection reply that accepts "no authentication".
pub open spec fn method_reply_ok(b: Seq<u8>) -> bool {
    b.len() == 2 && b[0] == 5 && b[1] == 0
}

/// The head of a well-formed success reply: version 5, reply code 0
/// (succeeded), and a known address type (IPv4, domain name, or IPv6).
pub open spec fn reply_head_ok(b: Seq<u8>) -> bool {
    b.len() == 4 && b[0] == 5 && b[1] == 0 && (b[3] == 1 || b[3] == 3 || b[3] == 4)
}

/// The greeting bytes.
pub fn greeting() -> (r: Vec<u8>)
    ensures
        r@ == greeting_spec(),
{
    let mut v: Vec<u8> = Vec::new();
    v.push(5u8);
    v.push(1u8);
    v.push(0u8);
    proof {
        assert(v@ =~= greeting_spec());
    }
    v
}

/// The CONNECT request bytes for a target.
pub fn connect_request(t: &TargetAddr) -> (r: Vec<u8>)
    requires
        t.wf(),
    ensures
        r@ == connect_request_spec(t.host@, t.port),
{
    let mut v: Vec<u8> = Vec::new();
    v.push(5u8);
    v.push(1u8);
    v.push(0u8);
    v.push(3u8);
    v.push(t.host.len() as u8);
    proof {
        assert(v@ =~= seq![5u8, 1u8, 0u8, 3u8, t.host@.len() as u8] + t.host@.take(0));
    }
    let mut k: usize = 0;
    while k < t.host.len()
        invariant
            t.wf(),
            k <= t.host@.len(),
            v@ == seq![5u8, 1u8, 0u8, 3u8, t.host@.len() as u8] + t.host@.take(k as int),
        decreases t.host@.len() - k,
    {
        v.push(t.host[k]);
        proof {
            assert(t.host@.take(k as int + 1)
                =~= t.host@.take(k as int).push(t.host@[k as int]));
            assert(v@ =~= seq![5u8, 1u8, 0u8, 3u8, t.host@.len() as u8]
                + t.host@.take(k as int + 1));
        }
        k = k + 1;
    }
    let hi: u8 = (t.port / 256) as u8;
    let lo: u8 = (t.port % 256) as u8;
    v.push(hi);
    v.push(lo);
    proof {
        assert(t.host@.take(t.host@.len() as int) =~= t.host@);
        assert(v@ =~= connect_request_spec(t.host@, t.port));
    }
    v
}

/// Where the handshake stands.
#[derive(Clone, Copy, Debug, PartialEq, Eq, Structural)]
pub enum HandshakeState {
    /// nothing sent yet
    Init,
    /// greeting sent; awaiting the two-byte method selection
    AwaitMethod,
    /// CONNECT request sent; awaiting the four-byte reply head
    AwaitReplyHead,
    /// awaiting the one-byte length of the bound domain name
    AwaitDomainLen,
    /// awaiting the bound address tail of the reply
    AwaitReplyTail,
    /// the upstream accepted: the tunnel is open
    Established,
    /// the upstream refused or replied out of protocol
    Failed,
}

/// What the driver must do after a step.
#[derive(Debug, PartialEq, Eq)]
pub enum HandshakeAction {
    /// write these bytes upstream, then read exactly the given number of bytes
    Send(Vec<u8>, usize),
    /// read exactly the given number of bytes
    Recv(usize),
    /// the handshake succeeded; start relaying
    Done,
    /// the handshake failed; close the connection
    Fail,
}

/// One SOCKS5 client handshake toward a fixed target.
pub struct Handshake {
    pub state: HandshakeState,
    pub target: TargetAddr,
    /// every byte handed to the upstream so far
    pub sent: Ghost<Seq<u8>>,
}

impl Handshake {
    /// The target is well formed, and the bytes sent so far are exactly
    /// what the protocol prescribes for the state reached.
    pub open spec fn wf(self) -> bool {
        &&& self.target.wf()
        &&& (self.state is Init ==> self.sent@ == Seq::<u8>::empty())
        &&& (self.state is AwaitMethod ==> self.sent@ == greeting_spec())
        &&& ((self.state is AwaitReplyHead || self.state is AwaitDomainLen
                || self.state is AwaitReplyTail || self.state is Established)
            ==> self.sent@ == greeting_spec()
                + connect_request_spec(self.target.host@, self.target.port))
    }

    /// A fresh handshake for a target; nothing sent yet.
    pub fn new(t: TargetAddr) -> (r: Handshake)
        requires
            t.wf(),
        ensures
            r.wf(),
            r.state is Init,
            r.target.host@ == t.host@,
            r.target.port == t.port,
            r.sent@ == Seq::<u8>::empty(),
    {
        Handshake { state: HandshakeState::Init, target: t, sent: Ghost(Seq::empty()) }
    }

    /// Whether the tunnel has been established.
    pub fn established(&self) -> (b: bool)
        ensures
            b == (self.state is Established),
    {
        match self.state {
            HandshakeState::Established => true,
            _ => false,
        }
    }

    /// Whether the handshake has failed.
    pub fn failed(&self) -> (b: bool)
        ensures
            b == (self.state is Failed),
    {
        match self.state {
            HandshakeState::Failed => true,
            _ => false,
        }
    }

    /// One step of the handshake: from the current state and the bytes just
    /// read, move to the next state and tell the driver what to do next.
    /// The driver feeds an empty input for the first step and thereafter
    /// exactly the bytes the previous action asked it to read.
    pub fn step(&mut self, input: &[u8]) -> (act: HandshakeAction)
        requires
            old(self).wf(),
            !(old(self).state is Established),
            !(old(self).state is Failed),
        ensures
            final(self).wf(),
            final(self).target.host@ == old(self).target.host@,
            final(self).target.port == old(self).target.port,
            old(self).state is Init ==> {
                &&& final(self).state is AwaitMethod
                &&& (act matches HandshakeAction::Send(b, n)
                        && b@ == greeting_spec() && n == 2)
            },
            old(self).state is AwaitMethod ==> if method_reply_ok(input@) {
                &&& final(self).state is AwaitReplyHead
                &&& (act matches HandshakeAction::Send(b, n)
                        && b@ == connect_request_spec(
                            old(self).target.host@, old(self).target.port)
                        && n == 4)
            } else {
                final(self).state is Failed && act is Fail
            },
            old(self).state is AwaitReplyHead ==> if reply_head_ok(input@) {
                &&& input@[3] == 1 ==> final(self).state is AwaitReplyTail
                        && act == HandshakeAction::Recv(6usize)
                &&& input@[3] == 4 ==> final(self).state is AwaitReplyTail
                        && act == HandshakeAction::Recv(18usize)
                &&& input@[3] == 3 ==> final(self).state is AwaitDomainLen
                        && act == HandshakeAction::Recv(1usize)
            } else {
                final(self).state is Failed && act is Fail
            },
            old(self).state is AwaitDomainLen ==> if input@.len() == 1 {
                final(self).state is AwaitReplyTail
                    && (act matches HandshakeAction::Recv(m) && m == input@[0] + 2)
            } else {
                final(self).state is Failed && act is Fail
            },
            old(self).state is AwaitReplyTail ==> {
                final(self).state is Established && act is Done
            },
    {
        match self.state {
            HandshakeState::Init => {
                let g = greeting();
                self.state = HandshakeState::AwaitMethod;
                self.sent = Ghost(greeting_spec());
                HandshakeAction::Send(g, 2)
            },
            HandshakeState::AwaitMethod => {
                if input.len() == 2 && input[0] == 5 && input[1] == 0 {
                    let req = connect_request(&self.target);
                    self.state = HandshakeState::AwaitReplyHead;
                    self.sent = Ghost(self.sent@ + req@);
                    HandshakeAction::Send(req, 4)
                } else {
                    self.state = HandshakeState::Failed;
                    HandshakeAction::Fail
                }
            },
            HandshakeState::AwaitReplyHead => {
                if input.len() == 4 && input[0] == 5 && input[1] == 0
                    && (input[3] == 1 || input[3] == 3 || input[3] == 4)
                {
                    if input[3] == 1 {
                        self.state = HandshakeState::AwaitReplyTail;
                        HandshakeAction::Recv(6)
                    } else if input[3] == 4 {
                        self.state = HandshakeState::AwaitReplyTail;
                        HandshakeAction::Recv(18)
                    } else {
                        self.state = HandshakeState::AwaitDomainLen;
                        HandshakeAction::Recv(1)
                    }
                } else {
                    self.state = HandshakeState::Failed;
                    HandshakeAction::Fail
                }
            },
            HandshakeState::AwaitDomainLen => {
                if input.len() == 1 {
                    self.state = HandshakeState::AwaitReplyTail;
                    HandshakeAction::Recv(input[0] as usize + 2)
                } else {
                    self.state = HandshakeState::Failed;
                    HandshakeAction::Fail
                }
            },
            HandshakeState::AwaitReplyTail => {
                self.state = HandshakeState::Established;
                HandshakeAction::Done
            },
            HandshakeState::Established | HandshakeState::Failed => {
                // excluded by the precondition
                HandshakeAction::Fail
            },
        }
    }
}

/// An established handshake has sent exactly the greeting followed by the
/// CONNECT request for its target — in that order and nothing else: the
/// relay cannot have started before the handshake was complete.
pub proof fn lemma_handshake_sent(h: Handshake)
    requires
        h.wf(),
        h.state is Established,
    ensures
        h.sent@ == greeting_spec() + connect_request_spec(h.target.host@, h.target.port),
{
}

} // verus!
