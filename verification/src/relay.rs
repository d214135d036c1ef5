//! The byte relay of one tunnel: per-direction copy bookkeeping with exact
//! byte counters, and the per-connection session state machine
//! `Connecting -> Tunneling -> Closed`.
//!
//! A driver owns the sockets and performs the reads and writes; each chunk
//! it reads is passed through `RelayDir::forward`, which returns the exact
//! bytes to write on the other side and accounts for them.

use vstd::prelude::*;
use crate::addr::TargetAddr;
use crate::addr::host_of;
use crate::addr::parse_authority;
use crate::addr::port_of;
use crate::addr::valid_authority;
use crate::socks::Handshake;

verus! {

/// One direction of the relay: bytes read on one side and written
/// unchanged on the other.
pub struct RelayDir {
    /// bytes moved so far
    pub total: u64,
    /// this direction has reached end-of-stream
    pub done: bool,
    /// every byte read from the source side so far
    pub fed: Ghost<Seq<u8>>,
    /// every byte handed to the sink side so far
    pub emitted: Ghost<Seq<u8>>,
}

impl RelayDir {
    /// The emitted stream is exactly the fed stream, and the counter is its
    /// exact length.
    pub open spec fn wf(self) -> bool {
        &&& self.emitted@ == self.fed@
        &&& self.total == self.fed@.len()
    }

    /// A fresh direction: nothing moved yet.
    pub fn new() -> (r: RelayDir)
        ensures
            r.wf(),
            r.total == 0,
            !r.done,
            r.fed@ == Seq::<u8>::empty(),
            r.emitted@ == Seq::<u8>::empty(),
    {
        RelayDir {
            total: 0,
            done: false,
            fed: Ghost(Seq::empty()),
            emitted: Ghost(Seq::empty()),
        }
    }

    /// Pass one chunk through: the bytes to write are exactly the bytes
    /// read, appended in order to this direction's stream, and the counter
    /// grows by exactly the chunk's length.
    pub fn forward(&mut self, chunk: &[u8]) -> (out: Vec<u8>)
        requires
            old(self).wf(),
            !old(self).done,
            old(self).total + chunk@.len() <= u64::MAX,
        ensures
            final(self).wf(),
            !final(self).done,
            out@ == chunk@,
            final(self).fed@ == old(self).fed@ + chunk@,
            final(self).emitted@ == old(self).emitted@ + chunk@,
            final(self).total == old(self).total + chunk@.len(),
    {
        let mut out: Vec<u8> = Vec::new();
        let mut k: usize = 0;
        while k < chunk.len()
            invariant
                k <= chunk@.len(),
                out@ == chunk@.take(k as int),
            decreases chunk@.len() - k,
        {
            out.push(chunk[k]);
            proof {
                assert(chunk@.take(k as int + 1)
                    =~= chunk@.take(k as int).push(chunk@[k as int]));
            }
            k = k + 1;
        }
        proof {
            assert(out@ =~= chunk@);
        }
        self.total = self.total + chunk.len() as u64;
        self.fed = Ghost(self.fed@ + chunk@);
        self.emitted = Ghost(self.emitted@ + chunk@);
        out
    }

    /// This direction reached end-of-stream: it ends cleanly, moving
    /// nothing more; its counter and streams stay exactly as they were.
    /// The opposite direction is a separate value and is untouched: one
    /// side may half-close while the other keeps relaying.
    pub fn on_eof(&mut self)
        requires
            old(self).wf(),
        ensures
            final(self).wf(),
            final(self).done,
            final(self).total == old(self).total,
            final(self).fed@ == old(self).fed@,
            final(self).emitted@ == old(self).emitted@,
    {
        self.done = true;
    }
}

/// The phase of one tunneled connection.
#[derive(Clone, Copy, Debug, PartialEq, Eq, Structural)]
pub enum Phase {
    /// target parsed; the upstream dial and handshake are under way
    Connecting,
    /// the SOCKS5 handshake succeeded; bytes are being relayed
    Tunneling,
    /// the connection is torn down, on success or on error
    Closed,
}

/// One tunneled connection: its target, its phase, and — once it closes —
/// the bytes it relayed in each direction.
pub struct TunnelSession {
    pub phase: Phase,
    pub target: TargetAddr,
    /// payload bytes relayed toward the target (client to upstream)
    pub to_target: Ghost<Seq<u8>>,
    /// payload bytes relayed back to the client (upstream to client)
    pub to_client: Ghost<Seq<u8>>,
}

impl TunnelSession {
    /// Before the relay has run, nothing has been relayed.
    pub open spec fn wf(self) -> bool {
        &&& self.target.wf()
        &&& (self.phase is Connecting || self.phase is Tunneling) ==> {
            &&& self.to_target@ == Seq::<u8>::empty()
            &&& self.to_client@ == Seq::<u8>::empty()
        }
    }

    /// Open a session for a CONNECT authority. Succeeds exactly when the
    /// authority is a syntactically valid `host:port`; the session then
    /// starts in the connecting phase with nothing relayed.
    pub fn new(authority: &[u8]) -> (r: Option<TunnelSession>)
        ensures
            r is Some <==> valid_authority(authority@),
            r matches Some(s) ==> {
                &&& s.wf()
                &&& s.phase is Connecting
                &&& s.target.host@ == host_of(authority@)
                &&& s.target.port == port_of(authority@)
                &&& s.to_target@ == Seq::<u8>::empty()
                &&& s.to_client@ == Seq::<u8>::empty()
            },
    {
        match parse_authority(authority) {
            None => None,
            Some(t) => Some(TunnelSession {
                phase: Phase::Connecting,
                target: t,
                to_target: Ghost(Seq::empty()),
                to_client: Ghost(Seq::empty()),
            }),
        }
    }

    /// Begin the SOCKS5 client handshake for this session's target.
    pub fn start_handshake(&self) -> (h: Handshake)
        requires
            self.wf(),
            self.phase is Connecting,
        ensures
            h.wf(),
            h.state is Init,
            h.target.host@ == self.target.host@,
            h.target.port == self.target.port,
            h.sent@ == Seq::<u8>::empty(),
    {
        let t = self.target.duplicate();
        proof {
            assert(t.wf());
        }
        Handshake::new(t)
    }

    /// The upstream could not be reached or refused the target: the
    /// session closes with no bytes having been relayed in either
    /// direction — in particular, nothing was ever sent toward the target.
    pub fn connect_failed(&mut self)
        requires
            old(self).wf(),
            old(self).phase is Connecting,
        ensures
            final(self).wf(),
            final(self).phase is Closed,
            final(self).to_target@ == Seq::<u8>::empty(),
            final(self).to_client@ == Seq::<u8>::empty(),
            final(self).target == old(self).target,
    {
        self.phase = Phase::Closed;
    }

    /// The handshake succeeded: enter the tunneling phase and hand out the
    /// two relay directions, both starting empty. The relay can only start
    /// from an established handshake.
    pub fn begin_relay(&mut self, h: &Handshake) -> (dirs: (RelayDir, RelayDir))
        requires
            old(self).wf(),
            old(self).phase is Connecting,
            h.wf(),
            h.state is Established,
        ensures
            final(self).wf(),
            final(self).phase is Tunneling,
            final(self).target == old(self).target,
            dirs.0.wf() && dirs.0.total == 0 && !dirs.0.done
                && dirs.0.fed@ == Seq::<u8>::empty(),
            dirs.1.wf() && dirs.1.total == 0 && !dirs.1.done
                && dirs.1.fed@ == Seq::<u8>::empty(),
    {
        self.phase = Phase::Tunneling;
        (RelayDir::new(), RelayDir::new())
    }

    /// The relay is over, on EOF of both directions or on an error: close
    /// the session and report the byte counts, which equal exactly the
    /// number of bytes each direction observed.
    pub fn finish(&mut self, toward_target: RelayDir, toward_client: RelayDir)
        -> (counts: (u64, u64))
        requires
            old(self).wf(),
            old(self).phase is Tunneling,
            toward_target.wf(),
            toward_client.wf(),
        ensures
            final(self).wf(),
            final(self).phase is Closed,
            final(self).target == old(self).target,
            final(self).to_target@ == toward_target.fed@,
            final(self).to_client@ == toward_client.fed@,
            counts.0 == toward_target.total,
            counts.1 == toward_client.total,
            counts.0 == final(self).to_target@.len(),
            counts.1 == final(self).to_client@.len(),
    {
        self.phase = Phase::Closed;
        self.to_target = Ghost(toward_target.fed@);
        self.to_client = Ghost(toward_client.fed@);
        (toward_target.total, toward_client.total)
    }
}

/// Round-trip fidelity: a relay direction emits exactly the bytes it was
/// fed — in order, with no reordering, truncation, or duplication — and
/// its counter is their exact number.
pub proof fn lemma_relay_fidelity(d: RelayDir)
    requires
        d.wf(),
    ensures
        d.emitted@ == d.fed@,
        d.total == d.fed@.len(),
{
}

/// Concurrent tunnels do not interfere: what each direction emits is
/// exactly what it alone was fed, whatever any other tunnel carried — no
/// byte of one tunnel can appear in another's stream.
pub proof fn lemma_tunnels_independent(a: RelayDir, b: RelayDir)
    requires
        a.wf(),
        b.wf(),
    ensures
        a.emitted@ == a.fed@,
        b.emitted@ == b.fed@,
{
}

} // verus!
