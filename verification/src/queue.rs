//! The inbound message queue and its cooperative draining discipline.
//!
//! The receive loop pushes every decoded datagram onto one FIFO. Each
//! simulation tick, the handler systems drain it in turn: a handler takes
//! the whole queue, keeps the message kinds it owns, and puts every other
//! message back in its original order for the handlers after it.

use vstd::prelude::*;
use crate::msg::MsgKind;
use crate::msg::NetworkMessage;

verus! {

/// The handler systems that share the inbound queue, in the order they
/// drain it within one tick.
#[derive(Clone, Copy, Debug, PartialEq, Eq, Structural)]
pub enum Handler {
    /// Connection lifecycle: discovery responses, join handshake, game start.
    /// Also the terminal consumer of kinds that no later handler reads.
    Connection,
    /// Authoritative state mirroring on the client: snapshots, round info,
    /// role switches.
    ClientSync,
    /// The defender-position stream, read by the attacker's side.
    DefenderStream,
    /// The aim stream, read by the defender's side.
    CrosshairStream,
    /// Bullet spawn events.
    BulletEvents,
    /// Health update events.
    HealthEvents,
    /// The game-over announcement.
    GameOverEvents,
    /// The rematch handshake.
    RematchEvents,
}

/// Which handler consumes each message kind. Every kind has exactly one
/// owner, so a message is never handled twice and never starves the queue.
pub open spec fn owns(h: Handler, k: MsgKind) -> bool {
    match k {
        MsgKind::RoomDiscoveryResponse => h is Connection,
        MsgKind::JoinAccept => h is Connection,
        MsgKind::StartGame => h is Connection,
        MsgKind::RoomDiscoveryRequest => h is Connection,
        MsgKind::JoinRequest => h is Connection,
        MsgKind::JoinReject => h is Connection,
        MsgKind::PlayerInput => h is Connection,
        MsgKind::PlayerHit => h is Connection,
        MsgKind::GameState => h is ClientSync,
        MsgKind::RoundInfoSync => h is ClientSync,
        MsgKind::SwitchRoles => h is ClientSync,
        MsgKind::DefenderState => h is DefenderStream,
        MsgKind::CrosshairPosition => h is CrosshairStream,
        MsgKind::BulletSpawn => h is BulletEvents,
        MsgKind::HealthUpdate => h is HealthEvents,
        MsgKind::GameOver => h is GameOverEvents,
        MsgKind::RematchRequest => h is RematchEvents,
        MsgKind::RematchReady => h is RematchEvents,
    }
}

/// The messages of a queue that `h` owns, as a predicate for `Seq::filter`.
pub open spec fn owned_by(h: Handler) -> spec_fn(NetworkMessage) -> bool {
    |m: NetworkMessage| owns(h, m.kind_spec())
}

/// The messages a queue keeps when `h` drains it.
pub open spec fn kept_from(h: Handler) -> spec_fn(NetworkMessage) -> bool {
    |m: NetworkMessage| !owns(h, m.kind_spec())
}

fn owns_exec(h: Handler, k: MsgKind) -> (r: bool)
    ensures
        r == owns(h, k),
{
    match k {
        MsgKind::RoomDiscoveryResponse => h == Handler::Connection,
        MsgKind::JoinAccept => h == Handler::Connection,
        MsgKind::StartGame => h == Handler::Connection,
        MsgKind::RoomDiscoveryRequest => h == Handler::Connection,
        MsgKind::JoinRequest => h == Handler::Connection,
        MsgKind::JoinReject => h == Handler::Connection,
        MsgKind::PlayerInput => h == Handler::Connection,
        MsgKind::PlayerHit => h == Handler::Connection,
        MsgKind::GameState => h == Handler::ClientSync,
        MsgKind::RoundInfoSync => h == Handler::ClientSync,
        MsgKind::SwitchRoles => h == Handler::ClientSync,
        MsgKind::DefenderState => h == Handler::DefenderStream,
        MsgKind::CrosshairPosition => h == Handler::CrosshairStream,
        MsgKind::BulletSpawn => h == Handler::BulletEvents,
        MsgKind::HealthUpdate => h == Handler::HealthEvents,
        MsgKind::GameOver => h == Handler::GameOverEvents,
        MsgKind::RematchRequest => h == Handler::RematchEvents,
        MsgKind::RematchReady => h == Handler::RematchEvents,
    }
}

/// The process-wide inbound FIFO.
#[derive(Debug)]
pub struct InboundQueue {
    msgs: Vec<NetworkMessage>,
}

impl View for InboundQueue {
    type V = Seq<NetworkMessage>;

    closed spec fn view(&self) -> Seq<NetworkMessage> {
        self.msgs@
    }
}

impl InboundQueue {
    /// An empty queue.
    pub fn new() -> (r: InboundQueue)
        ensures
            r@ == Seq::<NetworkMessage>::empty(),
    {
        InboundQueue { msgs: Vec::new() }
    }

    /// Append one received message at the tail.
    pub fn push(&mut self, m: NetworkMessage)
        ensures
            final(self)@ == old(self)@.push(m),
    {
        self.msgs.push(m);
    }

    /// Number of queued messages.
    pub fn len(&self) -> (n: usize)
        ensures
            n == self@.len(),
    {
        self.msgs.len()
    }

    /// Drop everything, as when a connection is torn down.
    pub fn clear(&mut self)
        ensures
            final(self)@ == Seq::<NetworkMessage>::empty(),
    {
        self.msgs.clear();
    }

    /// Drain for one handler: remove and return the messages it owns, in
    /// order; keep every other message, in order, for later handlers.
    pub fn take_owned(&mut self, h: Handler) -> (owned: Vec<NetworkMessage>)
        ensures
            owned@ == old(self)@.filter(owned_by(h)),
            final(self)@ == old(self)@.filter(kept_from(h)),
    {
        let ghost pre = self.msgs@;
        let mut owned: Vec<NetworkMessage> = Vec::new();
        let mut rest: Vec<NetworkMessage> = Vec::new();
        let n = self.msgs.len();
        let mut i: usize = 0;
        proof {
            assert(pre.subrange(0, 0) =~= Seq::<NetworkMessage>::empty());
            reveal(Seq::filter);
        }
        while i < n
            invariant
                self@ == pre,
                n == pre.len(),
                i <= n,
                owned@ == pre.subrange(0, i as int).filter(owned_by(h)),
                rest@ == pre.subrange(0, i as int).filter(kept_from(h)),
            decreases n - i,
        {
            let m = self.msgs[i];
            let ghost prefix = pre.subrange(0, i as int);
            let ghost grown = pre.subrange(0, i + 1);
            if owns_exec(h, m.kind()) {
                owned.push(m);
            } else {
                rest.push(m);
            }
            proof {
                reveal(Seq::filter);
                assert(grown.drop_last() =~= prefix);
                assert(grown.last() == m);
                assert(owned@ =~= grown.filter(owned_by(h)));
                assert(rest@ =~= grown.filter(kept_from(h)));
            }
            i = i + 1;
        }
        proof {
            assert(pre.subrange(0, n as int) =~= pre);
        }
        self.msgs = rest;
        owned
    }
}

} // verus!
