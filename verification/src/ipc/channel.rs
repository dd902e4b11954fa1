//! The bidirectional IPC channel: a wired pair of endpoints, each owning
//! a FIFO receive queue and a non-owning link to its peer.
//!
//! The peer link is modelled by the peer's identifier plus an `open` flag.
//! An operation that in a running kernel resolves the link hands the peer
//! endpoint in explicitly; a stale or unrelated endpoint does not resolve.
//! Once the flag is cleared the link never becomes resolvable again.

use vstd::prelude::*;
use std::sync::Arc;
use crate::error::{ZxError, ZxResult};
use crate::object::handle::Handle;
use crate::object::object_imp::{KObjectBase, KoidAllocator};
use crate::object::{KoID, KObject, KernelObject};

verus! {

/// One message in flight: a byte sequence plus an ordered sequence of
/// handles whose ownership moves to whoever dequeues the packet.
#[derive(Clone, Debug)]
pub struct MessagePacket {
    /// The payload bytes.
    pub data: Vec<u8>,
    /// The handles carried along, in order.
    pub handles: Vec<Handle>,
}

impl Default for MessagePacket {
    /// The empty message: no bytes, no handles.
    fn default() -> (r: MessagePacket)
        ensures
            r.data@ == Seq::<u8>::empty(),
            r.handles@ == Seq::<Handle>::empty(),
    {
        MessagePacket { data: Vec::new(), handles: Vec::new() }
    }
}

/// One channel endpoint.  Its peer holds the symmetric state; neither
/// side owns the other, so the two-node cycle dies with its endpoints.
pub struct Channel {
    /// The embedded identity base.
    pub base: KObjectBase,
    /// Identifier of the other endpoint of the pair.
    pub peer_koid: KoID,
    /// Whether the link to the peer still resolves.  Cleared when the
    /// peer goes away; never set again.
    pub peer_open: bool,
    /// This endpoint's receive queue, oldest message first.
    pub recv_queue: Vec<MessagePacket>,
}

/// The mathematical state of one endpoint.
pub struct ChannelView {
    /// Identifier of this endpoint.
    pub id: KoID,
    /// Name of this endpoint.
    pub name: Seq<char>,
    /// Identifier of the peer endpoint.
    pub peer_koid: KoID,
    /// Whether the peer link still resolves.
    pub peer_open: bool,
    /// The receive queue, oldest message first.
    pub recv: Seq<MessagePacket>,
}

impl View for Channel {
    type V = ChannelView;

    open spec fn view(&self) -> ChannelView {
        ChannelView {
            id: self.base.id,
            name: self.base.name@,
            peer_koid: self.peer_koid,
            peer_open: self.peer_open,
            recv: self.recv_queue@,
        }
    }
}

/// The two endpoints name each other.
pub open spec fn linked(a: ChannelView, b: ChannelView) -> bool {
    a.peer_koid == b.id && b.peer_koid == a.id
}

/// Endpoint `e` can resolve `p` as its live peer.
pub open spec fn resolves(e: ChannelView, p: ChannelView) -> bool {
    e.peer_open && linked(e, p)
}

/// A freshly wired pair: mutually linked, both links open, identifiers
/// distinct and distinct from the sentinel 0.
pub open spec fn wired(a: ChannelView, b: ChannelView) -> bool {
    linked(a, b) && a.peer_open && b.peer_open && a.id != b.id && a.id != 0 && b.id != 0
}

/// The peer's identifier while the link resolves, else the sentinel 0.
pub open spec fn spec_related_koid(e: ChannelView) -> KoID {
    if e.peer_open {
        e.peer_koid
    } else {
        0
    }
}

/// What a read returns: the oldest queued message, or, on an empty
/// queue, `PEER_CLOSED` when the link is gone and `SHOULD_WAIT` when it
/// still resolves.
pub open spec fn read_result(e: ChannelView) -> ZxResult<MessagePacket> {
    if e.recv.len() > 0 {
        Ok(e.recv[0])
    } else if !e.peer_open {
        Err(ZxError::PEER_CLOSED)
    } else {
        Err(ZxError::SHOULD_WAIT)
    }
}

/// The endpoint state after a read: the oldest message dequeued, all
/// else untouched.
pub open spec fn read_next(e: ChannelView) -> ChannelView {
    if e.recv.len() > 0 {
        ChannelView { recv: e.recv.drop_first(), ..e }
    } else {
        e
    }
}

/// The peer's state after a successful write: the message appended to
/// its receive queue, all else untouched.
pub open spec fn write_push(p: ChannelView, msg: MessagePacket) -> ChannelView {
    ChannelView { recv: p.recv.push(msg), ..p }
}

impl Channel {
    /// Creates a wired pair of endpoints with fresh identities, empty
    /// names, empty queues, and each linking to the other.
    pub fn create(ids: &mut KoidAllocator) -> (r: (Channel, Channel))
        requires
            // identifier 0 is the sentinel of a closed link
            0 < old(ids).next,
            old(ids).next < KoID::MAX - 1,
        ensures
            wired(r.0@, r.1@),
            r.0@.id == old(ids).next,
            r.1@.id == old(ids).next + 1,
            r.0@.name == Seq::<char>::empty(),
            r.1@.name == Seq::<char>::empty(),
            r.0@.recv == Seq::<MessagePacket>::empty(),
            r.1@.recv == Seq::<MessagePacket>::empty(),
            final(ids).next == old(ids).next + 2,
    {
        let id0 = ids.new_koid();
        let id1 = ids.new_koid();
        let channel0 = Channel {
            base: KObjectBase { id: id0, name: String::new() },
            peer_koid: id1,
            peer_open: true,
            recv_queue: Vec::new(),
        };
        let channel1 = Channel {
            base: KObjectBase { id: id1, name: String::new() },
            peer_koid: id0,
            peer_open: true,
            recv_queue: Vec::new(),
        };
        (channel0, channel1)
    }

    /// Pops the oldest message of this endpoint's queue, in strict FIFO
    /// order.  On an empty queue it never blocks: it reports
    /// `PEER_CLOSED` when the link is gone — permanent from this point —
    /// and `SHOULD_WAIT` while the peer is alive, leaving the wait or
    /// retry decision to the caller.
    pub fn read(&mut self) -> (r: ZxResult<MessagePacket>)
        ensures
            r == read_result(old(self)@),
            final(self)@ == read_next(old(self)@),
    {
        if self.recv_queue.len() > 0 {
            let msg = self.recv_queue.remove(0);
            proof {
                assert(self.recv_queue@ =~= old(self).recv_queue@.drop_first());
            }
            Ok(msg)
        } else if !self.peer_open {
            Err(ZxError::PEER_CLOSED)
        } else {
            Err(ZxError::SHOULD_WAIT)
        }
    }

    /// Appends `msg` to the peer's receive queue and returns at once.  A
    /// peer that does not resolve — the link is closed, or the endpoint
    /// handed in is not this endpoint's peer — fails with `PEER_CLOSED`
    /// and the message is dropped, not queued.
    pub fn write(&self, peer: &mut Channel, msg: MessagePacket) -> (r: ZxResult<()>)
        ensures
            resolves(self@, old(peer)@) ==> r == Ok::<(), ZxError>(())
                && final(peer)@ == write_push(old(peer)@, msg),
            !resolves(self@, old(peer)@) ==> r == Err::<(), ZxError>(ZxError::PEER_CLOSED)
                && final(peer)@ == old(peer)@,
    {
        if self.peer_open && peer.base.id == self.peer_koid && peer.peer_koid == self.base.id {
            peer.recv_queue.push(msg);
            Ok(())
        } else {
            Err(ZxError::PEER_CLOSED)
        }
    }

    /// Instantaneous, non-blocking probe of the peer link.
    pub fn peer_closed(&self) -> (r: bool)
        ensures
            r == !self@.peer_open,
    {
        !self.peer_open
    }

    /// The peer's identifier while the link resolves, else the sentinel
    /// 0.
    pub fn related_koid(&self) -> (r: KoID)
        ensures
            r == spec_related_koid(self@),
    {
        if self.peer_open {
            self.peer_koid
        } else {
            0
        }
    }

    /// Shuts this endpoint down, as dropping its last reference does:
    /// this endpoint becomes defunct — its queued messages are destroyed
    /// and its own link closes — and the surviving peer keeps its queued
    /// messages but observes the link as closed, permanently.  An
    /// endpoint that was not this one's peer is untouched.
    pub fn close(&mut self, peer: &mut Channel)
        ensures
            final(self)@ == (ChannelView {
                peer_open: false,
                recv: Seq::<MessagePacket>::empty(),
                ..old(self)@
            }),
            linked(old(peer)@, old(self)@) ==> final(peer)@ == (ChannelView {
                peer_open: false,
                ..old(peer)@
            }),
            !linked(old(peer)@, old(self)@) ==> final(peer)@ == old(peer)@,
    {
        if peer.peer_koid == self.base.id && self.peer_koid == peer.base.id {
            peer.peer_open = false;
        }
        self.peer_open = false;
        self.recv_queue.clear();
    }
}

impl KernelObject for Channel {
    open spec fn spec_id(&self) -> KoID {
        self.base.id
    }

    open spec fn spec_name(&self) -> Seq<char> {
        self.base.name@
    }

    open spec fn spec_type_tag(&self) -> Seq<char> {
        "Channel"@
    }

    /// A channel endpoint is uniquely owned and never sits behind a
    /// handle, so no capability reference downcasts to it.
    open spec fn spec_downcast(obj: KObject) -> Option<Arc<Channel>> {
        None
    }

    open spec fn spec_set_name_frame(pre: Channel, post: Channel) -> bool {
        post.peer_koid == pre.peer_koid && post.peer_open == pre.peer_open
            && post.recv_queue@ == pre.recv_queue@
    }

    fn id(&self) -> KoID {
        self.base.id()
    }

    fn type_tag(&self) -> &'static str {
        "Channel"
    }

    fn name(&self) -> String {
        self.base.name()
    }

    fn set_name(&mut self, name: &str) {
        self.base.set_name(name)
    }

    fn downcast(obj: &KObject) -> Option<Arc<Channel>> {
        None
    }
}

/// Law: no queue transition touches the peer link — in particular, once
/// the peer is closed, no read or write ever reopens it; only `create`
/// establishes an open link and only `close` clears it.
pub proof fn lemma_peer_closed_is_permanent(e: ChannelView, m: MessagePacket)
    ensures
        read_next(e).peer_open == e.peer_open,
        write_push(e, m).peer_open == e.peer_open,
{
}

/// Law: while the two endpoints of a pair are wired, each one's related
/// koid is exactly the other's identifier.
pub proof fn lemma_related_koid_symmetry(e0: ChannelView, e1: ChannelView)
    requires
        wired(e0, e1),
    ensures
        spec_related_koid(e0) == e1.id,
        spec_related_koid(e1) == e0.id,
{
}

/// Law: once an endpoint's peer link is closed, its related koid is the
/// sentinel 0.
pub proof fn lemma_related_koid_closed(e: ChannelView)
    requires
        !e.peer_open,
    ensures
        spec_related_koid(e) == 0,
{
}

/// Law: a message written to an endpoint whose queue was empty is
/// delivered exactly once — the next read yields precisely that message
/// and empties the queue, and a further read without another write
/// yields `SHOULD_WAIT` while the peer is open, `PEER_CLOSED` once it is
/// not.
pub proof fn lemma_single_delivery(e1: ChannelView, m: MessagePacket)
    requires
        e1.recv.len() == 0,
    ensures
        ({
            let delivered = write_push(e1, m);
            &&& read_result(delivered) == Ok::<MessagePacket, ZxError>(m)
            &&& read_next(delivered).recv.len() == 0
            &&& (e1.peer_open ==> read_result(read_next(delivered)) == Err::<
                MessagePacket,
                ZxError,
            >(ZxError::SHOULD_WAIT))
            &&& (!e1.peer_open ==> read_result(read_next(delivered)) == Err::<
                MessagePacket,
                ZxError,
            >(ZxError::PEER_CLOSED))
        }),
{
    let delivered = write_push(e1, m);
    assert(delivered.recv[0] == m);
    assert(delivered.recv.drop_first() =~= Seq::<MessagePacket>::empty());
}

/// Law: delivery keeps writing order — writing `m1` then `m2` to the
/// same endpoint whose queue was empty and reading twice yields `m1`
/// then `m2`, in that order, leaving the queue empty.
pub proof fn lemma_fifo_order(e1: ChannelView, m1: MessagePacket, m2: MessagePacket)
    requires
        e1.recv.len() == 0,
    ensures
        ({
            let queued = write_push(write_push(e1, m1), m2);
            &&& read_result(queued) == Ok::<MessagePacket, ZxError>(m1)
            &&& read_result(read_next(queued)) == Ok::<MessagePacket, ZxError>(m2)
            &&& read_next(read_next(queued)).recv.len() == 0
        }),
{
    let queued = write_push(write_push(e1, m1), m2);
    assert(queued.recv[0] == m1);
    assert(queued.recv.drop_first() =~= seq![m2]);
    assert(queued.recv.drop_first().drop_first() =~= Seq::<MessagePacket>::empty());
}

} // verus!
