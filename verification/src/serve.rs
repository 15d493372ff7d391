//! The owner-side service decisions: answering content requests against the
//! registry, running the server side of incremental transfer, and reacting to
//! invalidation and ownership-loss notifications.
//!
//! The service loop itself multiplexes a transport socket and a shutdown
//! signal outside this crate; on each event it calls one handler here and
//! performs the returned writes. The incremental-transfer bookkeeping
//! (cursor positions, the per-selection index of the live transfer) is all
//! here, with its invariants.
use vstd::prelude::*;
use std::collections::HashMap;
use crate::{Atom, ATOM_NONE, INCR_CHUNK_SIZE, REQUEST_SIZE_MARGIN};
use crate::registry::{offer_lookup, targets_reply, OfferEntry, Registry};

verus! {

broadcast use vstd::std_specs::hash::group_hash_axioms;

/// One in-flight incremental transfer: to whom, where, what, and how far.
#[derive(Clone, Copy, Debug, PartialEq, Eq, Structural)]
pub struct IncrTransfer {
    /// The selection whose content is being delivered.
    pub selection: Atom,
    /// The requestor's window.
    pub requestor: u32,
    /// The destination property on the requestor's window.
    pub property: Atom,
    /// The format being delivered.
    pub target: Atom,
    /// Byte offset of the next chunk; monotonic, never beyond the payload.
    pub pos: usize,
}

/// The serving state: the per-selection index of the live transfer, the
/// per-property transfer records, and the transport's request-size budget.
pub struct ServeCore {
    /// Selection id to the destination property of its currently tracked
    /// incremental transfer: at most one live transfer per selection.
    pub incr_index: HashMap<Atom, Atom>,
    /// Destination property to the in-flight transfer it carries.
    pub transfers: HashMap<Atom, IncrTransfer>,
    /// The transport's maximum single-request byte budget.
    pub max_length: usize,
}

/// The destination property of `sel`'s tracked transfer, if one is tracked.
pub open spec fn index_of(core: ServeCore, sel: Atom) -> Option<Atom> {
    if core.incr_index@.contains_key(sel) {
        Some(core.incr_index@[sel])
    } else {
        None
    }
}

/// `m` with the keyed entry removed, when there is a key to remove.
pub open spec fn remove_opt(m: Map<Atom, IncrTransfer>, k: Option<Atom>) -> Map<Atom, IncrTransfer> {
    match k {
        Some(p) => m.remove(p),
        None => m,
    }
}

impl ServeCore {
    /// Structural well-formedness: the margin subtraction is safe, every
    /// transfer record sits under its own destination property, and the
    /// per-selection index points back at it — so a selection tracks at most
    /// one live transfer, and invalidating the selection finds it.
    pub open spec fn wf(self) -> bool {
        &&& self.max_length >= REQUEST_SIZE_MARGIN
        &&& forall|p: Atom| #[trigger] self.transfers@.contains_key(p) ==> {
            let t = self.transfers@[p];
            &&& t.property == p
            &&& self.incr_index@.contains_key(t.selection)
            &&& self.incr_index@[t.selection] == p
        }
    }

    /// Every cursor is within the payload its transfer would currently
    /// serve: no in-flight state references mismatched payload bytes.
    pub open spec fn cursors_valid(self, m: Map<Atom, Vec<OfferEntry>>) -> bool {
        forall|p: Atom| #[trigger] self.transfers@.contains_key(p) ==> {
            let t = self.transfers@[p];
            match offer_lookup(m, t.selection, t.target) {
                Some(v) => t.pos <= v.len(),
                None => true,
            }
        }
    }

    /// A fresh serving state with no transfer in flight.
    pub fn new(max_length: usize) -> (r: ServeCore)
        requires
            max_length >= REQUEST_SIZE_MARGIN,
        ensures
            r.wf(),
            r.max_length == max_length,
            r.incr_index@ == Map::<Atom, Atom>::empty(),
            r.transfers@ == Map::<Atom, IncrTransfer>::empty(),
    {
        ServeCore { incr_index: HashMap::new(), transfers: HashMap::new(), max_length }
    }

    /// Whether any incremental transfer is still in flight. On losing the
    /// notification channel's producer the service loop terminates only when
    /// none is.
    pub fn has_pending_transfers(&self) -> (r: bool)
        ensures
            r == (self.transfers@.len() != 0),
    {
        !self.transfers.is_empty()
    }

    /// Drains one "offer for `selection` replaced or cleared" notification:
    /// the selection's tracked transfer, if any, is discarded, so no further
    /// chunk of the superseded payload can ever be served. Replacing an
    /// offer is always coupled with this invalidation.
    pub fn invalidate(&mut self, selection: Atom)
        requires
            old(self).wf(),
        ensures
            final(self).wf(),
            final(self).max_length == old(self).max_length,
            final(self).incr_index@ == old(self).incr_index@.remove(selection),
            final(self).transfers@ == remove_opt(
                old(self).transfers@,
                index_of(*old(self), selection),
            ),
            forall|p: Atom| #[trigger]
                final(self).transfers@.contains_key(p) ==> final(self).transfers@[p].selection
                    != selection,
    {
        let ghost pre = *self;
        let tracked_property: Option<Atom> = match self.incr_index.get(&selection) {
            Some(p) => Some(*p),
            None => None,
        };
        self.incr_index.remove(&selection);
        if let Some(p) = tracked_property {
            self.transfers.remove(&p);
        }
        proof {
            assert forall|p: Atom| #[trigger] self.transfers@.contains_key(p) implies {
                let t = self.transfers@[p];
                &&& t.property == p
                &&& self.incr_index@.contains_key(t.selection)
                &&& self.incr_index@[t.selection] == p
                &&& t.selection != selection
            } by {
                assert(pre.transfers@.contains_key(p));
                let t = pre.transfers@[p];
                if t.selection == selection {
                    assert(pre.incr_index@[selection] == p);
                    assert(index_of(pre, selection) == Some(p));
                }
            }
        }
    }

    /// Answers a content request: what to write to the requestor's window,
    /// and which target the reply-notify must carry. A format-enumeration
    /// request is answered with the offered id array; a matching offer below
    /// the size margin is written directly; one at or above it registers an
    /// incremental transfer (superseding any transfer previously tracked for
    /// the selection); no match declines with the null marker. The registry
    /// is only read: answering never changes what is offered.
    pub fn handle_content_request(
        &mut self,
        reg: &Registry,
        selection: Atom,
        target: Atom,
        requestor: u32,
        property: Atom,
        targets_atom: Atom,
    ) -> (reply: RequestReply)
        requires
            old(self).wf(),
            old(self).cursors_valid(reg@),
        ensures
            final(self).wf(),
            final(self).cursors_valid(reg@),
            request_spec(
                *old(self),
                reg@,
                selection,
                target,
                requestor,
                property,
                targets_atom,
                *final(self),
                reply,
            ),
    {
        let ghost pre = *self;
        if target == targets_atom {
            let formats = reg.targets_list(selection, targets_atom);
            RequestReply { write: Some(WriteAction::Formats { formats }), notify_target: target }
        } else {
            match reg.find_value(selection, target) {
                None => RequestReply { write: None, notify_target: ATOM_NONE },
                Some(v) => {
                    if v.len() < self.max_length - REQUEST_SIZE_MARGIN {
                        let data = copy_range(v, 0, v.len());
                        proof {
                            assert(data@ =~= v@);
                        }
                        RequestReply {
                            write: Some(WriteAction::Direct { type_: target, data }),
                            notify_target: target,
                        }
                    } else {
                        let tracked_property: Option<Atom> = match self.incr_index.get(&selection) {
                            Some(p) => Some(*p),
                            None => None,
                        };
                        if let Some(p) = tracked_property {
                            self.transfers.remove(&p);
                        }
                        self.incr_index.insert(selection, property);
                        self.transfers.insert(
                            property,
                            IncrTransfer { selection, requestor, property, target, pos: 0 },
                        );
                        proof {
                            assert forall|p: Atom| #[trigger]
                                self.transfers@.contains_key(p) implies {
                                let t = self.transfers@[p];
                                &&& t.property == p
                                &&& self.incr_index@.contains_key(t.selection)
                                &&& self.incr_index@[t.selection] == p
                            } by {
                                if p != property {
                                    assert(pre.transfers@.contains_key(p));
                                    let t = pre.transfers@[p];
                                    if t.selection == selection {
                                        assert(pre.incr_index@[selection] == p);
                                        assert(index_of(pre, selection) == Some(p));
                                    }
                                }
                            }
                            assert(self.transfers@ == remove_opt(
                                pre.transfers@,
                                index_of(pre, selection),
                            ).insert(
                                property,
                                IncrTransfer { selection, requestor, property, target, pos: 0 },
                            ));
                        }
                        RequestReply {
                            write: Some(WriteAction::Incremental),
                            notify_target: target,
                        }
                    }
                },
            }
        }
    }

    /// Serves the next chunk after the requestor signalled readiness by
    /// deleting its destination property. The current offer is consulted
    /// live, never cached; a missing transfer or a no-longer-matching offer
    /// is a silent no-op. Writing an empty chunk signals completion and
    /// retires the transfer.
    pub fn handle_incr_ack(&mut self, reg: &Registry, property: Atom) -> (chunk: Option<
        ChunkWrite,
    >)
        requires
            old(self).wf(),
            old(self).cursors_valid(reg@),
        ensures
            final(self).wf(),
            final(self).cursors_valid(reg@),
            final(self).max_length == old(self).max_length,
            final(self).incr_index@ == old(self).incr_index@,
            ack_spec(*old(self), reg@, property, *final(self), chunk),
    {
        let ghost pre = *self;
        let t: IncrTransfer = match self.transfers.get(&property) {
            None => {
                return None;
            },
            Some(t) => *t,
        };
        let v: &Vec<u8> = match reg.find_value(t.selection, t.target) {
            None => {
                return None;
            },
            Some(v) => v,
        };
        proof {
            assert(t.pos <= v@.len());
        }
        let avail = v.len() - t.pos;
        let len = if avail < INCR_CHUNK_SIZE {
            avail
        } else {
            INCR_CHUNK_SIZE
        };
        let data = copy_range(v, t.pos, len);
        proof {
            assert(len == chunk_len(v@.len() as int, t.pos as int));
            assert(data@ == chunk_at(v@, t.pos as int));
        }
        if len == 0 {
            self.transfers.remove(&property);
        } else {
            self.transfers.insert(
                property,
                IncrTransfer {
                    selection: t.selection,
                    requestor: t.requestor,
                    property: t.property,
                    target: t.target,
                    pos: t.pos + len,
                },
            );
        }
        proof {
            assert(t.property == property);
            assert forall|p: Atom| #[trigger] self.transfers@.contains_key(p) implies {
                let tr = self.transfers@[p];
                &&& tr.property == p
                &&& self.incr_index@.contains_key(tr.selection)
                &&& self.incr_index@[tr.selection] == p
            } by {
                assert(pre.transfers@.contains_key(p));
            }
            assert forall|p: Atom| #[trigger] self.transfers@.contains_key(p) implies {
                let tr = self.transfers@[p];
                match offer_lookup(reg@, tr.selection, tr.target) {
                    Some(w) => tr.pos <= w.len(),
                    None => true,
                }
            } by {
                assert(pre.transfers@.contains_key(p));
                if p == property {
                    assert(offer_lookup(reg@, t.selection, t.target) == Some(v@));
                }
            }
        }
        Some(ChunkWrite { requestor: t.requestor, property, target: t.target, data })
    }

    /// Reacts to an observed ownership loss for `selection`: the offer is
    /// removed from the registry, and any tracked transfer of it is
    /// discarded.
    pub fn handle_ownership_lost(&mut self, reg: &mut Registry, selection: Atom)
        requires
            old(self).wf(),
            old(self).cursors_valid(old(reg)@),
        ensures
            final(self).wf(),
            final(reg)@ == old(reg)@.remove(selection),
            final(self).cursors_valid(final(reg)@),
            final(self).max_length == old(self).max_length,
            final(self).incr_index@ == old(self).incr_index@.remove(selection),
            final(self).transfers@ == remove_opt(
                old(self).transfers@,
                index_of(*old(self), selection),
            ),
    {
        let ghost pre = *self;
        self.invalidate(selection);
        reg.remove_offer(selection);
        proof {
            lemma_transfers_subset_cursors_valid(pre, *self, old(reg)@);
            lemma_replacement_safe(*self, old(reg)@, old(reg)@.remove(selection), selection);
        }
    }
}

impl ServeCore {
    /// Dispatches one service-loop event by kind: content requests are
    /// answered, deletion notices advance incremental transfers, other
    /// property changes are irrelevant, an ownership loss purges the offer,
    /// and unmatched events are skipped — never fatal.
    pub fn handle_event(&mut self, reg: &mut Registry, event: ServeEvent, targets_atom: Atom) -> (out:
        ServeOutput)
        requires
            old(self).wf(),
            old(self).cursors_valid(old(reg)@),
        ensures
            final(self).wf(),
            final(self).cursors_valid(final(reg)@),
            match event {
                ServeEvent::ContentRequest { selection, target, requestor, property } => {
                    &&& final(reg)@ == old(reg)@
                    &&& out matches ServeOutput::Reply(reply) && request_spec(
                        *old(self),
                        old(reg)@,
                        selection,
                        target,
                        requestor,
                        property,
                        targets_atom,
                        *final(self),
                        reply,
                    )
                },
                ServeEvent::PropertyChanged { property, deleted } => {
                    &&& final(reg)@ == old(reg)@
                    &&& if deleted {
                        out matches ServeOutput::Chunk(chunk) && ack_spec(
                            *old(self),
                            old(reg)@,
                            property,
                            *final(self),
                            chunk,
                        )
                    } else {
                        out is Ignored && *final(self) == *old(self)
                    }
                },
                ServeEvent::OwnershipLost { selection } => {
                    &&& final(reg)@ == old(reg)@.remove(selection)
                    &&& final(self).incr_index@ == old(self).incr_index@.remove(selection)
                    &&& final(self).transfers@ == remove_opt(
                        old(self).transfers@,
                        index_of(*old(self), selection),
                    )
                    &&& out is Cleared
                },
                ServeEvent::Other => {
                    &&& out is Ignored
                    &&& *final(self) == *old(self)
                    &&& final(reg)@ == old(reg)@
                },
            },
    {
        match event {
            ServeEvent::ContentRequest { selection, target, requestor, property } => {
                ServeOutput::Reply(
                    self.handle_content_request(
                        reg,
                        selection,
                        target,
                        requestor,
                        property,
                        targets_atom,
                    ),
                )
            },
            ServeEvent::PropertyChanged { property, deleted } => {
                if deleted {
                    ServeOutput::Chunk(self.handle_incr_ack(reg, property))
                } else {
                    ServeOutput::Ignored
                }
            },
            ServeEvent::OwnershipLost { selection } => {
                self.handle_ownership_lost(reg, selection);
                ServeOutput::Cleared
            },
            ServeEvent::Other => ServeOutput::Ignored,
        }
    }
}

/// One service-loop event, as the loop's transport translation hands it in.
pub enum ServeEvent {
    /// A foreign process requests `selection`'s content in format `target`,
    /// to be deposited at `property` on the `requestor`'s window.
    ContentRequest { selection: Atom, target: Atom, requestor: u32, property: Atom },
    /// A property of a foreign window changed; `deleted` says whether the
    /// change deleted the value — the readiness signal for the next chunk.
    PropertyChanged { property: Atom, deleted: bool },
    /// The windowing system reports this process no longer owns `selection`.
    OwnershipLost { selection: Atom },
    /// Anything else; always skipped.
    Other,
}

/// What one dispatched event obliges the service loop to do.
pub enum ServeOutput {
    /// Perform the reply's write, send the reply-notify, then flush.
    Reply(RequestReply),
    /// Write the chunk when one is due, then flush.
    Chunk(Option<ChunkWrite>),
    /// The offer was purged; nothing to send.
    Cleared,
    /// Nothing to do.
    Ignored,
}

/// What a content request is answered with. The caller performs the write at
/// the requestor's destination property, then always sends the reply-notify
/// carrying `notify_target`, then flushes.
pub struct RequestReply {
    /// The property write, if the request was not declined.
    pub write: Option<WriteAction>,
    /// The target echoed in the reply-notify: the requested target, or the
    /// null marker when the conversion was declined.
    pub notify_target: Atom,
}

/// The property write answering a content request.
pub enum WriteAction {
    /// Write this id array as a 32-bit atom-array value (format
    /// enumeration).
    Formats { formats: Vec<Atom> },
    /// Write this payload in one shot, typed as `type_`.
    Direct { type_: Atom, data: Vec<u8> },
    /// Subscribe to the requestor's property changes and write the empty
    /// incremental-transfer placeholder; chunks follow on each readiness
    /// event.
    Incremental,
}

/// One chunk write: `data` goes to `property` on the requestor's window,
/// typed as `target`, followed by a flush.
pub struct ChunkWrite {
    pub requestor: u32,
    pub property: Atom,
    pub target: Atom,
    pub data: Vec<u8>,
}

/// The decision a content request is answered by, as a relation between the
/// serving state before and after and the produced reply.
pub open spec fn request_spec(
    pre: ServeCore,
    m: Map<Atom, Vec<OfferEntry>>,
    selection: Atom,
    target: Atom,
    requestor: u32,
    property: Atom,
    targets_atom: Atom,
    post: ServeCore,
    reply: RequestReply,
) -> bool {
    if target == targets_atom {
        &&& post == pre
        &&& reply.notify_target == target
        &&& reply.write matches Some(WriteAction::Formats { formats }) && formats@
            == targets_reply(m, selection, targets_atom)
    } else {
        match offer_lookup(m, selection, target) {
            Some(v) => {
                if v.len() < pre.max_length - REQUEST_SIZE_MARGIN {
                    &&& post == pre
                    &&& reply.notify_target == target
                    &&& reply.write matches Some(WriteAction::Direct { type_, data }) && type_
                        == target && data@ == v
                } else {
                    &&& reply.notify_target == target
                    &&& reply.write matches Some(WriteAction::Incremental)
                    &&& post.max_length == pre.max_length
                    &&& post.incr_index@ == pre.incr_index@.insert(selection, property)
                    &&& post.transfers@ == remove_opt(
                        pre.transfers@,
                        index_of(pre, selection),
                    ).insert(
                        property,
                        IncrTransfer { selection, requestor, property, target, pos: 0 },
                    )
                }
            },
            None => {
                &&& post == pre
                &&& reply.notify_target == ATOM_NONE
                &&& reply.write is None
            },
        }
    }
}

/// The decision a chunk-readiness event is answered by.
pub open spec fn ack_spec(
    pre: ServeCore,
    m: Map<Atom, Vec<OfferEntry>>,
    property: Atom,
    post: ServeCore,
    chunk: Option<ChunkWrite>,
) -> bool {
    if !pre.transfers@.contains_key(property) {
        post == pre && chunk is None
    } else {
        let t = pre.transfers@[property];
        match offer_lookup(m, t.selection, t.target) {
            None => post == pre && chunk is None,
            Some(v) => {
                let len = chunk_len(v.len() as int, t.pos as int);
                &&& chunk matches Some(c) && c.requestor == t.requestor && c.property == property
                    && c.target == t.target && c.data@ == chunk_at(v, t.pos as int)
                &&& post.incr_index@ == pre.incr_index@
                &&& if len == 0 {
                    post.transfers@ == pre.transfers@.remove(property)
                } else {
                    post.transfers@ == pre.transfers@.insert(
                        property,
                        IncrTransfer { pos: (t.pos + len) as usize, ..t },
                    )
                }
            },
        }
    }
}

/// Length of the chunk served at byte offset `pos` of a `total`-byte
/// payload: a full chunk while more remains, the remainder near the end,
/// zero exactly at the end (the completion signal).
pub open spec fn chunk_len(total: int, pos: int) -> int {
    if total - pos < INCR_CHUNK_SIZE as int {
        total - pos
    } else {
        INCR_CHUNK_SIZE as int
    }
}

/// The chunk served at byte offset `pos` of payload `v`.
pub open spec fn chunk_at(v: Seq<u8>, pos: int) -> Seq<u8> {
    v.subrange(pos, pos + chunk_len(v.len() as int, pos))
}

/// Everything served from byte offset `pos` on: each chunk in cursor order.
pub open spec fn chunked_tail(v: Seq<u8>, pos: int) -> Seq<u8>
    decreases v.len() - pos,
{
    if pos < 0 || pos >= v.len() {
        Seq::<u8>::empty()
    } else {
        chunk_at(v, pos) + chunked_tail(v, pos + chunk_len(v.len() as int, pos))
    }
}

/// Chunked delivery loses and reorders nothing: everything served from
/// offset `pos` on is exactly the payload from `pos` on.
pub proof fn lemma_chunks_reconstruct(v: Seq<u8>, pos: int)
    requires
        0 <= pos <= v.len(),
    ensures
        chunked_tail(v, pos) == v.skip(pos),
    decreases v.len() - pos,
{
    if pos >= v.len() {
        assert(chunked_tail(v, pos) =~= v.skip(pos));
    } else {
        let l = chunk_len(v.len() as int, pos);
        lemma_chunks_reconstruct(v, pos + l);
        assert(chunk_at(v, pos) + v.skip(pos + l) =~= v.skip(pos));
    }
}

/// The incremental path reconstructs a stored payload byte-for-byte: the
/// concatenation of every chunk, from cursor zero to the terminating empty
/// chunk, is exactly the payload.
pub proof fn lemma_incremental_round_trip(v: Seq<u8>)
    ensures
        chunked_tail(v, 0) == v,
{
    lemma_chunks_reconstruct(v, 0);
    assert(v.skip(0) =~= v);
}

/// While a transfer is in flight the requestor's buffer is the payload
/// prefix up to the cursor: appending the next chunk extends the prefix to
/// the advanced cursor.
pub proof fn lemma_chunk_extends_prefix(v: Seq<u8>, pos: int, buff: Seq<u8>)
    requires
        0 <= pos <= v.len(),
        buff == v.take(pos),
    ensures
        buff + chunk_at(v, pos) == v.take(pos + chunk_len(v.len() as int, pos)),
{
    assert(buff + chunk_at(v, pos) =~= v.take(pos + chunk_len(v.len() as int, pos)));
}

/// A serving state whose transfers all appear unchanged in a valid one is
/// valid itself.
pub proof fn lemma_transfers_subset_cursors_valid(
    pre: ServeCore,
    post: ServeCore,
    m: Map<Atom, Vec<OfferEntry>>,
)
    requires
        pre.cursors_valid(m),
        forall|p: Atom| #[trigger]
            post.transfers@.contains_key(p) ==> pre.transfers@.contains_key(p)
                && post.transfers@[p] == pre.transfers@[p],
    ensures
        post.cursors_valid(m),
{
}

/// Cursor validity survives replacing or removing the offer of a selection
/// none of the remaining transfers belongs to — which is what invalidation
/// guarantees before a registry entry changes.
pub proof fn lemma_replacement_safe(
    core: ServeCore,
    m1: Map<Atom, Vec<OfferEntry>>,
    m2: Map<Atom, Vec<OfferEntry>>,
    sel: Atom,
)
    requires
        core.cursors_valid(m1),
        forall|p: Atom| #[trigger]
            core.transfers@.contains_key(p) ==> core.transfers@[p].selection != sel,
        forall|k: Atom|
            k != sel ==> (#[trigger] m2.contains_key(k) == m1.contains_key(k) && (m1.contains_key(
                k,
            ) ==> m2[k] == m1[k])),
    ensures
        core.cursors_valid(m2),
{
    assert forall|p: Atom| #[trigger] core.transfers@.contains_key(p) implies {
        let t = core.transfers@[p];
        match offer_lookup(m2, t.selection, t.target) {
            Some(v) => t.pos <= v.len(),
            None => true,
        }
    } by {
        let t = core.transfers@[p];
        assert(t.selection != sel);
        assert(offer_lookup(m2, t.selection, t.target) == offer_lookup(m1, t.selection, t.target));
    }
}

/// After an invalidation for `sel`, a readiness event on the property that
/// carried its transfer is a silent no-op: no further chunk of the
/// superseded payload is ever observed.
pub proof fn lemma_no_chunks_after_invalidation(
    core: ServeCore,
    m: Map<Atom, Vec<OfferEntry>>,
    sel: Atom,
    property: Atom,
    post: ServeCore,
    chunk: Option<ChunkWrite>,
)
    requires
        forall|p: Atom| #[trigger]
            core.transfers@.contains_key(p) ==> core.transfers@[p].selection != sel,
        core.transfers@.contains_key(property) ==> core.transfers@[property].selection == sel,
        ack_spec(core, m, property, post, chunk),
    ensures
        chunk is None,
        post == core,
{
}

/// One acknowledged chunk keeps the requestor's accumulated buffer a prefix
/// of the payload: if the buffer holds the payload up to the transfer's
/// cursor, the served chunk extends it to the advanced cursor — and an
/// empty served chunk means the buffer already holds the whole payload.
pub proof fn lemma_ack_serves_next_piece(
    pre: ServeCore,
    m: Map<Atom, Vec<OfferEntry>>,
    property: Atom,
    post: ServeCore,
    chunk: Option<ChunkWrite>,
    v: Seq<u8>,
    buff: Seq<u8>,
)
    requires
        pre.cursors_valid(m),
        ack_spec(pre, m, property, post, chunk),
        pre.transfers@.contains_key(property),
        offer_lookup(
            m,
            pre.transfers@[property].selection,
            pre.transfers@[property].target,
        ) == Some(v),
        buff == v.take(pre.transfers@[property].pos as int),
    ensures
        chunk matches Some(c) && {
            let t = pre.transfers@[property];
            let l = chunk_len(v.len() as int, t.pos as int);
            &&& buff + c.data@ == v.take(t.pos + l)
            &&& (c.data@.len() == 0 ==> buff == v)
        },
{
    let t = pre.transfers@[property];
    assert(t.pos <= v.len());
    lemma_chunk_extends_prefix(v, t.pos as int, buff);
    let l = chunk_len(v.len() as int, t.pos as int);
    if l == 0 {
        assert(t.pos == v.len());
        assert(buff =~= v);
    }
}

/// A store followed by a matching request round-trips: the single offer a
/// store installs is served back byte-for-byte by the direct path, and
/// answering leaves both serving state and registry untouched — so a second
/// request is served the same payload again.
pub proof fn lemma_store_request_round_trip(
    pre: ServeCore,
    m: Map<Atom, Vec<OfferEntry>>,
    sel: Atom,
    offers: Vec<OfferEntry>,
    e: OfferEntry,
    requestor: u32,
    property: Atom,
    targets_atom: Atom,
    post: ServeCore,
    reply: RequestReply,
)
    requires
        offers@ == seq![e],
        e.target != targets_atom,
        e.value@.len() < pre.max_length - REQUEST_SIZE_MARGIN,
        request_spec(
            pre,
            m.insert(sel, offers),
            sel,
            e.target,
            requestor,
            property,
            targets_atom,
            post,
            reply,
        ),
    ensures
        post == pre,
        reply.notify_target == e.target,
        reply.write matches Some(WriteAction::Direct { type_, data }) && type_ == e.target
            && data@ == e.value@,
{
    crate::registry::lemma_store_load_round_trip(m, sel, offers, e, Seq::<u8>::empty());
}

/// An empty serving state has valid cursors against any registry contents.
pub proof fn lemma_empty_cursors_valid(core: ServeCore, m: Map<Atom, Vec<OfferEntry>>)
    requires
        core.transfers@ == Map::<Atom, IncrTransfer>::empty(),
    ensures
        core.cursors_valid(m),
{
}

/// A copy of `len` bytes of `src` starting at `start`.
fn copy_range(src: &Vec<u8>, start: usize, len: usize) -> (r: Vec<u8>)
    requires
        start + len <= src@.len(),
    ensures
        r@ == src@.subrange(start as int, start as int + len as int),
{
    let mut r: Vec<u8> = Vec::new();
    let n = src.len();
    for i in 0..len
        invariant
            n == src@.len(),
            start + len <= n,
            r@.len() == i,
            forall|j: int| 0 <= j < i ==> r@[j] == src@[start + j],
    {
        r.push(src[start + i]);
    }
    proof {
        assert(r@ =~= src@.subrange(start as int, start as int + len as int));
    }
    r
}

} // verus!
