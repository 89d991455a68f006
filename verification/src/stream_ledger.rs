//! The stream ledger: stream records keyed by id, a monotone id counter, and
//! the append-only per-party indices, together with the lifecycle operations
//! and the read-only query surface.

use vstd::prelude::*;
use std::collections::HashMap;
use crate::amounts::{sat_mul, duration_micros, duration_micros_spec};
use crate::stream::{
    Stream, StreamStatus, StreamError, StreamOperation, StreamResponse, AmountText,
    wf_stream, spec_earned,
};
use crate::{AccountOwner, Timestamp};

verus! {

broadcast use vstd::std_specs::hash::group_hash_axioms;

/// Entries of an index sequence: each stream id was assigned (below `next`)
/// and appears at most once.
pub open spec fn wf_index_seq(ids: Seq<u64>, next: u64) -> bool {
    &&& forall|i: int| 0 <= i < ids.len() ==> 1 <= #[trigger] ids[i] < next
    &&& forall|i: int, j: int| 0 <= i < j < ids.len() ==> ids[i] != ids[j]
}

/// The index entry of `owner`: its stored sequence, or empty if the owner has
/// no entry yet (lazy default construction at the ledger boundary).
pub open spec fn index_entry(index: Map<u64, Vec<u64>>, owner: AccountOwner) -> Seq<u64> {
    if index.contains_key(owner) {
        index[owner]@
    } else {
        Seq::empty()
    }
}

/// Every id listed in the sender index under `o` that resolves to a stored
/// stream resolves to a stream whose sender is `o`; mirrored for the
/// recipient index. A stream is listed only under its own parties.
pub open spec fn index_owners_consistent(
    index: Map<u64, Vec<u64>>,
    streams: Map<u64, Stream>,
    as_sender: bool,
) -> bool {
    forall|o: AccountOwner, i: int|
        index.contains_key(o) && 0 <= i < index[o]@.len() && streams.contains_key(
            #[trigger] index[o]@[i],
        ) ==> if as_sender {
            streams[index[o]@[i]].sender == o
        } else {
            streams[index[o]@[i]].recipient == o
        }
}

/// The index map `post` is the index map `pre` with `id` appended to the
/// entry of `owner` (lazily created if absent) and every other entry kept.
pub open spec fn index_appended(
    pre: Map<u64, Vec<u64>>,
    post: Map<u64, Vec<u64>>,
    owner: AccountOwner,
    id: u64,
) -> bool {
    &&& post.dom() == pre.dom().insert(owner)
    &&& post[owner]@ == index_entry(pre, owner).push(id)
    &&& forall|o: AccountOwner| o != owner && pre.contains_key(o) ==> post[o] == #[trigger] pre[o]
}

/// The end time a new stream is created with: `now` plus the fixed duration,
/// saturating, or none for an open-ended stream.
pub open spec fn spec_end_time(now: Timestamp, duration_seconds: Option<u64>) -> Option<Timestamp> {
    match duration_seconds {
        None => None,
        Some(d) => Some(now.saturating_add(duration_micros_spec(d))),
    }
}

/// The record a successful `create_stream` stores: active from `now`, nothing
/// deposited or withdrawn yet.
pub open spec fn spec_new_stream(
    id: u64,
    sender: AccountOwner,
    recipient: AccountOwner,
    rate: u128,
    now: Timestamp,
    duration_seconds: Option<u64>,
) -> Stream {
    Stream {
        id,
        sender,
        recipient,
        rate_per_second: rate,
        start_time: now,
        end_time: spec_end_time(now, duration_seconds),
        paused_at: None,
        total_deposited: 0,
        total_withdrawn: 0,
        status: StreamStatus::Active,
    }
}

/// Outcome of `create_stream` on a given pre-state: only an authenticated
/// caller may create, and only with a well-formed, strictly positive rate; on
/// success the new stream gets the current counter value as its id.
pub open spec fn spec_create_result(
    s: StreamState,
    caller: Option<AccountOwner>,
    rate_per_second: AmountText,
) -> Result<u64, StreamError> {
    if caller is None {
        Err(StreamError::NotAuthenticated)
    } else {
        match rate_per_second {
            AmountText::Malformed => Err(StreamError::InvalidRate),
            AmountText::Value(r) => if r == 0 {
                Err(StreamError::InvalidRate)
            } else {
                Ok(s.next_stream_id)
            },
        }
    }
}

/// Outcome of `pause_stream` on a given pre-state: only the stream's sender
/// may pause, and only while the stream is active.
pub open spec fn spec_pause_result(
    s: StreamState,
    caller: Option<AccountOwner>,
    stream_id: u64,
) -> Result<(), StreamError> {
    if caller is None {
        Err(StreamError::NotAuthenticated)
    } else if !s.streams@.contains_key(stream_id) {
        Err(StreamError::NotFound)
    } else if s.streams@[stream_id].sender != caller->Some_0 {
        Err(StreamError::NotSender)
    } else if !(s.streams@[stream_id].status is Active) {
        Err(StreamError::NotActive)
    } else {
        Ok(())
    }
}

/// Outcome of `resume_stream` on a given pre-state: only the stream's sender
/// may resume, and only while the stream is paused.
pub open spec fn spec_resume_result(
    s: StreamState,
    caller: Option<AccountOwner>,
    stream_id: u64,
) -> Result<(), StreamError> {
    if caller is None {
        Err(StreamError::NotAuthenticated)
    } else if !s.streams@.contains_key(stream_id) {
        Err(StreamError::NotFound)
    } else if s.streams@[stream_id].sender != caller->Some_0 {
        Err(StreamError::NotSender)
    } else if !(s.streams@[stream_id].status is Paused) {
        Err(StreamError::NotPaused)
    } else {
        Ok(())
    }
}

/// Outcome of `stop_stream` on a given pre-state: only the stream's sender
/// may stop, from any status.
pub open spec fn spec_stop_result(
    s: StreamState,
    caller: Option<AccountOwner>,
    stream_id: u64,
) -> Result<(), StreamError> {
    if caller is None {
        Err(StreamError::NotAuthenticated)
    } else if !s.streams@.contains_key(stream_id) {
        Err(StreamError::NotFound)
    } else if s.streams@[stream_id].sender != caller->Some_0 {
        Err(StreamError::NotSender)
    } else {
        Ok(())
    }
}

/// Outcome of `withdraw_from_stream` on a given pre-state: only the stream's
/// recipient may withdraw, at most the earned-but-unwithdrawn amount at
/// `now`; an absent request means "withdraw everything earned".
pub open spec fn spec_withdraw_result(
    s: StreamState,
    caller: Option<AccountOwner>,
    stream_id: u64,
    amount: Option<AmountText>,
    now: Timestamp,
) -> Result<u128, StreamError> {
    if caller is None {
        Err(StreamError::NotAuthenticated)
    } else if !s.streams@.contains_key(stream_id) {
        Err(StreamError::NotFound)
    } else if s.streams@[stream_id].recipient != caller->Some_0 {
        Err(StreamError::NotRecipient)
    } else {
        let available = spec_earned(s.streams@[stream_id], now);
        match amount {
            None => Ok(available),
            Some(AmountText::Malformed) => Err(StreamError::InvalidAmount),
            Some(AmountText::Value(a)) => if a > available {
                Err(StreamError::InsufficientEarned)
            } else {
                Ok(a)
            },
        }
    }
}

/// Outcome of `top_up_stream` on a given pre-state: only the stream's sender
/// may top up, and only with a well-formed amount.
pub open spec fn spec_top_up_result(
    s: StreamState,
    caller: Option<AccountOwner>,
    stream_id: u64,
    amount: AmountText,
) -> Result<(), StreamError> {
    if caller is None {
        Err(StreamError::NotAuthenticated)
    } else if !s.streams@.contains_key(stream_id) {
        Err(StreamError::NotFound)
    } else if s.streams@[stream_id].sender != caller->Some_0 {
        Err(StreamError::NotSender)
    } else {
        match amount {
            AmountText::Malformed => Err(StreamError::InvalidAmount),
            AmountText::Value(_) => Ok(()),
        }
    }
}


/// The records of `ids` that exist in `streams`, in the order of `ids`;
/// missing lookups are treated as absence, not as an error.
pub open spec fn spec_collect(streams: Map<u64, Stream>, ids: Seq<u64>) -> Seq<Stream>
    decreases ids.len(),
{
    if ids.len() == 0 {
        Seq::empty()
    } else {
        let rest = spec_collect(streams, ids.drop_last());
        if streams.contains_key(ids.last()) {
            rest.push(streams[ids.last()])
        } else {
            rest
        }
    }
}

/// The ids assigned so far when the counter stands at `next`: 1 up to and
/// excluding `next`, in ascending order.
pub open spec fn spec_assigned_ids(next: u64) -> Seq<u64> {
    Seq::new((next - 1) as nat, |i: int| (1 + i) as u64)
}

/// Appending the freshly assigned id `id == next` to the entry of `owner`
/// keeps every index entry well formed for the advanced counter: old entries
/// hold only ids below `next`, so the appended id is new to its sequence.
proof fn lemma_index_append_wf(
    pre: Map<u64, Vec<u64>>,
    post: Map<u64, Vec<u64>>,
    owner: AccountOwner,
    id: u64,
    next: u64,
    o: AccountOwner,
)
    requires
        index_appended(pre, post, owner, id),
        forall|q: AccountOwner| pre.contains_key(q) ==> wf_index_seq(#[trigger] pre[q]@, next),
        id == next,
        1 <= next < u64::MAX,
        post.contains_key(o),
    ensures
        wf_index_seq(post[o]@, (next + 1) as u64),
{
    if o == owner {
        let e = index_entry(pre, owner);
        assert(post[o]@ == e.push(id));
        assert(wf_index_seq(e, next));
        assert forall|i: int| 0 <= i < e.push(id).len() implies
            1 <= #[trigger] e.push(id)[i] < next + 1 by {
            if i < e.len() {
                assert(e.push(id)[i] == e[i]);
            }
        }
        assert forall|i: int, j: int| 0 <= i < j < e.push(id).len() implies
            e.push(id)[i] != e.push(id)[j] by {
            if j == e.len() {
                assert(e.push(id)[i] == e[i] && e[i] < next);
            }
        }
    } else {
        assert(pre.contains_key(o));
        assert(post[o] == pre[o]);
    }
}


/// Post-state of a successful `create_stream`: the new record stored under
/// the assigned id, the counter advanced, and the id appended to both
/// parties' indices.
pub open spec fn spec_create_post(
    pre: StreamState,
    post: StreamState,
    sender: AccountOwner,
    recipient: AccountOwner,
    rate: u128,
    duration_seconds: Option<u64>,
    now: Timestamp,
) -> bool {
    let id = pre.next_stream_id;
    &&& post.streams@ == pre.streams@.insert(
        id,
        spec_new_stream(id, sender, recipient, rate, now, duration_seconds),
    )
    &&& post.next_stream_id == id + 1
    &&& index_appended(pre.streams_by_sender@, post.streams_by_sender@, sender, id)
    &&& index_appended(pre.streams_by_recipient@, post.streams_by_recipient@, recipient, id)
}

/// Post-state of a successful `pause_stream`: the record paused at `now`,
/// everything else untouched.
pub open spec fn spec_pause_post(
    pre: StreamState,
    post: StreamState,
    stream_id: u64,
    now: Timestamp,
) -> bool {
    &&& post.streams@ == pre.streams@.insert(
        stream_id,
        (Stream {
            status: StreamStatus::Paused,
            paused_at: Some(now),
            ..pre.streams@[stream_id]
        }),
    )
    &&& post.next_stream_id == pre.next_stream_id
    &&& post.streams_by_sender@ == pre.streams_by_sender@
    &&& post.streams_by_recipient@ == pre.streams_by_recipient@
}

/// Post-state of a successful `resume_stream`: the record active again with
/// its pause instant cleared, everything else untouched.
pub open spec fn spec_resume_post(pre: StreamState, post: StreamState, stream_id: u64) -> bool {
    &&& post.streams@ == pre.streams@.insert(
        stream_id,
        (Stream {
            status: StreamStatus::Active,
            paused_at: None,
            ..pre.streams@[stream_id]
        }),
    )
    &&& post.next_stream_id == pre.next_stream_id
    &&& post.streams_by_sender@ == pre.streams_by_sender@
    &&& post.streams_by_recipient@ == pre.streams_by_recipient@
}

/// Post-state of a successful `stop_stream`: the record stopped with its end
/// time frozen at `now` (overwriting any prior end time), everything else
/// untouched.
pub open spec fn spec_stop_post(
    pre: StreamState,
    post: StreamState,
    stream_id: u64,
    now: Timestamp,
) -> bool {
    &&& post.streams@ == pre.streams@.insert(
        stream_id,
        (Stream {
            status: StreamStatus::Stopped,
            end_time: Some(now),
            paused_at: None,
            ..pre.streams@[stream_id]
        }),
    )
    &&& post.next_stream_id == pre.next_stream_id
    &&& post.streams_by_sender@ == pre.streams_by_sender@
    &&& post.streams_by_recipient@ == pre.streams_by_recipient@
}

/// Post-state of a successful `withdraw_from_stream` of `amount`: the
/// record's withdrawn total raised by exactly the withdrawn amount,
/// everything else untouched.
pub open spec fn spec_withdraw_post(
    pre: StreamState,
    post: StreamState,
    stream_id: u64,
    amount: u128,
) -> bool {
    &&& post.streams@ == pre.streams@.insert(
        stream_id,
        (Stream {
            total_withdrawn: pre.streams@[stream_id].total_withdrawn.saturating_add(amount),
            ..pre.streams@[stream_id]
        }),
    )
    &&& post.next_stream_id == pre.next_stream_id
    &&& post.streams_by_sender@ == pre.streams_by_sender@
    &&& post.streams_by_recipient@ == pre.streams_by_recipient@
}

/// Post-state of a successful `top_up_stream` of `amount`: the record's
/// deposited total raised (saturating), everything else untouched.
pub open spec fn spec_top_up_post(
    pre: StreamState,
    post: StreamState,
    stream_id: u64,
    amount: u128,
) -> bool {
    &&& post.streams@ == pre.streams@.insert(
        stream_id,
        (Stream {
            total_deposited: pre.streams@[stream_id].total_deposited.saturating_add(amount),
            ..pre.streams@[stream_id]
        }),
    )
    &&& post.next_stream_id == pre.next_stream_id
    &&& post.streams_by_sender@ == pre.streams_by_sender@
    &&& post.streams_by_recipient@ == pre.streams_by_recipient@
}


/// Replacing the record under `id` with one that names the same sender and
/// recipient preserves index-ownership consistency: no index entry starts
/// resolving to a stream of another party.
proof fn lemma_index_consistent_after_record_update(
    index: Map<u64, Vec<u64>>,
    pre: Map<u64, Stream>,
    post: Map<u64, Stream>,
    id: u64,
    rec: Stream,
    as_sender: bool,
)
    requires
        index_owners_consistent(index, pre, as_sender),
        pre.contains_key(id),
        post == pre.insert(id, rec),
        rec.sender == pre[id].sender,
        rec.recipient == pre[id].recipient,
    ensures
        index_owners_consistent(index, post, as_sender),
{
    assert forall|o: AccountOwner, i: int|
        index.contains_key(o) && 0 <= i < index[o]@.len() && post.contains_key(
            #[trigger] index[o]@[i],
        ) implies if as_sender {
            post[index[o]@[i]].sender == o
        } else {
            post[index[o]@[i]].recipient == o
        } by {
        let k = index[o]@[i];
        assert(pre.contains_key(k));
    }
}

/// After creating a stream under the fresh id `id` and appending `id` to the
/// entry of `owner`, the index stays ownership-consistent: old entries hold
/// only ids below `id`, and the new entry's last element resolves to the new
/// record, which names `owner` as the respective party.
proof fn lemma_index_consistent_after_create(
    pre_index: Map<u64, Vec<u64>>,
    post_index: Map<u64, Vec<u64>>,
    pre_streams: Map<u64, Stream>,
    post_streams: Map<u64, Stream>,
    owner: AccountOwner,
    id: u64,
    rec: Stream,
    as_sender: bool,
)
    requires
        index_appended(pre_index, post_index, owner, id),
        forall|q: AccountOwner| pre_index.contains_key(q) ==> wf_index_seq(
            #[trigger] pre_index[q]@,
            id,
        ),
        index_owners_consistent(pre_index, pre_streams, as_sender),
        !pre_streams.contains_key(id),
        post_streams == pre_streams.insert(id, rec),
        if as_sender {
            rec.sender == owner
        } else {
            rec.recipient == owner
        },
    ensures
        index_owners_consistent(post_index, post_streams, as_sender),
{
    assert forall|o: AccountOwner, i: int|
        post_index.contains_key(o) && 0 <= i < post_index[o]@.len() && post_streams.contains_key(
            #[trigger] post_index[o]@[i],
        ) implies if as_sender {
            post_streams[post_index[o]@[i]].sender == o
        } else {
            post_streams[post_index[o]@[i]].recipient == o
        } by {
        let k = post_index[o]@[i];
        if o == owner {
            let e = index_entry(pre_index, owner);
            assert(post_index[o]@ == e.push(id));
            if i < e.len() {
                assert(k == e[i]);
                assert(pre_index.contains_key(owner));
                assert(pre_index[owner]@[i] == k);
                assert(k < id);
                assert(pre_streams.contains_key(k));
            } else {
                assert(k == id);
            }
        } else {
            assert(pre_index.contains_key(o));
            assert(post_index[o] == pre_index[o]);
            assert(pre_index[o]@[i] == k);
            assert(k < id);
            assert(pre_streams.contains_key(k));
        }
    }
}


/// Replacing the record under `id` with a well-formed one that keeps its id,
/// sender and recipient preserves the ledger's well-formedness: the counter
/// and the indices are untouched, and every index entry still resolves to a
/// record of the right party.
proof fn lemma_wf_after_record_update(pre: StreamState, post: StreamState, id: u64, rec: Stream)
    requires
        pre.wf(),
        pre.streams@.contains_key(id),
        rec.id == pre.streams@[id].id,
        rec.sender == pre.streams@[id].sender,
        rec.recipient == pre.streams@[id].recipient,
        wf_stream(rec),
        post.streams@ == pre.streams@.insert(id, rec),
        post.next_stream_id == pre.next_stream_id,
        post.streams_by_sender@ == pre.streams_by_sender@,
        post.streams_by_recipient@ == pre.streams_by_recipient@,
    ensures
        post.wf(),
{
    assert forall|k: u64| post.streams@.contains_key(k) implies {
        &&& 1 <= #[trigger] post.streams@[k].id
        &&& post.streams@[k].id == k
        &&& k < post.next_stream_id
        &&& wf_stream(post.streams@[k])
    } by {
        if k != id {
            assert(pre.streams@.contains_key(k));
        }
    }
    lemma_index_consistent_after_record_update(
        post.streams_by_sender@,
        pre.streams@,
        post.streams@,
        id,
        rec,
        true,
    );
    lemma_index_consistent_after_record_update(
        post.streams_by_recipient@,
        pre.streams@,
        post.streams@,
        id,
        rec,
        false,
    );
}

/// The stream ledger's state: one record per assigned id, the next id to
/// assign (monotone, starting at 1), and the append-only sender/recipient
/// indices. No record or index entry is ever deleted.
pub struct StreamState {
    pub streams: HashMap<u64, Stream>,
    pub next_stream_id: u64,
    pub streams_by_sender: HashMap<AccountOwner, Vec<u64>>,
    pub streams_by_recipient: HashMap<AccountOwner, Vec<u64>>,
}

impl StreamState {
    /// Well-formedness of the ledger: ids are assigned from 1 below the
    /// counter, each record is keyed by its own id and internally consistent,
    /// and the indices list only assigned ids, each at most once.
    pub open spec fn wf(&self) -> bool {
        &&& self.next_stream_id >= 1
        &&& forall|id: u64| self.streams@.contains_key(id) ==> {
            &&& 1 <= #[trigger] self.streams@[id].id
            &&& self.streams@[id].id == id
            &&& id < self.next_stream_id
            &&& wf_stream(self.streams@[id])
        }
        &&& forall|o: AccountOwner| self.streams_by_sender@.contains_key(o) ==>
            wf_index_seq(#[trigger] self.streams_by_sender@[o]@, self.next_stream_id)
        &&& forall|o: AccountOwner| self.streams_by_recipient@.contains_key(o) ==>
            wf_index_seq(#[trigger] self.streams_by_recipient@[o]@, self.next_stream_id)
        &&& index_owners_consistent(self.streams_by_sender@, self.streams@, true)
        &&& index_owners_consistent(self.streams_by_recipient@, self.streams@, false)
    }

    /// A freshly instantiated ledger: no streams, no index entries, and the
    /// id counter at its initial value 1.
    pub fn new() -> (s: Self)
        ensures
            s.wf(),
            s.streams@ == Map::<u64, Stream>::empty(),
            s.next_stream_id == 1,
            s.streams_by_sender@ == Map::<u64, Vec<u64>>::empty(),
            s.streams_by_recipient@ == Map::<u64, Vec<u64>>::empty(),
    {
        StreamState {
            streams: HashMap::new(),
            next_stream_id: 1,
            streams_by_sender: HashMap::new(),
            streams_by_recipient: HashMap::new(),
        }
    }

    /// Append `stream_id` to the sender index of `sender`, reading, mutating
    /// and writing back the whole sequence; the entry is created empty on
    /// first use. Nothing is ever removed from an index.
    pub fn add_stream_to_sender(&mut self, sender: AccountOwner, stream_id: u64)
        ensures
            index_appended(
                old(self).streams_by_sender@,
                final(self).streams_by_sender@,
                sender,
                stream_id,
            ),
            final(self).streams@ == old(self).streams@,
            final(self).next_stream_id == old(self).next_stream_id,
            final(self).streams_by_recipient@ == old(self).streams_by_recipient@,
    {
        let mut sender_streams: Vec<u64> = match self.streams_by_sender.get(&sender) {
            Some(v) => v.clone(),
            None => Vec::new(),
        };
        sender_streams.push(stream_id);
        self.streams_by_sender.insert(sender, sender_streams);
        proof {
            assert(self.streams_by_sender@.dom()
                =~= old(self).streams_by_sender@.dom().insert(sender));
        }
    }

    /// Append `stream_id` to the recipient index of `recipient`; the mirror
    /// of [`Self::add_stream_to_sender`].
    pub fn add_stream_to_recipient(&mut self, recipient: AccountOwner, stream_id: u64)
        ensures
            index_appended(
                old(self).streams_by_recipient@,
                final(self).streams_by_recipient@,
                recipient,
                stream_id,
            ),
            final(self).streams@ == old(self).streams@,
            final(self).next_stream_id == old(self).next_stream_id,
            final(self).streams_by_sender@ == old(self).streams_by_sender@,
    {
        let mut recipient_streams: Vec<u64> = match self.streams_by_recipient.get(&recipient) {
            Some(v) => v.clone(),
            None => Vec::new(),
        };
        recipient_streams.push(stream_id);
        self.streams_by_recipient.insert(recipient, recipient_streams);
        proof {
            assert(self.streams_by_recipient@.dom()
                =~= old(self).streams_by_recipient@.dom().insert(recipient));
        }
    }

    /// How much the stream has earned but not withdrawn at `current_time`,
    /// re-derived from the stored fields alone: rate times elapsed whole
    /// seconds up to the effective accrual instant, saturating, minus the
    /// total already withdrawn.
    pub fn calculate_earned_amount(&self, stream: &Stream, current_time: Timestamp) -> (r: u128)
        ensures
            r == spec_earned(*stream, current_time),
    {
        let effective_time: Timestamp = match stream.status {
            StreamStatus::Active => current_time,
            StreamStatus::Paused => match stream.paused_at {
                Some(t) => t,
                None => current_time,
            },
            StreamStatus::Completed | StreamStatus::Stopped => match stream.end_time {
                Some(t) => t,
                None => current_time,
            },
        };

        if effective_time <= stream.start_time {
            proof {
                assert(crate::stream::elapsed_seconds(*stream, current_time) == 0);
            }
            return 0;
        }

        let elapsed: u64 = effective_time - stream.start_time;
        let seconds_elapsed: u64 = elapsed / 1_000_000;

        let total_earned: u128 = sat_mul(stream.rate_per_second, seconds_elapsed as u128);

        total_earned.saturating_sub(stream.total_withdrawn)
    }

    /// Create a new stream from `caller` to `recipient`, accruing
    /// `rate_per_second` from `now`, optionally ending after a fixed
    /// duration. On success the stream is stored active under the assigned
    /// id, the counter advances, and the id is appended to both parties'
    /// indices; on failure nothing changes.
    pub fn create_stream(
        &mut self,
        caller: Option<AccountOwner>,
        recipient: AccountOwner,
        rate_per_second: AmountText,
        duration_seconds: Option<u64>,
        now: Timestamp,
    ) -> (r: Result<u64, StreamError>)
        requires
            old(self).wf(),
            old(self).next_stream_id < u64::MAX,
        ensures
            final(self).wf(),
            r == spec_create_result(*old(self), caller, rate_per_second),
            r is Err ==> *final(self) == *old(self),
            r is Ok ==> spec_create_post(
                *old(self),
                *final(self),
                caller->Some_0,
                recipient,
                rate_per_second->Value_0,
                duration_seconds,
                now,
            ),
    {
        let sender = match caller {
            Some(s) => s,
            None => return Err(StreamError::NotAuthenticated),
        };

        let rate = match rate_per_second {
            AmountText::Value(r) => r,
            AmountText::Malformed => return Err(StreamError::InvalidRate),
        };

        if rate == 0 {
            return Err(StreamError::InvalidRate);
        }

        let end_time = match duration_seconds {
            Some(dur) => Some(now.saturating_add(duration_micros(dur))),
            None => None,
        };

        let stream_id = self.next_stream_id;
        let stream = Stream {
            id: stream_id,
            sender,
            recipient,
            rate_per_second: rate,
            start_time: now,
            end_time,
            paused_at: None,
            total_deposited: 0,
            total_withdrawn: 0,
            status: StreamStatus::Active,
        };

        self.streams.insert(stream_id, stream);
        self.next_stream_id = stream_id + 1;

        self.add_stream_to_sender(sender, stream_id);
        self.add_stream_to_recipient(recipient, stream_id);

        proof {
            let pre = *old(self);
            let nxt = self.next_stream_id;
            assert forall|k: u64| self.streams@.contains_key(k) implies {
                &&& 1 <= #[trigger] self.streams@[k].id
                &&& self.streams@[k].id == k
                &&& k < nxt
                &&& wf_stream(self.streams@[k])
            } by {
                if k != stream_id {
                    assert(pre.streams@.contains_key(k));
                }
            }
            assert forall|o: AccountOwner| self.streams_by_sender@.contains_key(o)
                implies wf_index_seq(#[trigger] self.streams_by_sender@[o]@, nxt) by {
                lemma_index_append_wf(
                    pre.streams_by_sender@,
                    self.streams_by_sender@,
                    sender,
                    stream_id,
                    pre.next_stream_id,
                    o,
                );
            }
            assert forall|o: AccountOwner| self.streams_by_recipient@.contains_key(o)
                implies wf_index_seq(#[trigger] self.streams_by_recipient@[o]@, nxt) by {
                lemma_index_append_wf(
                    pre.streams_by_recipient@,
                    self.streams_by_recipient@,
                    recipient,
                    stream_id,
                    pre.next_stream_id,
                    o,
                );
            }
            assert(!pre.streams@.contains_key(stream_id)) by {
                if pre.streams@.contains_key(stream_id) {
                    assert(pre.streams@[stream_id].id == stream_id);
                }
            }
            lemma_index_consistent_after_create(
                pre.streams_by_sender@,
                self.streams_by_sender@,
                pre.streams@,
                self.streams@,
                sender,
                stream_id,
                stream,
                true,
            );
            lemma_index_consistent_after_create(
                pre.streams_by_recipient@,
                self.streams_by_recipient@,
                pre.streams@,
                self.streams@,
                recipient,
                stream_id,
                stream,
                false,
            );
        }

        Ok(stream_id)
    }

    /// Pause an active stream: its accrual freezes at `now` until resumed.
    /// Only the sender may pause, and only from `Active`; on failure nothing
    /// changes.
    pub fn pause_stream(
        &mut self,
        caller: Option<AccountOwner>,
        stream_id: u64,
        now: Timestamp,
    ) -> (r: Result<(), StreamError>)
        requires
            old(self).wf(),
        ensures
            final(self).wf(),
            r == spec_pause_result(*old(self), caller, stream_id),
            r is Err ==> *final(self) == *old(self),
            r is Ok ==> spec_pause_post(*old(self), *final(self), stream_id, now),
    {
        let sender = match caller {
            Some(s) => s,
            None => return Err(StreamError::NotAuthenticated),
        };

        let stream = match self.streams.get(&stream_id) {
            Some(s) => *s,
            None => return Err(StreamError::NotFound),
        };

        if stream.sender != sender {
            return Err(StreamError::NotSender);
        }

        if stream.status != StreamStatus::Active {
            return Err(StreamError::NotActive);
        }

        let updated = Stream { status: StreamStatus::Paused, paused_at: Some(now), ..stream };
        self.streams.insert(stream_id, updated);

        proof {
            lemma_wf_after_record_update(*old(self), *self, stream_id, updated);
        }

        Ok(())
    }

    /// Resume a paused stream: the pause instant is cleared and accrual is
    /// again measured from the unchanged start time, so the paused interval
    /// counts again once resumed. Only the sender may resume, and only from
    /// `Paused`; on failure nothing changes.
    pub fn resume_stream(
        &mut self,
        caller: Option<AccountOwner>,
        stream_id: u64,
    ) -> (r: Result<(), StreamError>)
        requires
            old(self).wf(),
        ensures
            final(self).wf(),
            r == spec_resume_result(*old(self), caller, stream_id),
            r is Err ==> *final(self) == *old(self),
            r is Ok ==> spec_resume_post(*old(self), *final(self), stream_id),
    {
        let sender = match caller {
            Some(s) => s,
            None => return Err(StreamError::NotAuthenticated),
        };

        let stream = match self.streams.get(&stream_id) {
            Some(s) => *s,
            None => return Err(StreamError::NotFound),
        };

        if stream.sender != sender {
            return Err(StreamError::NotSender);
        }

        if stream.status != StreamStatus::Paused {
            return Err(StreamError::NotPaused);
        }

        let updated = Stream { status: StreamStatus::Active, paused_at: None, ..stream };
        self.streams.insert(stream_id, updated);

        proof {
            lemma_wf_after_record_update(*old(self), *self, stream_id, updated);
        }

        Ok(())
    }

    /// Stop a stream from any status: its end time freezes at `now`,
    /// overwriting any original duration-based end time. Already-earned,
    /// unwithdrawn value is not forfeited: accrual up to the frozen end time
    /// remains withdrawable. Only the sender may stop; on failure nothing
    /// changes.
    pub fn stop_stream(
        &mut self,
        caller: Option<AccountOwner>,
        stream_id: u64,
        now: Timestamp,
    ) -> (r: Result<(), StreamError>)
        requires
            old(self).wf(),
        ensures
            final(self).wf(),
            r == spec_stop_result(*old(self), caller, stream_id),
            r is Err ==> *final(self) == *old(self),
            r is Ok ==> spec_stop_post(*old(self), *final(self), stream_id, now),
    {
        let sender = match caller {
            Some(s) => s,
            None => return Err(StreamError::NotAuthenticated),
        };

        let stream = match self.streams.get(&stream_id) {
            Some(s) => *s,
            None => return Err(StreamError::NotFound),
        };

        if stream.sender != sender {
            return Err(StreamError::NotSender);
        }

        let updated = Stream {
            status: StreamStatus::Stopped,
            end_time: Some(now),
            paused_at: None,
            ..stream
        };
        self.streams.insert(stream_id, updated);

        proof {
            lemma_wf_after_record_update(*old(self), *self, stream_id, updated);
        }

        Ok(())
    }

    /// Withdraw earned value from a stream: the requested amount, or all of
    /// the earned-but-unwithdrawn value if no amount is given. Only the
    /// recipient may withdraw, and never more than is earned at `now`; on
    /// failure nothing changes. The withdrawal is tracked in
    /// `total_withdrawn`; moving real balances between ledgers is out of
    /// scope.
    pub fn withdraw_from_stream(
        &mut self,
        caller: Option<AccountOwner>,
        stream_id: u64,
        amount: Option<AmountText>,
        now: Timestamp,
    ) -> (r: Result<u128, StreamError>)
        requires
            old(self).wf(),
        ensures
            final(self).wf(),
            r == spec_withdraw_result(*old(self), caller, stream_id, amount, now),
            r is Err ==> *final(self) == *old(self),
            r is Ok ==> spec_withdraw_post(*old(self), *final(self), stream_id, r->Ok_0),
    {
        let recipient = match caller {
            Some(s) => s,
            None => return Err(StreamError::NotAuthenticated),
        };

        let stream = match self.streams.get(&stream_id) {
            Some(s) => *s,
            None => return Err(StreamError::NotFound),
        };

        if stream.recipient != recipient {
            return Err(StreamError::NotRecipient);
        }

        let available = self.calculate_earned_amount(&stream, now);

        let withdraw_amount = match amount {
            Some(AmountText::Value(a)) => a,
            Some(AmountText::Malformed) => return Err(StreamError::InvalidAmount),
            None => available,
        };

        if withdraw_amount > available {
            return Err(StreamError::InsufficientEarned);
        }

        let updated = Stream {
            total_withdrawn: stream.total_withdrawn.saturating_add(withdraw_amount),
            ..stream
        };
        self.streams.insert(stream_id, updated);

        proof {
            lemma_wf_after_record_update(*old(self), *self, stream_id, updated);
        }

        Ok(withdraw_amount)
    }

    /// Record a further deposit against a stream, saturating at the amount
    /// maximum. Bookkeeping only: no funds move from another ledger. Only the
    /// sender may top up; on failure nothing changes.
    pub fn top_up_stream(
        &mut self,
        caller: Option<AccountOwner>,
        stream_id: u64,
        amount: AmountText,
    ) -> (r: Result<(), StreamError>)
        requires
            old(self).wf(),
        ensures
            final(self).wf(),
            r == spec_top_up_result(*old(self), caller, stream_id, amount),
            r is Err ==> *final(self) == *old(self),
            r is Ok ==> spec_top_up_post(*old(self), *final(self), stream_id, amount->Value_0),
    {
        let sender = match caller {
            Some(s) => s,
            None => return Err(StreamError::NotAuthenticated),
        };

        let stream = match self.streams.get(&stream_id) {
            Some(s) => *s,
            None => return Err(StreamError::NotFound),
        };

        if stream.sender != sender {
            return Err(StreamError::NotSender);
        }

        let top_up_amount = match amount {
            AmountText::Value(a) => a,
            AmountText::Malformed => return Err(StreamError::InvalidAmount),
        };

        let updated = Stream {
            total_deposited: stream.total_deposited.saturating_add(top_up_amount),
            ..stream
        };
        self.streams.insert(stream_id, updated);

        proof {
            lemma_wf_after_record_update(*old(self), *self, stream_id, updated);
        }

        Ok(())
    }

    /// Apply one operation for the identity `caller` at the instant `now`:
    /// resolve it to exactly one ledger method and map its outcome to the
    /// tagged response. A failed operation leaves the ledger untouched.
    pub fn execute_operation(
        &mut self,
        caller: Option<AccountOwner>,
        operation: StreamOperation,
        now: Timestamp,
    ) -> (resp: StreamResponse)
        requires
            old(self).wf(),
            operation is CreateStream ==> old(self).next_stream_id < u64::MAX,
        ensures
            final(self).wf(),
            match operation {
                StreamOperation::CreateStream { recipient, rate_per_second, duration_seconds } => {
                    match spec_create_result(*old(self), caller, rate_per_second) {
                        Ok(id) => resp == StreamResponse::StreamId(id) && spec_create_post(
                            *old(self),
                            *final(self),
                            caller->Some_0,
                            recipient,
                            rate_per_second->Value_0,
                            duration_seconds,
                            now,
                        ),
                        Err(e) => resp == StreamResponse::Error(e) && *final(self) == *old(self),
                    }
                },
                StreamOperation::PauseStream { stream_id } => {
                    match spec_pause_result(*old(self), caller, stream_id) {
                        Ok(_) => resp == StreamResponse::Accepted && spec_pause_post(
                            *old(self),
                            *final(self),
                            stream_id,
                            now,
                        ),
                        Err(e) => resp == StreamResponse::Error(e) && *final(self) == *old(self),
                    }
                },
                StreamOperation::ResumeStream { stream_id } => {
                    match spec_resume_result(*old(self), caller, stream_id) {
                        Ok(_) => resp == StreamResponse::Accepted && spec_resume_post(
                            *old(self),
                            *final(self),
                            stream_id,
                        ),
                        Err(e) => resp == StreamResponse::Error(e) && *final(self) == *old(self),
                    }
                },
                StreamOperation::StopStream { stream_id } => {
                    match spec_stop_result(*old(self), caller, stream_id) {
                        Ok(_) => resp == StreamResponse::Accepted && spec_stop_post(
                            *old(self),
                            *final(self),
                            stream_id,
                            now,
                        ),
                        Err(e) => resp == StreamResponse::Error(e) && *final(self) == *old(self),
                    }
                },
                StreamOperation::WithdrawFromStream { stream_id, amount } => {
                    match spec_withdraw_result(*old(self), caller, stream_id, amount, now) {
                        Ok(a) => resp == StreamResponse::Amount(a) && spec_withdraw_post(
                            *old(self),
                            *final(self),
                            stream_id,
                            a,
                        ),
                        Err(e) => resp == StreamResponse::Error(e) && *final(self) == *old(self),
                    }
                },
                StreamOperation::TopUpStream { stream_id, amount } => {
                    match spec_top_up_result(*old(self), caller, stream_id, amount) {
                        Ok(_) => resp == StreamResponse::Accepted && spec_top_up_post(
                            *old(self),
                            *final(self),
                            stream_id,
                            amount->Value_0,
                        ),
                        Err(e) => resp == StreamResponse::Error(e) && *final(self) == *old(self),
                    }
                },
            },
    {
        match operation {
            StreamOperation::CreateStream { recipient, rate_per_second, duration_seconds } => {
                match self.create_stream(caller, recipient, rate_per_second, duration_seconds, now) {
                    Ok(id) => StreamResponse::StreamId(id),
                    Err(e) => StreamResponse::Error(e),
                }
            },
            StreamOperation::PauseStream { stream_id } => {
                match self.pause_stream(caller, stream_id, now) {
                    Ok(_) => StreamResponse::Accepted,
                    Err(e) => StreamResponse::Error(e),
                }
            },
            StreamOperation::ResumeStream { stream_id } => {
                match self.resume_stream(caller, stream_id) {
                    Ok(_) => StreamResponse::Accepted,
                    Err(e) => StreamResponse::Error(e),
                }
            },
            StreamOperation::StopStream { stream_id } => {
                match self.stop_stream(caller, stream_id, now) {
                    Ok(_) => StreamResponse::Accepted,
                    Err(e) => StreamResponse::Error(e),
                }
            },
            StreamOperation::WithdrawFromStream { stream_id, amount } => {
                match self.withdraw_from_stream(caller, stream_id, amount, now) {
                    Ok(a) => StreamResponse::Amount(a),
                    Err(e) => StreamResponse::Error(e),
                }
            },
            StreamOperation::TopUpStream { stream_id, amount } => {
                match self.top_up_stream(caller, stream_id, amount) {
                    Ok(_) => StreamResponse::Accepted,
                    Err(e) => StreamResponse::Error(e),
                }
            },
        }
    }

    /// Look one stream up by id; absence is a plain `None`, not an error.
    pub fn stream(&self, id: u64) -> (r: Option<Stream>)
        ensures
            r == if self.streams@.contains_key(id) {
                Some(self.streams@[id])
            } else {
                None::<Stream>
            },
    {
        match self.streams.get(&id) {
            Some(s) => Some(*s),
            None => None,
        }
    }

    /// All streams created by `sender`, in creation order: the sender index's
    /// ids resolved against the stream table, tolerating holes.
    pub fn streams_by_sender(&self, sender: AccountOwner) -> (r: Vec<Stream>)
        ensures
            r@ == spec_collect(self.streams@, index_entry(self.streams_by_sender@, sender)),
    {
        let ids: Vec<u64> = match self.streams_by_sender.get(&sender) {
            Some(v) => v.clone(),
            None => Vec::new(),
        };
        self.collect_streams(&ids)
    }

    /// All streams addressed to `recipient`, in creation order: the recipient
    /// index's ids resolved against the stream table, tolerating holes.
    pub fn streams_by_recipient(&self, recipient: AccountOwner) -> (r: Vec<Stream>)
        ensures
            r@ == spec_collect(self.streams@, index_entry(self.streams_by_recipient@, recipient)),
    {
        let ids: Vec<u64> = match self.streams_by_recipient.get(&recipient) {
            Some(v) => v.clone(),
            None => Vec::new(),
        };
        self.collect_streams(&ids)
    }

    /// Every stored stream, scanned over all ids assigned so far; ids that
    /// were assigned but never stored are treated as absent.
    pub fn all_streams(&self) -> (r: Vec<Stream>)
        requires
            self.wf(),
        ensures
            r@ == spec_collect(self.streams@, spec_assigned_ids(self.next_stream_id)),
    {
        let ghost all_ids = spec_assigned_ids(self.next_stream_id);
        let mut result: Vec<Stream> = Vec::new();
        let mut id: u64 = 1;
        while id < self.next_stream_id
            invariant
                self.wf(),
                1 <= id <= self.next_stream_id,
                all_ids == spec_assigned_ids(self.next_stream_id),
                result@ == spec_collect(self.streams@, all_ids.take(id - 1)),
            decreases self.next_stream_id - id,
        {
            proof {
                assert(all_ids.take(id - 1 + 1).drop_last() == all_ids.take(id - 1));
                assert(all_ids.take(id - 1 + 1).last() == id);
            }
            match self.streams.get(&id) {
                Some(s) => result.push(*s),
                None => (),
            }
            id = id + 1;
        }
        proof {
            assert(all_ids.take(self.next_stream_id - 1) == all_ids);
        }
        result
    }

    /// The records of `ids` that exist in the stream table, in the order of
    /// `ids`; a missing lookup is absence, not an error.
    fn collect_streams(&self, ids: &Vec<u64>) -> (r: Vec<Stream>)
        ensures
            r@ == spec_collect(self.streams@, ids@),
    {
        let mut result: Vec<Stream> = Vec::new();
        let mut i: usize = 0;
        while i < ids.len()
            invariant
                i <= ids@.len(),
                result@ == spec_collect(self.streams@, ids@.take(i as int)),
            decreases ids@.len() - i,
        {
            proof {
                assert(ids@.take(i + 1).drop_last() == ids@.take(i as int));
                assert(ids@.take(i + 1).last() == ids@[i as int]);
            }
            match self.streams.get(&ids[i]) {
                Some(s) => result.push(*s),
                None => (),
            }
            i = i + 1;
        }
        proof {
            assert(ids@.take(ids@.len() as int) == ids@);
        }
        result
    }

    /// Whether the stream's fixed duration (if any) has elapsed at
    /// `current_time`. No operation acts on this: a stream whose duration
    /// elapses stays in its current status until explicitly stopped.
    pub fn should_complete_stream(&self, stream: &Stream, current_time: Timestamp) -> (r: bool)
        ensures
            r == match stream.end_time {
                Some(end) => current_time >= end,
                None => false,
            },
    {
        match stream.end_time {
            Some(end_time) => current_time >= end_time,
            None => false,
        }
    }
}

} // verus!
