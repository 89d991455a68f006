//! Ledger-wide laws, stated and proved over the accrual and balance
//! specifications.

use vstd::prelude::*;
use vstd::arithmetic::div_mod::{lemma_div_is_ordered, lemma_div_multiples_vanish_fancy};
use vstd::arithmetic::mul::lemma_mul_inequality;
use crate::amounts::sat_mul_spec;
use crate::stream::{
    Stream, StreamStatus, StreamError, AmountText, wf_stream, effective_instant,
    elapsed_seconds, spec_earned,
};
use crate::stream_ledger::{
    StreamState, index_entry, spec_collect, spec_withdraw_post, spec_withdraw_result,
};
use crate::token::{DailyBonus, spec_can_claim, BONUS_COOLDOWN_MICROS};
use crate::token_ledger::{TokenState, spec_bonus};
use crate::{AccountOwner, Timestamp};

verus! {

/// Saturating multiplication is monotone in its second factor.
proof fn lemma_sat_mul_monotonic(a: u128, b1: u128, b2: u128)
    requires
        b1 <= b2,
    ensures
        sat_mul_spec(a, b1) <= sat_mul_spec(a, b2),
{
    lemma_mul_inequality(b1 as int, b2 as int, a as int);
    assert(b1 as int * a as int == a as int * b1 as int);
    assert(b2 as int * a as int == a as int * b2 as int);
    assert(a as int * b1 as int <= a as int * b2 as int);
}

/// While a stream is active, its earned amount is monotonically
/// non-decreasing in the query time: a later query never reports less.
pub proof fn lemma_earned_monotonic(s: Stream, t1: Timestamp, t2: Timestamp)
    requires
        s.status is Active,
        t1 <= t2,
    ensures
        spec_earned(s, t1) <= spec_earned(s, t2),
{
    let e1 = elapsed_seconds(s, t1);
    let e2 = elapsed_seconds(s, t2);
    if t1 > s.start_time {
        lemma_div_is_ordered(t1 - s.start_time, t2 - s.start_time, 1_000_000);
    }
    assert(e1 <= e2);
    lemma_sat_mul_monotonic(s.rate_per_second, e1 as u128, e2 as u128);
}

/// Once a stream's status leaves `Active`, its earned amount is frozen: for a
/// well-formed paused or terminal stream the accrual instant is the stored
/// pause or end instant, and the query time no longer matters.
pub proof fn lemma_earned_frozen(s: Stream, t1: Timestamp, t2: Timestamp)
    requires
        wf_stream(s),
        !(s.status is Active),
    ensures
        spec_earned(s, t1) == spec_earned(s, t2),
{
    assert(effective_instant(s, t1) == effective_instant(s, t2));
}

/// Accrual at a whole-second boundary is an exact multiple: a fresh active
/// stream queried exactly `n` seconds after its start has earned exactly
/// `n` times its rate, with no truncation loss.
pub proof fn lemma_whole_second_accrual(s: Stream, n: u64)
    requires
        s.status is Active,
        s.total_withdrawn == 0,
        s.start_time + n * 1_000_000 <= u64::MAX,
        s.rate_per_second * n <= u128::MAX,
    ensures
        spec_earned(s, (s.start_time + n * 1_000_000) as u64) == s.rate_per_second * n,
{
    let t = (s.start_time + n * 1_000_000) as u64;
    if n == 0 {
        assert(elapsed_seconds(s, t) == 0);
    } else {
        lemma_div_multiples_vanish_fancy(n as int, 0, 1_000_000);
        assert((1_000_000 * n) / 1_000_000 == n as int);
        assert(elapsed_seconds(s, t) == n as int);
    }
}

/// Fractional seconds are truncated: a query any fraction of a second after
/// a whole-second boundary yields exactly the whole-second amount, never a
/// fractional share of the rate.
pub proof fn lemma_subsecond_truncation(s: Stream, n: u64, frac: u64)
    requires
        s.status is Active,
        frac < 1_000_000,
        s.start_time + n * 1_000_000 + frac <= u64::MAX,
    ensures
        spec_earned(s, (s.start_time + n * 1_000_000 + frac) as u64)
            == spec_earned(s, (s.start_time + n * 1_000_000) as u64),
{
    let t0 = (s.start_time + n * 1_000_000) as u64;
    let t1 = (s.start_time + n * 1_000_000 + frac) as u64;
    lemma_div_multiples_vanish_fancy(n as int, frac as int, 1_000_000);
    assert((1_000_000 * n + frac) / 1_000_000 == n as int);
    lemma_div_multiples_vanish_fancy(n as int, 0, 1_000_000);
    assert((1_000_000 * n) / 1_000_000 == n as int);
    if n == 0 {
        assert(elapsed_seconds(s, t0) == 0);
        assert(elapsed_seconds(s, t1) == 0);
    } else {
        assert(elapsed_seconds(s, t0) == n as int);
        assert(elapsed_seconds(s, t1) == n as int);
    }
}

/// Pausing freezes accrual at the pause instant: however much real time then
/// passes, the paused stream's earned amount stays exactly what the active
/// stream had earned at the instant of the pause.
pub proof fn lemma_pause_freezes_accrual(s: Stream, pause_instant: Timestamp, t: Timestamp)
    requires
        s.status is Active,
    ensures
        spec_earned(
            (Stream { status: StreamStatus::Paused, paused_at: Some(pause_instant), ..s }),
            t,
        ) == spec_earned(s, pause_instant),
{
}

/// Stopping freezes accrual at the stop instant: an active stream stopped at
/// `stop_instant` has, at every later query time, exactly what it had earned
/// at the instant it was stopped.
pub proof fn lemma_stop_freezes_accrual(s: Stream, stop_instant: Timestamp, t: Timestamp)
    requires
        s.status is Active,
    ensures
        spec_earned(
            (Stream {
                status: StreamStatus::Stopped,
                end_time: Some(stop_instant),
                paused_at: None,
                ..s
            }),
            t,
        ) == spec_earned(s, stop_instant),
{
}

/// Withdrawing everything earned exhausts the stream: immediately after a
/// full withdrawal the earned amount is zero, so repeating the withdrawal —
/// or requesting any positive amount — fails with `InsufficientEarned` until
/// new accrual happens. Withdrawal is not idempotent.
pub proof fn lemma_withdrawal_bound(
    pre: StreamState,
    post: StreamState,
    caller: Option<AccountOwner>,
    stream_id: u64,
    now: Timestamp,
)
    requires
        caller is Some,
        pre.streams@.contains_key(stream_id),
        pre.streams@[stream_id].recipient == caller->Some_0,
        spec_withdraw_post(pre, post, stream_id, spec_earned(pre.streams@[stream_id], now)),
    ensures
        spec_earned(post.streams@[stream_id], now) == 0,
        forall|req: u128| req > 0 ==> spec_withdraw_result(
            post,
            caller,
            stream_id,
            Some(AmountText::Value(req)),
            now,
        ) == Err::<u128, StreamError>(StreamError::InsufficientEarned),
{
    let s = pre.streams@[stream_id];
    let earned = spec_earned(s, now);
    let s2 = post.streams@[stream_id];
    assert(s2 == Stream { total_withdrawn: s.total_withdrawn.saturating_add(earned), ..s });
    assert(elapsed_seconds(s2, now) == elapsed_seconds(s, now));
    assert(spec_earned(s2, now) == 0);
}

/// Resolving ids against the stream table keeps a per-id property: if every
/// id in `ids` that resolves at all resolves to a stream whose sender (or
/// recipient) is `owner`, then so does every collected record.
proof fn lemma_collect_keeps_party(
    streams: Map<u64, Stream>,
    ids: Seq<u64>,
    owner: AccountOwner,
    as_sender: bool,
)
    requires
        forall|i: int| 0 <= i < ids.len() && streams.contains_key(#[trigger] ids[i]) ==> if as_sender {
            streams[ids[i]].sender == owner
        } else {
            streams[ids[i]].recipient == owner
        },
    ensures
        forall|j: int| 0 <= j < spec_collect(streams, ids).len() ==> if as_sender {
            (#[trigger] spec_collect(streams, ids)[j]).sender == owner
        } else {
            spec_collect(streams, ids)[j].recipient == owner
        },
    decreases ids.len(),
{
    if ids.len() > 0 {
        lemma_collect_keeps_party(streams, ids.drop_last(), owner, as_sender);
        assert(ids[ids.len() - 1] == ids.last());
    }
}

/// The sender query returns only that sender's streams: in a well-formed
/// ledger, every record that the sender index of `owner` resolves to names
/// `owner` as its sender.
pub proof fn lemma_sender_query_owned(s: StreamState, owner: AccountOwner)
    requires
        s.wf(),
    ensures
        forall|j: int|
            0 <= j < spec_collect(s.streams@, index_entry(s.streams_by_sender@, owner)).len()
            ==> (#[trigger] spec_collect(s.streams@, index_entry(s.streams_by_sender@, owner))[j])
                .sender == owner,
{
    lemma_collect_keeps_party(s.streams@, index_entry(s.streams_by_sender@, owner), owner, true);
}

/// The recipient query returns only that recipient's streams: the mirror of
/// [`lemma_sender_query_owned`].
pub proof fn lemma_recipient_query_owned(s: StreamState, owner: AccountOwner)
    requires
        s.wf(),
    ensures
        forall|j: int|
            0 <= j < spec_collect(s.streams@, index_entry(s.streams_by_recipient@, owner)).len()
            ==> (#[trigger] spec_collect(
                s.streams@,
                index_entry(s.streams_by_recipient@, owner),
            )[j]).recipient == owner,
{
    lemma_collect_keeps_party(
        s.streams@,
        index_entry(s.streams_by_recipient@, owner),
        owner,
        false,
    );
}

/// The bonus cooldown is exact: after a successful claim at `t1`, a claim by
/// the same account strictly inside the 24-hour window fails, and a claim at
/// or past the window's end succeeds, in each case judged against the
/// persisted record.
pub proof fn lemma_bonus_cooldown(
    pre: TokenState,
    post: TokenState,
    owner: AccountOwner,
    t1: Timestamp,
    t2: Timestamp,
)
    requires
        spec_can_claim(spec_bonus(pre.daily_bonuses@, owner), t1),
        post.daily_bonuses@ == pre.daily_bonuses@.insert(
            owner,
            (DailyBonus { amount: spec_bonus(pre.daily_bonuses@, owner).amount, last_claim: t1 }),
        ),
    ensures
        t2 < t1 + BONUS_COOLDOWN_MICROS ==> !spec_can_claim(
            spec_bonus(post.daily_bonuses@, owner),
            t2,
        ),
        t2 >= t1 + BONUS_COOLDOWN_MICROS ==> spec_can_claim(
            spec_bonus(post.daily_bonuses@, owner),
            t2,
        ),
{
}

} // verus!
