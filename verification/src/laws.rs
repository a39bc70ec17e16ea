//! The library's stated laws: the timer invariants hold of every reachable
//! state, the counters move as the expiry protocol promises, a revert
//! without a skip does nothing, restarting is idempotent, a skip followed
//! at once by a revert is undone, and the countdown follows the monotonic
//! clock exactly.

use vstd::prelude::*;

use crate::controller::{
    clear_spec, expire_spec, next_spec, revert_spec, start_spec, tick_spec, toggle_spec,
};
use crate::session::{
    duration_ms, initial_model, long_break_boundary, SessionMode, SessionModel,
};

verus! {

/// The initial state is well-formed; together with
/// `lemma_operations_preserve_wf` this makes `wf` hold of every reachable
/// state.
pub proof fn lemma_initial_wf()
    ensures
        initial_model().wf(),
{
}

/// Every operation of the controller and the engine carries a well-formed
/// state to a well-formed state. The counter bounds exclude only the
/// states where an increment would not fit the counter's machine word.
pub proof fn lemma_operations_preserve_wf(s: SessionModel, now_ms: u64)
    requires
        s.wf(),
        s.small_session_count < u32::MAX,
        s.full_session_count < u32::MAX,
    ensures
        clear_spec(s).wf(),
        start_spec(s, now_ms).wf(),
        toggle_spec(s, now_ms).wf(),
        next_spec(s).wf(),
        revert_spec(s).wf(),
        s.timer_running && s.start_instant_ms <= now_ms ==> tick_spec(s, now_ms).wf(),
{
}

/// In every well-formed (hence every reachable) state, the timer is never
/// at once running and expired.
pub proof fn lemma_running_expired_exclusive(s: SessionModel)
    requires
        s.wf(),
    ensures
        !(s.timer_running && s.timer_expired),
{
}

/// In every well-formed (hence every reachable) state, the remaining time
/// lies between zero and the full length of the current session.
pub proof fn lemma_remaining_within_duration(s: SessionModel)
    requires
        s.wf(),
    ensures
        0 <= s.remaining_ms,
        s.remaining_ms <= duration_ms(s.mode, s.small_session_count),
{
}

/// On an expiry, each counter moves by at most one: the focus counter
/// increases exactly when the expired session was focus, the full-session
/// counter exactly when the expired session sat at a long-break boundary.
pub proof fn lemma_expiry_counters(s: SessionModel)
    requires
        s.small_session_count < u32::MAX,
        s.full_session_count < u32::MAX,
    ensures
        expire_spec(s).small_session_count == s.small_session_count + (
        if s.mode == SessionMode::Focus {
            1int
        } else {
            0int
        }),
        expire_spec(s).full_session_count == s.full_session_count + (
        if long_break_boundary(s.small_session_count) {
            1int
        } else {
            0int
        }),
        expire_spec(s).small_session_count > s.small_session_count <==> s.mode
            == SessionMode::Focus,
{
}

/// On an expiry where the focus condition and the long-break condition
/// disagree, exactly one of the two counters changes, and it changes by
/// exactly one. (When the two conditions agree the protocol moves both
/// counters or neither: a focus expiry at a long-break boundary moves
/// both, a short-break expiry moves neither.)
pub proof fn lemma_expiry_exactly_one_counter(s: SessionModel)
    requires
        s.small_session_count < u32::MAX,
        s.full_session_count < u32::MAX,
        (s.mode == SessionMode::Focus) != long_break_boundary(s.small_session_count),
    ensures
        s.mode == SessionMode::Focus ==> expire_spec(s).small_session_count
            == s.small_session_count + 1 && expire_spec(s).full_session_count
            == s.full_session_count,
        s.mode == SessionMode::Break ==> expire_spec(s).full_session_count
            == s.full_session_count + 1 && expire_spec(s).small_session_count
            == s.small_session_count,
{
}

/// Without a pending skip, a revert changes nothing at all.
pub proof fn lemma_revert_without_skip_is_noop(s: SessionModel)
    requires
        !s.skipped_session,
    ensures
        revert_spec(s) == s,
{
}

/// Restarting the current session is idempotent: clearing twice in
/// succession is clearing once.
pub proof fn lemma_clear_timer_idempotent(s: SessionModel)
    ensures
        clear_spec(clear_spec(s)) == clear_spec(s),
{
}

/// Starting is idempotent at a fixed instant: starting again with the
/// same clock reading leaves the state exactly as the first start did.
pub proof fn lemma_start_timer_idempotent(s: SessionModel, now_ms: u64)
    ensures
        start_spec(start_spec(s, now_ms), now_ms) == start_spec(s, now_ms),
{
}

/// A skip followed at once by a revert restores the mode, the focus
/// counter, the remaining time, and the skip flag. (Starting from a state
/// that itself carries a pending skip, the revert would clear that older
/// flag instead of restoring it, so such states are excluded; the counter
/// bound excludes only a focus counter at its machine-word maximum.)
pub proof fn lemma_skip_revert_round_trip(s: SessionModel)
    requires
        !s.skipped_session,
        s.small_session_count < u32::MAX,
    ensures
        revert_spec(next_spec(s)).mode == s.mode,
        revert_spec(next_spec(s)).small_session_count == s.small_session_count,
        revert_spec(next_spec(s)).remaining_ms == s.remaining_ms,
        revert_spec(next_spec(s)).skipped_session == s.skipped_session,
{
}

/// Under a monotonic clock, two countdown steps `d` milliseconds apart
/// lower the remaining time by exactly `d`: the engine recomputes the
/// remaining time against the instant the run started, so no error
/// accumulates from tick to tick. (The bound on `now_ms + d` keeps the
/// later instant on the clock; the bound against the countdown base keeps
/// the second step short of the expiry.)
pub proof fn lemma_tick_follows_clock(s: SessionModel, now_ms: u64, d: u64)
    requires
        s.wf(),
        s.timer_running,
        s.start_instant_ms <= now_ms,
        now_ms + d <= u64::MAX,
        now_ms + d - s.start_instant_ms < s.base_remaining_ms,
    ensures
        tick_spec(s, now_ms).timer_running,
        tick_spec(tick_spec(s, now_ms), (now_ms + d) as u64).remaining_ms
            == tick_spec(s, now_ms).remaining_ms - d,
{
}

} // verus!
