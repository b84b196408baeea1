//! Properties of the state machine over runs of operations.
use vstd::prelude::*;
use crate::alarm::{start_due, AlarmCoordinator};
use crate::app::{
    config_applied, fetch_applied, form_submitted, market_cap_of, progress_of, App,
};
use crate::clock::ClockTime;
use crate::history::{bounded_push, last_n, lemma_bounded_run, MAX_HISTORY, MAX_LOG};
use crate::input::{form_key_applied, monitor_key_applied, Key};
use crate::market::PairData;
use crate::scheduler::outcome_applied;
use crate::text::{is_ws, lemma_blank_trims_empty, trimmed};

verus! {

/// The market caps in whole dollars of the records `ds`, as the trend buffer
/// takes them.
pub open spec fn trend_values(ds: Seq<PairData>) -> Seq<u64> {
    ds.map_values(|d: PairData| (market_cap_of(d) / 100) as u64)
}

/// `states` are the states that taking in the records `ds` at the times
/// `times` passes through, the first state included.
pub open spec fn fetch_run(states: Seq<App>, times: Seq<ClockTime>, ds: Seq<PairData>) -> bool {
    &&& states.len() == ds.len() + 1
    &&& times.len() == ds.len()
    &&& forall|i: int|
        0 <= i < ds.len() ==> #[trigger] fetch_applied(states[i], states[i + 1], times[i], ds[i])
}

/// `states` are the states that appending the lines `msgs` to the log passes
/// through, the first state included.
pub open spec fn log_run(states: Seq<App>, msgs: Seq<Seq<char>>) -> bool {
    &&& states.len() == msgs.len() + 1
    &&& forall|i: int|
        0 <= i < msgs.len() ==> #[trigger] states[i + 1].log_view() == bounded_push(
            states[i].log_view(),
            msgs[i],
            MAX_LOG as nat,
        )
}

/// After any run of fetches the trend buffer holds the last 60 of its old
/// values followed by the new market caps, in order; from an empty buffer it
/// holds `min(60, number of fetches)` values.
pub proof fn lemma_trend_window(states: Seq<App>, times: Seq<ClockTime>, ds: Seq<PairData>)
    requires
        fetch_run(states, times, ds),
        states[0].wf(),
    ensures
        states.last().market_cap_history@ == last_n(
            states[0].market_cap_history@ + trend_values(ds),
            MAX_HISTORY as nat,
        ),
        states[0].market_cap_history@.len() == 0 ==> states.last().market_cap_history@.len() == if ds.len()
            < MAX_HISTORY {
            ds.len()
        } else {
            MAX_HISTORY as nat
        },
{
    let bufs = states.map_values(|a: App| a.market_cap_history@);
    let xs = trend_values(ds);
    assert forall|i: int| 0 <= i < xs.len() implies #[trigger] bufs[i + 1] == bounded_push(
        bufs[i],
        xs[i],
        MAX_HISTORY as nat,
    ) by {
        assert(fetch_applied(states[i], states[i + 1], times[i], ds[i]));
    }
    lemma_bounded_run(bufs, xs, MAX_HISTORY as nat);
    if states[0].market_cap_history@.len() == 0 {
        assert(states[0].market_cap_history@ + xs =~= xs);
    }
}

/// After any run of appended lines the log holds the last 100 of its old
/// lines followed by the new ones, in order; from an empty log it holds
/// `min(100, number of lines)` lines.
pub proof fn lemma_log_window(states: Seq<App>, msgs: Seq<Seq<char>>)
    requires
        log_run(states, msgs),
        states[0].wf(),
    ensures
        states.last().log_view() == last_n(states[0].log_view() + msgs, MAX_LOG as nat),
        states[0].log_view().len() == 0 ==> states.last().log_view().len() == if msgs.len()
            < MAX_LOG {
            msgs.len()
        } else {
            MAX_LOG as nat
        },
{
    let bufs = states.map_values(|a: App| a.log_view());
    assert forall|i: int| 0 <= i < msgs.len() implies #[trigger] bufs[i + 1] == bounded_push(
        bufs[i],
        msgs[i],
        MAX_LOG as nat,
    ) by {
        assert(states[i + 1].log_view() == bounded_push(states[i].log_view(), msgs[i], MAX_LOG as nat));
    }
    lemma_bounded_run(bufs, msgs, MAX_LOG as nat);
}

/// With the target fixed, progress never falls as the market cap grows.
pub proof fn lemma_progress_monotone(m1: nat, m2: nat, target: nat)
    requires
        m1 <= m2,
    ensures
        progress_of(m1, target) <= progress_of(m2, target),
{
    if target > 0 {
        assert(m1 * 10000 <= m2 * 10000) by (nonlinear_arith)
            requires m1 <= m2;
        vstd::arithmetic::div_mod::lemma_div_is_ordered(
            (m1 * 10000) as int,
            (m2 * 10000) as int,
            target as int,
        );
    }
}

/// Progress is full once the market cap reaches a positive target.
pub proof fn lemma_progress_full(m: nat, target: nat)
    requires
        target > 0,
        m >= target,
    ensures
        progress_of(m, target) == 10000,
{
    assert(m * 10000 >= target * 10000) by (nonlinear_arith)
        requires m >= target;
    vstd::arithmetic::div_mod::lemma_div_is_ordered(
        (target * 10000) as int,
        (m * 10000) as int,
        target as int,
    );
    vstd::arithmetic::div_mod::lemma_div_multiples_vanish(10000, target as int);
}

/// Whether the target flag rises between the `i`th and the next state.
pub open spec fn rises(states: Seq<App>, i: int) -> bool {
    !states[i].target_hit && states[i + 1].target_hit
}

/// Over any run of fetches the target stays as it was and the target flag
/// never falls; it is down after `i` fetches exactly where it was down at the
/// start and none of the first `i` records reached the target, so it rises
/// at most once, on the first record that reaches the target.
pub proof fn lemma_target_hit_once(states: Seq<App>, times: Seq<ClockTime>, ds: Seq<PairData>)
    requires
        fetch_run(states, times, ds),
    ensures
        forall|i: int|
            0 <= i < ds.len() && #[trigger] states[i].target_hit ==> states[i + 1].target_hit,
        forall|i: int|
            0 <= i <= ds.len() ==> #[trigger] states[i].target_market_cap == states[0].target_market_cap,
        forall|i: int|
            0 <= i <= ds.len() ==> (!#[trigger] states[i].target_hit <==> (!states[0].target_hit
                && forall|k: int|
                0 <= k < i ==> market_cap_of(#[trigger] ds[k]) < states[0].target_market_cap)),
        forall|i: int, j: int|
            0 <= i < ds.len() && 0 <= j < ds.len() && #[trigger] rises(states, i) && #[trigger] rises(
                states,
                j,
            ) ==> i == j,
    decreases ds.len(),
{
    if ds.len() > 0 {
        let n = ds.len() - 1;
        let pre = states.take(n + 1);
        assert forall|i: int| 0 <= i < ds.take(n).len() implies #[trigger] fetch_applied(
            pre[i],
            pre[i + 1],
            times.take(n)[i],
            ds.take(n)[i],
        ) by {
            assert(fetch_applied(states[i], states[i + 1], times[i], ds[i]));
        }
        lemma_target_hit_once(pre, times.take(n), ds.take(n));
        assert(fetch_applied(states[n], states[n + 1], times[n], ds[n]));
        assert forall|i: int| 0 <= i <= ds.len() implies #[trigger] states[i].target_market_cap
            == states[0].target_market_cap by {
            assert(pre[0] == states[0]);
            if i <= n {
                assert(pre[i] == states[i]);
            } else {
                assert(pre[n] == states[n]);
            }
        }
        assert forall|i: int|
            0 <= i <= ds.len() implies (!#[trigger] states[i].target_hit <==> (!states[0].target_hit
                && forall|k: int|
                0 <= k < i ==> market_cap_of(#[trigger] ds[k]) < states[0].target_market_cap)) by {
            if i <= n {
                assert(pre[i] == states[i]);
                assert forall|k: int| 0 <= k < i implies ds.take(n)[k] == ds[k] by {}
            } else {
                assert(pre[n] == states[n]);
                assert forall|k: int| 0 <= k < n implies ds.take(n)[k] == ds[k] by {}
            }
        }
        assert forall|i: int| 0 <= i < ds.len() && #[trigger] states[i].target_hit implies states[i
            + 1].target_hit by {
            assert(fetch_applied(states[i], states[i + 1], times[i], ds[i]));
        }
        assert forall|i: int, j: int|
            0 <= i < ds.len() && 0 <= j < ds.len() && #[trigger] rises(states, i) && #[trigger] rises(
                states,
                j,
            ) implies i == j by {
            if i < j {
                assert(states[i + 1].target_hit);
                assert(!states[j].target_hit);
                assert(!states[i + 1].target_hit);
            } else if j < i {
                assert(!states[i].target_hit);
                assert(!states[j + 1].target_hit);
            }
        }
    }
}

/// The target flag is lowered only by applying the form: no fetch outcome,
/// no key on the monitoring screen, and no key in the form other than an
/// accepted Enter lowers it, and applying the form always does.
pub proof fn lemma_target_hit_cleared_only_by_submit(
    a: App,
    b: App,
    f: bool,
    g: bool,
    c: AlarmCoordinator,
    d: AlarmCoordinator,
    now: ClockTime,
    key: Key,
    shift: bool,
    outcome: Result<PairData, String>,
)
    ensures
        outcome_applied(a, b, now, outcome) && a.target_hit ==> b.target_hit,
        monitor_key_applied(a, b, f, g, c, d, now, key) && a.target_hit ==> b.target_hit,
        form_key_applied(a, b, f, g, now, key, shift) && a.target_hit && !(key == Key::Enter
            && trimmed(a.form_view()[0]).len() > 0) ==> b.target_hit,
        config_applied(a, b, now) ==> !b.target_hit,
{
}

/// Two records in a row that both reach the target, taken in from a state
/// whose target flag is down and with no alarm sounding, start exactly one
/// alarm: the first asks for it, and once it is attached the second does not.
pub proof fn lemma_one_start_for_two_hits(
    a0: App,
    a1: App,
    a2: App,
    t1: ClockTime,
    t2: ClockTime,
    d1: PairData,
    d2: PairData,
    c0: AlarmCoordinator,
    c1: AlarmCoordinator,
    s1: bool,
    s2: bool,
)
    requires
        !a0.target_hit,
        !c0.sounding(),
        market_cap_of(d1) >= a0.target_market_cap,
        market_cap_of(d2) >= a0.target_market_cap,
        outcome_applied(a0, a1, t1, Ok(d1)),
        s1 == start_due(c0, a1.alarm_active),
        s1 ==> c1.sounding(),
        !s1 ==> c1 == c0,
        outcome_applied(a1, a2, t2, Ok(d2)),
        s2 == start_due(c1, a2.alarm_active),
    ensures
        s1,
        !s2,
{
}

/// Submitting the form with an address of whitespace alone is refused and
/// leaves the state, and so whether it is configured, as it was.
pub proof fn lemma_blank_address_refused(a: App, b: App, now: ClockTime, r: bool)
    requires
        a.wf(),
        form_submitted(a, b, now, r),
        forall|i: int| 0 <= i < a.form_view()[0].len() ==> is_ws(#[trigger] a.form_view()[0][i]),
    ensures
        !r,
        b == a,
        b.configured == a.configured,
{
    lemma_blank_trims_empty(a.form_view()[0]);
}

} // verus!
