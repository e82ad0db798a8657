//! How many samples a watch delivers, when time is taken at its word.
//!
//! On a real machine the sleep is only a lower bound and every step takes
//! its time, so the number of samples of a watch is known only roughly. The
//! rule behind it is exact, and it is stated here for a clock that is: the
//! first sample is taken at once, each sleep lasts one interval and nothing
//! else takes time, and a poll finds the child ended as soon as its lifetime
//! has passed.

use crate::metrics::ProcessMetrics;
use crate::paw::WatchSpec;
use crate::structs::Outcome;
use crate::trace::{delivered, fresh, lemma_run_in_two_parts, pending_sample, run};
use crate::watch::{next, request, Reply, Request, WatchState};
use vstd::prelude::*;

verus! {

/// `a / b`, rounded up.
pub open spec fn ceil_div(a: nat, b: nat) -> nat {
    if a == 0 {
        0
    } else {
        ((a - 1) / (b as int) + 1) as nat
    }
}

/// What a driver reports from the measurement at `elapsed` milliseconds on,
/// for a child that lives `lifetime` milliseconds, under the exact clock.
pub open spec fn paced_replies(
    lifetime: nat,
    interval: nat,
    elapsed: nat,
    metrics: ProcessMetrics,
    exit_code: Option<i32>,
    stdout: Seq<char>,
) -> Seq<Reply>
    decreases lifetime - elapsed,
{
    let measured = Reply::Measured { uptime: elapsed as u128, metrics };
    if interval == 0 || elapsed + interval >= lifetime {
        seq![measured, Reply::Exited { exit_code }, Reply::Captured { stdout }]
    } else {
        seq![measured, Reply::Running] + paced_replies(
            lifetime,
            interval,
            elapsed + interval,
            metrics,
            exit_code,
            stdout,
        )
    }
}

/// How many samples are still to come at `elapsed` milliseconds.
pub open spec fn samples_left(lifetime: nat, interval: nat, elapsed: nat) -> nat {
    if lifetime <= elapsed {
        1
    } else {
        ceil_div((lifetime - elapsed) as nat, interval)
    }
}

proof fn lemma_ceil_div_step(a: nat, b: nat)
    requires
        b > 0,
        a > b,
    ensures
        ceil_div(a, b) == ceil_div((a - b) as nat, b) + 1,
        ceil_div(a, b) >= 2,
{
    let x = a - b - 1;
    assert((x + b) / (b as int) == x / (b as int) + 1) by {
        vstd::arithmetic::div_mod::lemma_div_plus_one(x, b as int);
    }
    assert(x / (b as int) >= 0) by {
        vstd::arithmetic::div_mod::lemma_div_pos_is_pos(x, b as int);
    }
}

proof fn lemma_ceil_div_small(a: nat, b: nat)
    requires
        b > 0,
        0 < a <= b,
    ensures
        ceil_div(a, b) == 1,
{
    assert((a - 1) / (b as int) == 0) by {
        vstd::arithmetic::div_mod::lemma_basic_div(a - 1, b as int);
    }
}

proof fn lemma_paced_from(
    state: WatchState,
    lifetime: nat,
    elapsed: nat,
    metrics: ProcessMetrics,
    exit_code: Option<i32>,
    stdout: Seq<char>,
)
    requires
        state.phase is Measuring,
        state.interval > 0,
        state.last_uptime <= elapsed,
        elapsed + state.interval <= u128::MAX,
        lifetime + state.interval <= u128::MAX,
    ensures
        ({
            let replies = paced_replies(
                lifetime,
                state.interval as nat,
                elapsed,
                metrics,
                exit_code,
                stdout,
            );
            let samples = delivered(state, replies);
            &&& samples.len() == samples_left(lifetime, state.interval as nat, elapsed)
            &&& forall|i: int|
                0 <= i < samples.len() ==> (#[trigger] samples[i]).info.uptime == elapsed + i
                    * state.interval
            &&& request(run(state, replies)) == (Request::Finish {
                result: Ok(Outcome { stdout, exit_code }),
            })
        }),
    decreases lifetime - elapsed,
{
    let interval = state.interval as nat;
    let replies = paced_replies(lifetime, interval, elapsed, metrics, exit_code, stdout);
    let measured = Reply::Measured { uptime: elapsed as u128, metrics };
    let ticking = next(state, measured);
    let sample = pending_sample(ticking);
    assert(sample.info.uptime == elapsed);
    if elapsed + interval >= lifetime {
        let exited = Reply::Exited { exit_code };
        let captured = Reply::Captured { stdout };
        let joining = next(ticking, exited);
        let done = next(joining, captured);
        assert(replies =~= seq![measured, exited, captured]);
        let after_first = replies.drop_first();
        assert(after_first =~= seq![exited, captured]);
        let after_second = after_first.drop_first();
        assert(after_second =~= seq![captured]);
        assert(after_second.drop_first() =~= Seq::<Reply>::empty());
        assert(run(done, after_second.drop_first()) == done);
        assert(run(joining, after_second) == done);
        assert(run(ticking, after_first) == done);
        assert(run(state, replies) == done);
        assert(delivered(done, after_second.drop_first()) =~= Seq::empty());
        assert(delivered(joining, after_second) =~= Seq::empty());
        assert(delivered(ticking, after_first) =~= Seq::empty());
        assert(delivered(state, replies) =~= seq![sample]);
        if lifetime > elapsed {
            lemma_ceil_div_small((lifetime - elapsed) as nat, interval);
        }
        assert(elapsed + 0 * state.interval == elapsed);
    } else {
        let head = seq![measured, Reply::Running];
        let later = elapsed + interval;
        let rest = paced_replies(lifetime, interval, later as nat, metrics, exit_code, stdout);
        let again = next(ticking, Reply::Running);
        assert(replies == head + rest);
        let after_first = head.drop_first();
        assert(after_first =~= seq![Reply::Running]);
        assert(after_first.drop_first() =~= Seq::<Reply>::empty());
        assert(run(again, after_first.drop_first()) == again);
        assert(run(ticking, after_first) == again);
        assert(run(state, head) == again);
        assert(delivered(again, after_first.drop_first()) =~= Seq::empty());
        assert(delivered(ticking, after_first) =~= Seq::empty());
        assert(delivered(state, head) =~= seq![sample]);
        lemma_run_in_two_parts(state, head, rest);
        lemma_paced_from(again, lifetime, later as nat, metrics, exit_code, stdout);
        lemma_ceil_div_step((lifetime - elapsed) as nat, interval);
        let tail = delivered(again, rest);
        let samples = delivered(state, replies);
        assert(samples =~= seq![sample] + tail);
        assert forall|i: int| 0 <= i < samples.len() implies (#[trigger] samples[i]).info.uptime
            == elapsed + i * state.interval by {
            if i == 0 {
                assert(samples[0] == sample);
                assert(elapsed + 0 * state.interval == elapsed);
            } else {
                assert(samples[i] == tail[i - 1]);
                assert(tail[i - 1].info.uptime == later + (i - 1) * state.interval);
                assert(later + (i - 1) * state.interval == elapsed + i * state.interval)
                    by (nonlinear_arith)
                    requires
                        later == elapsed + state.interval,
                ;
            }
        }
    }
}

/// Under the exact clock, a child that lives `lifetime` milliseconds and is
/// sampled every `interval` milliseconds is sampled `lifetime / interval`
/// times, rounded up, and once if it ends at once. The samples show the
/// uptimes 0, `interval`, twice `interval` and so on, and the watch ends with
/// the outcome that was reported.
pub proof fn lemma_paced_watch_sample_count(
    spec: WatchSpec,
    pid: u32,
    lifetime: nat,
    metrics: ProcessMetrics,
    exit_code: Option<i32>,
    stdout: Seq<char>,
)
    requires
        spec.interval > 0,
        lifetime + spec.interval <= u128::MAX,
    ensures
        ({
            let replies = seq![Reply::Spawned { pid }] + paced_replies(
                lifetime,
                spec.interval as nat,
                0,
                metrics,
                exit_code,
                stdout,
            );
            let samples = delivered(fresh(spec), replies);
            let rounded_up = ceil_div(lifetime, spec.interval as nat);
            &&& samples.len() == if lifetime == 0 {
                1
            } else {
                rounded_up
            }
            &&& rounded_up <= samples.len() <= rounded_up + 1
            &&& forall|i: int|
                0 <= i < samples.len() ==> (#[trigger] samples[i]).info.uptime == i
                    * spec.interval
            &&& request(run(fresh(spec), replies)) == (Request::Finish {
                result: Ok(Outcome { stdout, exit_code }),
            })
        }),
{
    let spawned = seq![Reply::Spawned { pid }];
    let paced = paced_replies(lifetime, spec.interval as nat, 0, metrics, exit_code, stdout);
    let measuring = next(fresh(spec), spawned[0]);
    assert(spawned.drop_first() =~= Seq::<Reply>::empty());
    assert(run(measuring, spawned.drop_first()) == measuring);
    assert(run(fresh(spec), spawned) == measuring);
    assert(delivered(measuring, spawned.drop_first()) =~= Seq::empty());
    assert(delivered(fresh(spec), spawned) =~= Seq::empty());
    lemma_run_in_two_parts(fresh(spec), spawned, paced);
    lemma_paced_from(measuring, lifetime, 0, metrics, exit_code, stdout);
    assert(delivered(fresh(spec), spawned + paced) =~= delivered(measuring, paced));
}

} // verus!
