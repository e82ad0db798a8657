//! Whole runs of a watch: what it delivers and where it ends, for every
//! sequence of replies that a driver may hand it.

use crate::metrics::ProcessMetrics;
use crate::paw::WatchSpec;
use crate::structs::{Outcome, PawResult, Sample};
use crate::watch::{
    accepts, next, request, started, Action, Event, Failure, Phase, Reply, Request, Watch,
    WatchState,
};
use vstd::prelude::*;

verus! {

/// The state that a watch of `spec` starts in.
pub open spec fn fresh(spec: WatchSpec) -> WatchState {
    started(spec.process(), spec.interval)
}

/// The state after a sequence of replies, taken in order.
pub open spec fn run(state: WatchState, replies: Seq<Reply>) -> WatchState
    decreases replies.len(),
{
    if replies.len() == 0 {
        state
    } else {
        run(next(state, replies[0]), replies.drop_first())
    }
}

/// Whether a reply makes the watch build a sample for the observer.
pub open spec fn delivers(state: WatchState, reply: Reply) -> bool {
    state.phase is Measuring && reply is Measured
}

/// The sample that is pending for the observer in a state.
pub open spec fn pending_sample(state: WatchState) -> Sample {
    match request(state) {
        Request::Tick { sample, .. } => sample,
        _ => arbitrary(),
    }
}

/// The samples that the observer is handed during a run, in order.
pub open spec fn delivered(state: WatchState, replies: Seq<Reply>) -> Seq<Sample>
    decreases replies.len(),
{
    if replies.len() == 0 {
        Seq::empty()
    } else {
        let after = next(state, replies[0]);
        let rest = delivered(after, replies.drop_first());
        if delivers(state, replies[0]) {
            seq![pending_sample(after)] + rest
        } else {
            rest
        }
    }
}

/// Whether a reply is the answer to the poll that ends a tick.
pub open spec fn polls(state: WatchState, reply: Reply) -> bool {
    state.phase is Ticking && accepts(state, reply)
}

/// How many ticks were completed during a run: the observer was handed a
/// sample, the interval was slept, and the child was polled.
pub open spec fn ticks(state: WatchState, replies: Seq<Reply>) -> nat
    decreases replies.len(),
{
    if replies.len() == 0 {
        0
    } else {
        let rest = ticks(next(state, replies[0]), replies.drop_first());
        if polls(state, replies[0]) {
            rest + 1
        } else {
            rest
        }
    }
}

/// The replies that a list of events stands for.
pub open spec fn replies_of(events: Seq<Event>) -> Seq<Reply> {
    Seq::new(events.len(), |i: int| events[i]@)
}

/// The samples that a list of results stands for.
pub open spec fn samples_of(results: Seq<PawResult>) -> Seq<Sample> {
    Seq::new(results.len(), |i: int| results[i]@)
}

impl Watch {
    /// Hands the watch a recorded sequence of events, in order, and returns
    /// the samples that an observer would have been handed on the way.
    ///
    /// This is a watch with the operating system taken out: the events say
    /// what it would have answered. Events that do not answer the pending
    /// action are dropped, as `handle` drops them.
    pub fn replay(&mut self, events: &Vec<Event>) -> (samples: Vec<PawResult>)
        ensures
            final(self)@ == run(old(self)@, replies_of(events@)),
            samples_of(samples@) == delivered(old(self)@, replies_of(events@)),
    {
        let ghost all = replies_of(events@);
        let mut samples: Vec<PawResult> = Vec::new();
        let mut i: usize = 0;
        assert(all.skip(0) =~= all);
        assert(samples_of(samples@) =~= Seq::<Sample>::empty());
        assert(Seq::<Sample>::empty() + delivered(self@, all) =~= delivered(self@, all));
        while i < events.len()
            invariant
                i <= events.len(),
                all == replies_of(events@),
                run(old(self)@, all) == run(self@, all.skip(i as int)),
                delivered(old(self)@, all) == samples_of(samples@) + delivered(
                    self@,
                    all.skip(i as int),
                ),
            decreases events.len() - i,
        {
            let ghost before = self@;
            let ghost collected = samples_of(samples@);
            let ghost left = all.skip(i as int);
            let event = events[i].duplicate();
            let measured = match event {
                Event::Measured { .. } => true,
                _ => false,
            };
            assert(left[0] == event@);
            assert(left.drop_first() =~= all.skip(i + 1));
            let accepted = self.handle(event);
            if accepted && measured {
                match self.action() {
                    Action::Tick { sample, .. } => {
                        samples.push(sample);
                    },
                    _ => {},
                }
                assert(samples_of(samples@) =~= collected + seq![pending_sample(self@)]);
                assert(collected + (seq![pending_sample(self@)] + delivered(
                    self@,
                    all.skip(i + 1),
                )) =~= (collected + seq![pending_sample(self@)]) + delivered(
                    self@,
                    all.skip(i + 1),
                ));
            } else {
                assert(!delivers(before, left[0]));
            }
            i = i + 1;
        }
        assert(all.skip(i as int) =~= Seq::<Reply>::empty());
        assert(samples_of(samples@) + Seq::<Sample>::empty() =~= samples_of(samples@));
        samples
    }
}

/// Whether a phase is one that nothing leads out of.
pub open spec fn ended(state: WatchState) -> bool {
    state.phase is Done || state.phase is Failed
}

/// A watch that has ended stays as it is and delivers nothing more, whatever
/// it is told.
pub proof fn lemma_ended_watch_is_abandoned(state: WatchState, replies: Seq<Reply>)
    requires
        ended(state),
    ensures
        run(state, replies) == state,
        delivered(state, replies) == Seq::<Sample>::empty(),
        ticks(state, replies) == 0,
    decreases replies.len(),
{
    if replies.len() > 0 {
        lemma_ended_watch_is_abandoned(state, replies.drop_first());
    }
}

/// Running two sequences of replies one after the other is running their
/// concatenation, and the samples add up.
pub proof fn lemma_run_in_two_parts(state: WatchState, first: Seq<Reply>, second: Seq<Reply>)
    ensures
        run(state, first + second) == run(run(state, first), second),
        delivered(state, first + second) == delivered(state, first) + delivered(
            run(state, first),
            second,
        ),
        ticks(state, first + second) == ticks(state, first) + ticks(run(state, first), second),
    decreases first.len(),
{
    if first.len() == 0 {
        assert(first + second =~= second);
        assert(delivered(state, first) + delivered(state, second) =~= delivered(state, second));
    } else {
        let after = next(state, first[0]);
        assert((first + second).drop_first() =~= first.drop_first() + second);
        lemma_run_in_two_parts(after, first.drop_first(), second);
        let tail = delivered(after, first.drop_first());
        let more = delivered(run(state, first), second);
        assert(seq![pending_sample(after)] + (tail + more) =~= (seq![pending_sample(after)]
            + tail) + more);
    }
}

/// A run of one reply is one step.
proof fn lemma_single_reply(state: WatchState, reply: Reply)
    ensures
        run(state, seq![reply]) == next(state, reply),
        delivered(state, seq![reply]) == if delivers(state, reply) {
            seq![pending_sample(next(state, reply))]
        } else {
            Seq::<Sample>::empty()
        },
{
    let replies = seq![reply];
    let after = next(state, reply);
    assert(replies[0] == reply);
    assert(replies.drop_first() =~= Seq::<Reply>::empty());
    assert(run(after, replies.drop_first()) == after);
    assert(delivered(after, replies.drop_first()) =~= Seq::<Sample>::empty());
    assert(seq![pending_sample(after)] + Seq::<Sample>::empty() =~= seq![pending_sample(after)]);
}

/// Every sample of a run shows an uptime between the last uptime before the
/// run and the last uptime after it, and the last uptime never goes down.
proof fn lemma_uptime_bounds(state: WatchState, replies: Seq<Reply>)
    ensures
        state.last_uptime <= run(state, replies).last_uptime,
        forall|i: int|
            0 <= i < delivered(state, replies).len() ==> state.last_uptime <= (
            #[trigger] delivered(state, replies)[i]).info.uptime <= run(
                state,
                replies,
            ).last_uptime,
    decreases replies.len(),
{
    if replies.len() > 0 {
        let after = next(state, replies[0]);
        lemma_uptime_bounds(after, replies.drop_first());
    }
}

/// The samples of a run come in the order of their uptimes, whatever the
/// replies are: of two samples, the later one never shows the smaller uptime.
pub proof fn lemma_uptime_never_decreases(state: WatchState, replies: Seq<Reply>)
    ensures
        forall|i: int, j: int|
            0 <= i <= j < delivered(state, replies).len() ==> (#[trigger] delivered(
                state,
                replies,
            )[i]).info.uptime <= (#[trigger] delivered(state, replies)[j]).info.uptime,
    decreases replies.len(),
{
    if replies.len() > 0 {
        let after = next(state, replies[0]);
        let rest = delivered(after, replies.drop_first());
        lemma_uptime_never_decreases(after, replies.drop_first());
        lemma_uptime_bounds(after, replies.drop_first());
        if delivers(state, replies[0]) {
            let all = delivered(state, replies);
            assert(all =~= seq![pending_sample(after)] + rest);
            assert(pending_sample(after).info.uptime == after.last_uptime);
            assert forall|i: int, j: int| 0 <= i <= j < all.len() implies (#[trigger] all[i]).info.uptime
                <= (#[trigger] all[j]).info.uptime by {
                if i > 0 {
                    assert(all[i] == rest[i - 1]);
                    assert(all[j] == rest[j - 1]);
                } else if j > 0 {
                    assert(all[j] == rest[j - 1]);
                }
            }
        }
    }
}

/// Each sample belongs to one tick. At any moment of a run from a fresh
/// watch, the observer has been handed one sample for each completed tick,
/// and one more while a tick is under way.
pub proof fn lemma_one_sample_per_tick(spec: WatchSpec, replies: Seq<Reply>)
    ensures
        delivered(fresh(spec), replies).len() == ticks(fresh(spec), replies) + (if run(
            fresh(spec),
            replies,
        ).phase is Ticking {
            1nat
        } else {
            0nat
        }),
{
    lemma_samples_and_ticks(fresh(spec), replies);
}

proof fn lemma_samples_and_ticks(state: WatchState, replies: Seq<Reply>)
    ensures
        delivered(state, replies).len() + (if state.phase is Ticking {
            1nat
        } else {
            0nat
        }) == ticks(state, replies) + (if run(state, replies).phase is Ticking {
            1nat
        } else {
            0nat
        }),
    decreases replies.len(),
{
    if replies.len() > 0 {
        lemma_samples_and_ticks(next(state, replies[0]), replies.drop_first());
    }
}

/// A watch that ran to completion delivered at least one sample, and as many
/// samples as it completed ticks.
pub proof fn lemma_completed_watch_sampled(spec: WatchSpec, replies: Seq<Reply>)
    requires
        run(fresh(spec), replies).phase is Done,
    ensures
        delivered(fresh(spec), replies).len() == ticks(fresh(spec), replies),
        delivered(fresh(spec), replies).len() >= 1,
{
    lemma_one_sample_per_tick(spec, replies);
    lemma_done_needs_a_tick(fresh(spec), replies);
}

proof fn lemma_done_needs_a_tick(state: WatchState, replies: Seq<Reply>)
    requires
        run(state, replies).phase is Done,
        state.phase is Spawning || state.phase is Measuring || state.phase is Ticking,
    ensures
        ticks(state, replies) >= 1,
    decreases replies.len(),
{
    if replies.len() > 0 {
        let after = next(state, replies[0]);
        if after.phase is Spawning || after.phase is Measuring || after.phase is Ticking {
            lemma_done_needs_a_tick(after, replies.drop_first());
        } else if after.phase is Failed {
            lemma_ended_watch_is_abandoned(after, replies.drop_first());
        }
    }
}

/// When the child cannot be created, the watch fails with the spawn error
/// that was reported and the observer is never handed a sample, whatever the
/// driver reports afterwards.
pub proof fn lemma_spawn_failure_delivers_nothing(
    spec: WatchSpec,
    reason: Seq<char>,
    later: Seq<Reply>,
)
    ensures
        ({
            let replies = seq![Reply::SpawnFailed { reason }] + later;
            &&& delivered(fresh(spec), replies) == Seq::<Sample>::empty()
            &&& run(fresh(spec), replies).phase == (Phase::Failed {
                failure: Failure::Spawn { reason },
            })
            &&& request(run(fresh(spec), replies)) == (Request::Finish {
                result: Err(Failure::Spawn { reason }),
            })
        }),
{
    let first = seq![Reply::SpawnFailed { reason }];
    let failed = next(fresh(spec), Reply::SpawnFailed { reason });
    lemma_single_reply(fresh(spec), Reply::SpawnFailed { reason });
    lemma_run_in_two_parts(fresh(spec), first, later);
    lemma_ended_watch_is_abandoned(failed, later);
    assert(delivered(fresh(spec), first) + delivered(failed, later) =~= Seq::<Sample>::empty());
}

/// A tick whose query of the process table failed still hands the observer a
/// sample, with both metrics absent and the uptime and command line as
/// always; and when the child is then found running, the watch measures
/// again.
pub proof fn lemma_failed_query_still_sampled(state: WatchState, uptime: u128)
    requires
        state.phase is Measuring,
    ensures
        ({
            let reply = Reply::Measured { uptime, metrics: ProcessMetrics::absent() };
            let ticking = next(state, reply);
            &&& delivers(state, reply)
            &&& request(ticking) == (Request::Tick {
                sample: pending_sample(ticking),
                interval: state.interval,
            })
            &&& pending_sample(ticking).info.memory_usage is None
            &&& pending_sample(ticking).info.cpu_usage is None
            &&& pending_sample(ticking).info.uptime >= uptime
            &&& pending_sample(ticking).process == state.process
            &&& next(ticking, Reply::Running).phase == state.phase
            &&& request(next(ticking, Reply::Running)) == request(state)
        }),
{
}

/// The outcome of a watch is what the driver reported: once the child is
/// found to have ended, the text that the capture then yields and the exit
/// code that the poll gave are returned as they are.
pub proof fn lemma_outcome_is_what_was_reported(
    state: WatchState,
    exit_code: Option<i32>,
    stdout: Seq<char>,
)
    requires
        state.phase is Ticking,
    ensures
        ({
            let replies = seq![Reply::Exited { exit_code }, Reply::Captured { stdout }];
            &&& run(state, replies).phase == (Phase::Done {
                outcome: Outcome { stdout, exit_code },
            })
            &&& request(run(state, replies)) == (Request::Finish {
                result: Ok(Outcome { stdout, exit_code }),
            })
            &&& delivered(state, replies) == Seq::<Sample>::empty()
        }),
{
    let exited = Reply::Exited { exit_code };
    let captured = Reply::Captured { stdout };
    let joining = next(state, exited);
    lemma_single_reply(state, exited);
    lemma_single_reply(joining, captured);
    lemma_run_in_two_parts(state, seq![exited], seq![captured]);
    assert(seq![exited] + seq![captured] =~= seq![exited, captured]);
    assert(delivered(state, seq![exited]) + delivered(joining, seq![captured])
        =~= Seq::<Sample>::empty());
}

/// A child that a signal ended has no exit code, and its watch still returns
/// all the output that was captured.
pub proof fn lemma_signalled_child_keeps_output(state: WatchState, stdout: Seq<char>)
    requires
        state.phase is Ticking,
    ensures
        request(
            run(state, seq![Reply::Exited { exit_code: None }, Reply::Captured { stdout }]),
        ) == (Request::Finish { result: Ok(Outcome { stdout, exit_code: None }) }),
{
    lemma_outcome_is_what_was_reported(state, None, stdout);
}

/// Two watches of one specification share nothing. Each starts in the same
/// fresh state, with no uptime behind it, so the first sample of the later
/// watch shows its own first clock reading however long the earlier watch
/// ran; and within each watch the uptimes never decrease.
pub proof fn lemma_watches_are_independent(
    spec: WatchSpec,
    earlier: Seq<Reply>,
    pid: u32,
    uptime: u128,
    metrics: ProcessMetrics,
    later: Seq<Reply>,
)
    ensures
        ({
            let second = seq![Reply::Spawned { pid }, Reply::Measured { uptime, metrics }]
                + later;
            let first_samples = delivered(fresh(spec), earlier);
            let second_samples = delivered(fresh(spec), second);
            &&& fresh(spec).last_uptime == 0
            &&& second_samples.len() >= 1
            &&& second_samples[0].info.uptime == uptime
            &&& second_samples[0].process == spec.process()
            &&& forall|i: int, j: int|
                0 <= i <= j < first_samples.len() ==> (#[trigger] first_samples[i]).info.uptime
                    <= (#[trigger] first_samples[j]).info.uptime
            &&& forall|i: int, j: int|
                0 <= i <= j < second_samples.len() ==> (#[trigger] second_samples[i]).info.uptime
                    <= (#[trigger] second_samples[j]).info.uptime
        }),
{
    let spawned = Reply::Spawned { pid };
    let measured = Reply::Measured { uptime, metrics };
    let head = seq![spawned, measured];
    let second = head + later;
    let measuring = next(fresh(spec), spawned);
    let ticking = next(measuring, measured);
    lemma_single_reply(fresh(spec), spawned);
    lemma_single_reply(measuring, measured);
    lemma_run_in_two_parts(fresh(spec), seq![spawned], seq![measured]);
    assert(seq![spawned] + seq![measured] =~= head);
    assert(delivered(fresh(spec), head) =~= seq![pending_sample(ticking)]);
    lemma_run_in_two_parts(fresh(spec), head, later);
    assert(delivered(fresh(spec), second)[0] == pending_sample(ticking));
    lemma_uptime_never_decreases(fresh(spec), earlier);
    lemma_uptime_never_decreases(fresh(spec), second);
}

} // verus!
