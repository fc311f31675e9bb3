//! The read loop: one iteration at a time, and what a whole run of
//! iterations leaves in the shared buffer.
//!
//! The loop's outside work — a bounded-wait read on the connection's
//! endpoint, and the short pause between attempts — is performed by the
//! embedding, which hands each attempt's outcome in as a [`ReadOutcome`].
//! The decisions are all here: a stop signal, checked once per iteration at
//! the top, ends the loop before anything else happens; a received line is
//! appended verbatim to the shared buffer; a read failure ends the loop with
//! the reason. The loop never reconnects on its own.

use vstd::prelude::*;
use crate::buffer::{concat_all, SharedBuffer};

verus! {

/// What one bounded-wait read attempt came back with.
pub enum ReadOutcome {
    /// A full line of text was received.
    Line(String),
    /// The wait ran out with no data pending; the loop just tries again.
    Timeout,
    /// The read failed mid-stream, with the reported reason.
    Failed(String),
}

/// How the loop left one iteration.
pub enum LoopVerdict {
    /// The loop goes on to the next read attempt.
    Running,
    /// The stop signal was observed; the loop is over.
    Stopped,
    /// A read error ended the loop, with the reported reason.
    Failed(String),
}

/// One observed iteration: the stop flag as read at the top of the
/// iteration, then the outcome of the read attempt.
pub struct LoopStep {
    pub stop_seen: bool,
    pub outcome: ReadOutcome,
}

/// A step on which the loop halts: a stop signal or a failed read.
pub open spec fn spec_halted(step: LoopStep) -> bool {
    step.stop_seen || step.outcome is Failed
}

/// The buffer contents after the loop, started on a buffer holding `start`,
/// has worked through `script` (or halted part way through it).
pub open spec fn spec_buffer_after(start: Seq<char>, script: Seq<LoopStep>) -> Seq<char>
    decreases script.len(),
{
    if script.len() == 0 {
        start
    } else if script[0].stop_seen {
        start
    } else {
        match script[0].outcome {
            ReadOutcome::Line(t) => spec_buffer_after(
                start + t@,
                script.subrange(1, script.len() as int),
            ),
            ReadOutcome::Timeout => spec_buffer_after(start, script.subrange(1, script.len() as int)),
            ReadOutcome::Failed(_) => start,
        }
    }
}

/// The verdict after working through `script`.
pub open spec fn spec_run_verdict(script: Seq<LoopStep>) -> LoopVerdict
    decreases script.len(),
{
    if script.len() == 0 {
        LoopVerdict::Running
    } else if script[0].stop_seen {
        LoopVerdict::Stopped
    } else {
        match script[0].outcome {
            ReadOutcome::Failed(e) => LoopVerdict::Failed(e),
            _ => spec_run_verdict(script.subrange(1, script.len() as int)),
        }
    }
}

/// One iteration of the read loop. The stop flag read at the top of the
/// iteration wins over everything: when it is set, nothing is appended and
/// the loop reports itself stopped.
pub fn loop_step(stop_seen: bool, buf: &mut SharedBuffer, outcome: &ReadOutcome) -> (v:
    LoopVerdict)
    ensures
        stop_seen ==> v is Stopped && final(buf)@ == old(buf)@,
        !stop_seen ==> match outcome {
            ReadOutcome::Line(t) => v is Running && final(buf)@ == old(buf)@ + t@,
            ReadOutcome::Timeout => v is Running && final(buf)@ == old(buf)@,
            ReadOutcome::Failed(e) => (v matches LoopVerdict::Failed(m) && m@ == e@)
                && final(buf)@ == old(buf)@,
        },
{
    if stop_seen {
        return LoopVerdict::Stopped;
    }
    match outcome {
        ReadOutcome::Line(t) => {
            buf.append(t.as_str());
            LoopVerdict::Running
        },
        ReadOutcome::Timeout => LoopVerdict::Running,
        ReadOutcome::Failed(e) => LoopVerdict::Failed(e.clone()),
    }
}

proof fn lemma_all_running(script: Seq<LoopStep>)
    requires
        forall|j: int| 0 <= j < script.len() ==> !spec_halted(#[trigger] script[j]),
    ensures
        spec_run_verdict(script) is Running,
    decreases script.len(),
{
    if script.len() > 0 {
        assert(!spec_halted(script[0]));
        lemma_all_running(script.subrange(1, script.len() as int));
    }
}

proof fn lemma_steps_push(start: Seq<char>, script: Seq<LoopStep>, x: LoopStep)
    requires
        forall|j: int| 0 <= j < script.len() ==> !spec_halted(#[trigger] script[j]),
    ensures
        spec_buffer_after(start, script.push(x)) == if x.stop_seen {
            spec_buffer_after(start, script)
        } else {
            match x.outcome {
                ReadOutcome::Line(t) => spec_buffer_after(start, script) + t@,
                _ => spec_buffer_after(start, script),
            }
        },
        spec_run_verdict(script.push(x)) == if x.stop_seen {
            LoopVerdict::Stopped
        } else {
            match x.outcome {
                ReadOutcome::Failed(e) => LoopVerdict::Failed(e),
                _ => LoopVerdict::Running,
            }
        },
    decreases script.len(),
{
    if script.len() == 0 {
        assert(script.push(x)[0] == x);
        assert(script.push(x).subrange(1, 1) =~= Seq::<LoopStep>::empty());
        assert(spec_buffer_after(start, script) == start);
        assert(spec_run_verdict(script) is Running);
        if !x.stop_seen {
            match x.outcome {
                ReadOutcome::Line(t) => {
                    assert(spec_buffer_after(start + t@, Seq::<LoopStep>::empty()) == start + t@);
                    assert(spec_run_verdict(Seq::<LoopStep>::empty()) is Running);
                },
                ReadOutcome::Timeout => {
                    assert(spec_buffer_after(start, Seq::<LoopStep>::empty()) == start);
                    assert(spec_run_verdict(Seq::<LoopStep>::empty()) is Running);
                },
                ReadOutcome::Failed(_) => {
                },
            }
        }
    } else {
        assert(script.push(x)[0] == script[0]);
        assert(!spec_halted(script[0]));
        let rest = script.subrange(1, script.len() as int);
        assert(forall|j: int| 0 <= j < rest.len() ==> !spec_halted(#[trigger] rest[j]));
        assert(script.push(x).subrange(1, script.len() as int + 1) =~= rest.push(x));
        match script[0].outcome {
            ReadOutcome::Line(t) => {
                lemma_steps_push(start + t@, rest, x);
                assert(spec_buffer_after(start, script.push(x)) == spec_buffer_after(
                    start + t@,
                    rest.push(x),
                ));
                assert(spec_buffer_after(start, script) == spec_buffer_after(start + t@, rest));
                assert(spec_run_verdict(script.push(x)) == spec_run_verdict(rest.push(x)));
            },
            ReadOutcome::Timeout => {
                lemma_steps_push(start, rest, x);
                assert(spec_buffer_after(start, script.push(x)) == spec_buffer_after(
                    start,
                    rest.push(x),
                ));
                assert(spec_buffer_after(start, script) == spec_buffer_after(start, rest));
                assert(spec_run_verdict(script.push(x)) == spec_run_verdict(rest.push(x)));
            },
            ReadOutcome::Failed(_) => {
                assert(false);
            },
        }
    }
}

/// The line one step delivered; a timeout delivers nothing.
pub open spec fn spec_line_of(step: LoopStep) -> Seq<char> {
    match step.outcome {
        ReadOutcome::Line(t) => t@,
        _ => Seq::empty(),
    }
}

/// Ordering law of the read loop. A run that never halts — no stop signal,
/// no failed read — leaves the starting text followed by the concatenation
/// of the received lines, in arrival order: nothing is lost, duplicated or
/// reordered on the way into the buffer.
pub proof fn lemma_buffer_collects_lines(start: Seq<char>, script: Seq<LoopStep>)
    requires
        forall|j: int| 0 <= j < script.len() ==> !spec_halted(#[trigger] script[j]),
    ensures
        spec_buffer_after(start, script) == start + concat_all(
            script.map_values(|s: LoopStep| spec_line_of(s)),
        ),
    decreases script.len(),
{
    let lines = script.map_values(|s: LoopStep| spec_line_of(s));
    if script.len() == 0 {
        assert(start + concat_all(lines) =~= start);
    } else {
        assert(!spec_halted(script[0]));
        let rest = script.subrange(1, script.len() as int);
        let rest_lines = rest.map_values(|s: LoopStep| spec_line_of(s));
        assert(lines.subrange(1, lines.len() as int) =~= rest_lines);
        assert(lines[0] == spec_line_of(script[0]));
        match script[0].outcome {
            ReadOutcome::Line(t) => {
                lemma_buffer_collects_lines(start + t@, rest);
                assert((start + t@) + concat_all(rest_lines) =~= start + (t@ + concat_all(
                    rest_lines,
                )));
            },
            ReadOutcome::Timeout => {
                lemma_buffer_collects_lines(start, rest);
                assert(start + (Seq::<char>::empty() + concat_all(rest_lines)) =~= start
                    + concat_all(rest_lines));
            },
            ReadOutcome::Failed(_) => {
                assert(false);
            },
        }
    }
}

/// Cancellation law of the read loop. When the loop halts at step `k` —
/// the stop signal was seen there, or the read failed there — no step at or
/// after `k` changes the buffer: the whole run leaves exactly what the first
/// `k` steps left. After a stop signal, in particular, no further appends
/// occur past the next checked iteration boundary.
pub proof fn lemma_no_appends_after_halt(start: Seq<char>, script: Seq<LoopStep>, k: int)
    requires
        0 <= k < script.len(),
        spec_halted(script[k]),
        forall|j: int| 0 <= j < k ==> !spec_halted(#[trigger] script[j]),
    ensures
        spec_buffer_after(start, script) == spec_buffer_after(start, script.subrange(0, k)),
        script[k].stop_seen ==> spec_run_verdict(script) is Stopped,
        !script[k].stop_seen ==> match script[k].outcome {
            ReadOutcome::Failed(e) => spec_run_verdict(script) == LoopVerdict::Failed(e),
            _ => false,
        },
    decreases k,
{
    if k == 0 {
        assert(script.subrange(0, 0) =~= Seq::<LoopStep>::empty());
    } else {
        assert(!spec_halted(script[0]));
        let rest = script.subrange(1, script.len() as int);
        assert(rest[k - 1] == script[k]);
        assert(forall|j: int| 0 <= j < k - 1 ==> !spec_halted(#[trigger] rest[j]));
        let head = script.subrange(0, k);
        assert(head[0] == script[0]);
        assert(head.subrange(1, k) =~= rest.subrange(0, k - 1));
        match script[0].outcome {
            ReadOutcome::Line(t) => lemma_no_appends_after_halt(start + t@, rest, k - 1),
            _ => lemma_no_appends_after_halt(start, rest, k - 1),
        }
    }
}

/// Runs the loop over a whole sequence of observed iterations, halting at
/// the first stop signal or failed read. The buffer afterwards holds
/// exactly what `spec_buffer_after` says: the starting text followed by the
/// received lines, in order, up to the halt.
pub fn run_read_loop(buf: &mut SharedBuffer, script: &Vec<LoopStep>) -> (v: LoopVerdict)
    ensures
        final(buf)@ == spec_buffer_after(old(buf)@, script@),
        v == spec_run_verdict(script@),
{
    let n = script.len();
    let mut i: usize = 0;
    let mut running = true;
    let mut verdict = LoopVerdict::Running;
    proof {
        assert(script@.subrange(0, 0) =~= Seq::<LoopStep>::empty());
    }
    while running && i < n
        invariant
            i <= n,
            n == script@.len(),
            running ==> {
                &&& buf@ == spec_buffer_after(old(buf)@, script@.subrange(0, i as int))
                &&& verdict is Running
                &&& forall|j: int| 0 <= j < i ==> !spec_halted(#[trigger] script@[j])
            },
            !running ==> {
                &&& buf@ == spec_buffer_after(old(buf)@, script@)
                &&& verdict == spec_run_verdict(script@)
            },
        decreases n - i + (if running {
            1int
        } else {
            0int
        }),
    {
        let step = &script[i];
        proof {
            assert(script@.subrange(0, i as int).push(script@[i as int]) =~= script@.subrange(
                0,
                i + 1,
            ));
        }
        if step.stop_seen {
            proof {
                lemma_no_appends_after_halt(old(buf)@, script@, i as int);
            }
            running = false;
            verdict = LoopVerdict::Stopped;
        } else {
            match &step.outcome {
                ReadOutcome::Line(t) => {
                    buf.append(t.as_str());
                    proof {
                        lemma_steps_push(
                            old(buf)@,
                            script@.subrange(0, i as int),
                            script@[i as int],
                        );
                    }
                    i += 1;
                },
                ReadOutcome::Timeout => {
                    proof {
                        lemma_steps_push(
                            old(buf)@,
                            script@.subrange(0, i as int),
                            script@[i as int],
                        );
                    }
                    i += 1;
                },
                ReadOutcome::Failed(e) => {
                    proof {
                        lemma_no_appends_after_halt(old(buf)@, script@, i as int);
                    }
                    running = false;
                    verdict = LoopVerdict::Failed(e.clone());
                },
            }
        }
    }
    proof {
        if running {
            assert(script@.subrange(0, n as int) =~= script@);
            lemma_all_running(script@);
        }
    }
    verdict
}

} // verus!
