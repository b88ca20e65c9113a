//! A small profiler: a trace records labelled steps, each the time elapsed
//! since the previous checkpoint, and renders them as JSON.

use vstd::prelude::*;
use vstd::string::*;

use std::time::Instant;

verus! {

#[verifier::external_type_specification]
#[verifier::external_body]
pub struct ExInstant(std::time::Instant);

/// Calls `Instant::now`. The reading depends on the clock, so nothing is
/// stated of it.
#[verifier::external_body]
fn instant_now() -> Instant {
    Instant::now()
}

/// Calls `Instant::duration_since` and converts the duration to whole
/// nanoseconds. The reading depends on the clock, so nothing is stated of it.
#[verifier::external_body]
fn nanos_between(earlier: &Instant, later: &Instant) -> u128 {
    later.duration_since(*earlier).as_nanos()
}

/// Calls `String::clear`, which empties the string.
#[verifier::external_body]
fn clear_string(s: &mut String)
    ensures
        final(s)@ == Seq::<char>::empty(),
{
    s.clear()
}

/// Calls `String::push`, which appends one character.
#[verifier::external_body]
fn push_char(s: &mut String, c: char)
    ensures
        final(s)@ == old(s)@.push(c),
{
    s.push(c)
}

/// The sum of the durations of a list of steps, in nanoseconds.
pub open spec fn sum_nanos(steps: Seq<(&'static str, u128)>) -> nat
    decreases steps.len(),
{
    if steps.len() == 0 {
        0
    } else {
        sum_nanos(steps.drop_last()) + steps.last().1 as nat
    }
}

/// Decimal digit `d` as a character.
pub open spec fn digit_char(d: nat) -> char {
    if d == 0 { '0' }
    else if d == 1 { '1' }
    else if d == 2 { '2' }
    else if d == 3 { '3' }
    else if d == 4 { '4' }
    else if d == 5 { '5' }
    else if d == 6 { '6' }
    else if d == 7 { '7' }
    else if d == 8 { '8' }
    else { '9' }
}

/// The decimal representation of `n`, without leading zeros.
pub open spec fn decimal(n: nat) -> Seq<char>
    decreases n,
{
    if n < 10 {
        seq![digit_char(n)]
    } else {
        decimal(n / 10).push(digit_char(n % 10))
    }
}

/// One step as a JSON object, with its duration already rendered in milliseconds.
pub open spec fn step_json(label: Seq<char>, ms: Seq<char>) -> Seq<char> {
    "{\"label\":\""@ + label + "\",\"duration_ms\":"@ + ms + "}"@
}

/// The first `n` steps as JSON objects separated by commas.
pub open spec fn steps_json(labels: Seq<Seq<char>>, ms: Seq<Seq<char>>, n: nat) -> Seq<char>
    decreases n,
{
    if n == 0 {
        Seq::empty()
    } else if n == 1 {
        step_json(labels[0], ms[0])
    } else {
        steps_json(labels, ms, (n - 1) as nat) + ","@ + step_json(labels[n - 1], ms[n - 1])
    }
}

/// The whole trace as JSON, with every duration already rendered in milliseconds.
pub open spec fn trace_json(
    labels: Seq<Seq<char>>,
    ms: Seq<Seq<char>>,
    total_ms: Seq<char>,
    dropped: nat,
    delay: nat,
) -> Seq<char> {
    "{\"steps\":["@ + steps_json(labels, ms, labels.len()) + "],\"total_ms\":"@ + total_ms + ",\"dropped\":"@
        + decimal(dropped) + ",\"delay_ms\":"@ + decimal(delay) + "}"@
}

/// The labels of a list of steps.
pub open spec fn step_labels(steps: Seq<(&'static str, u128)>) -> Seq<Seq<char>> {
    Seq::new(steps.len(), |i: int| steps[i].0@)
}

fn digit(d: u64) -> (c: char)
    requires
        d < 10,
    ensures
        c == digit_char(d as nat),
{
    match d {
        0 => '0',
        1 => '1',
        2 => '2',
        3 => '3',
        4 => '4',
        5 => '5',
        6 => '6',
        7 => '7',
        8 => '8',
        _ => '9',
    }
}

/// Appends the decimal representation of `n`.
fn push_decimal(s: &mut String, n: u64)
    ensures
        final(s)@ == old(s)@ + decimal(n as nat),
    decreases n,
{
    if n >= 10 {
        push_decimal(s, n / 10);
    }
    push_char(s, digit(n % 10));
    proof {
        if n >= 10 {
            assert(decimal(n as nat) == decimal((n / 10) as nat).push(digit_char((n % 10) as nat)));
        }
        assert(final(s)@ =~= old(s)@ + decimal(n as nat));
    }
}

/// When a trace started, and the steps recorded since: the steps always add
/// up to the time from the start to the last checkpoint.
struct Timeline {
    start: Instant,
    last_elapsed: u128,
    steps: Vec<(&'static str, u128)>,
}

impl Timeline {
    #[verifier::type_invariant]
    spec fn steps_add_up(self) -> bool {
        sum_nanos(self.steps@) == self.last_elapsed
    }
}

/// A simple utility for profiling code execution.
pub struct Trace {
    timeline: Timeline,
    pub dropped_frames: u32,
    pub adaptive_delay_ms: u64,
}

impl Trace {
    /// The recorded steps, in order: a label and the nanoseconds the step took.
    pub closed spec fn step_seq(&self) -> Seq<(&'static str, u128)> {
        self.timeline.steps@
    }

    /// Nanoseconds from the start to the last checkpoint.
    pub closed spec fn total_nanos(&self) -> nat {
        self.timeline.last_elapsed as nat
    }

    /// The count of dropped frames carried by the trace.
    pub closed spec fn dropped(&self) -> u32 {
        self.dropped_frames
    }

    /// The adaptive delay, in milliseconds, carried by the trace.
    pub closed spec fn delay_ms(&self) -> u64 {
        self.adaptive_delay_ms
    }

    /// The steps add up to the time from the start to the last checkpoint.
    pub closed spec fn wf(&self) -> bool {
        sum_nanos(self.timeline.steps@) == self.timeline.last_elapsed
    }

    /// Starts a trace now, with no steps.
    pub fn start() -> (t: Self)
        ensures
            t.wf(),
            t.step_seq() == Seq::<(&'static str, u128)>::empty(),
            t.total_nanos() == 0,
            t.dropped() == 0,
            t.delay_ms() == 0,
    {
        Trace {
            timeline: Timeline { start: instant_now(), last_elapsed: 0, steps: Vec::with_capacity(8) },
            dropped_frames: 0,
            adaptive_delay_ms: 0,
        }
    }

    /// Records a step labelled `label` for a clock reading taken
    /// `elapsed_since_start` nanoseconds after the start: the step is the
    /// time since the previous checkpoint, and the reading becomes the total.
    /// A reading earlier than the total so far (which a monotonic clock rules
    /// out) records a step of zero and leaves the total as it was.
    pub fn record_step(&mut self, label: &'static str, elapsed_since_start: u128)
        ensures
            final(self).total_nanos() == if elapsed_since_start >= old(self).total_nanos() {
                elapsed_since_start as nat
            } else {
                old(self).total_nanos()
            },
            final(self).step_seq() == old(self).step_seq().push(
                (label, (final(self).total_nanos() - old(self).total_nanos()) as u128),
            ),
            final(self).wf(),
            final(self).dropped() == old(self).dropped(),
            final(self).delay_ms() == old(self).delay_ms(),
    {
        proof {
            use_type_invariant(&self.timeline);
        }
        let mut timeline = Timeline { start: self.timeline.start, last_elapsed: 0, steps: Vec::new() };
        std::mem::swap(&mut timeline, &mut self.timeline);
        proof {
            use_type_invariant(&timeline);
        }
        let Timeline { start, last_elapsed, mut steps } = timeline;
        let total = if elapsed_since_start >= last_elapsed { elapsed_since_start } else { last_elapsed };
        let step_duration = total - last_elapsed;
        steps.push((label, step_duration));
        proof {
            assert(steps@.drop_last() =~= old(self).timeline.steps@);
        }
        self.timeline = Timeline { start, last_elapsed: total, steps };
    }

    /// Records a step labelled `label`: the time since the previous
    /// checkpoint (or since the start), read from the clock now.
    pub fn checkpoint(&mut self, label: &'static str)
        ensures
            final(self).step_seq().len() == old(self).step_seq().len() + 1,
            final(self).step_seq().drop_last() == old(self).step_seq(),
            final(self).step_seq().last().0 == label,
            final(self).total_nanos() >= old(self).total_nanos(),
            final(self).step_seq().last().1 == final(self).total_nanos() - old(self).total_nanos(),
            final(self).wf(),
            final(self).dropped() == old(self).dropped(),
            final(self).delay_ms() == old(self).delay_ms(),
    {
        let now = instant_now();
        let reading = nanos_between(&self.timeline.start, &now);
        self.record_step(label, reading);
        proof {
            assert(final(self).step_seq().drop_last() =~= old(self).step_seq());
        }
    }

    /// Sets the count of dropped frames carried by the trace.
    pub fn set_dropped_frames(&mut self, n: u32)
        ensures
            final(self).dropped() == n,
            final(self).delay_ms() == old(self).delay_ms(),
            final(self).step_seq() == old(self).step_seq(),
            final(self).total_nanos() == old(self).total_nanos(),
    {
        self.dropped_frames = n;
    }

    /// Sets the adaptive delay, in milliseconds, carried by the trace.
    pub fn set_adaptive_delay_ms(&mut self, ms: u64)
        ensures
            final(self).delay_ms() == ms,
            final(self).dropped() == old(self).dropped(),
            final(self).step_seq() == old(self).step_seq(),
            final(self).total_nanos() == old(self).total_nanos(),
    {
        self.adaptive_delay_ms = ms;
    }

    /// The recorded steps, in order: each a label and the nanoseconds it took.
    pub fn steps(&self) -> (s: &[(&'static str, u128)])
        ensures
            s@ == self.step_seq(),
    {
        self.timeline.steps.as_slice()
    }

    /// Nanoseconds from the start to the last checkpoint: the sum of the
    /// durations of the recorded steps.
    pub fn total_elapsed(&self) -> (n: u128)
        ensures
            n == self.total_nanos(),
            n == sum_nanos(self.step_seq()),
            self.wf(),
    {
        proof {
            use_type_invariant(&self.timeline);
        }
        self.timeline.last_elapsed
    }

    /// Replaces the contents of `json` with the trace as JSON:
    /// `{"steps":[{"label":..,"duration_ms":..},..],"total_ms":..,"dropped":..,"delay_ms":..}`.
    /// `step_ms[i]` is the duration of step `i` and `total_ms` the total,
    /// each already rendered in milliseconds.
    pub fn write_json(&self, json: &mut String, step_ms: &Vec<String>, total_ms: &str)
        requires
            step_ms@.len() == self.step_seq().len(),
        ensures
            final(json)@ == trace_json(
                step_labels(self.step_seq()),
                step_ms@.map_values(|m: String| m@),
                total_ms@,
                self.dropped() as nat,
                self.delay_ms() as nat,
            ),
    {
        let ghost labels = step_labels(self.step_seq());
        let ghost ms = step_ms@.map_values(|m: String| m@);
        clear_string(json);
        json.append("{\"steps\":[");
        let n = self.timeline.steps.len();
        let mut i: usize = 0;
        while i < n
            invariant
                n == self.timeline.steps@.len(),
                step_ms@.len() == n,
                labels == step_labels(self.timeline.steps@),
                ms == step_ms@.map_values(|m: String| m@),
                i <= n,
                json@ == "{\"steps\":["@ + steps_json(labels, ms, i as nat),
            decreases n - i,
        {
            let ghost before = json@;
            if i > 0 {
                json.append(",");
            }
            let (label, _) = self.timeline.steps[i];
            json.append("{\"label\":\"");
            json.append(label);
            json.append("\",\"duration_ms\":");
            json.append(step_ms[i].as_str());
            json.append("}");
            proof {
                assert(labels[i as int] == label@);
                assert(ms[i as int] == step_ms@[i as int]@);
                if i > 0 {
                    assert(json@ =~= "{\"steps\":["@ + (steps_json(labels, ms, i as nat) + ","@ + step_json(
                        labels[i as int],
                        ms[i as int],
                    )));
                } else {
                    assert(json@ =~= "{\"steps\":["@ + step_json(labels[0], ms[0]));
                }
            }
            i = i + 1;
        }
        json.append("],\"total_ms\":");
        json.append(total_ms);
        json.append(",\"dropped\":");
        push_decimal(json, self.dropped_frames as u64);
        json.append(",\"delay_ms\":");
        push_decimal(json, self.adaptive_delay_ms);
        json.append("}");
        proof {
            assert(labels.len() == n);
            assert(json@ =~= trace_json(
                labels,
                ms,
                total_ms@,
                self.dropped_frames as nat,
                self.adaptive_delay_ms as nat,
            ));
        }
    }
}

/// The steps of a well-formed trace add up to its total elapsed time.
pub proof fn lemma_steps_sum_to_total(t: &Trace)
    requires
        t.wf(),
    ensures
        sum_nanos(t.step_seq()) == t.total_nanos(),
{
}

/// Steps are separated by exactly one comma: for every n >= 1, the JSON of
/// the first n + 1 steps is the JSON of the first n, a comma, and the object
/// of step n; the first step alone has no comma.
pub proof fn lemma_steps_json_comma_separated(labels: Seq<Seq<char>>, ms: Seq<Seq<char>>, n: nat)
    requires
        n >= 1,
    ensures
        steps_json(labels, ms, n + 1) == steps_json(labels, ms, n) + ","@ + (("{\"label\":\""@ + labels[n as int]
            + "\",\"duration_ms\":"@ + ms[n as int]) + "}"@),
        steps_json(labels, ms, 1) == ("{\"label\":\""@ + labels[0] + "\",\"duration_ms\":"@ + ms[0]) + "}"@,
{
}

} // verus!
