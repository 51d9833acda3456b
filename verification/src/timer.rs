//! A scoped timer that reports its elapsed time exactly once.

use vstd::prelude::*;
use vstd::string::*;
use std::io::Write;
use std::time::Duration;
use std::time::Instant;
use crate::duration::decompose;
use crate::duration::render_spec;
use crate::duration::PrettyDuration;

verus! {

#[verifier::external_type_specification]
#[verifier::external_body]
pub struct ExInstant(Instant);

/// Relies on std::time::Instant::now: a reading of the monotonic clock.
pub assume_specification[ Instant::now ]() -> Instant;

/// Relies on std::time::Instant::elapsed: the time that has passed since this
/// instant was taken, which depends on the clock and so on nothing that a
/// contract could pin down.
pub assume_specification[ Instant::elapsed ](i: &Instant) -> Duration;

/// The whole seconds of a duration. The duration is opaque, so the value
/// gets a name rather than a definition; it depends on the duration alone.
pub uninterp spec fn secs_of(d: Duration) -> u64;

/// The sub-second part of a duration, in nanoseconds; it depends on the
/// duration alone.
pub uninterp spec fn subsec_of(d: Duration) -> u32;

/// Relies on core::time::Duration::as_secs: the whole seconds of the
/// duration, a function of the duration's value alone.
pub assume_specification[ Duration::as_secs ](d: &Duration) -> (r: u64)
    ensures
        r == secs_of(*d),
;

/// Relies on core::time::Duration::subsec_nanos: the fractional part of the
/// duration in nanoseconds, documented to be below one billion, and a
/// function of the duration's value alone.
pub assume_specification[ Duration::subsec_nanos ](d: &Duration) -> (r: u32)
    ensures
        r < 1_000_000_000,
        r == subsec_of(*d),
;

/// Relies on std::io::Stderr::write_fmt, through writeln, to put one line on
/// the diagnostic output stream.
#[verifier::external_body]
fn emit_line(line: &str) {
    let _ = writeln!(std::io::stderr(), "{}", line);
}

/// The total nanosecond count of a duration given as whole seconds and a
/// sub-second nanosecond remainder, saturating at `u64::MAX` (about 584 years)
/// where the count does not fit.
pub open spec fn total_nanos_spec(secs: nat, subsec: nat) -> nat {
    secs * 1_000_000_000 + subsec
}

pub open spec fn saturated_nanos(secs: nat, subsec: nat) -> nat {
    if total_nanos_spec(secs, subsec) <= u64::MAX {
        total_nanos_spec(secs, subsec)
    } else {
        u64::MAX as nat
    }
}

/// Combines the two parts of a duration into its total nanosecond count,
/// saturating at `u64::MAX`.
pub fn nanos_from_parts(secs: u64, subsec: u32) -> (r: u64)
    requires
        subsec < 1_000_000_000,
    ensures
        r == saturated_nanos(secs as nat, subsec as nat),
{
    match secs.checked_mul(1_000_000_000) {
        Some(base) => match base.checked_add(subsec as u64) {
            Some(total) => total,
            None => u64::MAX,
        },
        None => u64::MAX,
    }
}

/// The duration's total length in nanoseconds, saturating at `u64::MAX`:
/// its whole seconds and sub-second remainder combined by
/// [`nanos_from_parts`].
pub fn nanos_from_duration(d: Duration) -> (r: u64)
    ensures
        r == saturated_nanos(secs_of(d) as nat, subsec_of(d) as nat),
{
    nanos_from_parts(d.as_secs(), d.subsec_nanos())
}

/// The full report line for a label and an elapsed time in nanoseconds:
/// the label, a colon and a space, and the rendered duration.
pub open spec fn report_line_spec(label: Seq<char>, total_nanos: nat) -> Seq<char> {
    label + seq![':', ' '] + render_spec(decompose(total_nanos))
}

/// Builds the report line that a stopped timer emits.
pub fn report_line(label: &str, total_nanos: u64) -> (s: String)
    ensures
        s@ == report_line_spec(label@, total_nanos as nat),
{
    let d = PrettyDuration::new(total_nanos);
    let rendered = d.render();
    let mut s = label.to_owned();
    s.append(": ");
    s.append(rendered.as_str());
    proof {
        reveal_strlit(": ");
        assert(s@ =~= report_line_spec(label@, total_nanos as nat));
    }
    s
}

/// The mathematical content of a [`BlockTimer`]: its label, whether it has
/// been stopped, and how many report lines it has emitted so far.
pub ghost struct TimerModel {
    pub label: Seq<char>,
    pub stopped: bool,
    pub reports: nat,
}

/// What a stop request does to a timer: a running timer becomes stopped and
/// emits one report; a stopped timer is left exactly as it is.
pub open spec fn stop_transition(m: TimerModel) -> TimerModel {
    if m.stopped {
        m
    } else {
        TimerModel { label: m.label, stopped: true, reports: m.reports + 1 }
    }
}

/// `n` stop requests in a row, applied to `m`.
pub open spec fn stops(m: TimerModel, n: nat) -> TimerModel
    decreases n,
{
    if n == 0 {
        m
    } else {
        stop_transition(stops(m, (n - 1) as nat))
    }
}

/// A stop request to an already-stopped timer is a silent no-op: a second
/// stop leaves the timer, and its report count, exactly where the first one
/// left them.
pub proof fn lemma_stop_idempotent(m: TimerModel)
    ensures
        stop_transition(stop_transition(m)) == stop_transition(m),
{
}

/// From a fresh timer, any number of explicit stop requests followed by the
/// stop that scope exit performs emit exactly one report in total.
pub proof fn lemma_single_report(m: TimerModel, n: nat)
    requires
        !m.stopped,
        m.reports == 0,
    ensures
        stop_transition(stops(m, n)).reports == 1,
    decreases n,
{
    if n > 0 {
        lemma_single_report(m, (n - 1) as nat);
    }
}

/// A timer for a lexical block. It captures a label and a monotonic clock
/// reading when it is created; on the first stop request — an explicit call
/// of [`BlockTimer::stop`], or scope exit, whichever comes first — it writes
/// `"<label>: <elapsed>"` to the diagnostic output stream, exactly once.
pub struct BlockTimer {
    label: String,
    start: Instant,
    stopped: bool,
    reports: Ghost<nat>,
}

impl View for BlockTimer {
    type V = TimerModel;

    closed spec fn view(&self) -> TimerModel {
        TimerModel { label: self.label@, stopped: self.stopped, reports: self.reports@ }
    }
}

impl BlockTimer {
    /// The monotonic instant the timer was started at. The instant is opaque,
    /// so contracts can only compare it, not inspect it.
    pub closed spec fn start_instant(&self) -> Instant {
        self.start
    }

    /// Starts a timer: captures the current monotonic instant and the label.
    /// The timer is live, unstopped, and has reported nothing yet.
    pub fn new(label: &str) -> (t: BlockTimer)
        ensures
            t@.label == label@,
            !t@.stopped,
            t@.reports == 0,
    {
        BlockTimer {
            label: label.to_owned(),
            start: Instant::now(),
            stopped: false,
            reports: Ghost(0),
        }
    }

    /// Stops the timer. On the first request the timer becomes stopped and
    /// emits its one report line; on a later request nothing happens at all.
    /// Nothing of the timer changes but the stopped flag and the report
    /// count: the label and the start instant are kept.
    pub fn stop(&mut self)
        ensures
            final(self)@ == stop_transition(old(self)@),
            final(self).start_instant() == old(self).start_instant(),
    {
        if self.stopped {
            return;
        }
        self.stopped = true;
        self.reports = Ghost(self.reports@ + 1);
        let elapsed: u64 = nanos_from_duration(self.start.elapsed());
        let line = report_line(self.label.as_str(), elapsed);
        emit_line(line.as_str());
    }

    /// Whether the timer has been stopped (and so has emitted its report).
    pub fn is_stopped(&self) -> (b: bool)
        ensures
            b == self@.stopped,
    {
        self.stopped
    }

    /// The label the timer was created with.
    pub fn label(&self) -> (l: &str)
        ensures
            l@ == self@.label,
    {
        self.label.as_str()
    }
}

impl Drop for BlockTimer {
    /// Scope exit finalizes the timer: it defers to [`BlockTimer::stop`],
    /// which reports only if the timer is still running. Relies on Rust
    /// running `drop` once, when the owning scope ends.
    #[verifier::external_body]
    fn drop(&mut self)
        opens_invariants none
        no_unwind
    {
        self.stop();
    }
}

} // verus!
