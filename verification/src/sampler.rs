//! The client's side of a session: the greeting and the window sampler.
//!
//! The client first sends its preference for the transfer unit size and
//! does not wait for an answer. Then follows a fixed number of windows of
//! nominally one second. In each
//! window the client reads transfer units of the negotiated size, one after
//! the other, and counts them; the window closes once a read returns after
//! the second is over, or early once more bytes than a configured maximum
//! have arrived. The sampler decides; its caller owns the stream, the clock
//! and the output, performs each action that the sampler asks for, and
//! hands back what happened.

use vstd::prelude::*;
use crate::config::Configuration;

verus! {

/// The nominal length of a window in nanoseconds. It is fixed; the
/// duration of a session is a number of such windows.
pub const WINDOW_NANOS: u64 = 1_000_000_000;

/// What was measured in one window.
#[derive(Clone, Copy, Debug, PartialEq, Eq, Structural)]
pub struct IntervalSample {
    /// The number of the window, counted from one.
    pub index: usize,
    /// The number of transfer units read completely in the window.
    pub transfer_count: u64,
    /// The time from the start of the window to the return of its last
    /// read, in nanoseconds.
    pub elapsed_nanos: u64,
    /// Whether the window ended because the byte maximum was exceeded and
    /// not because its second was over. The rate of such a window is an
    /// approximation: it is taken over `elapsed_nanos`, not over a second.
    pub cut_short: bool,
}

/// The sums over a session.
#[derive(Clone, Copy, Debug, PartialEq, Eq, Structural)]
pub struct SessionTotals {
    /// The number of transfer units read in all reported windows.
    pub total_transfers: u64,
    /// The number of windows reported.
    pub total_intervals: usize,
}

/// Why a session ended before its last window.
#[derive(Clone, Copy, Debug, PartialEq, Eq, Structural)]
pub enum Failure {
    /// The preference could not be sent.
    HandshakeFailed,
    /// A read did not deliver a whole transfer unit: the stream was closed
    /// or failed.
    StreamError,
    /// A counter of transfers left the range of its type.
    CounterOverflow,
}

/// Where the sampler stands.
#[derive(Clone, Copy, Debug, PartialEq, Eq, Structural)]
pub enum Phase {
    /// The preference has not been sent yet.
    Greeting,
    /// The next window has not started.
    Opening,
    /// A window is open and a read is wanted.
    Reading,
    /// A window has closed and its sample waits to be reported.
    Closing {
        /// The time the window took, in nanoseconds.
        elapsed_nanos: u64,
        /// Whether the byte maximum closed the window.
        cut_short: bool,
    },
    /// All windows have been reported.
    Finished,
    /// The session was given up.
    Failed(Failure),
}

/// What the caller reports back to the sampler.
#[derive(Clone, Copy, Debug, PartialEq, Eq, Structural)]
pub enum Event {
    /// The preference has been written to the stream.
    PreferenceSent,
    /// Writing the preference failed.
    SendFailed,
    /// The start instant of a new window has been recorded.
    WindowOpened,
    /// A read of one whole transfer unit has returned, `elapsed_nanos`
    /// after the start of the window.
    ReadCompleted {
        /// Nanoseconds since the start of the window.
        elapsed_nanos: u64,
    },
    /// A read has failed or the stream ended inside a transfer unit.
    ReadFailed,
    /// The sample of the closed window has been printed.
    Reported,
}

/// What the sampler asks its caller to do next.
#[derive(Clone, Copy, Debug, PartialEq, Eq, Structural)]
pub enum Action {
    /// Write the preference for this transfer unit size to the stream, and
    /// wait for no answer.
    SendPreference {
        /// The transfer unit size to ask for.
        buffer_size: usize,
    },
    /// Record the start instant of a new window.
    OpenWindow,
    /// Read exactly `len` bytes from the stream.
    Read {
        /// The negotiated transfer unit size.
        len: usize,
    },
    /// Print the line for this window.
    Report(IntervalSample),
    /// Print the average over the session; it is over.
    Finish(SessionTotals),
    /// Give the session up.
    Abort(Failure),
}

/// The sampler's state as plain data.
pub struct SamplerState {
    /// The negotiated transfer unit size in bytes.
    pub buffer_size: usize,
    /// The number of windows of the session.
    pub duration: usize,
    /// The number of bytes after which a window is cut short, if any.
    pub max_bytes: Option<usize>,
    /// The phase.
    pub phase: Phase,
    /// The number of windows reported so far.
    pub windows_done: usize,
    /// The number of transfer units read in the current window.
    pub count: u64,
    /// The number of transfer units read in the reported windows.
    pub total: u64,
}

/// The state of a session that has just connected.
pub open spec fn spec_initial(buffer_size: usize, duration: usize, max_bytes: Option<usize>)
    -> SamplerState {
    SamplerState {
        buffer_size,
        duration,
        max_bytes,
        phase: Phase::Greeting,
        windows_done: 0,
        count: 0,
        total: 0,
    }
}

/// Whether `count` transfer units of `buffer_size` bytes are more than the
/// byte maximum, where there is one.
pub open spec fn spec_over_maximum(max_bytes: Option<usize>, count: int, buffer_size: int)
    -> bool {
    match max_bytes {
        Some(m) => m < count * buffer_size,
        None => false,
    }
}

/// What holds of every state that a session reaches.
pub open spec fn spec_wf(s: SamplerState) -> bool {
    &&& s.buffer_size > 0
    &&& s.duration > 0
    &&& s.windows_done <= s.duration
    &&& match s.phase {
        Phase::Greeting => s.windows_done == 0 && s.count == 0 && s.total == 0,
        Phase::Opening => s.windows_done < s.duration && s.count == 0,
        Phase::Reading => {
            &&& s.windows_done < s.duration
            &&& !spec_over_maximum(s.max_bytes, s.count as int, s.buffer_size as int)
        },
        Phase::Closing { elapsed_nanos, cut_short } => {
            &&& s.windows_done < s.duration
            &&& spec_sample_wf(spec_closing_sample(s), s.buffer_size, s.max_bytes)
        },
        Phase::Finished => s.windows_done == s.duration,
        Phase::Failed(_) => true,
    }
}

/// What holds of a reported sample: it counts at least one transfer; its
/// bytes were within the byte maximum before its last transfer; it was cut
/// short exactly if they exceed the maximum with it; and unless it was cut
/// short it lasted at least the nominal window.
pub open spec fn spec_sample_wf(
    sample: IntervalSample,
    buffer_size: usize,
    max_bytes: Option<usize>,
) -> bool {
    &&& sample.transfer_count >= 1
    &&& !spec_over_maximum(max_bytes, sample.transfer_count - 1, buffer_size as int)
    &&& sample.cut_short == spec_over_maximum(
        max_bytes,
        sample.transfer_count as int,
        buffer_size as int,
    )
    &&& !sample.cut_short ==> sample.elapsed_nanos >= WINDOW_NANOS
}

/// The sample of the window that is closing.
pub open spec fn spec_closing_sample(s: SamplerState) -> IntervalSample
    recommends
        s.phase is Closing,
{
    IntervalSample {
        index: (s.windows_done + 1) as usize,
        transfer_count: s.count,
        elapsed_nanos: s.phase->elapsed_nanos,
        cut_short: s.phase->cut_short,
    }
}

/// The action that a state asks for.
pub open spec fn spec_pending(s: SamplerState) -> Action {
    match s.phase {
        Phase::Greeting => Action::SendPreference { buffer_size: s.buffer_size },
        Phase::Opening => Action::OpenWindow,
        Phase::Reading => Action::Read { len: s.buffer_size },
        Phase::Closing { .. } => Action::Report(spec_closing_sample(s)),
        Phase::Finished => Action::Finish(
            SessionTotals { total_transfers: s.total, total_intervals: s.windows_done },
        ),
        Phase::Failed(f) => Action::Abort(f),
    }
}

/// The state after an event. An event that does not answer the pending
/// action changes nothing.
pub open spec fn spec_step(s: SamplerState, e: Event) -> SamplerState {
    match (s.phase, e) {
        (Phase::Greeting, Event::PreferenceSent) => SamplerState { phase: Phase::Opening, ..s },
        (Phase::Greeting, Event::SendFailed) => SamplerState {
            phase: Phase::Failed(Failure::HandshakeFailed),
            ..s
        },
        (Phase::Opening, Event::WindowOpened) => SamplerState { phase: Phase::Reading, ..s },
        (Phase::Reading, Event::ReadCompleted { elapsed_nanos }) => {
            if s.count == u64::MAX {
                SamplerState { phase: Phase::Failed(Failure::CounterOverflow), ..s }
            } else {
                let count = (s.count + 1) as u64;
                if spec_over_maximum(s.max_bytes, count as int, s.buffer_size as int) {
                    SamplerState {
                        phase: Phase::Closing { elapsed_nanos, cut_short: true },
                        count,
                        ..s
                    }
                } else if elapsed_nanos < WINDOW_NANOS {
                    SamplerState { count, ..s }
                } else {
                    SamplerState {
                        phase: Phase::Closing { elapsed_nanos, cut_short: false },
                        count,
                        ..s
                    }
                }
            }
        },
        (Phase::Reading, Event::ReadFailed) => SamplerState {
            phase: Phase::Failed(Failure::StreamError),
            ..s
        },
        (Phase::Closing { .. }, Event::Reported) => {
            if s.total + s.count > u64::MAX {
                SamplerState { phase: Phase::Failed(Failure::CounterOverflow), ..s }
            } else {
                let windows_done = (s.windows_done + 1) as usize;
                SamplerState {
                    phase: if windows_done == s.duration {
                        Phase::Finished
                    } else {
                        Phase::Opening
                    },
                    windows_done,
                    count: 0,
                    total: (s.total + s.count) as u64,
                    ..s
                }
            }
        },
        _ => s,
    }
}

/// The state after a sequence of events, taken in order.
pub open spec fn spec_run(s: SamplerState, events: Seq<Event>) -> SamplerState
    decreases events.len(),
{
    if events.len() == 0 {
        s
    } else {
        spec_step(spec_run(s, events.drop_last()), events.last())
    }
}

/// Whether an event in a state completes the report of a window.
pub open spec fn spec_completes_report(s: SamplerState, e: Event) -> bool {
    s.phase is Closing && e == Event::Reported && s.total + s.count <= u64::MAX
}

/// The samples whose report was completed along a sequence of events, in
/// order.
pub open spec fn spec_reports(s: SamplerState, events: Seq<Event>) -> Seq<IntervalSample>
    decreases events.len(),
{
    if events.len() == 0 {
        Seq::<IntervalSample>::empty()
    } else {
        let before = spec_run(s, events.drop_last());
        let reports = spec_reports(s, events.drop_last());
        if spec_completes_report(before, events.last()) {
            reports.push(spec_closing_sample(before))
        } else {
            reports
        }
    }
}

/// The sum of the transfer counts of a sequence of samples.
pub open spec fn spec_sum_transfers(reports: Seq<IntervalSample>) -> nat
    decreases reports.len(),
{
    if reports.len() == 0 {
        0
    } else {
        spec_sum_transfers(reports.drop_last()) + reports.last().transfer_count as nat
    }
}

/// An event keeps a state well formed and never touches the buffer size,
/// the duration or the byte maximum.
pub proof fn lemma_step_keeps_wf(s: SamplerState, e: Event)
    requires
        spec_wf(s),
    ensures
        spec_wf(spec_step(s, e)),
        spec_step(s, e).buffer_size == s.buffer_size,
        spec_step(s, e).duration == s.duration,
        spec_step(s, e).max_bytes == s.max_bytes,
{
}

/// `Finished` and `Failed` are final: no event leaves them, and the
/// pending action stays the same.
pub proof fn lemma_final_phases_absorb(s: SamplerState, e: Event)
    requires
        s.phase is Finished || s.phase is Failed,
    ensures
        spec_step(s, e) == s,
{
}

/// The accounts of a session. Whatever events arrive, in whatever order:
/// the transfer unit size never changes; the reported samples are numbered
/// 1, 2, 3 and so on, and there are never more of them than the session
/// has windows; the running total is the sum of their transfer counts; and
/// once the sampler has finished, there is exactly one report for each
/// window and the totals handed out for the average are those sums.
pub proof fn lemma_session_accounts(
    buffer_size: usize,
    duration: usize,
    max_bytes: Option<usize>,
    events: Seq<Event>,
)
    requires
        buffer_size > 0,
        duration > 0,
    ensures
        ({
            let s0 = spec_initial(buffer_size, duration, max_bytes);
            let s = spec_run(s0, events);
            let reports = spec_reports(s0, events);
            &&& spec_wf(s)
            &&& s.buffer_size == buffer_size
            &&& s.duration == duration
            &&& s.max_bytes == max_bytes
            &&& reports.len() == s.windows_done
            &&& reports.len() <= duration
            &&& spec_sum_transfers(reports) == s.total
            &&& forall|i: int|
                0 <= i < reports.len() ==> (#[trigger] reports[i]).index == i + 1
                    && spec_sample_wf(reports[i], buffer_size, max_bytes)
            &&& s.phase is Finished ==> reports.len() == duration && spec_pending(s)
                == Action::Finish(
                SessionTotals {
                    total_transfers: spec_sum_transfers(reports) as u64,
                    total_intervals: duration,
                },
            )
        }),
    decreases events.len(),
{
    let s0 = spec_initial(buffer_size, duration, max_bytes);
    if events.len() == 0 {
    } else {
        let earlier = events.drop_last();
        lemma_session_accounts(buffer_size, duration, max_bytes, earlier);
        let before = spec_run(s0, earlier);
        let reports_before = spec_reports(s0, earlier);
        lemma_step_keeps_wf(before, events.last());
        let reports = spec_reports(s0, events);
        if spec_completes_report(before, events.last()) {
            assert(reports.drop_last() =~= reports_before);
            assert forall|i: int| 0 <= i < reports.len() implies (#[trigger] reports[i]).index
                == i + 1 && spec_sample_wf(reports[i], buffer_size, max_bytes) by {
                if i < reports_before.len() {
                    assert(reports[i] == reports_before[i]);
                }
            }
        }
    }
}

/// The window sampler of one session.
pub struct Sampler {
    state: SamplerState,
}

impl View for Sampler {
    type V = SamplerState;

    closed spec fn view(&self) -> SamplerState {
        self.state
    }
}

impl Sampler {
    #[verifier::type_invariant]
    spec fn valid(&self) -> bool {
        spec_wf(self.state)
    }

    /// The sampler of a session that has just connected, for the buffer
    /// size, the number of windows and the byte maximum of `config`.
    pub fn new(config: &Configuration) -> (r: Sampler)
        ensures
            r@ == spec_initial(
                config.spec_buffer_size(),
                config.spec_duration_seconds(),
                config.spec_max_bytes_per_interval(),
            ),
            spec_wf(r@),
    {
        Sampler {
            state: SamplerState {
                buffer_size: config.buffer_size(),
                duration: config.duration_seconds(),
                max_bytes: config.max_bytes_per_interval(),
                phase: Phase::Greeting,
                windows_done: 0,
                count: 0,
                total: 0,
            },
        }
    }

    /// The action that the sampler waits for.
    pub fn pending(&self) -> (a: Action)
        ensures
            a == spec_pending(self@),
            spec_wf(self@),
    {
        proof {
            use_type_invariant(self);
        }
        match self.state.phase {
            Phase::Greeting => Action::SendPreference { buffer_size: self.state.buffer_size },
            Phase::Opening => Action::OpenWindow,
            Phase::Reading => Action::Read { len: self.state.buffer_size },
            Phase::Closing { elapsed_nanos, cut_short } => Action::Report(
                IntervalSample {
                    index: self.state.windows_done + 1,
                    transfer_count: self.state.count,
                    elapsed_nanos,
                    cut_short,
                },
            ),
            Phase::Finished => Action::Finish(
                SessionTotals {
                    total_transfers: self.state.total,
                    total_intervals: self.state.windows_done,
                },
            ),
            Phase::Failed(f) => Action::Abort(f),
        }
    }

    /// Takes an event and says what to do next.
    pub fn step(&mut self, event: Event) -> (a: Action)
        ensures
            final(self)@ == spec_step(old(self)@, event),
            a == spec_pending(final(self)@),
            spec_wf(final(self)@),
    {
        proof {
            use_type_invariant(&*self);
        }
        match (self.state.phase, event) {
            (Phase::Greeting, Event::PreferenceSent) => {
                self.state.phase = Phase::Opening;
            },
            (Phase::Greeting, Event::SendFailed) => {
                self.state.phase = Phase::Failed(Failure::HandshakeFailed);
            },
            (Phase::Opening, Event::WindowOpened) => {
                self.state.phase = Phase::Reading;
            },
            (Phase::Reading, Event::ReadCompleted { elapsed_nanos }) => {
                if self.state.count == u64::MAX {
                    self.state.phase = Phase::Failed(Failure::CounterOverflow);
                } else {
                    let count: u64 = self.state.count + 1;
                    let over = match self.state.max_bytes {
                        Some(m) => {
                            assert(count * self.state.buffer_size <= u128::MAX)
                                by (nonlinear_arith)
                                requires
                                    count <= u64::MAX,
                                    self.state.buffer_size <= u64::MAX,
                            ;
                            (m as u128) < (count as u128) * (self.state.buffer_size as u128)
                        },
                        None => false,
                    };
                    if over {
                        self.state = SamplerState {
                            buffer_size: self.state.buffer_size,
                            duration: self.state.duration,
                            max_bytes: self.state.max_bytes,
                            phase: Phase::Closing { elapsed_nanos, cut_short: true },
                            windows_done: self.state.windows_done,
                            count,
                            total: self.state.total,
                        };
                    } else if elapsed_nanos < WINDOW_NANOS {
                        self.state = SamplerState {
                            buffer_size: self.state.buffer_size,
                            duration: self.state.duration,
                            max_bytes: self.state.max_bytes,
                            phase: Phase::Reading,
                            windows_done: self.state.windows_done,
                            count,
                            total: self.state.total,
                        };
                    } else {
                        self.state = SamplerState {
                            buffer_size: self.state.buffer_size,
                            duration: self.state.duration,
                            max_bytes: self.state.max_bytes,
                            phase: Phase::Closing { elapsed_nanos, cut_short: false },
                            windows_done: self.state.windows_done,
                            count,
                            total: self.state.total,
                        };
                    }
                }
            },
            (Phase::Reading, Event::ReadFailed) => {
                self.state.phase = Phase::Failed(Failure::StreamError);
            },
            (Phase::Closing { .. }, Event::Reported) => {
                match self.state.total.checked_add(self.state.count) {
                    None => {
                        self.state.phase = Phase::Failed(Failure::CounterOverflow);
                    },
                    Some(total) => {
                        let windows_done: usize = self.state.windows_done + 1;
                        self.state = SamplerState {
                            buffer_size: self.state.buffer_size,
                            duration: self.state.duration,
                            max_bytes: self.state.max_bytes,
                            phase: if windows_done == self.state.duration {
                                Phase::Finished
                            } else {
                                Phase::Opening
                            },
                            windows_done,
                            count: 0,
                            total,
                        };
                    },
                }
            },
            _ => {},
        }
        self.pending()
    }
}

} // verus!
