//! The chronometer: a stopwatch that can be started, paused, reset and
//! loaded, and the formats in which its time is shown.

use vstd::prelude::*;
use vstd::string::*;
use std::time::Instant;
use crate::Error;
use crate::run::span::TimeSpan;
use crate::text::{decimal, decimal_two, push_decimal, push_decimal_two};

verus! {

/// A point on the monotonic clock. Nothing is known of it but that it can
/// be kept and asked how long ago it was.
#[verifier::external_type_specification]
#[verifier::external_body]
pub struct ExInstant(std::time::Instant);

/// `Instant::now`: the present point on the clock. Each call may give another
/// point, so nothing is stated of the result.
#[verifier::external_body]
fn clock_now() -> Instant {
    Instant::now()
}

/// `Instant::elapsed`: the time that has gone by since `origin`, in
/// nanoseconds. It depends on when the call is made, so nothing is stated of
/// the result.
#[verifier::external_body]
fn clock_elapsed(origin: &Instant) -> TimeSpan {
    TimeSpan { nanos: origin.elapsed().as_nanos() }
}

#[derive(Copy, Clone, Debug, Eq, PartialEq, Structural)]
pub enum ChronometerState {
    Stopped,
    Running,
    Paused,
}

#[allow(clippy::upper_case_acronyms)]
#[derive(Copy, Clone, Debug, Eq, PartialEq, Structural)]
pub enum ChronometerFormat {
    HHMMSSX,
    HHMMSS,
    HHMM,
    MMSSX,
    MMSS,
}

impl ChronometerFormat {
    /// The name under which the format is offered.
    pub open spec fn spec_text(self) -> Seq<char> {
        match self {
            ChronometerFormat::HHMMSSX => "HH:MM:SS.cs"@,
            ChronometerFormat::HHMMSS => "HH:MM:SS"@,
            ChronometerFormat::HHMM => "HH:MM"@,
            ChronometerFormat::MMSSX => "MM:SS.cs"@,
            ChronometerFormat::MMSS => "MM:SS"@,
        }
    }

    pub fn text(&self) -> (name: &'static str)
        ensures
            name@ == self.spec_text(),
    {
        match self {
            ChronometerFormat::HHMMSSX => "HH:MM:SS.cs",
            ChronometerFormat::HHMMSS => "HH:MM:SS",
            ChronometerFormat::HHMM => "HH:MM",
            ChronometerFormat::MMSSX => "MM:SS.cs",
            ChronometerFormat::MMSS => "MM:SS",
        }
    }
}

/// What can be seen of a chronometer.
pub struct ChronometerView {
    /// The point on the clock from which the running time is measured.
    pub origin: Option<Instant>,
    /// The time folded in so far.
    pub elapsed: Option<TimeSpan>,
    pub state: ChronometerState,
    pub format: ChronometerFormat,
}

impl ChronometerView {
    /// The time folded in so far; none counts as no time.
    pub open spec fn stored(self) -> TimeSpan {
        match self.elapsed {
            Some(span) => span,
            None => TimeSpan { nanos: 0 },
        }
    }

    /// A running chronometer has a point on the clock to measure from.
    pub open spec fn wf(self) -> bool {
        self.state == ChronometerState::Running ==> self.origin is Some
    }

    /// The chronometer as `load_chrono` leaves it.
    pub open spec fn loaded(elapsed: TimeSpan, format: ChronometerFormat) -> ChronometerView {
        ChronometerView {
            origin: None,
            elapsed: Some(elapsed),
            state: ChronometerState::Paused,
            format,
        }
    }

    /// The chronometer after a pause that found `run` on the clock.
    pub open spec fn paused_after(self, run: TimeSpan) -> ChronometerView {
        ChronometerView {
            elapsed: Some(run.plus(self.stored())),
            state: ChronometerState::Paused,
            ..self
        }
    }

    /// The chronometer after a reset.
    pub open spec fn cleared(self) -> ChronometerView {
        if self.state != ChronometerState::Stopped {
            ChronometerView {
                origin: None,
                elapsed: None,
                state: ChronometerState::Stopped,
                format: self.format,
            }
        } else {
            self
        }
    }

    /// The time a chronometer shows that is not running.
    pub open spec fn time_at_rest(self) -> TimeSpan {
        self.stored()
    }

    /// The time a running chronometer shows when the clock has gone on by
    /// `run` since its origin.
    pub open spec fn time_after(self, run: TimeSpan) -> TimeSpan {
        self.stored().plus(run)
    }

    /// This chronometer set running, measured from `origin`.
    pub open spec fn started_at(self, origin: Instant) -> ChronometerView {
        ChronometerView { origin: Some(origin), state: ChronometerState::Running, ..self }
    }

    /// This chronometer measuring anew from `origin`, with no time folded in,
    /// in the state it was in.
    pub open spec fn restarted_at(self, origin: Instant) -> ChronometerView {
        ChronometerView { origin: Some(origin), elapsed: Some(TimeSpan { nanos: 0 }), ..self }
    }

    /// `after` is this chronometer set running, measured from some point on
    /// the clock.
    pub open spec fn started(self, after: ChronometerView) -> bool {
        exists|origin: Instant| after == self.started_at(origin)
    }

    /// `after` is this chronometer measuring anew from some point on the
    /// clock, with no time folded in, in the state it was in.
    pub open spec fn restarted(self, after: ChronometerView) -> bool {
        exists|origin: Instant| after == self.restarted_at(origin)
    }

    /// What a pause makes of this chronometer, and what it reports.
    pub open spec fn paused(self, after: ChronometerView, result: Result<(), Error>) -> bool {
        if self.state != ChronometerState::Running {
            result is Ok && after == self
        } else if self.origin is None {
            &&& result matches Err(e)
            &&& e.message() == Some(pause_message())
            &&& after == self
        } else {
            &&& result is Ok
            &&& exists|run: TimeSpan| after == self.paused_after(run)
        }
    }

    /// What a reading of this chronometer gives.
    pub open spec fn read(self, result: Result<TimeSpan, Error>) -> bool {
        if self.state != ChronometerState::Running {
            result == Ok::<TimeSpan, Error>(self.time_at_rest())
        } else if self.origin is None {
            &&& result matches Err(e)
            &&& e.message() == Some(time_message())
        } else {
            &&& result matches Ok(time)
            &&& exists|run: TimeSpan| time == self.time_after(run)
        }
    }
}

/// The message of a pause that finds no point on the clock to measure from.
pub open spec fn pause_message() -> Seq<char> {
    "Could not pause. Try pressing the \"Start chrono\" key again before pausing."@
}

/// The message of a reading that finds no point on the clock to measure from.
pub open spec fn time_message() -> Seq<char> {
    "Could not get time. Try pressing the \"Start chrono\" key again."@
}

/// A stopwatch. It is stopped at first; `start` sets it running, `pause`
/// folds the running time in, `reset` stops and empties it.
#[derive(Copy, Clone, Debug, Eq, PartialEq)]
pub struct Chronometer {
    start_time: Option<Instant>,
    elapsed: Option<TimeSpan>,
    state: ChronometerState,
    format: ChronometerFormat,
}

impl View for Chronometer {
    type V = ChronometerView;

    closed spec fn view(&self) -> ChronometerView {
        ChronometerView {
            origin: self.start_time,
            elapsed: self.elapsed,
            state: self.state,
            format: self.format,
        }
    }
}

impl Chronometer {
    pub fn new(format: ChronometerFormat) -> (chrono: Self)
        ensures
            chrono@ == (ChronometerView {
                origin: None,
                elapsed: None,
                state: ChronometerState::Stopped,
                format,
            }),
            chrono@.wf(),
    {
        Self { start_time: None, elapsed: None, state: ChronometerState::Stopped, format }
    }

    /// Whether the chronometer is stopped, running or paused.
    pub fn state(&self) -> (state: ChronometerState)
        ensures
            state == self@.state,
    {
        self.state
    }

    /// The format in which the time is shown.
    pub fn format(&self) -> (format: ChronometerFormat)
        ensures
            format == self@.format,
    {
        self.format
    }

    /// Changes the format and nothing else.
    pub fn set_format(&mut self, format: &ChronometerFormat)
        ensures
            final(self)@ == (ChronometerView { format: *format, ..old(self)@ }),
    {
        self.format = *format;
    }

    /// Sets the chronometer to `elapsed`, paused, shown in `format`.
    pub fn load_chrono(&mut self, elapsed: TimeSpan, format: &ChronometerFormat)
        ensures
            final(self)@ == ChronometerView::loaded(elapsed, *format),
            final(self)@.wf(),
    {
        self.start_time = None;
        self.elapsed = Some(elapsed);
        self.state = ChronometerState::Paused;
        self.format = *format;
    }

    /// Starts measuring from `origin`, with no time folded in. The state
    /// stays as it is.
    pub fn clear_elapsed_at(&mut self, origin: Instant)
        ensures
            final(self)@ == old(self)@.restarted_at(origin),
            final(self)@.wf(),
    {
        self.start_time = Some(origin);
        self.elapsed = Some(TimeSpan::zero());
    }

    /// Starts measuring from now, with no time folded in. The state stays as
    /// it is.
    pub fn clear_elapsed(&mut self)
        ensures
            old(self)@.restarted(final(self)@),
            final(self)@.wf(),
    {
        self.clear_elapsed_at(clock_now());
    }

    /// Sets the chronometer running, measured from `origin`. What was folded
    /// in stays; what has gone by since an earlier origin is not folded in.
    pub fn start_at(&mut self, origin: Instant)
        ensures
            final(self)@ == old(self)@.started_at(origin),
            final(self)@.wf(),
    {
        self.start_time = Some(origin);
        self.state = ChronometerState::Running;
    }

    /// Sets the chronometer running, measured from now. What was folded in
    /// stays.
    pub fn start(&mut self)
        ensures
            old(self)@.started(final(self)@),
            final(self)@.wf(),
    {
        self.start_at(clock_now());
    }

    /// Folds `run`, the time found on the clock since the origin, into the
    /// time of the chronometer and pauses it.
    pub fn pause_after(&mut self, run: TimeSpan)
        ensures
            final(self)@ == old(self)@.paused_after(run),
            final(self)@.wf(),
    {
        let stored: TimeSpan = match self.elapsed {
            Some(span) => span,
            None => TimeSpan::zero(),
        };
        self.elapsed = Some(run.saturating_add(stored));
        self.state = ChronometerState::Paused;
    }

    /// Pauses a running chronometer: the time since its origin is folded in.
    /// A chronometer that is not running is left as it is. A running one
    /// without an origin is left as it is too, and reported.
    pub fn pause(&mut self) -> (result: Result<(), Error>)
        ensures
            old(self)@.paused(final(self)@, result),
            old(self)@.wf() ==> result is Ok && final(self)@.wf(),
    {
        if self.state == ChronometerState::Running {
            let start_time: Instant = match self.start_time {
                Some(st) => st,
                None => {
                    return Err(
                        Error::new(
                            "Could not pause. Try pressing the \"Start chrono\" key again before pausing.".to_string(),
                            "None".to_string(),
                        ),
                    );
                },
            };
            let run: TimeSpan = clock_elapsed(&start_time);
            self.pause_after(run);
        }
        Ok(())
    }

    /// Stops and empties a chronometer that is running or paused. A stopped
    /// one is left as it is.
    pub fn reset(&mut self)
        ensures
            final(self)@ == old(self)@.cleared(),
            final(self)@.state == ChronometerState::Stopped,
            final(self)@.wf(),
    {
        if self.state != ChronometerState::Stopped {
            self.start_time = None;
            self.elapsed = None;
            self.state = ChronometerState::Stopped;
        }
    }

    /// The time the chronometer shows when the clock has gone on by `run`
    /// since its origin: `run` counts only while it is running.
    pub fn time_after(&self, run: TimeSpan) -> (time: TimeSpan)
        ensures
            time == if self@.state == ChronometerState::Running {
                self@.time_after(run)
            } else {
                self@.time_at_rest()
            },
    {
        let stored: TimeSpan = match self.elapsed {
            Some(span) => span,
            None => TimeSpan::zero(),
        };
        if self.state == ChronometerState::Running {
            stored.saturating_add(run)
        } else {
            stored
        }
    }

    /// The time the chronometer shows now: what was folded in and, while it
    /// is running, the time since its origin. A running chronometer without
    /// an origin is reported.
    pub fn get_time(&self) -> (result: Result<TimeSpan, Error>)
        ensures
            self@.read(result),
            self@.wf() ==> result is Ok,
    {
        if self.state == ChronometerState::Running {
            let start_time: Instant = match self.start_time {
                Some(st) => st,
                None => {
                    return Err(
                        Error::new(
                            "Could not get time. Try pressing the \"Start chrono\" key again.".to_string(),
                            "None".to_string(),
                        ),
                    );
                },
            };
            let run: TimeSpan = clock_elapsed(&start_time);
            let time: TimeSpan = self.time_after(run);
            Ok(time)
        } else {
            Ok(self.time_after(TimeSpan::zero()))
        }
    }

    /// The time folded in so far, in the chronometer's format.
    pub fn to_string(&self) -> (text: String)
        ensures
            text@ == chrono_text(self@.stored().millis(), self@.format),
    {
        let stored: TimeSpan = match self.elapsed {
            Some(span) => span,
            None => TimeSpan::zero(),
        };
        duration_chrono_format(stored, &self.format)
    }
}

/// A chronometer that was loaded with a time shows that time, whenever it
/// is read: it is paused, and no time goes by on it.
pub proof fn law_loaded_time_is_read(
    elapsed: TimeSpan,
    format: ChronometerFormat,
    reading: Result<TimeSpan, Error>,
)
    requires
        ChronometerView::loaded(elapsed, format).read(reading),
    ensures
        reading == Ok::<TimeSpan, Error>(elapsed),
{
}

/// A chronometer that has a point on the clock whenever it is running is
/// paused and read without failure.
pub proof fn law_sound_chronometer_works(
    chrono: ChronometerView,
    after: ChronometerView,
    paused: Result<(), Error>,
    reading: Result<TimeSpan, Error>,
)
    requires
        chrono.wf(),
        chrono.paused(after, paused),
        chrono.read(reading),
    ensures
        paused is Ok,
        reading is Ok,
        after.wf(),
        after.state != ChronometerState::Running,
        reading->Ok_0@ >= chrono.stored()@,
{
}

/// What a time of `millis` milliseconds reads as in `format`: hours as they
/// are, minutes, seconds and hundredths two digits wide, everything below the
/// last field cut off.
pub open spec fn chrono_text(millis: nat, format: ChronometerFormat) -> Seq<char> {
    let secs = millis / 1000;
    let xs = decimal_two((millis % 1000) / 10);
    let ss = decimal_two(secs % 60);
    match format {
        ChronometerFormat::HHMMSSX => decimal(secs / 3600) + seq![':'] + decimal_two(
            (secs / 60) % 60,
        ) + seq![':'] + ss + seq!['.'] + xs,
        ChronometerFormat::HHMMSS => decimal(secs / 3600) + seq![':'] + decimal_two(
            (secs / 60) % 60,
        ) + seq![':'] + ss,
        ChronometerFormat::HHMM => decimal(secs / 3600) + seq![':'] + decimal_two(
            (secs / 60) % 60,
        ),
        ChronometerFormat::MMSSX => decimal_two(secs / 60) + seq![':'] + ss + seq!['.'] + xs,
        ChronometerFormat::MMSS => decimal_two(secs / 60) + seq![':'] + ss,
    }
}

/// Renders `duration` in `format`.
pub fn duration_chrono_format(duration: TimeSpan, format: &ChronometerFormat) -> (text: String)
    ensures
        text@ == chrono_text(duration.millis(), *format),
{
    let total_millis: u128 = duration.as_millis();
    let total_secs: u128 = total_millis / 1000;
    let xs: u128 = (total_millis % 1000) / 10;
    let ss: u128 = total_secs % 60;
    let mut text = String::new();
    proof {
        reveal_strlit(":");
        reveal_strlit(".");
    }
    match format {
        ChronometerFormat::HHMMSSX => {
            push_decimal(&mut text, total_secs / 3600);
            text.append(":");
            push_decimal_two(&mut text, (total_secs / 60) % 60);
            text.append(":");
            push_decimal_two(&mut text, ss);
            text.append(".");
            push_decimal_two(&mut text, xs);
        },
        ChronometerFormat::HHMMSS => {
            push_decimal(&mut text, total_secs / 3600);
            text.append(":");
            push_decimal_two(&mut text, (total_secs / 60) % 60);
            text.append(":");
            push_decimal_two(&mut text, ss);
        },
        ChronometerFormat::HHMM => {
            push_decimal(&mut text, total_secs / 3600);
            text.append(":");
            push_decimal_two(&mut text, (total_secs / 60) % 60);
        },
        ChronometerFormat::MMSSX => {
            push_decimal_two(&mut text, total_secs / 60);
            text.append(":");
            push_decimal_two(&mut text, ss);
            text.append(".");
            push_decimal_two(&mut text, xs);
        },
        ChronometerFormat::MMSS => {
            push_decimal_two(&mut text, total_secs / 60);
            text.append(":");
            push_decimal_two(&mut text, ss);
        },
    }
    text
}

} // verus!
