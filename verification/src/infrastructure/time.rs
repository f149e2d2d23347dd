//! Time: the clock in milliseconds since the Unix epoch, elapsed times, timers and
//! their display. Durations are whole milliseconds.
use crate::clock::utc_now_millis;
use crate::infrastructure::{InfrastructureError, InfrastructureResult};
use crate::text::{append_decimal, decimal};
use vstd::prelude::*;

verus! {

/// Time elapsed from `start` to `now` (milliseconds); zero when the clock went back.
pub open spec fn elapsed_between_spec(start: u64, now: u64) -> u64 {
    if now >= start { (now - start) as u64 } else { 0 }
}

/// The display of a duration of `millis` milliseconds: hours, minutes and seconds from
/// an hour on, minutes and seconds from a minute on, seconds and tenths from a
/// second on, and milliseconds below.
pub open spec fn duration_text(millis: u64) -> Seq<char> {
    let secs = millis / 1000;
    let sub = millis % 1000;
    if secs >= 3600 {
        decimal((secs / 3600) as nat) + "h "@ + decimal(((secs % 3600) / 60) as nat) + "m "@ + decimal((secs % 60) as nat) + "s"@
    } else if secs >= 60 {
        decimal((secs / 60) as nat) + "m "@ + decimal((secs % 60) as nat) + "s"@
    } else if secs > 0 {
        decimal(secs as nat) + "."@ + decimal((sub / 100) as nat) + "s"@
    } else {
        decimal(sub as nat) + "ms"@
    }
}

/// The clock, time differences and time display.
pub struct TimeService;

impl TimeService {
    /// A clock reading as milliseconds since the epoch; a reading before the epoch
    /// is an error.
    pub fn millis_since_epoch(reading: i64) -> (r: InfrastructureResult<u64>)
        ensures
            reading >= 0 ==> r == Ok::<u64, InfrastructureError>(reading as u64),
            reading < 0 ==> (r matches Err(InfrastructureError::TimeError(m))
                && m@ == "System time error: clock before the Unix epoch"@),
    {
        if reading >= 0 {
            Ok(reading as u64)
        } else {
            Err(InfrastructureError::TimeError(String::from_str("System time error: clock before the Unix epoch")))
        }
    }

    /// The current time in milliseconds since the epoch, read from the clock; a clock
    /// before the epoch is an error. Which time it is, no contract states.
    pub fn now_millis() -> (r: InfrastructureResult<u64>)
        ensures
            r matches Err(e) ==> (e matches InfrastructureError::TimeError(m)
                && m@ == "System time error: clock before the Unix epoch"@),
    {
        Self::millis_since_epoch(utc_now_millis())
    }

    /// Time elapsed from `start` to `now` (milliseconds); zero when the clock went back.
    pub fn elapsed_between(start: u64, now: u64) -> (r: u64)
        ensures
            r == elapsed_between_spec(start, now),
    {
        if now >= start { now - start } else { 0 }
    }

    /// Time elapsed since `start_millis`, by the clock: the time elapsed from the
    /// start to some clock reading (which one, no contract states).
    pub fn elapsed_since(start_millis: u64) -> (r: InfrastructureResult<u64>)
        ensures
            r matches Ok(d) ==> exists|now: u64| d == #[trigger] elapsed_between_spec(start_millis, now),
            r matches Err(e) ==> (e matches InfrastructureError::TimeError(m)
                && m@ == "System time error: clock before the Unix epoch"@),
    {
        let now = match Self::now_millis() {
            Ok(n) => n,
            Err(e) => return Err(e),
        };
        let d = Self::elapsed_between(start_millis, now);
        assert(d == elapsed_between_spec(start_millis, now));
        Ok(d)
    }
}

/// A named timer started at a clock reading.
pub struct Timer {
    start_time: u64,
    name: String,
}

impl Timer {
    /// When the timer started (milliseconds since the epoch).
    pub closed spec fn spec_start(&self) -> u64 { self.start_time }

    /// The name of the timer.
    pub closed spec fn spec_name(&self) -> Seq<char> { self.name@ }

    /// A timer named `name` started at `start_time`.
    pub fn started_at(name: String, start_time: u64) -> (r: Self)
        ensures
            r.spec_name() == name@,
            r.spec_start() == start_time,
    {
        Timer { start_time, name }
    }

    /// A timer named `name` started now.
    pub fn start(name: String) -> (r: InfrastructureResult<Self>)
        ensures
            r matches Ok(t) ==> t.spec_name() == name@,
            r matches Err(e) ==> e is TimeError,
    {
        let start_time = match TimeService::now_millis() {
            Ok(n) => n,
            Err(e) => return Err(e),
        };
        Ok(Self::started_at(name, start_time))
    }

    /// Time elapsed since the start, by the clock: the time from the start to some
    /// clock reading.
    pub fn elapsed(&self) -> (r: InfrastructureResult<u64>)
        ensures
            r matches Ok(d) ==> exists|now: u64| d == #[trigger] elapsed_between_spec(self.spec_start(), now),
            r matches Err(e) ==> e is TimeError,
    {
        let r = TimeService::elapsed_since(self.start_time);
        proof {
            if let Ok(d) = r {
                let now = choose|now: u64| d == #[trigger] elapsed_between_spec(self.start_time, now);
                assert(d == elapsed_between_spec(self.spec_start(), now));
            }
        }
        r
    }

    /// Stop the timer: its name and the time it ran, by the clock.
    pub fn stop(self) -> (r: InfrastructureResult<(String, u64)>)
        ensures
            r matches Ok((n, _)) ==> n@ == self.spec_name(),
            r matches Ok((_, d)) ==> exists|now: u64| d == #[trigger] elapsed_between_spec(self.spec_start(), now),
            r matches Err(e) ==> e is TimeError,
    {
        let elapsed = match self.elapsed() {
            Ok(d) => d,
            Err(e) => return Err(e),
        };
        Ok((self.name, elapsed))
    }

    /// The name of the timer.
    pub fn name(&self) -> (r: &str)
        ensures
            r@ == self.spec_name(),
    {
        self.name.as_str()
    }
}

/// Sum of the times measured.
pub open spec fn measured_total(s: Seq<(String, u64)>) -> int
    decreases s.len(),
{
    if s.len() == 0 { 0 } else { measured_total(s.drop_last()) + s.last().1 }
}

/// A series of named measurements, one timer running at a time.
pub struct Stopwatch {
    measurements: Vec<(String, u64)>,
    current_timer: Option<Timer>,
}

impl Stopwatch {
    /// The measurements taken, oldest first.
    pub closed spec fn spec_measurements(&self) -> Seq<(String, u64)> { self.measurements@ }

    /// The name of the running timer, if one runs.
    pub closed spec fn running(&self) -> Option<Seq<char>> {
        match self.current_timer {
            Some(t) => Some(t.spec_name()),
            None => None,
        }
    }

    /// A stopwatch with no measurement and no timer running.
    pub fn new() -> (r: Self)
        ensures
            r.spec_measurements().len() == 0,
            r.running() is None,
    {
        Stopwatch { measurements: Vec::new(), current_timer: None }
    }

    /// Start timing `name`, first recording the timer that runs, if any.
    pub fn start(&mut self, name: String) -> (r: InfrastructureResult<()>)
        ensures
            r is Ok ==> final(self).running() == Some(name@),
            r is Ok ==> (old(self).running() matches Some(n) ==> final(self).spec_measurements().len() == old(self).spec_measurements().len() + 1
                && final(self).spec_measurements().last().0@ == n
                && final(self).spec_measurements().drop_last() == old(self).spec_measurements()),
            r is Ok ==> (old(self).running() is None ==> final(self).spec_measurements() == old(self).spec_measurements()),
            r matches Err(e) ==> e is TimeError,
    {
        if let Some(timer) = self.current_timer.take() {
            let (stopped, elapsed) = match timer.stop() {
                Ok(m) => m,
                Err(e) => return Err(e),
            };
            self.measurements.push((stopped, elapsed));
        }
        let timer = match Timer::start(name) {
            Ok(t) => t,
            Err(e) => return Err(e),
        };
        self.current_timer = Some(timer);
        Ok(())
    }

    /// Stop the running timer, recording it; returns the time it ran, or none when no
    /// timer runs.
    pub fn stop(&mut self) -> (r: InfrastructureResult<Option<u64>>)
        ensures
            old(self).running() is None ==> r == Ok::<Option<u64>, InfrastructureError>(None)
                && final(self).spec_measurements() == old(self).spec_measurements(),
            old(self).running() is Some ==> !(r matches Ok(None)),
            old(self).running() matches Some(n) ==> (r matches Ok(Some(d)) ==> final(self).running() is None
                && final(self).spec_measurements() == old(self).spec_measurements().push(final(self).spec_measurements().last())
                && final(self).spec_measurements().last().0@ == n
                && final(self).spec_measurements().last().1 == d),
            r matches Err(e) ==> e is TimeError,
    {
        match self.current_timer.take() {
            Some(timer) => {
                let (name, elapsed) = match timer.stop() {
                    Ok(m) => m,
                    Err(e) => return Err(e),
                };
                self.measurements.push((name, elapsed));
                Ok(Some(elapsed))
            },
            None => Ok(None),
        }
    }

    /// The measurements taken, oldest first.
    pub fn measurements(&self) -> (r: &[(String, u64)])
        ensures
            r@ == self.spec_measurements(),
    {
        self.measurements.as_slice()
    }

    /// Forget the measurements and the running timer.
    pub fn clear(&mut self)
        ensures
            final(self).spec_measurements().len() == 0,
            final(self).running() is None,
    {
        self.measurements.clear();
        self.current_timer = None;
    }

    /// Sum of the times measured.
    pub fn total_time(&self) -> (r: u64)
        requires
            measured_total(self.spec_measurements()) <= u64::MAX,
        ensures
            r == measured_total(self.spec_measurements()),
    {
        let mut total: u64 = 0;
        let mut i: usize = 0;
        while i < self.measurements.len()
            invariant
                0 <= i <= self.measurements@.len(),
                measured_total(self.measurements@) <= u64::MAX,
                total == measured_total(self.measurements@.take(i as int)),
            decreases self.measurements@.len() - i,
        {
            proof {
                assert(self.measurements@.take(i + 1).drop_last() =~= self.measurements@.take(i as int));
                lemma_measured_prefix(self.measurements@, i + 1);
            }
            total = total + self.measurements[i].1;
            i = i + 1;
        }
        assert(self.measurements@.take(i as int) =~= self.measurements@);
        total
    }
}

impl Default for Stopwatch {
    fn default() -> (r: Self)
        ensures
            r.spec_measurements().len() == 0,
            r.running() is None,
    {
        Self::new()
    }
}

proof fn lemma_measured_prefix(s: Seq<(String, u64)>, n: int)
    requires
        0 <= n <= s.len(),
    ensures
        measured_total(s.take(n)) <= measured_total(s),
    decreases s.len() - n,
{
    if n < s.len() {
        lemma_measured_prefix(s, n + 1);
        assert(s.take(n + 1).drop_last() =~= s.take(n));
    } else {
        assert(s.take(n) =~= s);
    }
}

/// The display of a duration of `millis` milliseconds: "1h 1m 1s", "1m 5s", "1.5s"
/// or "250ms".
pub fn format_duration(millis: u64) -> (r: String)
    ensures
        r@ == duration_text(millis),
{
    let total_secs = millis / 1000;
    let sub = millis % 1000;
    let mut s = String::new();
    if total_secs >= 3600 {
        append_decimal(&mut s, total_secs / 3600);
        s.append("h ");
        append_decimal(&mut s, (total_secs % 3600) / 60);
        s.append("m ");
        append_decimal(&mut s, total_secs % 60);
        s.append("s");
    } else if total_secs >= 60 {
        append_decimal(&mut s, total_secs / 60);
        s.append("m ");
        append_decimal(&mut s, total_secs % 60);
        s.append("s");
    } else if total_secs > 0 {
        append_decimal(&mut s, total_secs);
        s.append(".");
        append_decimal(&mut s, sub / 100);
        s.append("s");
    } else {
        append_decimal(&mut s, sub);
        s.append("ms");
    }
    s
}

/// Whether `required_millis` have passed from `last_time` to the clock reading `now`.
pub fn reading_reached(last_time: u64, now: u64, required_millis: u64) -> (r: bool)
    ensures
        r == (elapsed_between_spec(last_time, now) >= required_millis),
{
    TimeService::elapsed_between(last_time, now) >= required_millis
}

/// Whether `required_millis` have passed since `last_time`, by the clock: whether
/// they have passed by the clock's reading (see `reading_reached`; which reading
/// it is, no contract states).
pub fn has_elapsed_since(last_time: u64, required_millis: u64) -> (r: InfrastructureResult<bool>)
    ensures
        r matches Ok(b) ==> exists|now: u64| b == (#[trigger] elapsed_between_spec(last_time, now) >= required_millis),
        r matches Err(e) ==> (e matches InfrastructureError::TimeError(m)
            && m@ == "System time error: clock before the Unix epoch"@),
{
    let now = match TimeService::now_millis() {
        Ok(n) => n,
        Err(e) => return Err(e),
    };
    let b = reading_reached(last_time, now, required_millis);
    assert(b == (elapsed_between_spec(last_time, now) >= required_millis));
    Ok(b)
}

/// The clock reading `duration` after `now`.
pub open spec fn reading_after(now: u64, duration: u64) -> int {
    now + duration
}

/// The reading `duration_millis` after the reading `now`; a time past the largest
/// reading is an error.
pub fn timestamp_after(now: u64, duration_millis: u64) -> (r: InfrastructureResult<u64>)
    ensures
        reading_after(now, duration_millis) <= u64::MAX ==> r == Ok::<u64, InfrastructureError>(
            reading_after(now, duration_millis) as u64,
        ),
        reading_after(now, duration_millis) > u64::MAX ==> (r matches Err(InfrastructureError::TimeError(m))
            && m@ == "Timestamp out of range"@),
{
    match now.checked_add(duration_millis) {
        Some(t) => Ok(t),
        None => Err(InfrastructureError::TimeError(String::from_str("Timestamp out of range"))),
    }
}

/// The clock reading `duration_millis` from now (see `timestamp_after`; which
/// reading it is, no contract states); a clock before the epoch is an error.
pub fn future_timestamp(duration_millis: u64) -> (r: InfrastructureResult<u64>)
    ensures
        r matches Ok(t) ==> exists|now: u64| t == #[trigger] reading_after(now, duration_millis),
        r matches Err(e) ==> (e matches InfrastructureError::TimeError(m)
            && (m@ == "System time error: clock before the Unix epoch"@ || m@ == "Timestamp out of range"@)),
{
    let now = match TimeService::now_millis() {
        Ok(n) => n,
        Err(e) => return Err(e),
    };
    let r = timestamp_after(now, duration_millis);
    proof {
        reveal_strlit("Timestamp out of range");
        if r is Ok {
            assert(r->Ok_0 == reading_after(now, duration_millis));
        }
    }
    r
}

/// The RFC 3339 text that `chrono` writes for the instant `secs` seconds and `nanos`
/// nanoseconds after the Unix epoch, or none when `chrono` cannot represent that
/// instant.
pub uninterp spec fn chrono_rfc3339(secs: i64, nanos: u32) -> Option<Seq<char>>;

/// `chrono::DateTime::<Utc>::from_timestamp(secs, nanos)`, written out with
/// `to_rfc3339()` when it gives an instant; none when it does not (an instant
/// outside `chrono`'s range or a nanosecond count of two seconds or more). The
/// text is the one named by `chrono_rfc3339`.
#[verifier::external_body]
fn rfc3339_at(secs: i64, nanos: u32) -> (r: Option<String>)
    ensures
        r matches Some(text) ==> chrono_rfc3339(secs, nanos) == Some(text@),
        r is None ==> chrono_rfc3339(secs, nanos) is None,
{
    match chrono::DateTime::from_timestamp(secs, nanos) {
        Some(instant) => Some(instant.to_rfc3339()),
        None => None,
    }
}

/// The RFC 3339 text of the reading `now` (milliseconds since the epoch): whole
/// seconds and the remaining milliseconds as nanoseconds, as `chrono` writes them.
pub open spec fn rfc3339_of_millis_spec(now: u64) -> Option<Seq<char>> {
    chrono_rfc3339((now / 1000) as i64, ((now % 1000) * 1_000_000) as u32)
}

/// The reading `now` (milliseconds since the epoch) in RFC 3339 form (see
/// `rfc3339_of_millis_spec`), or none when `chrono` cannot represent it.
pub fn rfc3339_of_millis(now: u64) -> (r: Option<String>)
    ensures
        r matches Some(text) ==> rfc3339_of_millis_spec(now) == Some(text@),
        r is None ==> rfc3339_of_millis_spec(now) is None,
{
    let secs = (now / 1000) as i64;
    let nanos = ((now % 1000) * 1_000_000) as u32;
    rfc3339_at(secs, nanos)
}

} // verus!
