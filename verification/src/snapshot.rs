//! The clock snapshot: the current instant and its local UTC offset, read
//! from the host once at startup and immutable afterwards. Every input is
//! interpreted against the snapshot's offset; a second snapshot mid-session
//! would silently reinterpret prior results, so nothing here refreshes it
//! (a host offset change during a long session is stale by design).

use vstd::prelude::*;

use crate::calendar::{
    days_to_year_exec, lemma_days_to_year_bounds, max_local_secs, min_local_secs,
    wall_from_local_secs, wall_to_epoch, MAX_OFFSET_SECS,
};
use crate::decimal::{digit_char, digit_str};
use crate::engine::{format_wall, lemma_minute_round_trip, parse_spec, DerivedTimestamp};
use crate::style::TimeFormatStyle;

verus! {

/// The display rendering of a UTC offset, `UTC` then the sign and the
/// offset as four digits, hours and minutes (`UTC+0200`).
pub open spec fn offset_label_spec(off: int) -> Seq<char> {
    let a = if off >= 0 {
        off
    } else {
        -off
    };
    let hh = a / 3600;
    let mm = (a % 3600) / 60;
    seq![
        'U',
        'T',
        'C',
        if off >= 0 {
            '+'
        } else {
            '-'
        },
        digit_char(((hh / 10) % 10) as nat),
        digit_char((hh % 10) as nat),
        digit_char(((mm / 10) % 10) as nat),
        digit_char((mm % 10) as nat),
    ]
}

/// Renders a UTC offset for display beside the form.
fn build_offset_label(offset_secs: i32) -> (s: String)
    requires
        -MAX_OFFSET_SECS < offset_secs < MAX_OFFSET_SECS,
    ensures
        s@ == offset_label_spec(offset_secs as int),
{
    let a: u32 = if offset_secs >= 0 {
        offset_secs as u32
    } else {
        (-offset_secs) as u32
    };
    let hh: u32 = a / 3600;
    let mm: u32 = (a % 3600) / 60;
    let mut out = String::from_str("UTC");
    out.append(if offset_secs >= 0 {
        "+"
    } else {
        "-"
    });
    out.append(digit_str((hh / 10) as u64));
    out.append(digit_str((hh % 10) as u64));
    out.append(digit_str((mm / 10) as u64));
    out.append(digit_str((mm % 10) as u64));
    proof {
        reveal_strlit("UTC");
        reveal_strlit("+");
        reveal_strlit("-");
        vstd::arithmetic::div_mod::lemma_small_mod((hh / 10) as nat, 10);
        vstd::arithmetic::div_mod::lemma_small_mod((mm / 10) as nat, 10);
        assert(out@ =~= offset_label_spec(offset_secs as int));
    }
    out
}

/// The clock as read once at startup: the captured instant in epoch
/// seconds, the local UTC offset in effect at that moment, and the
/// offset's display label. Created once, read-only afterwards.
#[derive(Debug)]
pub struct ClockSnapshot {
    /// The captured instant, in seconds since the epoch (UTC).
    pub captured_at: i64,
    /// Seconds the local clock runs east of UTC at the captured instant.
    pub offset_secs: i32,
    /// `offset_secs` rendered for display, e.g. `UTC+0200`.
    pub utc_offset_label: String,
}

impl ClockSnapshot {
    /// A usable snapshot: the offset is a real UTC offset, the local
    /// wall-clock reading of the captured instant falls within the
    /// four-digit-year calendar, and the label renders the offset.
    pub open spec fn wf(self) -> bool {
        &&& -MAX_OFFSET_SECS < self.offset_secs < MAX_OFFSET_SECS
        &&& min_local_secs() <= self.captured_at + self.offset_secs <= max_local_secs()
        &&& self.utc_offset_label@ == offset_label_spec(self.offset_secs as int)
    }

    /// Builds a snapshot from an instant and an offset. Yields nothing
    /// exactly when the offset is no UTC offset or the local reading of
    /// the instant falls outside the four-digit-year calendar.
    pub fn from_parts(captured_at: i64, offset_secs: i32) -> (r: Option<ClockSnapshot>)
        ensures
            r matches Some(s) ==> s.wf() && s.captured_at == captured_at && s.offset_secs
                == offset_secs,
            r is None <==> !(-MAX_OFFSET_SECS < offset_secs < MAX_OFFSET_SECS && min_local_secs()
                <= captured_at + offset_secs <= max_local_secs()),
    {
        if offset_secs <= -MAX_OFFSET_SECS || offset_secs >= MAX_OFFSET_SECS {
            return None;
        }
        proof {
            lemma_days_to_year_bounds(0, 1970);
            lemma_days_to_year_bounds(0, 10000);
        }
        if captured_at < -100_000_000_000 || captured_at > 300_000_000_000 {
            return None;
        }
        let local: i64 = captured_at + offset_secs as i64;
        let min_l: i64 = days_to_year_exec(0) * 86400;
        let max_l: i64 = days_to_year_exec(10000) * 86400 - 1;
        if local < min_l || local > max_l {
            return None;
        }
        Some(
            ClockSnapshot {
                captured_at,
                offset_secs,
                utc_offset_label: build_offset_label(offset_secs),
            },
        )
    }

    /// Reads the host clock and captures it as a snapshot. Meant to be
    /// called exactly once, at startup. The captured count is the floor of
    /// the instant: on a pre-epoch clock a fractional second rounds toward
    /// the past, as a count of whole seconds since the epoch must. Yields
    /// nothing only when the host clock stands outside the four-digit-year
    /// calendar or the zone lookup cannot place the instant.
    pub fn capture() -> (r: Option<ClockSnapshot>)
        ensures
            r matches Some(s) ==> s.wf(),
    {
        let (pre_epoch, secs, nanos) = now_sys_parts();
        let captured_at: i64 = match epoch_floor_of_span(pre_epoch, secs, nanos) {
            Some(e) => e,
            None => {
                return None;
            },
        };
        let offset_secs: i32 = match local_offset_secs(captured_at) {
            Some(o) => o,
            None => {
                return None;
            },
        };
        ClockSnapshot::from_parts(captured_at, offset_secs)
    }

    /// The default content of the datetime field: the captured instant
    /// rendered in the input pattern against the snapshot's own offset.
    /// The rendering is truncated to the minute (the captured seconds
    /// within the minute are dropped, never rounded up), so deriving epoch
    /// seconds from it under the same offset gives back `captured_at`
    /// less those dropped seconds.
    pub fn default_input(&self) -> (s: String)
        requires
            self.wf(),
        ensures
            parse_spec(s@) matches Some(w) && wall_to_epoch(w, self.offset_secs as int)
                == self.captured_at - ((self.captured_at + self.offset_secs) % 60),
    {
        proof {
            lemma_days_to_year_bounds(0, 1970);
            lemma_days_to_year_bounds(0, 10000);
        }
        let local: i64 = self.captured_at + self.offset_secs as i64;
        let w = wall_from_local_secs(local);
        proof {
            lemma_minute_round_trip(w, self.offset_secs as int, local as int);
        }
        format_wall(&w)
    }

    /// The result entity the form starts from: the captured instant with
    /// the documented default style.
    pub fn initial_timestamp(&self) -> (r: DerivedTimestamp)
        ensures
            r.epoch_seconds == self.captured_at,
            r.style == TimeFormatStyle::FullDateTime,
    {
        DerivedTimestamp { epoch_seconds: self.captured_at, style: TimeFormatStyle::FullDateTime }
    }
}

/// Spans longer than this many seconds on either side of the epoch lie far
/// outside the four-digit-year calendar and are not captured.
pub const MAX_CLOCK_SPAN_SECS: u64 = 400_000_000_000;

/// The whole-second epoch count, floor-rounded, of a clock reading given
/// as a span of `secs` seconds and `nanos` nanoseconds on one side of the
/// epoch: on the pre-epoch side a fractional second rounds toward the
/// past. Yields nothing exactly when the span is too long to stand in the
/// calendar.
pub fn epoch_floor_of_span(pre_epoch: bool, secs: u64, nanos: u32) -> (r: Option<i64>)
    ensures
        r is Some <==> secs <= MAX_CLOCK_SPAN_SECS,
        r matches Some(e) ==> e as int == (if pre_epoch && nanos > 0 {
            -(secs as int) - 1
        } else if pre_epoch {
            -(secs as int)
        } else {
            secs as int
        }),
{
    if secs > MAX_CLOCK_SPAN_SECS {
        return None;
    }
    if pre_epoch {
        if nanos > 0 {
            Some(-(secs as i64) - 1)
        } else {
            Some(-(secs as i64))
        }
    } else {
        Some(secs as i64)
    }
}

/// Relies on `std::time::SystemTime::now` and
/// `SystemTime::duration_since(UNIX_EPOCH)` for the current instant. Both
/// arms of `duration_since` are taken: `Ok` carries the span since the
/// epoch, `Err` the span before it (`SystemTimeError::duration`), so a
/// pre-epoch host clock is an ordinary outcome here, not an abort. The
/// flag says which side of the epoch the clock stands on; the span comes
/// back as whole seconds and the fraction in nanoseconds, which
/// `Duration` documents as always below one billion. What instant comes
/// back depends on the host clock, so nothing more is promised of it.
#[verifier::external_body]
fn now_sys_parts() -> (r: (bool, u64, u32))
    ensures
        r.2 < 1_000_000_000,
{
    match std::time::SystemTime::now().duration_since(std::time::UNIX_EPOCH) {
        Ok(d) => (false, d.as_secs(), d.subsec_nanos()),
        Err(e) => {
            let d = e.duration();
            (true, d.as_secs(), d.subsec_nanos())
        },
    }
}

/// Relies on `chrono::TimeZone::offset_from_utc_datetime` for
/// `chrono::Local`: the local UTC offset in effect at the given instant.
/// The offset comes out of `FixedOffset::east_opt`, which enforces the
/// strict sub-day bound stated here; `DateTime::from_timestamp` yields
/// nothing for an instant outside chrono's calendar, and that arm passes
/// through as `None`. The lookup itself panics only on unreadable or
/// corrupt time-zone data in the host environment, a failure of a
/// different order than a clock reading; nothing is returned on that
/// path, so the clause here holds of every normal return.
#[verifier::external_body]
fn local_offset_secs(epoch_secs: i64) -> (r: Option<i32>)
    ensures
        r matches Some(o) ==> -MAX_OFFSET_SECS < o < MAX_OFFSET_SECS,
{
    match chrono::DateTime::from_timestamp(epoch_secs, 0) {
        Some(dt) => Some(
            chrono::TimeZone::offset_from_utc_datetime(&chrono::Local, &dt.naive_utc())
                .local_minus_utc(),
        ),
        None => None,
    }
}

} // verus!
