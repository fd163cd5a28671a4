//! The per-minute log: when to write a record, the name of the day's file,
//! and the record itself.
use vstd::prelude::*;

use crate::readings::{large_field, push_large_field, push_small_field, small_field, Readings};
use crate::rtc8564::Time;
use crate::text::{ascii, push_text, push_two_digits, text_bytes, two_digits};

verus! {

/// Decides when a record is due: once each time the clock's minute changes.
pub struct LoggingScheduler {
    last_minute: u8,
}

impl LoggingScheduler {
    pub closed spec fn last_minute(&self) -> u8 {
        self.last_minute
    }

    /// A scheduler that has last seen the clock at `minute`.
    pub fn new(minute: u8) -> (r: LoggingScheduler)
        ensures
            r.last_minute() == minute,
    {
        LoggingScheduler { last_minute: minute }
    }

    /// Whether the minute of `now` differs from the minute last seen; `now`
    /// becomes the time last seen either way.
    pub fn rtc_updated(&mut self, now: &Time) -> (due: bool)
        ensures
            due == (now.minute != old(self).last_minute()),
            final(self).last_minute() == now.minute,
    {
        let due = now.minute != self.last_minute;
        self.last_minute = now.minute;
        due
    }
}

/// The name of the day's log file, "YYMMDD.txt".
pub open spec fn file_name(t: Time) -> Seq<u8> {
    two_digits(t.year as int) + two_digits(t.month as int) + two_digits(t.day as int) + ascii(
        ".txt"@,
    )
}

/// The log record of `t` and `r`:
/// "20YY/MM/DD hh:mm T: tt.t, H: hh.h, P: pppp.p" and CR LF.
pub open spec fn record(t: Time, r: Readings) -> Seq<u8> {
    ascii("20"@) + two_digits(t.year as int) + ascii("/"@) + two_digits(t.month as int) + ascii(
        "/"@,
    ) + two_digits(t.day as int) + ascii(" "@) + two_digits(t.hour as int) + ascii(":"@)
        + two_digits(t.minute as int) + ascii(" T: "@) + small_field(r.temperature as int)
        + ascii(", H: "@) + small_field(r.humidity as int) + ascii(", P: "@) + large_field(
        r.pressure as int,
    ) + seq![13u8, 10u8]
}

/// The name of the log file for the day of `now`.
pub fn log_file_name(now: &Time) -> (r: Vec<u8>)
    ensures
        r@ == file_name(*now),
        r@.len() == 10,
{
    proof {
        reveal_strlit(".txt");
    }
    let mut r: Vec<u8> = Vec::new();
    push_two_digits(&mut r, now.year);
    push_two_digits(&mut r, now.month);
    push_two_digits(&mut r, now.day);
    push_text(&mut r, ".txt");
    assert(r@ =~= file_name(*now));
    r
}

/// The record to append for `now` and `readings`.
pub fn log_record(now: &Time, readings: &Readings) -> (r: Vec<u8>)
    ensures
        r@ == record(*now, *readings),
        r@.len() == 46,
{
    proof {
        reveal_strlit("20");
        reveal_strlit("/");
        reveal_strlit(" ");
        reveal_strlit(":");
        reveal_strlit(" T: ");
        reveal_strlit(", H: ");
        reveal_strlit(", P: ");
    }
    let mut r = text_bytes("20");
    push_two_digits(&mut r, now.year);
    push_text(&mut r, "/");
    push_two_digits(&mut r, now.month);
    push_text(&mut r, "/");
    push_two_digits(&mut r, now.day);
    push_text(&mut r, " ");
    push_two_digits(&mut r, now.hour);
    push_text(&mut r, ":");
    push_two_digits(&mut r, now.minute);
    push_text(&mut r, " T: ");
    push_small_field(&mut r, readings.temperature);
    push_text(&mut r, ", H: ");
    push_small_field(&mut r, readings.humidity);
    push_text(&mut r, ", P: ");
    push_large_field(&mut r, readings.pressure);
    r.push(13);
    r.push(10);
    assert(r@ =~= record(*now, *readings));
    r
}

/// A file timestamp as the file system stores it.
#[derive(Clone, Copy, Debug, PartialEq, Eq, Structural)]
pub struct Timestamp {
    pub year_since_1970: u8,
    pub zero_indexed_month: u8,
    pub zero_indexed_day: u8,
    pub hours: u8,
    pub minutes: u8,
    pub seconds: u8,
}

/// The time source of the file system: every file is stamped with the
/// epoch, 1970-01-01 00:00:00.
#[derive(Clone, Copy, Debug, Default)]
pub struct DummyTimesource();

impl DummyTimesource {
    pub fn get_timestamp(&self) -> (r: Timestamp)
        ensures
            r == (Timestamp {
                year_since_1970: 0,
                zero_indexed_month: 0,
                zero_indexed_day: 0,
                hours: 0,
                minutes: 0,
                seconds: 0,
            }),
    {
        Timestamp {
            year_since_1970: 0,
            zero_indexed_month: 0,
            zero_indexed_day: 0,
            hours: 0,
            minutes: 0,
            seconds: 0,
        }
    }
}

} // verus!
