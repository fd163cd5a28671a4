//! The RTC-8564 real-time clock: register map, BCD decoding, and the
//! double-read that never yields a torn time.
//!
//! The device is reached over a bus that this module does not touch: the
//! clock's methods say which register to read next and what to write, and
//! take back the bytes that were read.
use vstd::prelude::*;

verus! {

pub const RTC_DEVICE_ADDRESS: u8 = 0x51;

pub const CONTROL1_REG: u8 = 0x00;
pub const CONTROL2_REG: u8 = 0x01;
pub const SECONDS_REG: u8 = 0x02;
pub const MINUTES_REG: u8 = 0x03;
pub const HOURS_REG: u8 = 0x04;
pub const DAYS_REG: u8 = 0x05;
pub const WEEKDAYS_REG: u8 = 0x06;
pub const MONTHS_CENTURY_REG: u8 = 0x07;
pub const YEARS_REG: u8 = 0x08;
pub const MINUTE_ALARM_REG: u8 = 0x09;
pub const HOUR_ALARM_REG: u8 = 0x0a;
pub const DAY_ALARM_REG: u8 = 0x0b;
pub const WEEKDAY_ALARM_REG: u8 = 0x0c;
pub const CLKOUT_FREQUENCY_REG: u8 = 0x0d;
pub const TIMER_CONTROL_REG: u8 = 0x0e;
pub const TIMER_DOWN_COUNTER_REG: u8 = 0x0f;

/// Low-voltage flag: the top bit of the seconds register.
pub const VLOW_STATUS: u8 = 0x80;

/// Control 1 values that stop and restart the clock's counting.
pub const STOP_THE_CLOCK: u8 = 0x20;
pub const START_THE_CLOCK: u8 = 0x00;

/// Control 2: the periodic timer interrupt repeats (TI/TP) and pulls the
/// interrupt line low (TIE).
pub const TI_TP: u8 = 0x1;
pub const TIE: u8 = 0x1;
pub const CONTROL2_WRITE_DATA: u8 = TI_TP << 4 | TIE;

/// The time written after a loss of power: 2024-06-25 18:42:00, in BCD.
pub const SECONDS_WRITE_DATA: u8 = 0;
pub const MINUTES_WRITE_DATA: u8 = 0x42;
pub const HOURS_WRITE_DATA: u8 = 0x18;
pub const DAYS_WRITE_DATA: u8 = 0x25;
pub const WEEKDAYS_WRITE_DATA: u8 = 0;
pub const MONTHS_CENTURY_WRITE_DATA: u8 = 0x06;
pub const YEARS_WRITE_DATA: u8 = 0x24;

/// Alarms cleared and disabled; clock output off.
pub const ALARM_WRITE_DATA: u8 = 0;
pub const CLKOUT_FREQUENCY_WRITE_DATA: u8 = 0;

/// Timer control: source 1 Hz, enabled or not.
pub const TIMER_CONTROL_WRITE_DATA_TE_ENABLED: u8 = 0x82;
pub const TIMER_CONTROL_WRITE_DATA_TE_DISABLED: u8 = 0x02;
/// One tick of the 1 Hz timer between timer interrupts.
pub const TIMER_DOWN_COUNTER_WRITE_DATA: u8 = 1;

/// A calendar time as the clock holds it; `year` counts from 2000.
#[derive(Clone, Copy, Debug, PartialEq, Eq, Structural)]
pub struct Time {
    pub year: u8,
    pub month: u8,
    pub day: u8,
    pub hour: u8,
    pub minute: u8,
    pub second: u8,
}

/// One byte written to one register of the clock.
#[derive(Clone, Copy, Debug, PartialEq, Eq, Structural)]
pub struct RegisterWrite {
    pub register: u8,
    pub value: u8,
}

/// The binary value of a packed BCD byte: tens in the high nibble, ones in
/// the low nibble.
pub open spec fn bcd_value(b: int) -> int {
    (b / 16) * 10 + b % 16
}

/// The registers of the time, in the order in which a read visits them.
pub open spec fn read_order(i: int) -> u8 {
    if i == 0 {
        SECONDS_REG
    } else if i == 1 {
        MINUTES_REG
    } else if i == 2 {
        HOURS_REG
    } else if i == 3 {
        MONTHS_CENTURY_REG
    } else if i == 4 {
        DAYS_REG
    } else {
        YEARS_REG
    }
}

/// The time held by six register values given in read order. Status and
/// century bits are masked off before each field is decoded.
pub open spec fn time_of(regs: Seq<u8>) -> Time {
    Time {
        second: bcd_value((regs[0] & 0x7f) as int) as u8,
        minute: bcd_value((regs[1] & 0x7f) as int) as u8,
        hour: bcd_value((regs[2] & 0x3f) as int) as u8,
        month: bcd_value((regs[3] & 0x1f) as int) as u8,
        day: bcd_value((regs[4] & 0x3f) as int) as u8,
        year: bcd_value(regs[5] as int) as u8,
    }
}

/// One byte read during a double-read. `pending` holds the bytes of the
/// current attempt: the first pass, then the second. When the second pass is
/// complete the attempt ends; it yields the time only if both passes agree.
pub open spec fn read_step(pending: Seq<u8>, byte: u8) -> (Seq<u8>, Option<Time>) {
    let p = pending.push(byte);
    if p.len() < 12 {
        (p, None)
    } else if p.subrange(0, 6) == p.subrange(6, 12) {
        (Seq::empty(), Some(time_of(p.subrange(0, 6))))
    } else {
        (Seq::empty(), None)
    }
}

/// Feeds `bytes` one by one from `pending`, up to the first time yielded.
pub open spec fn read_run(pending: Seq<u8>, bytes: Seq<u8>) -> (Seq<u8>, Option<Time>)
    decreases bytes.len(),
{
    if bytes.len() == 0 {
        (pending, None)
    } else {
        let (p, r) = read_step(pending, bytes[0]);
        if r is Some {
            (p, r)
        } else {
            read_run(p, bytes.drop_first())
        }
    }
}

/// The writes that reconfigure the clock after a loss of power: stop it,
/// set the control, time, alarm, clock-out and timer registers to their
/// defaults, then restart it and enable the timer.
pub open spec fn reset_writes() -> Seq<RegisterWrite> {
    seq![
        RegisterWrite { register: CONTROL1_REG, value: STOP_THE_CLOCK },
        RegisterWrite { register: CONTROL2_REG, value: CONTROL2_WRITE_DATA },
        RegisterWrite { register: SECONDS_REG, value: SECONDS_WRITE_DATA },
        RegisterWrite { register: MINUTES_REG, value: MINUTES_WRITE_DATA },
        RegisterWrite { register: HOURS_REG, value: HOURS_WRITE_DATA },
        RegisterWrite { register: DAYS_REG, value: DAYS_WRITE_DATA },
        RegisterWrite { register: WEEKDAYS_REG, value: WEEKDAYS_WRITE_DATA },
        RegisterWrite { register: MONTHS_CENTURY_REG, value: MONTHS_CENTURY_WRITE_DATA },
        RegisterWrite { register: YEARS_REG, value: YEARS_WRITE_DATA },
        RegisterWrite { register: MINUTE_ALARM_REG, value: ALARM_WRITE_DATA },
        RegisterWrite { register: HOUR_ALARM_REG, value: ALARM_WRITE_DATA },
        RegisterWrite { register: DAY_ALARM_REG, value: ALARM_WRITE_DATA },
        RegisterWrite { register: WEEKDAY_ALARM_REG, value: ALARM_WRITE_DATA },
        RegisterWrite { register: CLKOUT_FREQUENCY_REG, value: CLKOUT_FREQUENCY_WRITE_DATA },
        RegisterWrite { register: TIMER_CONTROL_REG, value: TIMER_CONTROL_WRITE_DATA_TE_DISABLED },
        RegisterWrite { register: TIMER_DOWN_COUNTER_REG, value: TIMER_DOWN_COUNTER_WRITE_DATA },
        RegisterWrite { register: CONTROL1_REG, value: START_THE_CLOCK },
        RegisterWrite { register: TIMER_CONTROL_REG, value: TIMER_CONTROL_WRITE_DATA_TE_ENABLED },
    ]
}

/// Whether the seconds register reports that the supply voltage dropped, so
/// that the time it holds cannot be trusted.
pub open spec fn low_voltage(seconds_reg: u8) -> bool {
    seconds_reg & VLOW_STATUS == VLOW_STATUS
}

/// Decodes a packed BCD byte.
fn bcd_to_binary(b: u8) -> (r: u8)
    ensures
        r == bcd_value(b as int),
{
    proof {
        assert(b >> 4 == b / 16 && b & 0xf == b % 16) by (bit_vector);
    }
    (b >> 4) * 10 + (b & 0xf)
}

/// The clock: the minute of the last time read, and the bytes of the
/// double-read in progress.
pub struct RTC8564 {
    address: u8,
    minutes: u8,
    pending: Vec<u8>,
}

impl RTC8564 {
    /// The bytes read so far in the current attempt.
    pub closed spec fn pending(&self) -> Seq<u8> {
        self.pending@
    }

    pub closed spec fn minutes(&self) -> u8 {
        self.minutes
    }

    pub closed spec fn bus_address(&self) -> u8 {
        self.address
    }

    #[verifier::type_invariant]
    closed spec fn wf(&self) -> bool {
        self.pending@.len() < 12
    }

    /// A clock at bus address `address`, with no read in progress.
    pub fn new(address: u8) -> (r: RTC8564)
        ensures
            r.bus_address() == address,
            r.minutes() == 0,
            r.pending() == Seq::<u8>::empty(),
    {
        RTC8564 { address, minutes: 0, pending: Vec::new() }
    }

    pub fn address(&self) -> (r: u8)
        ensures
            r == self.bus_address(),
    {
        self.address
    }

    /// Decides start-up from the seconds register. If it reports a loss of
    /// power, the clock is reconfigured and a default time written: the
    /// writes are returned, and the result is `false` ("not previously
    /// running"). Otherwise nothing is written and the result is `true`.
    /// Any read in progress is abandoned; the caller reads the time next.
    pub fn init(&mut self, seconds_reg: u8) -> (r: (bool, Vec<RegisterWrite>))
        ensures
            r.0 == !low_voltage(seconds_reg),
            r.1@ == (if r.0 { Seq::<RegisterWrite>::empty() } else { reset_writes() }),
            final(self).pending() == Seq::<u8>::empty(),
            final(self).minutes() == old(self).minutes(),
            final(self).bus_address() == old(self).bus_address(),
    {
        self.pending = Vec::new();
        let mut writes: Vec<RegisterWrite> = Vec::new();
        if seconds_reg & VLOW_STATUS == VLOW_STATUS {
            writes.push(RegisterWrite { register: CONTROL1_REG, value: STOP_THE_CLOCK });
            writes.push(RegisterWrite { register: CONTROL2_REG, value: CONTROL2_WRITE_DATA });
            writes.push(RegisterWrite { register: SECONDS_REG, value: SECONDS_WRITE_DATA });
            writes.push(RegisterWrite { register: MINUTES_REG, value: MINUTES_WRITE_DATA });
            writes.push(RegisterWrite { register: HOURS_REG, value: HOURS_WRITE_DATA });
            writes.push(RegisterWrite { register: DAYS_REG, value: DAYS_WRITE_DATA });
            writes.push(RegisterWrite { register: WEEKDAYS_REG, value: WEEKDAYS_WRITE_DATA });
            writes.push(
                RegisterWrite { register: MONTHS_CENTURY_REG, value: MONTHS_CENTURY_WRITE_DATA },
            );
            writes.push(RegisterWrite { register: YEARS_REG, value: YEARS_WRITE_DATA });
            writes.push(RegisterWrite { register: MINUTE_ALARM_REG, value: ALARM_WRITE_DATA });
            writes.push(RegisterWrite { register: HOUR_ALARM_REG, value: ALARM_WRITE_DATA });
            writes.push(RegisterWrite { register: DAY_ALARM_REG, value: ALARM_WRITE_DATA });
            writes.push(RegisterWrite { register: WEEKDAY_ALARM_REG, value: ALARM_WRITE_DATA });
            writes.push(
                RegisterWrite {
                    register: CLKOUT_FREQUENCY_REG,
                    value: CLKOUT_FREQUENCY_WRITE_DATA,
                },
            );
            writes.push(
                RegisterWrite {
                    register: TIMER_CONTROL_REG,
                    value: TIMER_CONTROL_WRITE_DATA_TE_DISABLED,
                },
            );
            writes.push(
                RegisterWrite {
                    register: TIMER_DOWN_COUNTER_REG,
                    value: TIMER_DOWN_COUNTER_WRITE_DATA,
                },
            );
            writes.push(RegisterWrite { register: CONTROL1_REG, value: START_THE_CLOCK });
            writes.push(
                RegisterWrite {
                    register: TIMER_CONTROL_REG,
                    value: TIMER_CONTROL_WRITE_DATA_TE_ENABLED,
                },
            );
            assert(writes@ =~= reset_writes());
            (false, writes)
        } else {
            (true, writes)
        }
    }

    /// The register to read next.
    pub fn next_register(&self) -> (r: u8)
        ensures
            r == read_order(self.pending().len() as int % 6),
    {
        let i: usize = self.pending.len() % 6;
        if i == 0 {
            SECONDS_REG
        } else if i == 1 {
            MINUTES_REG
        } else if i == 2 {
            HOURS_REG
        } else if i == 3 {
            MONTHS_CENTURY_REG
        } else if i == 4 {
            DAYS_REG
        } else {
            YEARS_REG
        }
    }

    /// Takes the byte read from the register that `next_register` named.
    /// After two full passes the attempt ends: if they agree byte for byte,
    /// the time they hold is returned and its minute recorded; otherwise
    /// both are discarded and the next attempt starts.
    pub fn read_date_time(&mut self, value: u8) -> (r: Option<Time>)
        ensures
            (final(self).pending(), r) == read_step(old(self).pending(), value),
            final(self).minutes() == (match r {
                Some(t) => t.minute,
                None => old(self).minutes(),
            }),
            final(self).bus_address() == old(self).bus_address(),
    {
        proof {
            use_type_invariant(&*self);
        }
        let mut pending: Vec<u8> = Vec::new();
        std::mem::swap(&mut pending, &mut self.pending);
        pending.push(value);
        if pending.len() < 12 {
            self.pending = pending;
            return None;
        }
        let p = &pending;
        let agree = p[0] == p[6] && p[1] == p[7] && p[2] == p[8] && p[3] == p[9] && p[4] == p[10]
            && p[5] == p[11];
        let ghost first = p@.subrange(0, 6);
        let ghost second = p@.subrange(6, 12);
        assert(agree == (first == second)) by {
            if agree {
                assert(first =~= second);
            }
            if first == second {
                assert(first[0] == second[0] && first[1] == second[1] && first[2] == second[2]);
                assert(first[3] == second[3] && first[4] == second[4] && first[5] == second[5]);
            }
        }
        let r = if agree {
            let t = Time {
                second: bcd_to_binary(p[0] & 0x7f),
                minute: bcd_to_binary(p[1] & 0x7f),
                hour: bcd_to_binary(p[2] & 0x3f),
                month: bcd_to_binary(p[3] & 0x1f),
                day: bcd_to_binary(p[4] & 0x3f),
                year: bcd_to_binary(p[5]),
            };
            self.minutes = t.minute;
            Some(t)
        } else {
            None
        };
        r
    }

    /// The minute of the last time read.
    pub fn get_minutes(&self) -> (r: u8)
        ensures
            r == self.minutes(),
    {
        self.minutes
    }
}

} // verus!

verus! {

/// Bytes that cannot end an attempt may be fed one by one or all at once.
proof fn lemma_read_run_prefix(p: Seq<u8>, s: Seq<u8>, rest: Seq<u8>)
    requires
        p.len() + s.len() < 12,
    ensures
        read_run(p, s + rest) == read_run(p + s, rest),
    decreases s.len(),
{
    if s.len() == 0 {
        assert(s + rest =~= rest);
        assert(p + s =~= p);
    } else {
        let longer = p.push(s[0]);
        assert((s + rest)[0] == s[0]);
        assert((s + rest).drop_first() =~= s.drop_first() + rest);
        lemma_read_run_prefix(longer, s.drop_first(), rest);
        assert(longer + s.drop_first() =~= p + s);
    }
}

/// One full attempt from a fresh start: passes `a` and `b`, then `rest`.
proof fn lemma_read_attempt(a: Seq<u8>, b: Seq<u8>, rest: Seq<u8>)
    requires
        a.len() == 6,
        b.len() == 6,
    ensures
        read_run(Seq::empty(), a + b + rest) == (if a == b {
            (Seq::<u8>::empty(), Some(time_of(a)))
        } else {
            read_run(Seq::empty(), rest)
        }),
{
    let ab = a + b;
    let s = ab.take(11);
    let tail = seq![ab[11]] + rest;
    assert(a + b + rest =~= s + tail);
    lemma_read_run_prefix(Seq::empty(), s, tail);
    assert(Seq::<u8>::empty() + s =~= s);
    assert(tail[0] == ab[11]);
    let p = s.push(ab[11]);
    assert(p =~= ab);
    assert(p.subrange(0, 6) =~= a);
    assert(p.subrange(6, 12) =~= b);
    assert(tail.drop_first() =~= rest);
}

/// While the registers hold still, every read returns the time they hold,
/// and leaves the clock ready to read it again in the same way.
pub proof fn lemma_static_registers_read_stable(regs: Seq<u8>)
    requires
        regs.len() == 6,
    ensures
        read_run(Seq::empty(), regs + regs) == (Seq::<u8>::empty(), Some(time_of(regs))),
        read_run(read_run(Seq::empty(), regs + regs).0, regs + regs) == read_run(
            Seq::empty(),
            regs + regs,
        ),
{
    lemma_read_attempt(regs, regs, Seq::empty());
    assert(regs + regs + Seq::<u8>::empty() =~= regs + regs);
}

/// Registers that change once, between the first pass and the second, and
/// then hold still: the read returns the time after the change, never one
/// assembled from both register sets.
pub proof fn lemma_read_after_change(before: Seq<u8>, after: Seq<u8>)
    requires
        before.len() == 6,
        after.len() == 6,
    ensures
        read_run(Seq::empty(), before + after + after + after) == (
            Seq::<u8>::empty(),
            Some(time_of(after)),
        ),
{
    assert(before + after + after + after =~= before + after + (after + after));
    lemma_read_attempt(before, after, after + after);
    lemma_read_attempt(after, after, Seq::empty());
    assert(after + after + Seq::<u8>::empty() =~= after + after);
}

} // verus!
