//! The menu on the SC2004 20x4 character display: the top menu, the sensor
//! screen, and the clock-setting screen with its twelve-digit edit buffer.
//!
//! Each pass takes the button event of the main-loop iteration and returns a
//! `Frame`: the display commands to send and the clock registers to write.
//! What each pass does is stated by a spec function (`top_step`,
//! `elements_step`, `date_time_step`) over a model of the controller.
use vstd::prelude::*;

use crate::lcd::{
    Frame, LcdOp, DDRAM_ADDRESS_FIRST, DDRAM_ADDRESS_FOURTH, DDRAM_ADDRESS_SECOND,
    DDRAM_ADDRESS_THIRD,
};
use crate::readings::{large_field, push_large_field, push_small_field, small_field, Readings};
use crate::rtc8564::{
    RegisterWrite, Time, CONTROL1_REG, DAYS_REG, HOURS_REG, MINUTES_REG, MONTHS_CENTURY_REG,
    SECONDS_REG, START_THE_CLOCK, STOP_THE_CLOCK, WEEKDAYS_REG, YEARS_REG,
};
use crate::text::{ascii, digit_char, is_digit_char, push_text, push_two_digits, text_bytes, two_digits};
use crate::{ScreenState, SW};

verus! {

/// Where the date and time start on the third row of the clock-setting
/// screen, past the fixed "20" of the year.
pub const DDRAM_ADDRESS_SET_DATE_TIME_TOP: u8 = DDRAM_ADDRESS_THIRD + 2;

/// The display's character code for the degree sign.
pub const DEGREE_SIGN_CODE: u8 = 0xdf;

/// The controller's state as a mathematical value.
#[verifier::ext_equal]
pub ghost struct ScreenModel {
    /// Highlighted item of the top menu, 0 or 1.
    pub position: u8,
    pub top_initialized: bool,
    pub set_date_time_initialized: bool,
    /// Cursor over the edit buffer, 0 to 11.
    pub set_position: int,
    /// The edit buffer changed and its line is to be drawn again.
    pub set_date_time_up_down: bool,
    /// The edit buffer: year, month, day, hour, minute and second, each as a
    /// tens digit and a ones digit, in ASCII.
    pub digits: Seq<u8>,
}

impl ScreenModel {
    pub open spec fn wf(self) -> bool {
        &&& self.position < 2
        &&& 0 <= self.set_position < 12
        &&& self.digits.len() == 12
        &&& forall|i: int| 0 <= i < 12 ==> is_digit_char(#[trigger] self.digits[i])
    }
}

/// What one pass does: the controller's next state, the display commands,
/// the clock register writes and the screen shown next.
pub ghost struct Step {
    pub model: ScreenModel,
    pub ops: Seq<LcdOp>,
    pub writes: Seq<RegisterWrite>,
    pub state: ScreenState,
}

/// A pass left `model` and `state` and returned `frame`, as `step` says.
pub open spec fn produced(step: Step, model: ScreenModel, state: ScreenState, frame: Frame) -> bool {
    &&& model == step.model
    &&& state == step.state
    &&& frame.ops() == step.ops
    &&& frame.rtc@ == step.writes
}

pub open spec fn blank_row() -> Seq<u8> {
    ascii("                    "@)
}

/// Row address of a top-menu item.
pub open spec fn item_address(position: u8) -> u8 {
    if position == 0 {
        DDRAM_ADDRESS_SECOND
    } else {
        DDRAM_ADDRESS_THIRD
    }
}

pub open spec fn top_menu_ops() -> Seq<LcdOp> {
    seq![
        LcdOp::MoveTo(DDRAM_ADDRESS_FIRST),
        LcdOp::Write(ascii(" Select Item        "@)),
        LcdOp::MoveTo(DDRAM_ADDRESS_SECOND),
        LcdOp::Write(ascii("1.Display elements  "@)),
        LcdOp::MoveTo(DDRAM_ADDRESS_THIRD),
        LcdOp::Write(ascii("2.Set Date Time     "@)),
        LcdOp::MoveTo(DDRAM_ADDRESS_FOURTH),
        LcdOp::Write(blank_row()),
        LcdOp::MoveTo(DDRAM_ADDRESS_SECOND),
        LcdOp::ShowCursor(true),
    ]
}

/// The edit cursor one cell to the left, from the first cell to the last.
pub open spec fn cursor_left(p: int) -> int {
    if p == 0 {
        11
    } else {
        p - 1
    }
}

/// The edit cursor one cell to the right, from the last cell to the first.
pub open spec fn cursor_right(p: int) -> int {
    if p == 11 {
        0
    } else {
        p + 1
    }
}

/// A digit cell after `Up`: the next digit, from '9' to '0'.
pub open spec fn digit_up(c: u8) -> u8 {
    if c == 57 {
        48
    } else {
        (c + 1) as u8
    }
}

/// A digit cell after `Down`: the previous digit, from '0' to '9'.
pub open spec fn digit_down(c: u8) -> u8 {
    if c == 48 {
        57
    } else {
        (c - 1) as u8
    }
}

/// Column of each edit cell past `DDRAM_ADDRESS_SET_DATE_TIME_TOP`: two
/// digits per field, with the separator between fields skipped.
pub open spec fn cursor_columns() -> Seq<u8> {
    seq![0u8, 1, 3, 4, 6, 7, 9, 10, 12, 13, 15, 16]
}

/// The edit buffer's digits of a time.
pub open spec fn digits_of(t: Time) -> Seq<u8> {
    two_digits(t.year as int) + two_digits(t.month as int) + two_digits(t.day as int)
        + two_digits(t.hour as int) + two_digits(t.minute as int) + two_digits(t.second as int)
}

/// The edit buffer as "YY/MM/DD hh:mm:ss".
pub open spec fn edit_line(d: Seq<u8>) -> Seq<u8> {
    seq![
        d[0],
        d[1],
        47u8,
        d[2],
        d[3],
        47u8,
        d[4],
        d[5],
        32u8,
        d[6],
        d[7],
        58u8,
        d[8],
        d[9],
        58u8,
        d[10],
        d[11],
    ]
}

/// A time as "20YY/MM/DD hh:mm:ss".
pub open spec fn date_line(t: Time) -> Seq<u8> {
    ascii("20"@) + edit_line(digits_of(t))
}

pub open spec fn date_time_ops(t: Time) -> Seq<LcdOp> {
    seq![LcdOp::MoveTo(DDRAM_ADDRESS_FIRST), LcdOp::Write(date_line(t))]
}

/// The temperature row: "Temp:   " then the value, a degree sign and "C".
pub open spec fn temperature_row(x: u32) -> Seq<u8> {
    ascii("Temp:   "@) + small_field(x as int) + seq![32u8, DEGREE_SIGN_CODE] + ascii(
        "C     "@,
    )
}

/// The humidity row: "Humi:   " then the value and "%".
pub open spec fn humidity_row(x: u32) -> Seq<u8> {
    ascii("Humi:   "@) + small_field(x as int) + ascii(" %      "@)
}

/// The pressure row: "Pres: " then the four-digit value and "hPa".
pub open spec fn pressure_row(x: u32) -> Seq<u8> {
    ascii("Pres: "@) + large_field(x as int) + ascii(" hPa    "@)
}

pub open spec fn elements_ops(t: Time, r: Readings) -> Seq<LcdOp> {
    date_time_ops(t) + seq![
        LcdOp::MoveTo(DDRAM_ADDRESS_SECOND),
        LcdOp::Write(temperature_row(r.temperature)),
        LcdOp::MoveTo(DDRAM_ADDRESS_THIRD),
        LcdOp::Write(humidity_row(r.humidity)),
        LcdOp::MoveTo(DDRAM_ADDRESS_FOURTH),
        LcdOp::Write(pressure_row(r.pressure)),
        LcdOp::ShowCursor(false),
    ]
}

pub open spec fn date_time_entry_ops(t: Time) -> Seq<LcdOp> {
    seq![
        LcdOp::MoveTo(DDRAM_ADDRESS_FIRST),
        LcdOp::Write(ascii(" Set Date Time      "@)),
        LcdOp::MoveTo(DDRAM_ADDRESS_SECOND),
        LcdOp::Write(blank_row()),
        LcdOp::MoveTo(DDRAM_ADDRESS_FOURTH),
        LcdOp::Write(blank_row()),
        LcdOp::ShowCursor(true),
        LcdOp::MoveTo(DDRAM_ADDRESS_THIRD),
        LcdOp::Write(date_line(t)),
    ]
}

/// Two ASCII digits packed as one BCD byte.
pub open spec fn bcd_pair(tens: u8, ones: u8) -> u8 {
    ((tens - 48) * 16 + (ones - 48)) as u8
}

/// The writes that commit the edit buffer: stop the clock, write seconds,
/// minutes, hours, day, a zero weekday, month and year, restart the clock.
pub open spec fn commit_writes(d: Seq<u8>) -> Seq<RegisterWrite> {
    seq![
        RegisterWrite { register: CONTROL1_REG, value: STOP_THE_CLOCK },
        RegisterWrite { register: SECONDS_REG, value: bcd_pair(d[10], d[11]) },
        RegisterWrite { register: MINUTES_REG, value: bcd_pair(d[8], d[9]) },
        RegisterWrite { register: HOURS_REG, value: bcd_pair(d[6], d[7]) },
        RegisterWrite { register: DAYS_REG, value: bcd_pair(d[4], d[5]) },
        RegisterWrite { register: WEEKDAYS_REG, value: 0 },
        RegisterWrite { register: MONTHS_CENTURY_REG, value: bcd_pair(d[2], d[3]) },
        RegisterWrite { register: YEARS_REG, value: bcd_pair(d[0], d[1]) },
        RegisterWrite { register: CONTROL1_REG, value: START_THE_CLOCK },
    ]
}

/// A pass of the top menu. On first entry the menu is drawn. `Down` and
/// `Up` move the highlight between the two items; `Center` opens the sensor
/// screen from item 0 and the clock-setting screen from item 1, and arms
/// the menu to be drawn again; `Left` and `Right` move the edit cursor.
pub open spec fn top_step(m: ScreenModel, ev: SW, st: ScreenState) -> Step {
    let m1 = ScreenModel { top_initialized: true, ..m };
    let ops1 = if m.top_initialized {
        Seq::<LcdOp>::empty()
    } else {
        top_menu_ops()
    };
    let none = Seq::<RegisterWrite>::empty();
    match ev {
        SW::Center => Step {
            model: ScreenModel { top_initialized: false, ..m1 },
            ops: ops1,
            writes: none,
            state: if m1.position == 0 {
                ScreenState::Elements
            } else {
                ScreenState::SetDateTime
            },
        },
        SW::Left => Step {
            model: ScreenModel { set_position: cursor_left(m1.set_position), ..m1 },
            ops: ops1,
            writes: none,
            state: st,
        },
        SW::Right => Step {
            model: ScreenModel { set_position: cursor_right(m1.set_position), ..m1 },
            ops: ops1,
            writes: none,
            state: st,
        },
        SW::NoEvent => Step {
            model: m1,
            ops: ops1.push(LcdOp::MoveTo(item_address(m1.position))),
            writes: none,
            state: st,
        },
        _ => {
            let p: u8 = if m1.position == 0 {
                1
            } else {
                0
            };
            Step {
                model: ScreenModel { position: p, ..m1 },
                ops: ops1.push(LcdOp::MoveTo(item_address(p))),
                writes: none,
                state: st,
            }
        },
    }
}

/// A pass of the sensor screen: the time and the three readings are drawn
/// and the cursor hidden. Any button goes back to the top menu and shows
/// the cursor again.
pub open spec fn elements_step(m: ScreenModel, ev: SW, t: Time, r: Readings, st: ScreenState) -> Step {
    if ev == SW::NoEvent {
        Step { model: m, ops: elements_ops(t, r), writes: Seq::empty(), state: st }
    } else {
        Step {
            model: m,
            ops: elements_ops(t, r).push(LcdOp::ShowCursor(true)),
            writes: Seq::empty(),
            state: ScreenState::Top,
        }
    }
}

/// A pass of the clock-setting screen. On first entry the screen is drawn
/// and the edit buffer filled from `t`. A buffer changed by the last pass
/// is drawn again; then the cursor is placed on the current cell, and the
/// event is handled: `Left` on the first cell cancels back to the top menu,
/// elsewhere it moves left; `Right` moves right, from the last cell to the
/// first; `Up` and `Down` step the current digit; `Center` writes the
/// buffer to the clock and goes back to the top menu.
#[verifier::opaque]
pub open spec fn date_time_step(m: ScreenModel, ev: SW, t: Time, st: ScreenState) -> Step {
    let m1 = if m.set_date_time_initialized {
        m
    } else {
        ScreenModel { set_date_time_initialized: true, digits: digits_of(t), ..m }
    };
    let ops1 = if m.set_date_time_initialized {
        Seq::<LcdOp>::empty()
    } else {
        date_time_entry_ops(t)
    };
    let m2 = ScreenModel { set_date_time_up_down: false, ..m1 };
    let ops2 = if m1.set_date_time_up_down {
        ops1 + seq![
            LcdOp::MoveTo(DDRAM_ADDRESS_SET_DATE_TIME_TOP),
            LcdOp::Write(edit_line(m1.digits)),
        ]
    } else {
        ops1
    };
    let p = m2.set_position;
    let ops = ops2.push(
        LcdOp::MoveTo((DDRAM_ADDRESS_SET_DATE_TIME_TOP + cursor_columns()[p]) as u8),
    );
    let none = Seq::<RegisterWrite>::empty();
    match ev {
        SW::NoEvent => Step { model: m2, ops, writes: none, state: st },
        SW::Left => if p == 0 {
            Step {
                model: ScreenModel { set_date_time_initialized: false, ..m2 },
                ops,
                writes: none,
                state: ScreenState::Top,
            }
        } else {
            Step { model: ScreenModel { set_position: p - 1, ..m2 }, ops, writes: none, state: st }
        },
        SW::Right => Step {
            model: ScreenModel { set_position: cursor_right(p), ..m2 },
            ops,
            writes: none,
            state: st,
        },
        SW::Center => Step {
            model: ScreenModel { set_date_time_initialized: false, ..m2 },
            ops,
            writes: commit_writes(m2.digits),
            state: ScreenState::Top,
        },
        SW::Up => Step {
            model: ScreenModel {
                set_date_time_up_down: true,
                digits: m2.digits.update(p, digit_up(m2.digits[p])),
                ..m2
            },
            ops,
            writes: none,
            state: st,
        },
        SW::Down => Step {
            model: ScreenModel {
                set_date_time_up_down: true,
                digits: m2.digits.update(p, digit_down(m2.digits[p])),
                ..m2
            },
            ops,
            writes: none,
            state: st,
        },
    }
}

/// A pass of whichever screen `st` names.
pub open spec fn display_step(m: ScreenModel, st: ScreenState, ev: SW, t: Time, r: Readings) -> Step {
    match st {
        ScreenState::Top => top_step(m, ev, st),
        ScreenState::Elements => elements_step(m, ev, t, r, st),
        ScreenState::SetDateTime => date_time_step(m, ev, t, st),
    }
}

} // verus!

verus! {

/// The menu controller.
pub struct SC2004 {
    position: u8,
    top_initialized: bool,
    set_date_time_initialized: bool,
    set_position: usize,
    set_date_time_up_down: bool,
    digits: Vec<u8>,
}

impl View for SC2004 {
    type V = ScreenModel;

    closed spec fn view(&self) -> ScreenModel {
        ScreenModel {
            position: self.position,
            top_initialized: self.top_initialized,
            set_date_time_initialized: self.set_date_time_initialized,
            set_position: self.set_position as int,
            set_date_time_up_down: self.set_date_time_up_down,
            digits: self.digits@,
        }
    }
}

fn menu_item_address(position: u8) -> (a: u8)
    ensures
        a == item_address(position),
{
    if position == 0 {
        DDRAM_ADDRESS_SECOND
    } else {
        DDRAM_ADDRESS_THIRD
    }
}

fn blank_row_bytes() -> (r: Vec<u8>)
    ensures
        r@ == blank_row(),
{
    proof {
        reveal_strlit("                    ");
    }
    text_bytes("                    ")
}

fn render_top_menu(frame: &mut Frame)
    ensures
        final(frame).ops() == old(frame).ops() + top_menu_ops(),
        final(frame).rtc == old(frame).rtc,
{
    proof {
        reveal_strlit(" Select Item        ");
        reveal_strlit("1.Display elements  ");
        reveal_strlit("2.Set Date Time     ");
    }
    frame.move_to(DDRAM_ADDRESS_FIRST);
    frame.write(text_bytes(" Select Item        "));
    frame.move_to(DDRAM_ADDRESS_SECOND);
    frame.write(text_bytes("1.Display elements  "));
    frame.move_to(DDRAM_ADDRESS_THIRD);
    frame.write(text_bytes("2.Set Date Time     "));
    frame.move_to(DDRAM_ADDRESS_FOURTH);
    frame.write(blank_row_bytes());
    frame.move_to(DDRAM_ADDRESS_SECOND);
    frame.show_cursor(true);
    assert(frame.ops() =~= old(frame).ops() + top_menu_ops());
}

proof fn lemma_two_digits_are_digits(v: int)
    requires
        v >= 0,
    ensures
        two_digits(v).len() == 2,
        is_digit_char(two_digits(v)[0]),
        is_digit_char(two_digits(v)[1]),
{
}

/// The edit buffer's digits of a time.
fn time_digits(t: &Time) -> (r: Vec<u8>)
    ensures
        r@ == digits_of(*t),
        r@.len() == 12,
        forall|i: int| 0 <= i < 12 ==> is_digit_char(#[trigger] r@[i]),
{
    let mut r: Vec<u8> = Vec::new();
    push_two_digits(&mut r, t.year);
    push_two_digits(&mut r, t.month);
    push_two_digits(&mut r, t.day);
    push_two_digits(&mut r, t.hour);
    push_two_digits(&mut r, t.minute);
    push_two_digits(&mut r, t.second);
    proof {
        lemma_two_digits_are_digits(t.year as int);
        lemma_two_digits_are_digits(t.month as int);
        lemma_two_digits_are_digits(t.day as int);
        lemma_two_digits_are_digits(t.hour as int);
        lemma_two_digits_are_digits(t.minute as int);
        lemma_two_digits_are_digits(t.second as int);
        assert(r@ =~= digits_of(*t));
    }
    r
}

/// Appends `edit_line(d)`.
fn push_edit_line(out: &mut Vec<u8>, d: &Vec<u8>)
    requires
        d@.len() == 12,
    ensures
        final(out)@ == old(out)@ + edit_line(d@),
{
    out.push(d[0]);
    out.push(d[1]);
    out.push(47);
    out.push(d[2]);
    out.push(d[3]);
    out.push(47);
    out.push(d[4]);
    out.push(d[5]);
    out.push(32);
    out.push(d[6]);
    out.push(d[7]);
    out.push(58);
    out.push(d[8]);
    out.push(d[9]);
    out.push(58);
    out.push(d[10]);
    out.push(d[11]);
    assert(final(out)@ =~= old(out)@ + edit_line(d@));
}

fn edit_line_bytes(d: &Vec<u8>) -> (r: Vec<u8>)
    requires
        d@.len() == 12,
    ensures
        r@ == edit_line(d@),
{
    let mut r: Vec<u8> = Vec::new();
    push_edit_line(&mut r, d);
    assert(r@ =~= edit_line(d@));
    r
}

fn date_line_bytes(t: &Time) -> (r: Vec<u8>)
    ensures
        r@ == date_line(*t),
{
    proof {
        reveal_strlit("20");
    }
    let mut r = text_bytes("20");
    let d = time_digits(t);
    push_edit_line(&mut r, &d);
    r
}

fn temperature_row_bytes(x: u32) -> (r: Vec<u8>)
    ensures
        r@ == temperature_row(x),
{
    proof {
        reveal_strlit("Temp:   ");
        reveal_strlit("C     ");
    }
    let mut r = text_bytes("Temp:   ");
    push_small_field(&mut r, x);
    r.push(32);
    r.push(DEGREE_SIGN_CODE);
    push_text(&mut r, "C     ");
    assert(r@ =~= temperature_row(x));
    r
}

fn humidity_row_bytes(x: u32) -> (r: Vec<u8>)
    ensures
        r@ == humidity_row(x),
{
    proof {
        reveal_strlit("Humi:   ");
        reveal_strlit(" %      ");
    }
    let mut r = text_bytes("Humi:   ");
    push_small_field(&mut r, x);
    push_text(&mut r, " %      ");
    r
}

fn pressure_row_bytes(x: u32) -> (r: Vec<u8>)
    ensures
        r@ == pressure_row(x),
{
    proof {
        reveal_strlit("Pres: ");
        reveal_strlit(" hPa    ");
    }
    let mut r = text_bytes("Pres: ");
    push_large_field(&mut r, x);
    push_text(&mut r, " hPa    ");
    r
}

fn render_date_time_entry(frame: &mut Frame, t: &Time)
    ensures
        final(frame).ops() == old(frame).ops() + date_time_entry_ops(*t),
        final(frame).rtc == old(frame).rtc,
{
    proof {
        reveal_strlit(" Set Date Time      ");
    }
    frame.move_to(DDRAM_ADDRESS_FIRST);
    frame.write(text_bytes(" Set Date Time      "));
    frame.move_to(DDRAM_ADDRESS_SECOND);
    frame.write(blank_row_bytes());
    frame.move_to(DDRAM_ADDRESS_FOURTH);
    frame.write(blank_row_bytes());
    frame.show_cursor(true);
    frame.move_to(DDRAM_ADDRESS_THIRD);
    frame.write(date_line_bytes(t));
    assert(frame.ops() =~= old(frame).ops() + date_time_entry_ops(*t));
}

/// Packs two ASCII digits as one BCD byte.
fn pack_bcd(tens: u8, ones: u8) -> (r: u8)
    requires
        is_digit_char(tens),
        is_digit_char(ones),
    ensures
        r == bcd_pair(tens, ones),
{
    (tens - 48) * 16 + (ones - 48)
}

fn push_commit_writes(frame: &mut Frame, d: &Vec<u8>)
    requires
        d@.len() == 12,
        forall|i: int| 0 <= i < 12 ==> is_digit_char(#[trigger] d@[i]),
    ensures
        final(frame).ops() == old(frame).ops(),
        final(frame).rtc@ == old(frame).rtc@ + commit_writes(d@),
{
    frame.write_register(CONTROL1_REG, STOP_THE_CLOCK);
    frame.write_register(SECONDS_REG, pack_bcd(d[10], d[11]));
    frame.write_register(MINUTES_REG, pack_bcd(d[8], d[9]));
    frame.write_register(HOURS_REG, pack_bcd(d[6], d[7]));
    frame.write_register(DAYS_REG, pack_bcd(d[4], d[5]));
    frame.write_register(WEEKDAYS_REG, 0);
    frame.write_register(MONTHS_CENTURY_REG, pack_bcd(d[2], d[3]));
    frame.write_register(YEARS_REG, pack_bcd(d[0], d[1]));
    frame.write_register(CONTROL1_REG, START_THE_CLOCK);
    assert(frame.rtc@ =~= old(frame).rtc@ + commit_writes(d@));
}

/// The next digit, from '9' to '0'.
pub fn increment_digit(c: u8) -> (r: u8)
    requires
        is_digit_char(c),
    ensures
        r == digit_up(c),
        is_digit_char(r),
{
    if c == 57 {
        48
    } else {
        c + 1
    }
}

/// The previous digit, from '0' to '9'.
pub fn decrement_digit(c: u8) -> (r: u8)
    requires
        is_digit_char(c),
    ensures
        r == digit_down(c),
        is_digit_char(r),
{
    if c == 48 {
        57
    } else {
        c - 1
    }
}

/// Column of edit cell `p` past `DDRAM_ADDRESS_SET_DATE_TIME_TOP`.
fn cursor_column(p: usize) -> (c: u8)
    requires
        p < 12,
    ensures
        c == cursor_columns()[p as int],
        c <= 16,
{
    let move_cursor_pos: [u8; 12] = [0, 1, 3, 4, 6, 7, 9, 10, 12, 13, 15, 16];
    assert(move_cursor_pos@ =~= cursor_columns());
    move_cursor_pos[p]
}

impl SC2004 {
    #[verifier::type_invariant]
    closed spec fn wf(&self) -> bool {
        self@.wf()
    }

    /// A controller on the top menu, not yet drawn, with the first item
    /// highlighted, the edit cursor on the first cell and the edit buffer
    /// holding 00/01/01 00:00:00.
    pub fn new() -> (r: SC2004)
        ensures
            r@.wf(),
            r@.position == 0,
            !r@.top_initialized,
            !r@.set_date_time_initialized,
            r@.set_position == 0,
            !r@.set_date_time_up_down,
            r@.digits == seq![48u8, 48, 48, 49, 48, 49, 48, 48, 48, 48, 48, 48],
    {
        let digits: Vec<u8> = vec![48, 48, 48, 49, 48, 49, 48, 48, 48, 48, 48, 48];
        let r = SC2004 {
            position: 0,
            top_initialized: false,
            set_date_time_initialized: false,
            set_position: 0,
            set_date_time_up_down: false,
            digits,
        };
        assert(r@.digits =~= seq![48u8, 48, 48, 49, 48, 49, 48, 48, 48, 48, 48, 48]);
        r
    }

    /// Puts digit `c` in cell `p` of the edit buffer.
    fn set_digit(&mut self, p: usize, c: u8)
        requires
            p < 12,
            is_digit_char(c),
        ensures
            final(self)@ == (ScreenModel { digits: old(self)@.digits.update(p as int, c), ..old(self)@ }),
    {
        proof {
            use_type_invariant(&*self);
        }
        let mut digits: Vec<u8> = self.digits.clone();
        assert(digits@ =~= self.digits@);
        digits[p] = c;
        self.digits = digits;
        assert(self@ =~= ScreenModel { digits: old(self)@.digits.update(p as int, c), ..old(self)@ });
    }

    /// One pass of the top menu; see `top_step`.
    pub fn set_top(&mut self, event: SW, state: &mut ScreenState) -> (r: Frame)
        ensures
            final(self)@.wf(),
            produced(top_step(old(self)@, event, *old(state)), final(self)@, *final(state), r),
    {
        proof {
            use_type_invariant(&*self);
        }
        let mut frame = Frame::new();
        if !self.top_initialized {
            self.top_initialized = true;
            render_top_menu(&mut frame);
        }
        match event {
            SW::NoEvent => {
                frame.move_to(menu_item_address(self.position));
            },
            SW::Center => {
                if self.position == 0 {
                    *state = ScreenState::Elements;
                } else {
                    *state = ScreenState::SetDateTime;
                }
                self.top_initialized = false;
            },
            SW::Left => {
                self.set_position = if self.set_position == 0 {
                    11
                } else {
                    self.set_position - 1
                };
            },
            SW::Right => {
                self.set_position = if self.set_position == 11 {
                    0
                } else {
                    self.set_position + 1
                };
            },
            SW::Down | SW::Up => {
                self.position = if self.position == 0 {
                    1
                } else {
                    0
                };
                frame.move_to(menu_item_address(self.position));
            },
        }
        proof {
            let s = top_step(old(self)@, event, *old(state));
            assert(self@ =~= s.model);
            assert(frame.ops() =~= s.ops);
            assert(frame.rtc@ =~= s.writes);
        }
        frame
    }

    /// Draws the time on the first row.
    pub fn display_date_time(&self, now: &Time) -> (r: Frame)
        ensures
            r.ops() == date_time_ops(*now),
            r.rtc@ == Seq::<RegisterWrite>::empty(),
    {
        let mut frame = Frame::new();
        frame.move_to(DDRAM_ADDRESS_FIRST);
        frame.write(date_line_bytes(now));
        assert(frame.ops() =~= date_time_ops(*now));
        frame
    }

    /// One pass of the sensor screen; see `elements_step`.
    pub fn set_elements(
        &mut self,
        event: SW,
        now: &Time,
        readings: &Readings,
        state: &mut ScreenState,
    ) -> (r: Frame)
        ensures
            final(self)@.wf(),
            produced(
                elements_step(old(self)@, event, *now, *readings, *old(state)),
                final(self)@,
                *final(state),
                r,
            ),
    {
        proof {
            use_type_invariant(&*self);
        }
        let mut frame = self.display_date_time(now);
        frame.move_to(DDRAM_ADDRESS_SECOND);
        frame.write(temperature_row_bytes(readings.temperature));
        frame.move_to(DDRAM_ADDRESS_THIRD);
        frame.write(humidity_row_bytes(readings.humidity));
        frame.move_to(DDRAM_ADDRESS_FOURTH);
        frame.write(pressure_row_bytes(readings.pressure));
        frame.show_cursor(false);
        assert(frame.ops() =~= elements_ops(*now, *readings));
        if event != SW::NoEvent {
            *state = ScreenState::Top;
            frame.show_cursor(true);
        }
        frame
    }

    /// One pass of the clock-setting screen; see `date_time_step`.
    pub fn set_date_time(&mut self, event: SW, now: &Time, state: &mut ScreenState) -> (r: Frame)
        ensures
            final(self)@.wf(),
            produced(date_time_step(old(self)@, event, *now, *old(state)), final(self)@, *final(state), r),
    {
        proof {
            use_type_invariant(&*self);
        }
        let mut frame = Frame::new();
        if !self.set_date_time_initialized {
            self.set_date_time_initialized = true;
            self.digits = time_digits(now);
            render_date_time_entry(&mut frame, now);
        }
        let ghost m1 = self@;
        let ghost ops1 = frame.ops();
        if self.set_date_time_up_down {
            self.set_date_time_up_down = false;
            frame.move_to(DDRAM_ADDRESS_SET_DATE_TIME_TOP);
            frame.write(edit_line_bytes(&self.digits));
            assert(frame.ops() =~= ops1 + seq![
                LcdOp::MoveTo(DDRAM_ADDRESS_SET_DATE_TIME_TOP),
                LcdOp::Write(edit_line(m1.digits)),
            ]);
        }
        let p = self.set_position;
        frame.move_to(DDRAM_ADDRESS_SET_DATE_TIME_TOP + cursor_column(p));
        match event {
            SW::NoEvent => {},
            SW::Left => {
                if p == 0 {
                    *state = ScreenState::Top;
                    self.set_date_time_initialized = false;
                } else {
                    self.set_position = p - 1;
                }
            },
            SW::Center => {
                self.set_date_time_initialized = false;
                push_commit_writes(&mut frame, &self.digits);
                *state = ScreenState::Top;
            },
            SW::Right => {
                self.set_position = if p == 11 {
                    0
                } else {
                    p + 1
                };
            },
            SW::Up => {
                self.set_date_time_up_down = true;
                let c = increment_digit(self.digits[p]);
                self.set_digit(p, c);
            },
            SW::Down => {
                self.set_date_time_up_down = true;
                let c = decrement_digit(self.digits[p]);
                self.set_digit(p, c);
            },
        }
        proof {
            reveal(date_time_step);
            let s = date_time_step(old(self)@, event, *now, *old(state));
            assert(self@ =~= s.model);
            assert(frame.rtc@ =~= s.writes);
        }
        frame
    }
}

/// One pass of the screen that `state` names, with the event of this
/// main-loop iteration, the time just read and the latest readings.
pub fn lcd_display(
    lcd: &mut SC2004,
    state: &mut ScreenState,
    event: SW,
    now: &Time,
    readings: &Readings,
) -> (r: Frame)
    ensures
        final(lcd)@.wf(),
        produced(display_step(old(lcd)@, *old(state), event, *now, *readings), final(lcd)@, *final(state), r),
{
    match *state {
        ScreenState::Top => lcd.set_top(event, state),
        ScreenState::Elements => lcd.set_elements(event, now, readings, state),
        ScreenState::SetDateTime => lcd.set_date_time(event, now, state),
    }
}

} // verus!

verus! {

/// `Up` on '9' gives '0' and `Down` on '0' gives '9'; on any other digit
/// each moves by exactly one. Either stays a digit, and each undoes the
/// other.
pub proof fn lemma_digit_wraps(c: u8)
    requires
        is_digit_char(c),
    ensures
        digit_up(57) == 48,
        digit_down(48) == 57,
        c != 57 ==> digit_up(c) == c + 1,
        c != 48 ==> digit_down(c) == c - 1,
        is_digit_char(digit_up(c)),
        is_digit_char(digit_down(c)),
        digit_down(digit_up(c)) == c,
        digit_up(digit_down(c)) == c,
{
}

/// On the clock-setting screen, `Left` on the first cell goes back to the
/// top menu and writes no register; `Left` on any other cell moves one cell
/// left; `Right` moves one cell right, from the last cell to the first.
pub proof fn lemma_cursor_wraps(m: ScreenModel, t: Time, st: ScreenState)
    requires
        m.wf(),
    ensures
        m.set_position == 0 ==> {
            let s = date_time_step(m, SW::Left, t, st);
            &&& s.state == ScreenState::Top
            &&& s.writes == Seq::<RegisterWrite>::empty()
            &&& !s.model.set_date_time_initialized
        },
        m.set_position > 0 ==> {
            let s = date_time_step(m, SW::Left, t, st);
            &&& s.state == st
            &&& s.model.set_position == m.set_position - 1
            &&& s.writes == Seq::<RegisterWrite>::empty()
        },
        date_time_step(m, SW::Right, t, st).model.set_position == (m.set_position + 1) % 12,
        date_time_step(m, SW::Right, t, st).state == st,
{
    reveal(date_time_step);
}

/// From the top menu with the first item highlighted, `Center` opens the
/// sensor screen, and there any button goes back to the top menu.
pub proof fn lemma_elements_round_trip(m: ScreenModel, ev: SW, t: Time, r: Readings)
    requires
        m.position == 0,
        ev != SW::NoEvent,
    ensures
        top_step(m, SW::Center, ScreenState::Top).state == ScreenState::Elements,
        elements_step(
            top_step(m, SW::Center, ScreenState::Top).model,
            ev,
            t,
            r,
            ScreenState::Elements,
        ).state == ScreenState::Top,
{
}

/// The first pass of the clock-setting screen, with no event, fills the
/// edit buffer from `t` and leaves the cursor where it was.
proof fn lemma_entry_pass(m: ScreenModel, t: Time)
    requires
        !m.set_date_time_initialized,
    ensures
        ({
            let s = date_time_step(m, SW::NoEvent, t, ScreenState::SetDateTime);
            &&& s.model.digits == digits_of(t)
            &&& s.model.set_date_time_initialized
            &&& s.model.set_position == m.set_position
            &&& s.state == ScreenState::SetDateTime
        }),
{
    reveal(date_time_step);
}

/// `Up` on the first cell of a drawn clock-setting screen steps its digit.
proof fn lemma_up_pass(m: ScreenModel, t: Time)
    requires
        m.set_date_time_initialized,
        m.set_position == 0,
    ensures
        ({
            let s = date_time_step(m, SW::Up, t, ScreenState::SetDateTime);
            &&& s.model.digits == m.digits.update(0, digit_up(m.digits[0]))
            &&& s.model.set_date_time_initialized
            &&& s.state == ScreenState::SetDateTime
        }),
{
    reveal(date_time_step);
}

/// `Center` on a drawn clock-setting screen commits the buffer.
proof fn lemma_center_pass(m: ScreenModel, t: Time)
    requires
        m.set_date_time_initialized,
    ensures
        date_time_step(m, SW::Center, t, ScreenState::SetDateTime).writes == commit_writes(
            m.digits,
        ),
        date_time_step(m, SW::Center, t, ScreenState::SetDateTime).state == ScreenState::Top,
{
    reveal(date_time_step);
}

/// Entering the clock-setting screen at time `t` with the cursor on the
/// first cell, then `Up`, then `Center`: the clock is written with the
/// buffer taken from `t` with its year-tens digit one higher (9 becoming 0),
/// and the top menu is shown next.
pub proof fn lemma_commit_after_one_up(m: ScreenModel, t: Time, t2: Time, t3: Time)
    requires
        m.wf(),
        !m.set_date_time_initialized,
        m.set_position == 0,
    ensures
        ({
            let s1 = date_time_step(m, SW::NoEvent, t, ScreenState::SetDateTime);
            let s2 = date_time_step(s1.model, SW::Up, t2, s1.state);
            let s3 = date_time_step(s2.model, SW::Center, t3, s2.state);
            &&& s3.state == ScreenState::Top
            &&& s3.writes == commit_writes(
                digits_of(t).update(0, digit_up(digits_of(t)[0])),
            )
            &&& s3.writes[7] == RegisterWrite {
                register: YEARS_REG,
                value: ((((t.year / 10) % 10 + 1) % 10) * 16 + t.year % 10) as u8,
            }
        }),
{
    let d = digits_of(t);
    let s1 = date_time_step(m, SW::NoEvent, t, ScreenState::SetDateTime);
    lemma_entry_pass(m, t);
    let s2 = date_time_step(s1.model, SW::Up, t2, s1.state);
    lemma_up_pass(s1.model, t2);
    let e = d.update(0, digit_up(d[0]));
    lemma_center_pass(s2.model, t3);
    let a = (t.year as int / 10) % 10;
    let b = t.year as int % 10;
    assert(d[0] == digit_char(a));
    assert(d[1] == digit_char(b));
    assert(e[1] == d[1]);
    assert(bcd_pair(digit_up(digit_char(a)), digit_char(b)) == ((a + 1) % 10) * 16 + b);
}

} // verus!
