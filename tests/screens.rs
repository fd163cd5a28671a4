use rp2040_lib::lcd::{Frame, LcdCommand};
use rp2040_lib::readings::Readings;
use rp2040_lib::rtc8564::{
    RegisterWrite, Time, CONTROL1_REG, DAYS_REG, HOURS_REG, MINUTES_REG, MONTHS_CENTURY_REG,
    SECONDS_REG, WEEKDAYS_REG, YEARS_REG,
};
use rp2040_lib::sc2004::{decrement_digit, increment_digit, lcd_display, SC2004};
use rp2040_lib::{ScreenState, SW};

fn start_time() -> Time {
    Time { year: 24, month: 6, day: 25, hour: 0, minute: 24, second: 0 }
}

fn readings() -> Readings {
    Readings { temperature: 234, humidity: 451, pressure: 9987 }
}

fn pass(ui: &mut SC2004, state: &mut ScreenState, ev: SW) -> Frame {
    lcd_display(ui, state, ev, &start_time(), &readings())
}

fn write(s: &[u8]) -> LcdCommand {
    LcdCommand::Write(s.to_vec())
}

/// Opens the clock-setting screen from a fresh controller.
fn open_set_date_time(ui: &mut SC2004, state: &mut ScreenState) {
    pass(ui, state, SW::Down);
    pass(ui, state, SW::Center);
    assert_eq!(*state, ScreenState::SetDateTime);
}

#[test]
fn digit_increment_wraps_nine_to_zero() {
    assert_eq!(increment_digit(b'9'), b'0');
    assert_eq!(increment_digit(b'0'), b'1');
    assert_eq!(increment_digit(b'4'), b'5');
}

#[test]
fn digit_decrement_wraps_zero_to_nine() {
    assert_eq!(decrement_digit(b'0'), b'9');
    assert_eq!(decrement_digit(b'9'), b'8');
    assert_eq!(decrement_digit(b'5'), b'4');
}

#[test]
fn top_menu_first_pass_draws_menu() {
    let mut ui = SC2004::new();
    let mut state = ScreenState::Top;
    let f = pass(&mut ui, &mut state, SW::NoEvent);
    assert_eq!(
        f.lcd,
        vec![
            LcdCommand::MoveTo(0x00),
            write(b" Select Item        "),
            LcdCommand::MoveTo(0x40),
            write(b"1.Display elements  "),
            LcdCommand::MoveTo(0x14),
            write(b"2.Set Date Time     "),
            LcdCommand::MoveTo(0x54),
            write(b"                    "),
            LcdCommand::MoveTo(0x40),
            LcdCommand::ShowCursor(true),
            LcdCommand::MoveTo(0x40),
        ]
    );
    assert!(f.rtc.is_empty());
    let f = pass(&mut ui, &mut state, SW::Up);
    assert_eq!(f.lcd, vec![LcdCommand::MoveTo(0x14)]);
    let f = pass(&mut ui, &mut state, SW::Down);
    assert_eq!(f.lcd, vec![LcdCommand::MoveTo(0x40)]);
    assert_eq!(state, ScreenState::Top);
}

#[test]
fn center_on_first_item_then_any_button_returns_to_top() {
    let mut ui = SC2004::new();
    let mut state = ScreenState::Top;
    pass(&mut ui, &mut state, SW::NoEvent);
    pass(&mut ui, &mut state, SW::Center);
    assert_eq!(state, ScreenState::Elements);
    let f = pass(&mut ui, &mut state, SW::NoEvent);
    assert_eq!(state, ScreenState::Elements);
    assert_eq!(f.lcd.len(), 9);
    let f = pass(&mut ui, &mut state, SW::Left);
    assert_eq!(state, ScreenState::Top);
    assert_eq!(f.lcd.last(), Some(&LcdCommand::ShowCursor(true)));
    let f = pass(&mut ui, &mut state, SW::NoEvent);
    assert_eq!(f.lcd.len(), 11);
}

#[test]
fn elements_screen_rows() {
    let mut ui = SC2004::new();
    let mut state = ScreenState::Elements;
    let f = pass(&mut ui, &mut state, SW::NoEvent);
    let mut temp = b"Temp:   23.4  C     ".to_vec();
    temp[13] = 0xdf;
    assert_eq!(
        f.lcd,
        vec![
            LcdCommand::MoveTo(0x00),
            write(b"2024/06/25 00:24:00"),
            LcdCommand::MoveTo(0x40),
            LcdCommand::Write(temp),
            LcdCommand::MoveTo(0x14),
            write(b"Humi:   45.1 %      "),
            LcdCommand::MoveTo(0x54),
            write(b"Pres:  998.7 hPa    "),
            LcdCommand::ShowCursor(false),
        ]
    );
}

#[test]
fn elements_formatting_truncates() {
    let mut ui = SC2004::new();
    let mut state = ScreenState::Elements;
    let r = Readings {
        temperature: (23.45f64 * 10.0) as u32,
        humidity: (60.99f64 * 10.0) as u32,
        pressure: (998.7f64 * 10.0) as u32,
    };
    let f = lcd_display(&mut ui, &mut state, SW::NoEvent, &start_time(), &r);
    let LcdCommand::Write(temp) = &f.lcd[3] else { panic!("temperature row") };
    assert_eq!(&temp[8..12], b"23.4");
    let LcdCommand::Write(humi) = &f.lcd[5] else { panic!("humidity row") };
    assert_eq!(&humi[8..12], b"60.9");
    let LcdCommand::Write(pres) = &f.lcd[7] else { panic!("pressure row") };
    assert_eq!(&pres[6..12], b" 998.7");
}

#[test]
fn pressure_with_four_digits_keeps_thousands() {
    let mut ui = SC2004::new();
    let mut state = ScreenState::Elements;
    let r = Readings { temperature: 5, humidity: 0, pressure: 10132 };
    let f = lcd_display(&mut ui, &mut state, SW::NoEvent, &start_time(), &r);
    assert_eq!(f.lcd[7], write(b"Pres: 1013.2 hPa    "));
    let LcdCommand::Write(temp) = &f.lcd[3] else { panic!("temperature row") };
    assert_eq!(&temp[8..12], b"00.5");
}

#[test]
fn set_date_time_entry_draws_snapshot() {
    let mut ui = SC2004::new();
    let mut state = ScreenState::Top;
    open_set_date_time(&mut ui, &mut state);
    let f = pass(&mut ui, &mut state, SW::NoEvent);
    assert_eq!(
        f.lcd,
        vec![
            LcdCommand::MoveTo(0x00),
            write(b" Set Date Time      "),
            LcdCommand::MoveTo(0x40),
            write(b"                    "),
            LcdCommand::MoveTo(0x54),
            write(b"                    "),
            LcdCommand::ShowCursor(true),
            LcdCommand::MoveTo(0x14),
            write(b"2024/06/25 00:24:00"),
            LcdCommand::MoveTo(0x16),
        ]
    );
}

#[test]
fn left_at_first_cell_cancels_without_writing() {
    let mut ui = SC2004::new();
    let mut state = ScreenState::Top;
    open_set_date_time(&mut ui, &mut state);
    let f = pass(&mut ui, &mut state, SW::Left);
    assert_eq!(state, ScreenState::Top);
    assert!(f.rtc.is_empty());
}

#[test]
fn left_at_cell_five_moves_to_four() {
    let mut ui = SC2004::new();
    let mut state = ScreenState::Top;
    open_set_date_time(&mut ui, &mut state);
    for _ in 0..5 {
        pass(&mut ui, &mut state, SW::Right);
    }
    let f = pass(&mut ui, &mut state, SW::Left);
    assert_eq!(f.lcd.last(), Some(&LcdCommand::MoveTo(0x16 + 7)));
    let f = pass(&mut ui, &mut state, SW::NoEvent);
    assert_eq!(f.lcd, vec![LcdCommand::MoveTo(0x16 + 6)]);
    assert_eq!(state, ScreenState::SetDateTime);
}

#[test]
fn right_at_last_cell_moves_to_first() {
    let mut ui = SC2004::new();
    let mut state = ScreenState::Top;
    open_set_date_time(&mut ui, &mut state);
    for _ in 0..11 {
        pass(&mut ui, &mut state, SW::Right);
    }
    let f = pass(&mut ui, &mut state, SW::Right);
    assert_eq!(f.lcd.last(), Some(&LcdCommand::MoveTo(0x16 + 16)));
    let f = pass(&mut ui, &mut state, SW::NoEvent);
    assert_eq!(f.lcd, vec![LcdCommand::MoveTo(0x16)]);
}

#[test]
fn up_then_center_commits_incremented_year_tens() {
    let mut ui = SC2004::new();
    let mut state = ScreenState::Top;
    open_set_date_time(&mut ui, &mut state);
    pass(&mut ui, &mut state, SW::NoEvent);
    let f = pass(&mut ui, &mut state, SW::Up);
    assert!(f.rtc.is_empty());
    let f = pass(&mut ui, &mut state, SW::Center);
    assert_eq!(
        f.lcd,
        vec![
            LcdCommand::MoveTo(0x16),
            write(b"34/06/25 00:24:00"),
            LcdCommand::MoveTo(0x16),
        ]
    );
    assert_eq!(state, ScreenState::Top);
    assert_eq!(
        f.rtc,
        vec![
            RegisterWrite { register: CONTROL1_REG, value: 0x20 },
            RegisterWrite { register: SECONDS_REG, value: 0x00 },
            RegisterWrite { register: MINUTES_REG, value: 0x24 },
            RegisterWrite { register: HOURS_REG, value: 0x00 },
            RegisterWrite { register: DAYS_REG, value: 0x25 },
            RegisterWrite { register: WEEKDAYS_REG, value: 0x00 },
            RegisterWrite { register: MONTHS_CENTURY_REG, value: 0x06 },
            RegisterWrite { register: YEARS_REG, value: 0x34 },
            RegisterWrite { register: CONTROL1_REG, value: 0x00 },
        ]
    );
}

#[test]
fn down_on_zero_cell_wraps_to_nine() {
    let mut ui = SC2004::new();
    let mut state = ScreenState::Top;
    open_set_date_time(&mut ui, &mut state);
    // Cursor to the hour tens cell, which holds '0'.
    for _ in 0..6 {
        pass(&mut ui, &mut state, SW::Right);
    }
    pass(&mut ui, &mut state, SW::Down);
    let f = pass(&mut ui, &mut state, SW::Center);
    assert_eq!(f.rtc[3], RegisterWrite { register: HOURS_REG, value: 0x90 });
}

#[test]
fn reentry_takes_a_fresh_snapshot() {
    let mut ui = SC2004::new();
    let mut state = ScreenState::Top;
    open_set_date_time(&mut ui, &mut state);
    pass(&mut ui, &mut state, SW::Up);
    pass(&mut ui, &mut state, SW::Left);
    assert_eq!(state, ScreenState::Top);
    pass(&mut ui, &mut state, SW::Center);
    assert_eq!(state, ScreenState::SetDateTime);
    let f = pass(&mut ui, &mut state, SW::Center);
    assert_eq!(f.rtc[7], RegisterWrite { register: YEARS_REG, value: 0x24 });
}

#[test]
fn display_date_time_draws_first_row() {
    let ui = SC2004::new();
    let t = Time { year: 5, month: 12, day: 31, hour: 23, minute: 59, second: 58 };
    let f = ui.display_date_time(&t);
    assert_eq!(f.lcd, vec![LcdCommand::MoveTo(0x00), write(b"2005/12/31 23:59:58")]);
}
