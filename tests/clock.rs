use rp2040_lib::rtc8564::{
    RegisterWrite, Time, CONTROL1_REG, DAYS_REG, HOURS_REG, MINUTES_REG, MONTHS_CENTURY_REG,
    RTC8564, RTC_DEVICE_ADDRESS, SECONDS_REG, TIMER_CONTROL_REG, YEARS_REG,
};

/// Register file of a simulated clock, indexed by register address.
fn registers(sec: u8, min: u8, hour: u8, day: u8, month: u8, year: u8) -> [u8; 16] {
    let mut r = [0u8; 16];
    r[SECONDS_REG as usize] = sec;
    r[MINUTES_REG as usize] = min;
    r[HOURS_REG as usize] = hour;
    r[DAYS_REG as usize] = day;
    r[MONTHS_CENTURY_REG as usize] = month;
    r[YEARS_REG as usize] = year;
    r
}

/// Reads until a time comes out; `device(n)` is the register file at the
/// n-th register read.
fn read(clock: &mut RTC8564, device: impl Fn(usize) -> [u8; 16]) -> (Time, usize) {
    let mut n = 0;
    loop {
        let reg = clock.next_register();
        let value = device(n)[reg as usize];
        n += 1;
        if let Some(t) = clock.read_date_time(value) {
            return (t, n);
        }
        assert!(n < 1000);
    }
}

fn time(year: u8, month: u8, day: u8, hour: u8, minute: u8, second: u8) -> Time {
    Time { year, month, day, hour, minute, second }
}

#[test]
fn static_registers_read_the_same_time_twice() {
    let regs = registers(0x00, 0x24, 0x00, 0x25, 0x06, 0x24);
    let mut clock = RTC8564::new(RTC_DEVICE_ADDRESS);
    let (first, n1) = read(&mut clock, |_| regs);
    let (second, n2) = read(&mut clock, |_| regs);
    assert_eq!(first, time(24, 6, 25, 0, 24, 0));
    assert_eq!(second, first);
    assert_eq!((n1, n2), (12, 12));
}

#[test]
fn change_between_passes_yields_the_new_state() {
    let before = registers(0x59, 0x59, 0x23, 0x31, 0x12, 0x99);
    let after = registers(0x00, 0x00, 0x00, 0x01, 0x01, 0x00);
    let mut clock = RTC8564::new(RTC_DEVICE_ADDRESS);
    let (t, n) = read(&mut clock, |i| if i < 6 { before } else { after });
    assert_eq!(t, time(0, 1, 1, 0, 0, 0));
    assert_eq!(n, 24);
}

#[test]
fn change_inside_a_pass_is_never_mixed() {
    let before = registers(0x59, 0x59, 0x23, 0x31, 0x12, 0x99);
    let after = registers(0x00, 0x00, 0x00, 0x01, 0x01, 0x00);
    let mut clock = RTC8564::new(RTC_DEVICE_ADDRESS);
    let (t, _) = read(&mut clock, |i| if i < 3 { before } else { after });
    assert_eq!(t, time(0, 1, 1, 0, 0, 0));
}

#[test]
fn read_order_is_seconds_minutes_hours_months_days_years() {
    let mut clock = RTC8564::new(RTC_DEVICE_ADDRESS);
    let mut order = Vec::new();
    for _ in 0..12 {
        order.push(clock.next_register());
        clock.read_date_time(0);
    }
    let pass = [SECONDS_REG, MINUTES_REG, HOURS_REG, MONTHS_CENTURY_REG, DAYS_REG, YEARS_REG];
    assert_eq!(&order[0..6], &pass);
    assert_eq!(&order[6..12], &pass);
}

#[test]
fn status_and_century_bits_are_masked() {
    let regs = registers(0x80 | 0x45, 0x80 | 0x30, 0xc0 | 0x21, 0xc0 | 0x15, 0xe0 | 0x11, 0x07);
    let mut clock = RTC8564::new(RTC_DEVICE_ADDRESS);
    let (t, _) = read(&mut clock, |_| regs);
    assert_eq!(t, time(7, 11, 15, 21, 30, 45));
}

#[test]
fn read_records_the_minute() {
    let mut clock = RTC8564::new(RTC_DEVICE_ADDRESS);
    assert_eq!(clock.get_minutes(), 0);
    read(&mut clock, |_| registers(0x10, 0x37, 0x08, 0x02, 0x03, 0x25));
    assert_eq!(clock.get_minutes(), 37);
    assert_eq!(clock.address(), 0x51);
}

#[test]
fn init_keeps_a_running_clock() {
    let mut clock = RTC8564::new(RTC_DEVICE_ADDRESS);
    let (running, writes) = clock.init(0x45);
    assert!(running);
    assert!(writes.is_empty());
}

#[test]
fn init_after_low_voltage_reconfigures() {
    let mut clock = RTC8564::new(RTC_DEVICE_ADDRESS);
    let (running, writes) = clock.init(0x80 | 0x12);
    assert!(!running);
    assert_eq!(writes.len(), 18);
    assert_eq!(writes[0], RegisterWrite { register: CONTROL1_REG, value: 0x20 });
    assert_eq!(writes[1], RegisterWrite { register: 0x01, value: 0x11 });
    assert_eq!(writes[3], RegisterWrite { register: MINUTES_REG, value: 0x42 });
    assert_eq!(writes[8], RegisterWrite { register: YEARS_REG, value: 0x24 });
    assert_eq!(writes[16], RegisterWrite { register: CONTROL1_REG, value: 0x00 });
    assert_eq!(writes[17], RegisterWrite { register: TIMER_CONTROL_REG, value: 0x82 });
}

#[test]
fn init_abandons_a_read_in_progress() {
    let regs = registers(0x01, 0x02, 0x03, 0x04, 0x05, 0x06);
    let mut clock = RTC8564::new(RTC_DEVICE_ADDRESS);
    clock.read_date_time(0xff);
    clock.read_date_time(0xff);
    clock.init(0x00);
    let (t, n) = read(&mut clock, |_| regs);
    assert_eq!(t, time(6, 5, 4, 3, 2, 1));
    assert_eq!(n, 12);
}
