use rp2040_lib::input::{detect_release, sample_mask, InputSampler, Mailbox};
use rp2040_lib::SW;

fn run(sampler: &mut InputSampler, mailbox: &mut Mailbox, samples: &[u8]) {
    for s in samples {
        sampler.tick(*s, mailbox);
    }
}

#[test]
fn sample_mask_sets_one_bit_per_button() {
    assert_eq!(sample_mask(false, false, false, false, false), 0x00);
    assert_eq!(sample_mask(true, false, false, false, false), 0x10);
    assert_eq!(sample_mask(false, true, false, false, false), 0x08);
    assert_eq!(sample_mask(false, false, true, false, false), 0x04);
    assert_eq!(sample_mask(false, false, false, true, false), 0x02);
    assert_eq!(sample_mask(false, false, false, false, true), 0x01);
    assert_eq!(sample_mask(true, true, true, true, true), 0x1f);
}

#[test]
fn release_after_two_pressed_ticks_fires() {
    assert_eq!(detect_release(0x10, 0x10, 0x00), SW::Center);
    assert_eq!(detect_release(0x08, 0x08, 0x00), SW::Down);
    assert_eq!(detect_release(0x04, 0x04, 0x00), SW::Left);
    assert_eq!(detect_release(0x02, 0x02, 0x00), SW::Right);
    assert_eq!(detect_release(0x01, 0x01, 0x00), SW::Up);
}

#[test]
fn no_release_without_the_full_pattern() {
    assert_eq!(detect_release(0x00, 0x10, 0x00), SW::NoEvent);
    assert_eq!(detect_release(0x10, 0x00, 0x00), SW::NoEvent);
    assert_eq!(detect_release(0x10, 0x10, 0x10), SW::NoEvent);
    assert_eq!(detect_release(0x00, 0x00, 0x00), SW::NoEvent);
}

#[test]
fn release_priority_center_first() {
    assert_eq!(detect_release(0x1f, 0x1f, 0x00), SW::Center);
    assert_eq!(detect_release(0x0f, 0x0f, 0x00), SW::Down);
    assert_eq!(detect_release(0x07, 0x07, 0x00), SW::Left);
    assert_eq!(detect_release(0x03, 0x03, 0x00), SW::Right);
    assert_eq!(detect_release(0x11, 0x11, 0x10), SW::Up);
}

#[test]
fn held_button_fires_once_on_release() {
    let mut sampler = InputSampler::new();
    let mut mailbox = Mailbox::new();
    run(&mut sampler, &mut mailbox, &[0x10, 0x10, 0x10]);
    assert_eq!(mailbox.take_event(), SW::NoEvent);
    run(&mut sampler, &mut mailbox, &[0x00]);
    assert_eq!(mailbox.take_event(), SW::Center);
    run(&mut sampler, &mut mailbox, &[0x00, 0x00]);
    assert_eq!(mailbox.take_event(), SW::NoEvent);
}

#[test]
fn bounce_of_one_tick_is_ignored() {
    let mut sampler = InputSampler::new();
    let mut mailbox = Mailbox::new();
    run(&mut sampler, &mut mailbox, &[0x01, 0x00, 0x01, 0x00, 0x00]);
    assert_eq!(mailbox.take_event(), SW::NoEvent);
}

#[test]
fn later_event_overwrites_untaken_one() {
    let mut sampler = InputSampler::new();
    let mut mailbox = Mailbox::new();
    // Down is held on ticks 0-1 and released on tick 2; Up is held on
    // ticks 1-2 and released on tick 3.
    run(&mut sampler, &mut mailbox, &[0x08, 0x09, 0x01]);
    run(&mut sampler, &mut mailbox, &[0x00]);
    assert_eq!(mailbox.take_event(), SW::Up);
    assert_eq!(mailbox.take_event(), SW::NoEvent);
}

#[test]
fn mailbox_take_clears_slot() {
    let mut mailbox = Mailbox::new();
    mailbox.publish_event(SW::Left);
    mailbox.publish_event(SW::Right);
    assert_eq!(mailbox.take_event(), SW::Right);
    assert_eq!(mailbox.take_event(), SW::NoEvent);
}

#[test]
fn heartbeat_toggles_every_tenth_tick() {
    let mut sampler = InputSampler::new();
    let mut mailbox = Mailbox::new();
    let mut toggles = Vec::new();
    for _ in 0..25 {
        toggles.push(sampler.tick(0, &mut mailbox));
    }
    let at: Vec<usize> = (0..25).filter(|i| toggles[*i]).collect();
    assert_eq!(at, vec![9, 19]);
}
