//! Button input: the per-tick sampler that turns five raw button levels into
//! debounced release events, and the single-slot mailbox that hands the
//! events from the timer interrupt to the main loop.
use vstd::prelude::*;

use crate::SW;

verus! {

/// Bit of each button in a sample mask.
pub const CENTER_BIT: u8 = 0x10;
pub const DOWN_BIT: u8 = 0x08;
pub const LEFT_BIT: u8 = 0x04;
pub const RIGHT_BIT: u8 = 0x02;
pub const UP_BIT: u8 = 0x01;

/// The heartbeat indicator toggles once every this many ticks.
pub const HEARTBEAT_TICKS: u8 = 10;

/// The bit of the button of priority `k`: 0 is Center, then Down, Left,
/// Right and Up.
pub open spec fn button_bit(k: int) -> u8 {
    if k == 0 {
        CENTER_BIT
    } else if k == 1 {
        DOWN_BIT
    } else if k == 2 {
        LEFT_BIT
    } else if k == 3 {
        RIGHT_BIT
    } else {
        UP_BIT
    }
}

/// The event of the button of priority `k`.
pub open spec fn button_event(k: int) -> SW {
    if k == 0 {
        SW::Center
    } else if k == 1 {
        SW::Down
    } else if k == 2 {
        SW::Left
    } else if k == 3 {
        SW::Right
    } else {
        SW::Up
    }
}

/// Whether the button of priority `k` is pressed in a sample.
pub open spec fn held(mask: u8, k: int) -> bool {
    mask & button_bit(k) == button_bit(k)
}

/// Whether the button of priority `k` was pressed two ticks ago and one tick
/// ago, and is released now.
pub open spec fn completes(two: u8, one: u8, now: u8, k: int) -> bool {
    held(two, k) && held(one, k) && !held(now, k)
}

/// The release event of a tick, from the samples of the last three ticks:
/// the first button, in priority order, whose release completes.
pub open spec fn release_event(two: u8, one: u8, now: u8) -> SW {
    if completes(two, one, now, 0) {
        SW::Center
    } else if completes(two, one, now, 1) {
        SW::Down
    } else if completes(two, one, now, 2) {
        SW::Left
    } else if completes(two, one, now, 3) {
        SW::Right
    } else if completes(two, one, now, 4) {
        SW::Up
    } else {
        SW::NoEvent
    }
}

/// The mailbox after a tick that raised `ev`: an event overwrites what was
/// there, consumed or not.
pub open spec fn deliver(slot: SW, ev: SW) -> SW {
    if ev == SW::NoEvent {
        slot
    } else {
        ev
    }
}

/// The sample mask of five button levels, `true` for pressed.
pub open spec fn mask_of(center: bool, down: bool, left: bool, right: bool, up: bool) -> u8 {
    (if center {
        CENTER_BIT
    } else {
        0u8
    }) | (if down {
        DOWN_BIT
    } else {
        0u8
    }) | (if left {
        LEFT_BIT
    } else {
        0u8
    }) | (if right {
        RIGHT_BIT
    } else {
        0u8
    }) | (if up {
        UP_BIT
    } else {
        0u8
    })
}

/// The sample mask of five button levels, `true` for pressed. A button
/// whose level could not be read is to be given as released.
pub fn sample_mask(center: bool, down: bool, left: bool, right: bool, up: bool) -> (m: u8)
    ensures
        m == mask_of(center, down, left, right, up),
        held(m, 0) == center,
        held(m, 1) == down,
        held(m, 2) == left,
        held(m, 3) == right,
        held(m, 4) == up,
{
    let c: u8 = if center {
        CENTER_BIT
    } else {
        0
    };
    let d: u8 = if down {
        DOWN_BIT
    } else {
        0
    };
    let l: u8 = if left {
        LEFT_BIT
    } else {
        0
    };
    let r: u8 = if right {
        RIGHT_BIT
    } else {
        0
    };
    let u: u8 = if up {
        UP_BIT
    } else {
        0
    };
    let m = c | d | l | r | u;
    proof {
        assert((m & 0x10 == 0x10) == (c == 0x10) && (m & 0x08 == 0x08) == (d == 0x08) && (m
            & 0x04 == 0x04) == (l == 0x04) && (m & 0x02 == 0x02) == (r == 0x02) && (m & 0x01
            == 0x01) == (u == 0x01)) by (bit_vector)
            requires
                m == c | d | l | r | u,
                c == 0 || c == 0x10,
                d == 0 || d == 0x08,
                l == 0 || l == 0x04,
                r == 0 || r == 0x02,
                u == 0 || u == 0x01,
        ;
    }
    m
}

/// Whether every bit of `bit` is set in `mask`.
fn is_held(mask: u8, bit: u8) -> (r: bool)
    ensures
        r == (mask & bit == bit),
{
    mask & bit == bit
}

/// The release event of a tick; see `release_event`.
pub fn detect_release(two: u8, one: u8, now: u8) -> (ev: SW)
    ensures
        ev == release_event(two, one, now),
{
    if is_held(two, CENTER_BIT) && is_held(one, CENTER_BIT) && !is_held(now, CENTER_BIT) {
        SW::Center
    } else if is_held(two, DOWN_BIT) && is_held(one, DOWN_BIT) && !is_held(now, DOWN_BIT) {
        SW::Down
    } else if is_held(two, LEFT_BIT) && is_held(one, LEFT_BIT) && !is_held(now, LEFT_BIT) {
        SW::Left
    } else if is_held(two, RIGHT_BIT) && is_held(one, RIGHT_BIT) && !is_held(now, RIGHT_BIT) {
        SW::Right
    } else if is_held(two, UP_BIT) && is_held(one, UP_BIT) && !is_held(now, UP_BIT) {
        SW::Up
    } else {
        SW::NoEvent
    }
}

/// The single-slot channel from the timer interrupt to the main loop. The
/// interrupt publishes, the main loop takes; the owner of the two contexts
/// keeps each access inside a critical section.
pub struct Mailbox {
    slot: SW,
}

impl View for Mailbox {
    type V = SW;

    closed spec fn view(&self) -> SW {
        self.slot
    }
}

impl Mailbox {
    pub fn new() -> (r: Mailbox)
        ensures
            r@ == SW::NoEvent,
    {
        Mailbox { slot: SW::NoEvent }
    }

    /// Puts an event in the slot, over any event not yet taken.
    pub fn publish_event(&mut self, ev: SW)
        ensures
            final(self)@ == ev,
    {
        self.slot = ev;
    }

    /// Takes the event in the slot and leaves it empty.
    pub fn take_event(&mut self) -> (ev: SW)
        ensures
            ev == old(self)@,
            final(self)@ == SW::NoEvent,
    {
        let ev = self.slot;
        self.slot = SW::NoEvent;
        ev
    }
}

/// The sampler's state: the samples of the last three ticks and the
/// heartbeat count.
pub ghost struct SamplerModel {
    pub two_before: u8,
    pub one_before: u8,
    pub now: u8,
    pub count: u8,
}

/// The heartbeat count after a tick.
pub open spec fn next_count(count: u8) -> u8 {
    if count >= HEARTBEAT_TICKS - 1 {
        0
    } else {
        (count + 1) as u8
    }
}

/// The sampler after a tick with sample `s`.
pub open spec fn tick_model(m: SamplerModel, s: u8) -> SamplerModel {
    SamplerModel { two_before: m.one_before, one_before: m.now, now: s, count: next_count(m.count) }
}

/// The debouncing sampler, run once per timer tick.
pub struct InputSampler {
    two_before: u8,
    one_before: u8,
    now: u8,
    count: u8,
}

impl View for InputSampler {
    type V = SamplerModel;

    closed spec fn view(&self) -> SamplerModel {
        SamplerModel {
            two_before: self.two_before,
            one_before: self.one_before,
            now: self.now,
            count: self.count,
        }
    }
}

impl InputSampler {
    /// A sampler that has seen no button pressed.
    pub fn new() -> (r: InputSampler)
        ensures
            r@ == (SamplerModel { two_before: 0, one_before: 0, now: 0, count: 0 }),
    {
        InputSampler { two_before: 0, one_before: 0, now: 0, count: 0 }
    }

    /// One tick: shifts the sample history, takes the new sample, and puts
    /// the tick's release event, if any, in the mailbox. Returns whether the
    /// heartbeat indicator is to be toggled, which it is every tenth tick.
    pub fn tick(&mut self, sample: u8, mailbox: &mut Mailbox) -> (toggle: bool)
        ensures
            final(self)@ == tick_model(old(self)@, sample),
            final(mailbox)@ == deliver(
                old(mailbox)@,
                release_event(old(self)@.one_before, old(self)@.now, sample),
            ),
            toggle == (old(self)@.count >= HEARTBEAT_TICKS - 1),
    {
        let toggle = self.count >= HEARTBEAT_TICKS - 1;
        self.count = if toggle {
            0
        } else {
            self.count + 1
        };
        self.two_before = self.one_before;
        self.one_before = self.now;
        self.now = sample;
        let ev = detect_release(self.two_before, self.one_before, self.now);
        if ev != SW::NoEvent {
            mailbox.publish_event(ev);
        }
        toggle
    }
}

} // verus!

verus! {

/// The sampler after a fresh start and a tick for each sample in turn.
pub open spec fn sampler_after(samples: Seq<u8>) -> SamplerModel
    decreases samples.len(),
{
    if samples.len() == 0 {
        SamplerModel { two_before: 0, one_before: 0, now: 0, count: 0 }
    } else {
        tick_model(sampler_after(samples.drop_last()), samples.last())
    }
}

/// The sample of tick `i`; before the first tick no button is pressed.
pub open spec fn sample_at(samples: Seq<u8>, i: int) -> u8 {
    if 0 <= i < samples.len() {
        samples[i]
    } else {
        0
    }
}

/// The event raised by the last tick of a run from a fresh start.
pub open spec fn last_event(samples: Seq<u8>) -> SW {
    let m = sampler_after(samples);
    release_event(m.two_before, m.one_before, m.now)
}

/// After any run the history holds the run's last three samples.
pub proof fn lemma_history_holds_last_three(samples: Seq<u8>)
    ensures
        sampler_after(samples).now == sample_at(samples, samples.len() - 1),
        sampler_after(samples).one_before == sample_at(samples, samples.len() - 2),
        sampler_after(samples).two_before == sample_at(samples, samples.len() - 3),
    decreases samples.len(),
{
    if samples.len() > 0 {
        lemma_history_holds_last_three(samples.drop_last());
    }
}

/// For every run of samples, the last tick raises the event of button `k`
/// exactly when that button was pressed on the two ticks before and is
/// released on this one, and no button of higher priority completed its
/// release on this tick; it raises none exactly when no button did.
pub proof fn lemma_release_iff_pattern(samples: Seq<u8>, k: int)
    requires
        0 <= k < 5,
    ensures
        last_event(samples) == button_event(k) <==> {
            let n = samples.len() as int;
            &&& held(sample_at(samples, n - 3), k)
            &&& held(sample_at(samples, n - 2), k)
            &&& !held(sample_at(samples, n - 1), k)
            &&& forall|j: int|
                0 <= j < k ==> !#[trigger] completes(
                    sample_at(samples, n - 3),
                    sample_at(samples, n - 2),
                    sample_at(samples, n - 1),
                    j,
                )
        },
        last_event(samples) == SW::NoEvent <==> forall|j: int|
            0 <= j < 5 ==> !#[trigger] completes(
                sample_at(samples, samples.len() - 3),
                sample_at(samples, samples.len() - 2),
                sample_at(samples, samples.len() - 1),
                j,
            ),
{
    lemma_history_holds_last_three(samples);
    let n = samples.len() as int;
    let a = sample_at(samples, n - 3);
    let b = sample_at(samples, n - 2);
    let c = sample_at(samples, n - 1);
    if last_event(samples) == SW::NoEvent {
        assert forall|j: int| 0 <= j < 5 implies !#[trigger] completes(a, b, c, j) by {
            if j == 0 {
            } else if j == 1 {
            } else if j == 2 {
            } else if j == 3 {
            } else {
            }
        }
    } else {
        assert(completes(a, b, c, 0) || completes(a, b, c, 1) || completes(a, b, c, 2)
            || completes(a, b, c, 3) || completes(a, b, c, 4));
    }
    if completes(a, b, c, k) && forall|j: int| 0 <= j < k ==> !#[trigger] completes(a, b, c, j) {
        if k >= 1 {
            assert(!completes(a, b, c, 0));
        }
        if k >= 2 {
            assert(!completes(a, b, c, 1));
        }
        if k >= 3 {
            assert(!completes(a, b, c, 2));
        }
        if k >= 4 {
            assert(!completes(a, b, c, 3));
        }
    }
}

/// Two releases on consecutive ticks before the main loop takes the first:
/// the mailbox holds only the second, whatever it held before.
pub proof fn lemma_mailbox_last_write_wins(slot: SW, m: SamplerModel, first: u8, second: u8)
    requires
        release_event(m.one_before, m.now, first) != SW::NoEvent,
        release_event(m.now, first, second) != SW::NoEvent,
    ensures
        deliver(
            deliver(slot, release_event(m.one_before, m.now, first)),
            release_event(tick_model(m, first).one_before, tick_model(m, first).now, second),
        ) == release_event(m.now, first, second),
{
}

} // verus!
