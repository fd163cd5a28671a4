//! Commands for a 20x4 character display, and the frame of output that one
//! pass of the screen controller produces.
use vstd::prelude::*;

use crate::rtc8564::RegisterWrite;

verus! {

/// Display memory address of the first character of each of the four rows.
pub const DDRAM_ADDRESS_FIRST: u8 = 0x00;
pub const DDRAM_ADDRESS_SECOND: u8 = 0x40;
pub const DDRAM_ADDRESS_THIRD: u8 = 0x14;
pub const DDRAM_ADDRESS_FOURTH: u8 = 0x54;

/// One call on the character display.
#[derive(Debug, PartialEq, Eq)]
pub enum LcdCommand {
    /// Place the cursor at a display memory address.
    MoveTo(u8),
    /// Write bytes at the cursor, which advances past them.
    Write(Vec<u8>),
    /// Show or hide the cursor.
    ShowCursor(bool),
}

/// What a command does, with the bytes of a write as a sequence.
pub ghost enum LcdOp {
    MoveTo(u8),
    Write(Seq<u8>),
    ShowCursor(bool),
}

impl View for LcdCommand {
    type V = LcdOp;

    open spec fn view(&self) -> LcdOp {
        match self {
            LcdCommand::MoveTo(a) => LcdOp::MoveTo(*a),
            LcdCommand::Write(v) => LcdOp::Write(v@),
            LcdCommand::ShowCursor(on) => LcdOp::ShowCursor(*on),
        }
    }
}

/// The output of one pass: display commands, then clock register writes,
/// each list in the order in which it is to be carried out.
pub struct Frame {
    pub lcd: Vec<LcdCommand>,
    pub rtc: Vec<RegisterWrite>,
}

impl Frame {
    /// The display commands as operations.
    pub open spec fn ops(&self) -> Seq<LcdOp> {
        self.lcd@.map_values(|c: LcdCommand| c@)
    }

    pub fn new() -> (r: Frame)
        ensures
            r.ops() == Seq::<LcdOp>::empty(),
            r.rtc@ == Seq::<RegisterWrite>::empty(),
    {
        let r = Frame { lcd: Vec::new(), rtc: Vec::new() };
        assert(r.ops() =~= Seq::<LcdOp>::empty());
        r
    }

    fn push(&mut self, c: LcdCommand)
        ensures
            final(self).ops() == old(self).ops().push(c@),
            final(self).rtc == old(self).rtc,
    {
        broadcast use Seq::lemma_push_map_commute;

        self.lcd.push(c);
    }

    pub fn move_to(&mut self, address: u8)
        ensures
            final(self).ops() == old(self).ops().push(LcdOp::MoveTo(address)),
            final(self).rtc == old(self).rtc,
    {
        self.push(LcdCommand::MoveTo(address));
    }

    pub fn write(&mut self, text: Vec<u8>)
        ensures
            final(self).ops() == old(self).ops().push(LcdOp::Write(text@)),
            final(self).rtc == old(self).rtc,
    {
        self.push(LcdCommand::Write(text));
    }

    pub fn show_cursor(&mut self, on: bool)
        ensures
            final(self).ops() == old(self).ops().push(LcdOp::ShowCursor(on)),
            final(self).rtc == old(self).rtc,
    {
        self.push(LcdCommand::ShowCursor(on));
    }

    pub fn write_register(&mut self, register: u8, value: u8)
        ensures
            final(self).ops() == old(self).ops(),
            final(self).rtc@ == old(self).rtc@.push(RegisterWrite { register, value }),
    {
        self.rtc.push(RegisterWrite { register, value });
    }
}

} // verus!
