//! Typing a text through synthetic keyboard events, and reading the title of
//! the foreground window.
//!
//! The functions here decide which events stand for a text, how large a
//! title buffer has to be, and what the system's answers mean. Sending the
//! events and querying the window stay with the caller.

use vstd::prelude::*;
use crate::primitives::{decode_utf16_lossy, utf16_lossy_text};

verus! {

/// The event flag of a key that is released.
pub const KEYEVENTF_KEYUP: u32 = 0x0002;

/// The event flag of a key that is given by its UTF-16 code unit, without a
/// virtual key.
pub const KEYEVENTF_UNICODE: u32 = 0x0004;

/// Whether a key goes down or comes up.
#[derive(Clone, Copy, Debug, PartialEq, Eq, Structural)]
pub enum InputKeyPress {
    Down,
    Up,
}

/// One keyboard event, as the system takes it.
#[derive(Clone, Copy, Debug, PartialEq, Eq, Structural)]
pub struct KeyboardInput {
    /// The virtual key code: zero for an event given by its code unit.
    pub virtual_key: u16,
    /// The UTF-16 code unit that the key types.
    pub scan_code: u16,
    /// The event flags.
    pub flags: u32,
    /// The time stamp: zero lets the system set it.
    pub time: u32,
    /// Extra information attached to the event: none.
    pub extra_info: usize,
}

/// The event that presses or releases the key of one code unit.
pub open spec fn key_event(key_press: InputKeyPress, character: u16) -> KeyboardInput {
    KeyboardInput {
        virtual_key: 0,
        scan_code: character,
        flags: match key_press {
            InputKeyPress::Down => 0x0004,
            InputKeyPress::Up => 0x0006,
        },
        time: 0,
        extra_info: 0,
    }
}

/// The events that type `text`: for each code unit, in order, its key down
/// and then its key up.
pub open spec fn key_events(text: Seq<u16>) -> Seq<KeyboardInput> {
    Seq::new(
        2 * text.len(),
        |i: int|
            key_event(
                if i % 2 == 0 {
                    InputKeyPress::Down
                } else {
                    InputKeyPress::Up
                },
                text[i / 2],
            ),
    )
}

/// Builds the keyboard event for one UTF-16 code unit. Both events carry
/// the unicode flag; the release carries the key-up flag as well.
pub fn build_input(key_press: InputKeyPress, character: u16) -> (input: KeyboardInput)
    ensures
        input == key_event(key_press, character),
{
    let flags: u32 = match key_press {
        InputKeyPress::Down => KEYEVENTF_UNICODE,
        InputKeyPress::Up => {
            assert(0x0002u32 | 0x0004u32 == 0x0006u32) by (bit_vector);
            KEYEVENTF_KEYUP | KEYEVENTF_UNICODE
        },
    };
    KeyboardInput { virtual_key: 0, scan_code: character, flags, time: 0, extra_info: 0 }
}

/// A batch of keyboard events to insert at the cursor. Other input is to
/// be blocked while the batch goes in, so that no key of the user falls
/// between its events.
#[derive(Clone, Debug, PartialEq, Eq)]
pub struct InputBatch {
    /// The events, in the order in which they are inserted.
    pub inputs: Vec<KeyboardInput>,
}

impl InputBatch {
    /// Whether a batch of `queued` events went in, where the system
    /// reports `inserted` of them: all of them did, and there was at least
    /// one.
    pub open spec fn delivered(queued: nat, inserted: u32) -> bool {
        inserted != 0 && inserted == queued
    }

    /// Takes the number of events that the system inserted. Typing
    /// succeeded only if every event of the batch went in. None at all
    /// means that another thread blocked the input; fewer than the batch
    /// holds means that the insertion broke off.
    pub fn sent(self, inserted: u32) -> (outcome: Result<(), ()>)
        ensures
            outcome is Ok <==> Self::delivered(self.inputs@.len(), inserted),
    {
        if inserted == 0 {
            return Err(());
        }
        if inserted as usize != self.inputs.len() {
            return Err(());
        }
        Ok(())
    }
}

/// Turns a text, given in UTF-16 code units, into the keyboard events that
/// type it where the cursor stands.
pub fn type_input(input: Vec<u16>) -> (batch: InputBatch)
    ensures
        batch.inputs@ == key_events(input@),
{
    let mut keyboard_inputs: Vec<KeyboardInput> = Vec::new();
    let mut i: usize = 0;
    while i < input.len()
        invariant
            i <= input.len(),
            keyboard_inputs@ == key_events(input@.take(i as int)),
        decreases input.len() - i,
    {
        let character = input[i];
        keyboard_inputs.push(build_input(InputKeyPress::Down, character));
        keyboard_inputs.push(build_input(InputKeyPress::Up, character));
        assert(keyboard_inputs@ =~= key_events(input@.take(i + 1)));
        i += 1;
    }
    assert(input@.take(i as int) =~= input@);
    InputBatch { inputs: keyboard_inputs }
}

/// The foreground window, as the system named it.
#[derive(Clone, Copy, Debug, PartialEq, Eq, Structural)]
pub struct WindowHandle {
    /// The handle.
    pub value: isize,
    /// Whether the handle names a window.
    pub valid: bool,
}

/// A request for the length of a window's title.
#[derive(Clone, Copy, Debug, PartialEq, Eq, Structural)]
pub struct TitleLength {
    /// The window asked about.
    pub window: WindowHandle,
}

/// A request for the text of a window's title.
#[derive(Clone, Copy, Debug, PartialEq, Eq, Structural)]
pub struct TitleText {
    /// The window asked about.
    pub window: WindowHandle,
    /// The number of code units that the buffer for the title has to hold:
    /// the title and the null after it.
    pub capacity: usize,
}

/// Starts reading the title of the foreground window, once the system was
/// asked which window that is. Without a valid window there is no title.
pub fn get_foreground_window_title(window: WindowHandle) -> (step: Result<TitleLength, ()>)
    ensures
        step == if window.valid {
            Ok::<TitleLength, ()>(TitleLength { window })
        } else {
            Err::<TitleLength, ()>(())
        },
{
    if !window.valid {
        return Err(());
    }
    Ok(TitleLength { window })
}

impl TitleLength {
    /// Takes the length of the title, in code units, as the system
    /// reported it. A negative length is no length, and a window whose title
    /// is empty has no title to read. Otherwise the title is read into a
    /// buffer with room for one code unit more.
    pub fn measured(self, length: i32) -> (step: Result<TitleText, ()>)
        ensures
            step == if length > 0 {
                Ok::<TitleText, ()>(
                    TitleText { window: self.window, capacity: (length + 1) as usize },
                )
            } else {
                Err::<TitleText, ()>(())
            },
    {
        if length <= 0 {
            return Err(());
        }
        let title_length = length as usize;
        Ok(TitleText { window: self.window, capacity: title_length + 1 })
    }
}

impl TitleText {
    /// Takes the buffer that the system filled and the number of code units
    /// it copied. Where nothing was copied there is no title. Otherwise the
    /// title is the text of the whole buffer, with each code unit that is
    /// not valid UTF-16 replaced by U+FFFD.
    pub fn read(self, copied: i32, buffer: Vec<u16>) -> (title: Result<String, ()>)
        ensures
            copied == 0 ==> title is Err,
            copied != 0 ==> title is Ok && title->Ok_0@ == utf16_lossy_text(buffer@),
    {
        if copied == 0 {
            return Err(());
        }
        Ok(decode_utf16_lossy(buffer.as_slice()))
    }
}

} // verus!
