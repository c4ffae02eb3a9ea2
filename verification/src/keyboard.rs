//! Decoding of PS/2 scancodes (set 1, US 104-key layout) into keys.
//!
//! The scancode tables and the modifier tracking are those of the
//! `pc_keyboard` crate; this module drives them one byte at a time.

use pc_keyboard::layouts::Us104Key;
use pc_keyboard::{Error, HandleControl, KeyCode, KeyEvent, Keyboard, ScancodeSet1};
use vstd::prelude::*;

verus! {

/// `pc_keyboard::KeyEvent`: a key code and whether the key went down or
/// up.  Carried from the scancode state machine to the layout as it is.
#[verifier::external_type_specification]
#[verifier::external_body]
pub struct ExKeyEvent(KeyEvent);

/// `pc_keyboard::KeyCode`: the name of a key on the keyboard.
#[verifier::external_type_specification]
#[verifier::external_body]
pub struct ExKeyCode(KeyCode);

/// `pc_keyboard::Error`: why a byte gave no key event.
#[verifier::external_type_specification]
#[verifier::external_body]
pub struct ExError(Error);

/// A key as the layout decodes it.
#[derive(Clone, Copy, Debug, PartialEq, Eq)]
pub enum DecodedKey {
    /// A key without a character of its own, such as an arrow key.
    RawKey(KeyCode),
    /// The character a key stands for.
    Unicode(char),
}

/// The scancode decoder: a `pc_keyboard::Keyboard` for the US 104-key
/// layout and scancode set 1.  It holds the state of the scancode state
/// machine and the modifier keys held down; the state lives from boot on
/// and is never reset.
#[verifier::external_body]
pub struct KeyboardDecoder {
    keyboard: Keyboard<Us104Key, ScancodeSet1>,
}

/// What a decoder does with a letter typed while a Ctrl key is held.
#[derive(Clone, Copy, Debug, PartialEq, Eq)]
pub enum ControlHandling {
    /// The letters A to Z decode to the characters U+0001 to U+001A.
    MapLettersToUnicode,
    /// The letters decode as they do without Ctrl.
    Ignore,
}

/// The decoder that `Keyboard::new` makes for a way of handling Ctrl: the
/// scancode state machine at its start, no modifier key held.
pub uninterp spec fn keyboard_made(handling: ControlHandling) -> KeyboardDecoder;

/// What `Keyboard::add_byte` returns for a byte, and the decoder it leaves.
pub uninterp spec fn scancode_outcome(decoder: KeyboardDecoder, byte: u8) -> (
    Result<Option<KeyEvent>, Error>,
    KeyboardDecoder,
);

/// What `Keyboard::process_keyevent` returns for a key event, and the
/// decoder it leaves.
pub uninterp spec fn key_event_outcome(decoder: KeyboardDecoder, event: KeyEvent) -> (
    Option<DecodedKey>,
    KeyboardDecoder,
);

/// The text that `Debug` formatting gives for a key code: its name.
pub uninterp spec fn key_code_text(code: KeyCode) -> Seq<char>;

/// Makes a keyboard with `Keyboard::new` for the US 104-key layout and
/// scancode set 1.  Trusted: the keyboard made depends on the way of
/// handling Ctrl alone; every call with the same one makes the same.
#[verifier::external_body]
fn new_keyboard(handling: ControlHandling) -> (decoder: KeyboardDecoder)
    ensures
        decoder == keyboard_made(handling),
{
    let handle_ctrl = match handling {
        ControlHandling::MapLettersToUnicode => HandleControl::MapLettersToUnicode,
        ControlHandling::Ignore => HandleControl::Ignore,
    };
    KeyboardDecoder { keyboard: Keyboard::new(Us104Key, ScancodeSet1, handle_ctrl) }
}

/// Calls `Keyboard::add_byte`.  Trusted: what comes back and the state the
/// keyboard is left in depend on the keyboard and the byte alone.
#[verifier::external_body]
fn add_byte(decoder: &mut KeyboardDecoder, byte: u8) -> (r: Result<Option<KeyEvent>, Error>)
    ensures
        (r, *final(decoder)) == scancode_outcome(*old(decoder), byte),
{
    decoder.keyboard.add_byte(byte)
}

/// Calls `Keyboard::process_keyevent`.  Trusted: what comes back and the
/// state the keyboard is left in depend on the keyboard and the event alone.
#[verifier::external_body]
fn process_keyevent(decoder: &mut KeyboardDecoder, event: KeyEvent) -> (r: Option<DecodedKey>)
    ensures
        (r, *final(decoder)) == key_event_outcome(*old(decoder), event),
{
    match decoder.keyboard.process_keyevent(event) {
        Some(pc_keyboard::DecodedKey::RawKey(code)) => Some(DecodedKey::RawKey(code)),
        Some(pc_keyboard::DecodedKey::Unicode(c)) => Some(DecodedKey::Unicode(c)),
        None => None,
    }
}

/// Formats a key code with its `Debug` impl.  Trusted: the text depends on
/// the key code alone.
#[verifier::external_body]
pub(crate) fn key_code_name(code: KeyCode) -> (name: String)
    ensures
        name@ == key_code_text(code),
{
    format!("{:?}", code)
}

/// What feeding one byte gives: the byte goes through the scancode state
/// machine, and a key event that it completes goes through the layout.
pub open spec fn feed_outcome(decoder: KeyboardDecoder, byte: u8) -> (
    Option<DecodedKey>,
    KeyboardDecoder,
) {
    let (scanned, after_scan) = scancode_outcome(decoder, byte);
    match scanned {
        Ok(Some(event)) => key_event_outcome(after_scan, event),
        _ => (None, after_scan),
    }
}

impl KeyboardDecoder {
    /// A decoder in its initial state, as it is at boot: the one that
    /// `pc_keyboard` makes when Ctrl combinations are left undecoded.  Two
    /// decoders made so are in the same state.
    pub fn new() -> (decoder: KeyboardDecoder)
        ensures
            decoder == keyboard_made(ControlHandling::Ignore),
    {
        new_keyboard(ControlHandling::Ignore)
    }

    /// Feeds one scancode byte.  Returns the key that the byte completes,
    /// if it completes one that decodes to something: bytes of a longer
    /// sequence, key releases, modifier keys and unknown codes give nothing.
    pub fn feed(&mut self, byte: u8) -> (key: Option<DecodedKey>)
        ensures
            (key, *final(self)) == feed_outcome(*old(self), byte),
    {
        match add_byte(self, byte) {
            Ok(Some(event)) => process_keyevent(self, event),
            _ => None,
        }
    }
}

} // verus!
