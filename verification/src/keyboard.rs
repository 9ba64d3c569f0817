//! Keyboard input: scancodes from the PS/2 controller decoded into keys by
//! the `pc_keyboard` crate, on a US 104-key layout with scancode set 1.
use vstd::prelude::*;
use pc_keyboard::layouts::Us104Key;
use pc_keyboard::{HandleControl, KeyCode, KeyEvent, Keyboard, ScancodeSet1};

verus! {

/// A key going up or down, as the `pc_keyboard` crate reports it.
#[verifier::external_type_specification]
#[verifier::external_body]
pub struct ExKeyEvent(KeyEvent);

/// A key of the keyboard, as the `pc_keyboard` crate names it.
#[verifier::external_type_specification]
#[verifier::external_body]
pub struct ExKeyCode(KeyCode);

/// A decoding error of the `pc_keyboard` crate.
#[verifier::external_type_specification]
#[verifier::external_body]
pub struct ExKeyboardError(pc_keyboard::Error);

/// The keyboard decoder of the `pc_keyboard` crate, which keeps the state
/// of multi-byte scancodes and of the modifier keys.  Its type is generic
/// over traits of that crate, which the verifier cannot declare, so it is
/// held here out of the verifier's sight.
#[verifier::external_body]
pub struct KeyDecoder {
    inner: Keyboard<Us104Key, ScancodeSet1>,
}

/// A decoded key, as the `pc_keyboard` crate's `DecodedKey` gives it.
#[derive(Debug, Clone, Copy)]
pub enum DecodedKeyPlain {
    /// A key that types this character.
    Unicode(char),
    /// A key that types no character.
    RawKey(KeyCode),
}

/// What a scancode shows on the console.
#[derive(Debug, Clone, Copy)]
pub enum KeyOutput {
    /// The character a key press typed.
    Char(char),
    /// A key that types no character, shown by its name.
    Raw(KeyCode),
    /// Nothing: the scancode completed no key.
    Nothing,
}

/// The scancode bytes fed to the decoder since it was made.
pub uninterp spec fn bytes_fed(d: KeyDecoder) -> Seq<u8>;

/// The key events the decoder has turned into keys since it was made.
pub uninterp spec fn events_processed(d: KeyDecoder) -> Seq<KeyEvent>;

/// What `Keyboard::add_byte` answers to the last of these bytes when they
/// are all the bytes fed since the decoder was made: the scancode set's
/// state, which alone decides the answer, is a function of those bytes.
pub uninterp spec fn answer_to_last(bytes: Seq<u8>) -> Result<Option<KeyEvent>, pc_keyboard::Error>;

/// What `Keyboard::process_keyevent` answers to the last of these events
/// when they are all the events processed since the decoder was made: the
/// modifier keys' state, which with the fixed layout and Ctrl handling
/// decides the answer, is a function of those events.
pub uninterp spec fn key_for_last(events: Seq<KeyEvent>) -> Option<DecodedKeyPlain>;

/// Calls `Keyboard::new(ScancodeSet1::new(), Us104Key, HandleControl::Ignore)`:
/// a decoder for a US 104-key keyboard sending scancode set 1, which leaves
/// letters typed with Ctrl held as letters, and has been fed nothing yet.
#[verifier::external_body]
pub fn key_decoder_new() -> (d: KeyDecoder)
    ensures
        bytes_fed(d) == Seq::<u8>::empty(),
        events_processed(d) == Seq::<KeyEvent>::empty(),
{
    KeyDecoder { inner: Keyboard::new(ScancodeSet1::new(), Us104Key, HandleControl::Ignore) }
}

/// Calls `Keyboard::add_byte`, which feeds one scancode byte to the
/// scancode set's decoder and answers from the bytes fed so far; the
/// modifier keys' state is left as it was.
#[verifier::external_body]
fn decoder_add_byte(d: &mut KeyDecoder, scancode: u8) -> (r: Result<
    Option<KeyEvent>,
    pc_keyboard::Error,
>)
    ensures
        bytes_fed(*final(d)) == bytes_fed(*old(d)).push(scancode),
        events_processed(*final(d)) == events_processed(*old(d)),
        r == answer_to_last(bytes_fed(*final(d))),
{
    d.inner.add_byte(scancode)
}

/// Calls `Keyboard::process_keyevent`, which turns a key event into the key
/// it types, from the events processed so far; the scancode set's state is
/// left as it was.  `DecodedKey::Unicode` becomes `DecodedKeyPlain::Unicode`
/// and `DecodedKey::RawKey` becomes `DecodedKeyPlain::RawKey`.
#[verifier::external_body]
fn decoder_process_keyevent(d: &mut KeyDecoder, event: KeyEvent) -> (k: Option<DecodedKeyPlain>)
    ensures
        events_processed(*final(d)) == events_processed(*old(d)).push(event),
        bytes_fed(*final(d)) == bytes_fed(*old(d)),
        k == key_for_last(events_processed(*final(d))),
{
    match d.inner.process_keyevent(event) {
        Some(pc_keyboard::DecodedKey::Unicode(c)) => Some(DecodedKeyPlain::Unicode(c)),
        Some(pc_keyboard::DecodedKey::RawKey(code)) => Some(DecodedKeyPlain::RawKey(code)),
        None => None,
    }
}

/// The key event, if any, that the decoder's answer to a scancode byte
/// completes: none while a multi-byte scancode is still incomplete, and none
/// on a decoding error.
pub fn completed_event(r: Result<Option<KeyEvent>, pc_keyboard::Error>) -> (event: Option<
    KeyEvent,
>)
    ensures
        event == match r {
            Ok(Some(e)) => Some(e),
            _ => None::<KeyEvent>,
        },
{
    match r {
        Ok(Some(e)) => Some(e),
        _ => None,
    }
}

/// What the console shows for a decoded key: its character, or its name
/// when it types none; nothing when no key was decoded.
pub open spec fn shown(k: Option<DecodedKeyPlain>) -> KeyOutput {
    match k {
        Some(DecodedKeyPlain::Unicode(c)) => KeyOutput::Char(c),
        Some(DecodedKeyPlain::RawKey(code)) => KeyOutput::Raw(code),
        None => KeyOutput::Nothing,
    }
}

/// What the console shows for a decoded key, as `shown` says.
pub fn key_output(k: Option<DecodedKeyPlain>) -> (out: KeyOutput)
    ensures
        out == shown(k),
        forall|c: char| k == Some(DecodedKeyPlain::Unicode(c)) ==> out == KeyOutput::Char(c),
        forall|code: KeyCode|
            k == Some(DecodedKeyPlain::RawKey(code)) ==> out == KeyOutput::Raw(code),
        k is None ==> out == KeyOutput::Nothing,
{
    match k {
        Some(DecodedKeyPlain::Unicode(c)) => KeyOutput::Char(c),
        Some(DecodedKeyPlain::RawKey(code)) => KeyOutput::Raw(code),
        None => KeyOutput::Nothing,
    }
}

/// Feeds one scancode read from the PS/2 controller to the decoder and
/// answers what the console shows for it: when the decoder's answer to the
/// byte is a completed key event, that event goes on to be turned into a
/// key and the console shows that key; otherwise (an incomplete scancode or
/// a decoding error) no event is processed and nothing is shown.
pub fn handle_scancode(d: &mut KeyDecoder, scancode: u8) -> (out: KeyOutput)
    ensures
        bytes_fed(*final(d)) == bytes_fed(*old(d)).push(scancode),
        match answer_to_last(bytes_fed(*final(d))) {
            Ok(Some(e)) => {
                &&& events_processed(*final(d)) == events_processed(*old(d)).push(e)
                &&& out == shown(key_for_last(events_processed(*final(d))))
            },
            _ => {
                &&& events_processed(*final(d)) == events_processed(*old(d))
                &&& out == KeyOutput::Nothing
            },
        },
        forall|c: char|
            answer_to_last(bytes_fed(*final(d))) is Ok && answer_to_last(
                bytes_fed(*final(d)),
            )->Ok_0 is Some && key_for_last(events_processed(*final(d))) == Some(
                DecodedKeyPlain::Unicode(c),
            ) ==> out == KeyOutput::Char(c),
{
    let key = match completed_event(decoder_add_byte(d, scancode)) {
        Some(event) => decoder_process_keyevent(d, event),
        None => None,
    };
    key_output(key)
}

/// Every decoded key is shown: each character the decoder types, control
/// characters such as newline, tab and backspace included, is shown as that
/// very character; each key that types none is shown by its own name; and
/// only when no key was decoded is nothing shown.
pub proof fn lemma_every_key_is_shown(c: char, code: KeyCode)
    ensures
        shown(Some(DecodedKeyPlain::Unicode(c))) == KeyOutput::Char(c),
        shown(Some(DecodedKeyPlain::RawKey(code))) == KeyOutput::Raw(code),
        shown(None) == KeyOutput::Nothing,
{
}

} // verus!
