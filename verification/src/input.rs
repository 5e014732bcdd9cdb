//! What a terminal event means to the event loop.

use vstd::prelude::*;

verus! {

/// Which movement of a key an event reports.
#[derive(Clone, Copy, Debug, PartialEq, Eq, Structural)]
pub enum KeyKind {
    Press,
    Repeat,
    Release,
}

/// The key of an event, as far as the event loop tells keys apart.
#[derive(Clone, Copy, Debug, PartialEq, Eq, Structural)]
pub enum KeyCode {
    Char(char),
    Other,
}

/// A key event. `modifiers` holds the bits of `crossterm::event::KeyModifiers`, and `key` is
/// the event as the terminal delivered it, which the loop passes on without looking inside.
#[derive(Debug, PartialEq, Eq)]
pub struct KeyInput<K> {
    pub kind: KeyKind,
    pub modifiers: u8,
    pub code: KeyCode,
    pub key: K,
}

/// An event read from the terminal.
#[derive(Debug, PartialEq, Eq)]
pub enum InputEvent<K> {
    Key(KeyInput<K>),
    Paste(String),
    Other,
}

/// What the event loop does about a terminal event.
#[derive(Debug, PartialEq, Eq)]
pub enum InputAction<K> {
    Quit,
    Key(K),
    Paste(String),
    Ignore,
}

/// Whether the modifier bits of a key event hold Control.
pub open spec fn control_held(modifiers: u8) -> bool {
    modifiers & 0x02u8 == 0x02u8
}

/// Ctrl-C or Ctrl-D, pressed or held down.
pub open spec fn is_quit_key<K>(key: KeyInput<K>) -> bool {
    &&& key.kind != KeyKind::Release
    &&& control_held(key.modifiers)
    &&& key.code == KeyCode::Char('c') || key.code == KeyCode::Char('d')
}

/// The meaning of a terminal event.
pub open spec fn input_meaning<K>(event: InputEvent<K>) -> InputAction<K> {
    match event {
        InputEvent::Key(key) => if key.kind == KeyKind::Release {
            InputAction::Ignore
        } else if is_quit_key(key) {
            InputAction::Quit
        } else {
            InputAction::Key(key.key)
        },
        InputEvent::Paste(text) => InputAction::Paste(text),
        InputEvent::Other => InputAction::Ignore,
    }
}

/// Calls `KeyModifiers::contains` of crossterm with `KeyModifiers::CONTROL`, on the modifiers
/// that the bits stand for. The contract claims that the answer is whether the bit of
/// `CONTROL`, the second lowest, is set, whatever the other bits are.
#[verifier::external_body]
fn holds_control(modifiers: u8) -> (held: bool)
    ensures
        held == control_held(modifiers),
{
    crossterm::event::KeyModifiers::from_bits_retain(modifiers).contains(
        crossterm::event::KeyModifiers::CONTROL,
    )
}

/// Decides what becomes of a terminal event. A released key does nothing, Ctrl-C and Ctrl-D
/// leave the program, and every other key and every paste goes to the application.
pub fn on_input<K>(event: InputEvent<K>) -> (action: InputAction<K>)
    ensures
        action == input_meaning(event),
{
    match event {
        InputEvent::Key(key) => {
            if key.kind == KeyKind::Release {
                return InputAction::Ignore;
            }
            let ctrl = holds_control(key.modifiers);
            let quits = match key.code {
                KeyCode::Char(c) => c == 'c' || c == 'd',
                KeyCode::Other => false,
            };
            if ctrl && quits {
                InputAction::Quit
            } else {
                InputAction::Key(key.key)
            }
        },
        InputEvent::Paste(text) => InputAction::Paste(text),
        InputEvent::Other => InputAction::Ignore,
    }
}

/// Control is held exactly if the second lowest of the modifier bits is set, whatever the
/// others are.
pub proof fn law_control_is_the_second_lowest_bit(modifiers: u8)
    ensures
        control_held(modifiers) <==> (modifiers / 2) % 2 == 1,
{
    assert(modifiers & 0x02u8 == 0x02u8 <==> (modifiers / 2) % 2 == 1) by (bit_vector);
}

/// Of the keys that are pressed or held down, exactly C and D with Control leave the program,
/// and every other one goes to the application as it came. Of a released key nothing comes, a
/// paste goes to the application whole, and everything else is passed over.
pub proof fn law_every_key_but_two_goes_to_the_application<K>(event: InputEvent<K>)
    ensures
        match event {
            InputEvent::Key(key) => {
                let quits = (key.modifiers / 2) % 2 == 1 && (key.code
                    == KeyCode::Char('c') || key.code == KeyCode::Char('d'));
                match key.kind {
                    KeyKind::Release => input_meaning(event) == InputAction::<K>::Ignore,
                    _ => input_meaning(event) == if quits {
                        InputAction::Quit
                    } else {
                        InputAction::Key(key.key)
                    },
                }
            },
            InputEvent::Paste(text) => input_meaning(event) == InputAction::<K>::Paste(text),
            InputEvent::Other => input_meaning(event) == InputAction::<K>::Ignore,
        },
{
    if let InputEvent::Key(key) = event {
        law_control_is_the_second_lowest_bit(key.modifiers);
    }
}

/// Neither the other modifiers nor whether a key is pressed or held down matters to what it
/// means.
pub proof fn law_only_control_counts_among_modifiers<K>(
    key: KeyInput<K>,
    kind: KeyKind,
    modifiers: u8,
)
    requires
        key.kind != KeyKind::Release,
        kind != KeyKind::Release,
        (modifiers / 2) % 2 == (key.modifiers / 2) % 2,
    ensures
        input_meaning(InputEvent::Key(KeyInput { kind, modifiers, ..key })) == input_meaning(
            InputEvent::Key(key),
        ),
{
    law_control_is_the_second_lowest_bit(key.modifiers);
    law_control_is_the_second_lowest_bit(modifiers);
}

} // verus!
