//! How the widget reacts to toolkit events: which input the player is sent,
//! and when the widget asks to be drawn again.
use vstd::prelude::*;

use crate::keys::{key_descriptor_of, to_key_descriptor, Key, KeyDescriptor, Location};

verus! {

/// A mouse button as the toolkit reports it.
#[derive(Clone, Copy, Debug, PartialEq, Eq, Structural)]
pub enum ButtonInput {
    Left,
    Right,
    Middle,
    Back,
    Forward,
    Other(u16),
}

/// A mouse button the player knows.
#[derive(Clone, Copy, Debug, PartialEq, Eq, Structural)]
pub enum MouseButton {
    Left,
    Right,
    Middle,
}

/// The player's button for a toolkit button: left, right and middle map to
/// themselves, every other button to none.
pub open spec fn button_of(button: ButtonInput) -> Option<MouseButton> {
    match button {
        ButtonInput::Left => Some(MouseButton::Left),
        ButtonInput::Right => Some(MouseButton::Right),
        ButtonInput::Middle => Some(MouseButton::Middle),
        _ => None,
    }
}

pub fn map_button(button: ButtonInput) -> (r: Option<MouseButton>)
    ensures
        r == button_of(button),
{
    match button {
        ButtonInput::Left => Some(MouseButton::Left),
        ButtonInput::Right => Some(MouseButton::Right),
        ButtonInput::Middle => Some(MouseButton::Middle),
        _ => None,
    }
}

/// A scroll amount as the toolkit reports it (its vertical component `D`).
#[derive(Clone, Copy, Debug, PartialEq, Eq, Structural)]
pub enum ScrollDelta<D> {
    Lines(D),
    Pixels(D),
}

/// A mouse event as the toolkit reports it; `D` is a scroll amount.
#[derive(Clone, Copy, Debug, PartialEq, Eq, Structural)]
pub enum MouseEvent<D> {
    CursorEntered,
    CursorMoved,
    CursorLeft,
    ButtonPressed(ButtonInput),
    ButtonReleased(ButtonInput),
    WheelScrolled(ScrollDelta<D>),
}

/// Mouse input for the player; `P` is the cursor position inside the widget
/// (to be mapped into stage coordinates), `D` a scroll amount.
#[derive(Clone, Copy, Debug, PartialEq, Eq, Structural)]
pub enum PointerInput<P, D> {
    Move(P),
    Down(P, MouseButton),
    Up(P, MouseButton),
    Wheel(ScrollDelta<D>),
    Leave,
}

/// What the widget does on an event: whether it handles it (and then asks to
/// be drawn again), and what it sends the player.
#[derive(Clone, Debug, PartialEq, Eq, Structural)]
pub enum Reaction<C> {
    Ignored,
    Handled(C),
}

/// The reaction to a mouse event, given the cursor position inside the widget
/// (`None` when the cursor is outside it): moves and button presses and
/// releases of a known button are sent only with a position inside; wheel and
/// leave are always sent; the cursor entering is ignored.
pub open spec fn mouse_reaction<P, D>(event: MouseEvent<D>, position: Option<P>) -> Reaction<
    Option<PointerInput<P, D>>,
> {
    match event {
        MouseEvent::CursorMoved => Reaction::Handled(
            match position {
                Some(p) => Some(PointerInput::Move(p)),
                None => None,
            },
        ),
        MouseEvent::ButtonPressed(b) => Reaction::Handled(
            match (position, button_of(b)) {
                (Some(p), Some(button)) => Some(PointerInput::Down(p, button)),
                _ => None,
            },
        ),
        MouseEvent::ButtonReleased(b) => Reaction::Handled(
            match (position, button_of(b)) {
                (Some(p), Some(button)) => Some(PointerInput::Up(p, button)),
                _ => None,
            },
        ),
        MouseEvent::WheelScrolled(delta) => Reaction::Handled(Some(PointerInput::Wheel(delta))),
        MouseEvent::CursorLeft => Reaction::Handled(Some(PointerInput::Leave)),
        MouseEvent::CursorEntered => Reaction::Ignored,
    }
}

/// React to a mouse event.
pub fn on_mouse<P, D>(event: MouseEvent<D>, position: Option<P>) -> (r: Reaction<
    Option<PointerInput<P, D>>,
>)
    ensures
        r == mouse_reaction(event, position),
{
    match event {
        MouseEvent::CursorMoved => Reaction::Handled(
            match position {
                Some(p) => Some(PointerInput::Move(p)),
                None => None,
            },
        ),
        MouseEvent::ButtonPressed(b) => Reaction::Handled(
            match (position, map_button(b)) {
                (Some(p), Some(button)) => Some(PointerInput::Down(p, button)),
                _ => None,
            },
        ),
        MouseEvent::ButtonReleased(b) => Reaction::Handled(
            match (position, map_button(b)) {
                (Some(p), Some(button)) => Some(PointerInput::Up(p, button)),
                _ => None,
            },
        ),
        MouseEvent::WheelScrolled(delta) => Reaction::Handled(Some(PointerInput::Wheel(delta))),
        MouseEvent::CursorLeft => Reaction::Handled(Some(PointerInput::Leave)),
        MouseEvent::CursorEntered => Reaction::Ignored,
    }
}

/// A keyboard event as the toolkit reports it.
pub enum KeyEvent {
    KeyPressed { key: Key, location: Location, text: Option<String> },
    KeyReleased { key: Key, location: Location },
    ModifiersChanged,
}

/// What the widget sends the player on a keyboard event.
pub enum KeyReaction {
    /// Not handled (no redraw requested).
    Ignored,
    /// A key went down: first the key itself, when it has a descriptor, then
    /// one text input per typed character, in order.
    Pressed { down: Option<KeyDescriptor>, typed: Vec<char> },
    /// A key went up: the key, when it has a descriptor.
    Released { up: Option<KeyDescriptor> },
}

/// The characters a key press typed (none when it typed no text).
pub open spec fn typed_text(text: Option<String>) -> Seq<char> {
    match text {
        Some(t) => t@,
        None => Seq::empty(),
    }
}

/// The reaction to a keyboard event: presses and releases are handled, with
/// the key's descriptor (if any) and, for a press, the typed characters; a
/// change of modifiers alone is ignored.
pub open spec fn key_reaction_matches(r: KeyReaction, event: KeyEvent) -> bool {
    match event {
        KeyEvent::KeyPressed { key, location, text } => match r {
            KeyReaction::Pressed { down, typed } => down == key_descriptor_of(key, location)
                && typed@ == typed_text(text),
            _ => false,
        },
        KeyEvent::KeyReleased { key, location } => match r {
            KeyReaction::Released { up } => up == key_descriptor_of(key, location),
            _ => false,
        },
        KeyEvent::ModifiersChanged => r is Ignored,
    }
}

/// React to a keyboard event.
pub fn on_key(event: &KeyEvent) -> (r: KeyReaction)
    ensures
        key_reaction_matches(r, *event),
{
    match event {
        KeyEvent::KeyPressed { key, location, text } => {
            broadcast use vstd::string::group_string_axioms;

            let down = to_key_descriptor(key, *location);
            let mut typed: Vec<char> = Vec::new();
            if let Some(text) = text {
                for c in it: text.as_str().chars()
                    invariant
                        it.seq() == text@,
                        typed@ == it.seq().take(it.index()),
                {
                    assert(it.seq().take(it.index() + 1) =~= it.seq().take(it.index()).push(c));
                    typed.push(c);
                }
                assert(text@.take(text@.len() as int) =~= text@);
            }
            KeyReaction::Pressed { down, typed }
        },
        KeyEvent::KeyReleased { key, location } => KeyReaction::Released {
            up: to_key_descriptor(key, *location),
        },
        KeyEvent::ModifiersChanged => KeyReaction::Ignored,
    }
}

/// Pointer input that carries a position is sent only while the cursor is
/// inside the widget, and only the cursor entering is ignored.
pub proof fn lemma_positions_only_inside<P, D>(event: MouseEvent<D>)
    ensures
        match mouse_reaction::<P, D>(event, None) {
            Reaction::Handled(Some(input)) => input is Wheel || input is Leave,
            _ => true,
        },
        (mouse_reaction::<P, D>(event, None) is Ignored) <==> (event is CursorEntered),
{
}

/// When the widget asks to be drawn again after advancing playback.
#[derive(Clone, Copy, Debug, PartialEq, Eq, Structural)]
pub enum Redraw {
    /// On the next frame.
    Now,
    /// After this many milliseconds.
    AfterMillis(u64),
}

/// While paused the widget polls at this interval (milliseconds), so resuming
/// and input stay responsive.
pub const IDLE_POLL_MILLIS: u64 = 50;

/// After advancing, a playing movie is drawn again on the next frame; a paused
/// one is polled every `IDLE_POLL_MILLIS`.
pub fn redraw_after_advance(paused: bool) -> (r: Redraw)
    ensures
        r == (if paused { Redraw::AfterMillis(IDLE_POLL_MILLIS) } else { Redraw::Now }),
{
    if paused {
        Redraw::AfterMillis(IDLE_POLL_MILLIS)
    } else {
        Redraw::Now
    }
}

/// Buttons: left, right and middle are the player's left, right and middle
/// buttons; back, forward and any other button are unknown to it.
pub proof fn lemma_button_table(n: u16)
    ensures
        button_of(ButtonInput::Left) == Some(MouseButton::Left),
        button_of(ButtonInput::Right) == Some(MouseButton::Right),
        button_of(ButtonInput::Middle) == Some(MouseButton::Middle),
        button_of(ButtonInput::Back) is None,
        button_of(ButtonInput::Forward) is None,
        button_of(ButtonInput::Other(n)) is None,
{
}

/// Presses and releases treat every button alike: with the cursor inside, a
/// button the player knows goes down at the cursor exactly when it would go up
/// there, as that same player button; an unknown button is handled but sends
/// nothing either way.
pub proof fn lemma_press_and_release_alike<P, D>(b: ButtonInput, p: P)
    ensures
        match button_of(b) {
            Some(m) => mouse_reaction::<P, D>(MouseEvent::ButtonPressed(b), Some(p))
                == Reaction::<Option<PointerInput<P, D>>>::Handled(Some(PointerInput::Down(p, m)))
                && mouse_reaction::<P, D>(MouseEvent::ButtonReleased(b), Some(p))
                == Reaction::<Option<PointerInput<P, D>>>::Handled(Some(PointerInput::Up(p, m))),
            None => mouse_reaction::<P, D>(MouseEvent::ButtonPressed(b), Some(p))
                == Reaction::<Option<PointerInput<P, D>>>::Handled(None)
                && mouse_reaction::<P, D>(MouseEvent::ButtonReleased(b), Some(p))
                == Reaction::<Option<PointerInput<P, D>>>::Handled(None),
        },
{
}

/// Moves are sent at the cursor position, scrolling is sent with the toolkit's
/// amount unchanged, and leaving is always sent.
pub proof fn lemma_moves_wheel_leave<P, D>(p: P, position: Option<P>, delta: ScrollDelta<D>)
    ensures
        mouse_reaction::<P, D>(MouseEvent::CursorMoved, Some(p))
            == Reaction::<Option<PointerInput<P, D>>>::Handled(Some(PointerInput::Move(p))),
        mouse_reaction::<P, D>(MouseEvent::WheelScrolled(delta), position)
            == Reaction::<Option<PointerInput<P, D>>>::Handled(Some(PointerInput::Wheel(delta))),
        mouse_reaction::<P, D>(MouseEvent::CursorLeft, position)
            == Reaction::<Option<PointerInput<P, D>>>::Handled(Some(PointerInput::Leave)),
{
}

/// A key's release reports the very descriptor its press reports (so every key
/// that goes down also comes up), and both are the key's descriptor; a press
/// types exactly the characters of its text, in order, and nothing without
/// text.
pub proof fn lemma_release_matches_press(
    key: Key,
    location: Location,
    text: Option<String>,
    pressed: KeyReaction,
    released: KeyReaction,
)
    requires
        key_reaction_matches(pressed, KeyEvent::KeyPressed { key, location, text }),
        key_reaction_matches(released, KeyEvent::KeyReleased { key, location }),
    ensures
        pressed matches KeyReaction::Pressed { down, typed } && released matches KeyReaction::Released { up }
            && down == up && up == key_descriptor_of(key, location) && (match text {
            Some(t) => typed@ == t@,
            None => typed@.len() == 0,
        }),
{
}

/// A change of modifiers alone is the only keyboard event not handled.
pub proof fn lemma_modifiers_ignored(r: KeyReaction)
    requires
        key_reaction_matches(r, KeyEvent::ModifiersChanged),
    ensures
        r is Ignored,
{
}

/// While paused the widget polls every 50 milliseconds.
pub proof fn lemma_idle_poll_interval()
    ensures
        IDLE_POLL_MILLIS == 50,
{
}

} // verus!
