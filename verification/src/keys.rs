//! Translating a keyboard key, as the windowing toolkit reports it, into the key
//! descriptor the Flash player understands.
use vstd::prelude::*;

verus! {

broadcast use vstd::string::group_string_axioms;

/// Where on the keyboard a key sits, as the toolkit reports it.
#[derive(Clone, Copy, Debug, PartialEq, Eq, Structural)]
pub enum Location {
    Standard,
    Left,
    Right,
    Numpad,
}

/// The named keys of the toolkit that the player is told about; every other
/// named key of the toolkit is `Other`.
#[derive(Clone, Copy, Debug, PartialEq, Eq, Structural)]
pub enum Named {
    ArrowUp,
    ArrowDown,
    ArrowLeft,
    ArrowRight,
    Space,
    Enter,
    Backspace,
    Tab,
    Escape,
    Delete,
    Shift,
    Control,
    Alt,
    Other,
}

/// A logical key as the toolkit reports it: the text it types, a named key,
/// or a key it could not identify.
#[derive(Clone, Debug)]
pub enum Key {
    Character(String),
    Named(Named),
    Unidentified,
}

/// Where the player is told a key sits.
#[derive(Clone, Copy, Debug, PartialEq, Eq, Structural)]
pub enum KeyLocation {
    Standard,
    Left,
    Right,
    Numpad,
}

/// The named logical keys the player is told about.
#[derive(Clone, Copy, Debug, PartialEq, Eq, Structural)]
pub enum NamedKey {
    ArrowUp,
    ArrowDown,
    ArrowLeft,
    ArrowRight,
    Enter,
    Backspace,
    Tab,
    Escape,
    Delete,
    Shift,
    Control,
    Alt,
}

/// The logical key handed to the player: a character or a named key.
#[derive(Clone, Copy, Debug, PartialEq, Eq, Structural)]
pub enum LogicalKey {
    Character(char),
    Named(NamedKey),
}

/// The physical key handed to the player.
#[derive(Clone, Copy, Debug, PartialEq, Eq, Structural)]
pub enum PhysicalKey {
    KeyA,
    KeyB,
    KeyC,
    KeyD,
    KeyE,
    KeyF,
    KeyG,
    KeyH,
    KeyI,
    KeyJ,
    KeyK,
    KeyL,
    KeyM,
    KeyN,
    KeyO,
    KeyP,
    KeyQ,
    KeyR,
    KeyS,
    KeyT,
    KeyU,
    KeyV,
    KeyW,
    KeyX,
    KeyY,
    KeyZ,
    Digit0,
    Digit1,
    Digit2,
    Digit3,
    Digit4,
    Digit5,
    Digit6,
    Digit7,
    Digit8,
    Digit9,
    ArrowUp,
    ArrowDown,
    ArrowLeft,
    ArrowRight,
    Space,
    Enter,
    Backspace,
    Tab,
    Escape,
    Delete,
    ShiftLeft,
    ShiftRight,
    ControlLeft,
    ControlRight,
    AltLeft,
    AltRight,
    Unknown,
}

/// A full key description for the player.
#[derive(Clone, Copy, Debug, PartialEq, Eq, Structural)]
pub struct KeyDescriptor {
    pub physical_key: PhysicalKey,
    pub logical_key: LogicalKey,
    pub key_location: KeyLocation,
}

/// The player's location for a toolkit location.
pub open spec fn location_of(location: Location) -> KeyLocation {
    match location {
        Location::Standard => KeyLocation::Standard,
        Location::Left => KeyLocation::Left,
        Location::Right => KeyLocation::Right,
        Location::Numpad => KeyLocation::Numpad,
    }
}

/// ASCII lowercase of a character: `A`..=`Z` move to `a`..=`z`, all else stays.
pub open spec fn ascii_lower(c: char) -> char {
    if 'A' <= c && c <= 'Z' {
        ((c as u32) + 32) as char
    } else {
        c
    }
}

/// The physical key of a lowercase letter or a digit; `Unknown` for any other
/// character.
pub open spec fn physical_of_lower(c: char) -> PhysicalKey {
    if c == 'a' { PhysicalKey::KeyA }
    else if c == 'b' { PhysicalKey::KeyB }
    else if c == 'c' { PhysicalKey::KeyC }
    else if c == 'd' { PhysicalKey::KeyD }
    else if c == 'e' { PhysicalKey::KeyE }
    else if c == 'f' { PhysicalKey::KeyF }
    else if c == 'g' { PhysicalKey::KeyG }
    else if c == 'h' { PhysicalKey::KeyH }
    else if c == 'i' { PhysicalKey::KeyI }
    else if c == 'j' { PhysicalKey::KeyJ }
    else if c == 'k' { PhysicalKey::KeyK }
    else if c == 'l' { PhysicalKey::KeyL }
    else if c == 'm' { PhysicalKey::KeyM }
    else if c == 'n' { PhysicalKey::KeyN }
    else if c == 'o' { PhysicalKey::KeyO }
    else if c == 'p' { PhysicalKey::KeyP }
    else if c == 'q' { PhysicalKey::KeyQ }
    else if c == 'r' { PhysicalKey::KeyR }
    else if c == 's' { PhysicalKey::KeyS }
    else if c == 't' { PhysicalKey::KeyT }
    else if c == 'u' { PhysicalKey::KeyU }
    else if c == 'v' { PhysicalKey::KeyV }
    else if c == 'w' { PhysicalKey::KeyW }
    else if c == 'x' { PhysicalKey::KeyX }
    else if c == 'y' { PhysicalKey::KeyY }
    else if c == 'z' { PhysicalKey::KeyZ }
    else if c == '0' { PhysicalKey::Digit0 }
    else if c == '1' { PhysicalKey::Digit1 }
    else if c == '2' { PhysicalKey::Digit2 }
    else if c == '3' { PhysicalKey::Digit3 }
    else if c == '4' { PhysicalKey::Digit4 }
    else if c == '5' { PhysicalKey::Digit5 }
    else if c == '6' { PhysicalKey::Digit6 }
    else if c == '7' { PhysicalKey::Digit7 }
    else if c == '8' { PhysicalKey::Digit8 }
    else if c == '9' { PhysicalKey::Digit9 }
    else { PhysicalKey::Unknown }
}

/// The physical key synthesized for a typed character: letters regardless of
/// case, and digits; `Unknown` otherwise.
pub open spec fn physical_of_char(c: char) -> PhysicalKey {
    physical_of_lower(ascii_lower(c))
}

/// The left or right variant of a modifier, by where the key sits: the right
/// one exactly when the key is at the right.
pub open spec fn sided(loc: KeyLocation, left: PhysicalKey, right: PhysicalKey) -> PhysicalKey {
    if loc == KeyLocation::Right { right } else { left }
}

/// The physical and logical key of a named key at a location, or `None` for a
/// named key the player is not told about.
pub open spec fn named_keys(named: Named, loc: KeyLocation) -> Option<(PhysicalKey, LogicalKey)> {
    match named {
        Named::ArrowUp => Some((PhysicalKey::ArrowUp, LogicalKey::Named(NamedKey::ArrowUp))),
        Named::ArrowDown => Some((PhysicalKey::ArrowDown, LogicalKey::Named(NamedKey::ArrowDown))),
        Named::ArrowLeft => Some((PhysicalKey::ArrowLeft, LogicalKey::Named(NamedKey::ArrowLeft))),
        Named::ArrowRight => Some((PhysicalKey::ArrowRight, LogicalKey::Named(NamedKey::ArrowRight))),
        Named::Space => Some((PhysicalKey::Space, LogicalKey::Character(' '))),
        Named::Enter => Some((PhysicalKey::Enter, LogicalKey::Named(NamedKey::Enter))),
        Named::Backspace => Some((PhysicalKey::Backspace, LogicalKey::Named(NamedKey::Backspace))),
        Named::Tab => Some((PhysicalKey::Tab, LogicalKey::Named(NamedKey::Tab))),
        Named::Escape => Some((PhysicalKey::Escape, LogicalKey::Named(NamedKey::Escape))),
        Named::Delete => Some((PhysicalKey::Delete, LogicalKey::Named(NamedKey::Delete))),
        Named::Shift => Some((
            sided(loc, PhysicalKey::ShiftLeft, PhysicalKey::ShiftRight),
            LogicalKey::Named(NamedKey::Shift),
        )),
        Named::Control => Some((
            sided(loc, PhysicalKey::ControlLeft, PhysicalKey::ControlRight),
            LogicalKey::Named(NamedKey::Control),
        )),
        Named::Alt => Some((
            sided(loc, PhysicalKey::AltLeft, PhysicalKey::AltRight),
            LogicalKey::Named(NamedKey::Alt),
        )),
        Named::Other => None,
    }
}

/// The descriptor the player receives for a toolkit key at a location, if any:
/// a character key by its first character (the physical key synthesized from
/// it), a known named key by its table entry; nothing for an empty character
/// key, an unknown named key, or an unidentified key.
pub open spec fn key_descriptor_of(key: Key, location: Location) -> Option<KeyDescriptor> {
    let loc = location_of(location);
    match key {
        Key::Character(s) => if s@.len() == 0 {
            None
        } else {
            Some(
                KeyDescriptor {
                    physical_key: physical_of_char(s@[0]),
                    logical_key: LogicalKey::Character(s@[0]),
                    key_location: loc,
                },
            )
        },
        Key::Named(n) => match named_keys(n, loc) {
            Some(pl) => Some(KeyDescriptor { physical_key: pl.0, logical_key: pl.1, key_location: loc }),
            None => None,
        },
        Key::Unidentified => None,
    }
}

/// ASCII lowercase of a character.
pub fn ascii_lowercase(c: char) -> (r: char)
    ensures
        r == ascii_lower(c),
{
    if 'A' <= c && c <= 'Z' {
        let b: u8 = (c as u32 + 32) as u8;
        b as char
    } else {
        c
    }
}

fn physical_key_of_char(c: char) -> (p: PhysicalKey)
    ensures
        p == physical_of_char(c),
{
    match ascii_lowercase(c) {
        'a' => PhysicalKey::KeyA,
        'b' => PhysicalKey::KeyB,
        'c' => PhysicalKey::KeyC,
        'd' => PhysicalKey::KeyD,
        'e' => PhysicalKey::KeyE,
        'f' => PhysicalKey::KeyF,
        'g' => PhysicalKey::KeyG,
        'h' => PhysicalKey::KeyH,
        'i' => PhysicalKey::KeyI,
        'j' => PhysicalKey::KeyJ,
        'k' => PhysicalKey::KeyK,
        'l' => PhysicalKey::KeyL,
        'm' => PhysicalKey::KeyM,
        'n' => PhysicalKey::KeyN,
        'o' => PhysicalKey::KeyO,
        'p' => PhysicalKey::KeyP,
        'q' => PhysicalKey::KeyQ,
        'r' => PhysicalKey::KeyR,
        's' => PhysicalKey::KeyS,
        't' => PhysicalKey::KeyT,
        'u' => PhysicalKey::KeyU,
        'v' => PhysicalKey::KeyV,
        'w' => PhysicalKey::KeyW,
        'x' => PhysicalKey::KeyX,
        'y' => PhysicalKey::KeyY,
        'z' => PhysicalKey::KeyZ,
        '0' => PhysicalKey::Digit0,
        '1' => PhysicalKey::Digit1,
        '2' => PhysicalKey::Digit2,
        '3' => PhysicalKey::Digit3,
        '4' => PhysicalKey::Digit4,
        '5' => PhysicalKey::Digit5,
        '6' => PhysicalKey::Digit6,
        '7' => PhysicalKey::Digit7,
        '8' => PhysicalKey::Digit8,
        '9' => PhysicalKey::Digit9,
        _ => PhysicalKey::Unknown,
    }
}

/// Translate a toolkit key into the player's key descriptor, synthesizing the
/// physical key from the logical one for the common set (letters, digits,
/// arrows, etc.).
pub fn to_key_descriptor(key: &Key, location: Location) -> (r: Option<KeyDescriptor>)
    ensures
        r == key_descriptor_of(*key, location),
{
    let key_location = match location {
        Location::Standard => KeyLocation::Standard,
        Location::Left => KeyLocation::Left,
        Location::Right => KeyLocation::Right,
        Location::Numpad => KeyLocation::Numpad,
    };

    let (physical_key, logical_key) = match key {
        Key::Character(s) => {
            let c = match s.as_str().chars().next() {
                Some(c) => c,
                None => return None,
            };
            (physical_key_of_char(c), LogicalKey::Character(c))
        },
        Key::Named(named) => match named {
            Named::ArrowUp => (PhysicalKey::ArrowUp, LogicalKey::Named(NamedKey::ArrowUp)),
            Named::ArrowDown => (PhysicalKey::ArrowDown, LogicalKey::Named(NamedKey::ArrowDown)),
            Named::ArrowLeft => (PhysicalKey::ArrowLeft, LogicalKey::Named(NamedKey::ArrowLeft)),
            Named::ArrowRight => (PhysicalKey::ArrowRight, LogicalKey::Named(NamedKey::ArrowRight)),
            Named::Space => (PhysicalKey::Space, LogicalKey::Character(' ')),
            Named::Enter => (PhysicalKey::Enter, LogicalKey::Named(NamedKey::Enter)),
            Named::Backspace => (PhysicalKey::Backspace, LogicalKey::Named(NamedKey::Backspace)),
            Named::Tab => (PhysicalKey::Tab, LogicalKey::Named(NamedKey::Tab)),
            Named::Escape => (PhysicalKey::Escape, LogicalKey::Named(NamedKey::Escape)),
            Named::Delete => (PhysicalKey::Delete, LogicalKey::Named(NamedKey::Delete)),
            Named::Shift => {
                let p = if key_location == KeyLocation::Right {
                    PhysicalKey::ShiftRight
                } else {
                    PhysicalKey::ShiftLeft
                };
                (p, LogicalKey::Named(NamedKey::Shift))
            },
            Named::Control => {
                let p = if key_location == KeyLocation::Right {
                    PhysicalKey::ControlRight
                } else {
                    PhysicalKey::ControlLeft
                };
                (p, LogicalKey::Named(NamedKey::Control))
            },
            Named::Alt => {
                let p = if key_location == KeyLocation::Right {
                    PhysicalKey::AltRight
                } else {
                    PhysicalKey::AltLeft
                };
                (p, LogicalKey::Named(NamedKey::Alt))
            },
            Named::Other => return None,
        },
        Key::Unidentified => return None,
    };

    Some(KeyDescriptor { physical_key, logical_key, key_location })
}

/// The physical key is synthesized from the logical one: two keys that reach
/// the player with the same logical key at the same location carry the same
/// physical key. (A typed space is the exception: the named space key is sent
/// as the character `' '` with physical key `Space`, a typed `" "` with
/// `Unknown`.)
pub proof fn lemma_physical_follows_logical(k1: Key, l1: Location, k2: Key, l2: Location)
    requires
        key_descriptor_of(k1, l1) is Some,
        key_descriptor_of(k2, l2) is Some,
        key_descriptor_of(k1, l1)->0.logical_key == key_descriptor_of(k2, l2)->0.logical_key,
        key_descriptor_of(k1, l1)->0.key_location == key_descriptor_of(k2, l2)->0.key_location,
        key_descriptor_of(k1, l1)->0.logical_key != LogicalKey::Character(' '),
    ensures
        key_descriptor_of(k1, l1)->0.physical_key == key_descriptor_of(k2, l2)->0.physical_key,
{
}

/// Letters map to their physical key whatever their case.
pub proof fn lemma_physical_ignores_case(c: char)
    ensures
        physical_of_char(c) == physical_of_char(ascii_lower(c)),
        'A' <= c <= 'Z' ==> physical_of_char(c) != PhysicalKey::Unknown,
{
}

/// Every descriptor is at the location the key was reported at, and only the
/// modifiers (shift, control, alt) depend on it: any other key yields the same
/// physical and logical key wherever it is reported.
pub proof fn lemma_location_only_picks_side(key: Key, l1: Location, l2: Location)
    requires
        !(key matches Key::Named(n) && (n == Named::Shift || n == Named::Control || n
            == Named::Alt)),
    ensures
        key_descriptor_of(key, l1) is Some ==> key_descriptor_of(key, l1)->0.key_location
            == location_of(l1),
        key_descriptor_of(key, l1) is Some <==> key_descriptor_of(key, l2) is Some,
        key_descriptor_of(key, l1) is Some ==> key_descriptor_of(key, l1)->0.physical_key
            == key_descriptor_of(key, l2)->0.physical_key
            && key_descriptor_of(key, l1)->0.logical_key
            == key_descriptor_of(key, l2)->0.logical_key,
{
}

/// Each letter (either case) maps to the key of that letter, each digit to the
/// key of that digit, and every other character to `Unknown`.
pub proof fn lemma_letter_and_digit_keys(c: char)
    ensures
        (c == 'a' || c == 'A') ==> physical_of_char(c) == PhysicalKey::KeyA,
        (c == 'b' || c == 'B') ==> physical_of_char(c) == PhysicalKey::KeyB,
        (c == 'c' || c == 'C') ==> physical_of_char(c) == PhysicalKey::KeyC,
        (c == 'd' || c == 'D') ==> physical_of_char(c) == PhysicalKey::KeyD,
        (c == 'e' || c == 'E') ==> physical_of_char(c) == PhysicalKey::KeyE,
        (c == 'f' || c == 'F') ==> physical_of_char(c) == PhysicalKey::KeyF,
        (c == 'g' || c == 'G') ==> physical_of_char(c) == PhysicalKey::KeyG,
        (c == 'h' || c == 'H') ==> physical_of_char(c) == PhysicalKey::KeyH,
        (c == 'i' || c == 'I') ==> physical_of_char(c) == PhysicalKey::KeyI,
        (c == 'j' || c == 'J') ==> physical_of_char(c) == PhysicalKey::KeyJ,
        (c == 'k' || c == 'K') ==> physical_of_char(c) == PhysicalKey::KeyK,
        (c == 'l' || c == 'L') ==> physical_of_char(c) == PhysicalKey::KeyL,
        (c == 'm' || c == 'M') ==> physical_of_char(c) == PhysicalKey::KeyM,
        (c == 'n' || c == 'N') ==> physical_of_char(c) == PhysicalKey::KeyN,
        (c == 'o' || c == 'O') ==> physical_of_char(c) == PhysicalKey::KeyO,
        (c == 'p' || c == 'P') ==> physical_of_char(c) == PhysicalKey::KeyP,
        (c == 'q' || c == 'Q') ==> physical_of_char(c) == PhysicalKey::KeyQ,
        (c == 'r' || c == 'R') ==> physical_of_char(c) == PhysicalKey::KeyR,
        (c == 's' || c == 'S') ==> physical_of_char(c) == PhysicalKey::KeyS,
        (c == 't' || c == 'T') ==> physical_of_char(c) == PhysicalKey::KeyT,
        (c == 'u' || c == 'U') ==> physical_of_char(c) == PhysicalKey::KeyU,
        (c == 'v' || c == 'V') ==> physical_of_char(c) == PhysicalKey::KeyV,
        (c == 'w' || c == 'W') ==> physical_of_char(c) == PhysicalKey::KeyW,
        (c == 'x' || c == 'X') ==> physical_of_char(c) == PhysicalKey::KeyX,
        (c == 'y' || c == 'Y') ==> physical_of_char(c) == PhysicalKey::KeyY,
        (c == 'z' || c == 'Z') ==> physical_of_char(c) == PhysicalKey::KeyZ,
        c == '0' ==> physical_of_char(c) == PhysicalKey::Digit0,
        c == '1' ==> physical_of_char(c) == PhysicalKey::Digit1,
        c == '2' ==> physical_of_char(c) == PhysicalKey::Digit2,
        c == '3' ==> physical_of_char(c) == PhysicalKey::Digit3,
        c == '4' ==> physical_of_char(c) == PhysicalKey::Digit4,
        c == '5' ==> physical_of_char(c) == PhysicalKey::Digit5,
        c == '6' ==> physical_of_char(c) == PhysicalKey::Digit6,
        c == '7' ==> physical_of_char(c) == PhysicalKey::Digit7,
        c == '8' ==> physical_of_char(c) == PhysicalKey::Digit8,
        c == '9' ==> physical_of_char(c) == PhysicalKey::Digit9,
        !(('a' <= c <= 'z') || ('A' <= c <= 'Z') || ('0' <= c <= '9')) ==> physical_of_char(c)
            == PhysicalKey::Unknown,
{
}

/// A character key reaches the player as its first character, with the
/// physical key of that character, at the reported location.
pub proof fn lemma_character_key_descriptor(s: String, location: Location)
    requires
        s@.len() > 0,
    ensures
        key_descriptor_of(Key::Character(s), location) == Some(
            KeyDescriptor {
                physical_key: physical_of_char(s@[0]),
                logical_key: LogicalKey::Character(s@[0]),
                key_location: location_of(location),
            },
        ),
{
}

/// An empty character key, an unidentified key and an unlisted named key reach
/// the player as nothing.
pub proof fn lemma_keys_without_descriptor(s: String, location: Location)
    requires
        s@.len() == 0,
    ensures
        key_descriptor_of(Key::Character(s), location) is None,
        key_descriptor_of(Key::Unidentified, location) is None,
        key_descriptor_of(Key::Named(Named::Other), location) is None,
{
}

/// The player's location for each toolkit location is the like-named one.
pub proof fn lemma_locations()
    ensures
        location_of(Location::Standard) == KeyLocation::Standard,
        location_of(Location::Left) == KeyLocation::Left,
        location_of(Location::Right) == KeyLocation::Right,
        location_of(Location::Numpad) == KeyLocation::Numpad,
{
}

/// The named keys: arrows, enter, backspace, tab, escape and delete reach the
/// player as the like-named physical and logical keys; space as physical
/// `Space` typing `' '`; shift, control and alt as their right-hand physical
/// key when reported at the right and their left-hand one otherwise.
pub proof fn lemma_named_key_table(location: Location)
    ensures
        key_descriptor_of(Key::Named(Named::ArrowUp), location) == Some(
            KeyDescriptor {
                physical_key: PhysicalKey::ArrowUp,
                logical_key: LogicalKey::Named(NamedKey::ArrowUp),
                key_location: location_of(location),
            },
        ),
        key_descriptor_of(Key::Named(Named::ArrowDown), location) == Some(
            KeyDescriptor {
                physical_key: PhysicalKey::ArrowDown,
                logical_key: LogicalKey::Named(NamedKey::ArrowDown),
                key_location: location_of(location),
            },
        ),
        key_descriptor_of(Key::Named(Named::ArrowLeft), location) == Some(
            KeyDescriptor {
                physical_key: PhysicalKey::ArrowLeft,
                logical_key: LogicalKey::Named(NamedKey::ArrowLeft),
                key_location: location_of(location),
            },
        ),
        key_descriptor_of(Key::Named(Named::ArrowRight), location) == Some(
            KeyDescriptor {
                physical_key: PhysicalKey::ArrowRight,
                logical_key: LogicalKey::Named(NamedKey::ArrowRight),
                key_location: location_of(location),
            },
        ),
        key_descriptor_of(Key::Named(Named::Enter), location) == Some(
            KeyDescriptor {
                physical_key: PhysicalKey::Enter,
                logical_key: LogicalKey::Named(NamedKey::Enter),
                key_location: location_of(location),
            },
        ),
        key_descriptor_of(Key::Named(Named::Backspace), location) == Some(
            KeyDescriptor {
                physical_key: PhysicalKey::Backspace,
                logical_key: LogicalKey::Named(NamedKey::Backspace),
                key_location: location_of(location),
            },
        ),
        key_descriptor_of(Key::Named(Named::Tab), location) == Some(
            KeyDescriptor {
                physical_key: PhysicalKey::Tab,
                logical_key: LogicalKey::Named(NamedKey::Tab),
                key_location: location_of(location),
            },
        ),
        key_descriptor_of(Key::Named(Named::Escape), location) == Some(
            KeyDescriptor {
                physical_key: PhysicalKey::Escape,
                logical_key: LogicalKey::Named(NamedKey::Escape),
                key_location: location_of(location),
            },
        ),
        key_descriptor_of(Key::Named(Named::Delete), location) == Some(
            KeyDescriptor {
                physical_key: PhysicalKey::Delete,
                logical_key: LogicalKey::Named(NamedKey::Delete),
                key_location: location_of(location),
            },
        ),
        key_descriptor_of(Key::Named(Named::Space), location) == Some(
            KeyDescriptor {
                physical_key: PhysicalKey::Space,
                logical_key: LogicalKey::Character(' '),
                key_location: location_of(location),
            },
        ),
        key_descriptor_of(Key::Named(Named::Shift), location) == Some(
            KeyDescriptor {
                physical_key: if location == Location::Right {
                    PhysicalKey::ShiftRight
                } else {
                    PhysicalKey::ShiftLeft
                },
                logical_key: LogicalKey::Named(NamedKey::Shift),
                key_location: location_of(location),
            },
        ),
        key_descriptor_of(Key::Named(Named::Control), location) == Some(
            KeyDescriptor {
                physical_key: if location == Location::Right {
                    PhysicalKey::ControlRight
                } else {
                    PhysicalKey::ControlLeft
                },
                logical_key: LogicalKey::Named(NamedKey::Control),
                key_location: location_of(location),
            },
        ),
        key_descriptor_of(Key::Named(Named::Alt), location) == Some(
            KeyDescriptor {
                physical_key: if location == Location::Right {
                    PhysicalKey::AltRight
                } else {
                    PhysicalKey::AltLeft
                },
                logical_key: LogicalKey::Named(NamedKey::Alt),
                key_location: location_of(location),
            },
        ),
{
}

} // verus!
