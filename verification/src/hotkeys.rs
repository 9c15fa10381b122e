//! The hotkeys that can be configured for push-to-talk, by name.

use vstd::prelude::*;
use vstd::string::*;
use crate::text::str_equal;

verus! {

/// A key that can serve as the push-to-talk hotkey.
#[derive(Clone, Copy, Debug, PartialEq, Eq, Structural)]
pub enum Key {
    AltGr,
    Alt,
    ControlRight,
    ControlLeft,
    ShiftRight,
    ShiftLeft,
    Function,
    F1,
    F2,
    F3,
    F4,
    F5,
    F6,
    F7,
    F8,
    F9,
    F10,
    F11,
    F12,
}

/// The hotkeys on offer: the name under which each is configured, and its
/// description.
pub open spec fn hotkey_table() -> Seq<(Seq<char>, Seq<char>)> {
    seq![
        ("RightAlt"@, "Right Alt key"@),
        ("LeftAlt"@, "Left Alt key"@),
        ("RightControl"@, "Right Control key"@),
        ("LeftControl"@, "Left Control key"@),
        ("RightShift"@, "Right Shift key"@),
        ("LeftShift"@, "Left Shift key"@),
        ("Function"@, "Function (Fn) key"@),
        ("F1"@, "F1 key"@),
        ("F2"@, "F2 key"@),
        ("F3"@, "F3 key"@),
        ("F4"@, "F4 key"@),
        ("F5"@, "F5 key"@),
        ("F6"@, "F6 key"@),
        ("F7"@, "F7 key"@),
        ("F8"@, "F8 key"@),
        ("F9"@, "F9 key"@),
        ("F10"@, "F10 key"@),
        ("F11"@, "F11 key"@),
        ("F12"@, "F12 key"@),
    ]
}

/// The views of a list of pairs of strings.
pub open spec fn pair_views(pairs: Seq<(&'static str, &'static str)>) -> Seq<
    (Seq<char>, Seq<char>),
> {
    pairs.map_values(|pair: (&'static str, &'static str)| (pair.0@, pair.1@))
}

/// Lists the hotkeys on offer.
pub fn hotkey_options() -> (options: Vec<(&'static str, &'static str)>)
    ensures
        pair_views(options@) == hotkey_table(),
{
    let mut options: Vec<(&'static str, &'static str)> = Vec::new();
    options.push(("RightAlt", "Right Alt key"));
    options.push(("LeftAlt", "Left Alt key"));
    options.push(("RightControl", "Right Control key"));
    options.push(("LeftControl", "Left Control key"));
    options.push(("RightShift", "Right Shift key"));
    options.push(("LeftShift", "Left Shift key"));
    options.push(("Function", "Function (Fn) key"));
    options.push(("F1", "F1 key"));
    options.push(("F2", "F2 key"));
    options.push(("F3", "F3 key"));
    options.push(("F4", "F4 key"));
    options.push(("F5", "F5 key"));
    options.push(("F6", "F6 key"));
    options.push(("F7", "F7 key"));
    options.push(("F8", "F8 key"));
    options.push(("F9", "F9 key"));
    options.push(("F10", "F10 key"));
    options.push(("F11", "F11 key"));
    options.push(("F12", "F12 key"));
    assert(pair_views(options@) =~= hotkey_table());
    options
}

/// The key that is configured under `name`; `None` for a name that is not
/// on offer. Names are told apart by letter case.
pub open spec fn key_of_name(name: Seq<char>) -> Option<Key> {
    if name == "RightAlt"@ {
        Some(Key::AltGr)
    } else if name == "LeftAlt"@ {
        Some(Key::Alt)
    } else if name == "RightControl"@ {
        Some(Key::ControlRight)
    } else if name == "LeftControl"@ {
        Some(Key::ControlLeft)
    } else if name == "RightShift"@ {
        Some(Key::ShiftRight)
    } else if name == "LeftShift"@ {
        Some(Key::ShiftLeft)
    } else if name == "Function"@ || name == "Fn"@ {
        Some(Key::Function)
    } else if name == "F1"@ {
        Some(Key::F1)
    } else if name == "F2"@ {
        Some(Key::F2)
    } else if name == "F3"@ {
        Some(Key::F3)
    } else if name == "F4"@ {
        Some(Key::F4)
    } else if name == "F5"@ {
        Some(Key::F5)
    } else if name == "F6"@ {
        Some(Key::F6)
    } else if name == "F7"@ {
        Some(Key::F7)
    } else if name == "F8"@ {
        Some(Key::F8)
    } else if name == "F9"@ {
        Some(Key::F9)
    } else if name == "F10"@ {
        Some(Key::F10)
    } else if name == "F11"@ {
        Some(Key::F11)
    } else if name == "F12"@ {
        Some(Key::F12)
    } else {
        None
    }
}

/// The message for a name under which no key is configured.
pub open spec fn unknown_hotkey_message(name: Seq<char>) -> Seq<char> {
    "Unknown hotkey: "@ + name
        + ". Valid options: RightAlt, LeftAlt, RightControl, LeftControl, RightShift, LeftShift, Function/Fn, or F1-F12"@
}

/// Finds the key that is configured under `key_str`. An unknown name is an
/// error, whose message names it and lists the valid names.
pub fn parse_hotkey(key_str: &str) -> (parsed: Result<Key, String>)
    ensures
        match key_of_name(key_str@) {
            Some(key) => parsed == Ok::<Key, String>(key),
            None => parsed is Err && parsed->Err_0@ == unknown_hotkey_message(key_str@),
        },
{
    if str_equal(key_str, "RightAlt") {
        Ok(Key::AltGr)
    } else if str_equal(key_str, "LeftAlt") {
        Ok(Key::Alt)
    } else if str_equal(key_str, "RightControl") {
        Ok(Key::ControlRight)
    } else if str_equal(key_str, "LeftControl") {
        Ok(Key::ControlLeft)
    } else if str_equal(key_str, "RightShift") {
        Ok(Key::ShiftRight)
    } else if str_equal(key_str, "LeftShift") {
        Ok(Key::ShiftLeft)
    } else if str_equal(key_str, "Function") || str_equal(key_str, "Fn") {
        Ok(Key::Function)
    } else if str_equal(key_str, "F1") {
        Ok(Key::F1)
    } else if str_equal(key_str, "F2") {
        Ok(Key::F2)
    } else if str_equal(key_str, "F3") {
        Ok(Key::F3)
    } else if str_equal(key_str, "F4") {
        Ok(Key::F4)
    } else if str_equal(key_str, "F5") {
        Ok(Key::F5)
    } else if str_equal(key_str, "F6") {
        Ok(Key::F6)
    } else if str_equal(key_str, "F7") {
        Ok(Key::F7)
    } else if str_equal(key_str, "F8") {
        Ok(Key::F8)
    } else if str_equal(key_str, "F9") {
        Ok(Key::F9)
    } else if str_equal(key_str, "F10") {
        Ok(Key::F10)
    } else if str_equal(key_str, "F11") {
        Ok(Key::F11)
    } else if str_equal(key_str, "F12") {
        Ok(Key::F12)
    } else {
        let mut message = "Unknown hotkey: ".to_owned();
        message.append(key_str);
        message.append(
            ". Valid options: RightAlt, LeftAlt, RightControl, LeftControl, RightShift, LeftShift, Function/Fn, or F1-F12",
        );
        Err(message)
    }
}

/// The description of the first hotkey among `table[from..]` that is
/// configured under `name`, or `name` itself if there is none.
pub open spec fn display_name(table: Seq<(Seq<char>, Seq<char>)>, name: Seq<char>, from: int)
    -> Seq<char>
    decreases table.len() - from,
{
    if from < 0 || from >= table.len() {
        name
    } else if table[from].0 == name {
        table[from].1
    } else {
        display_name(table, name, from + 1)
    }
}

/// The description of the hotkey configured under `key_str`, or `key_str`
/// itself where no such hotkey is on offer.
pub fn hotkey_display_name<'a>(key_str: &'a str) -> (name: &'a str)
    ensures
        name@ == display_name(hotkey_table(), key_str@, 0),
{
    let options = hotkey_options();
    let mut i: usize = 0;
    while i < options.len()
        invariant
            i <= options.len(),
            pair_views(options@) == hotkey_table(),
            display_name(hotkey_table(), key_str@, 0) == display_name(
                hotkey_table(),
                key_str@,
                i as int,
            ),
        decreases options.len() - i,
    {
        assert(pair_views(options@)[i as int] == (options@[i as int].0@, options@[i as int].1@));
        if str_equal(options[i].0, key_str) {
            return options[i].1;
        }
        i = i + 1;
    }
    key_str
}

} // verus!
