//! The virtual keyboard: layout tables, the regions of the keys, and the
//! text-editing state machine.

use vstd::prelude::*;
use crate::events::{AppEvent, ClickableArea};
use crate::geometry::{Rect, HEIGHT};

verus! {

/// Rows of the grid that the keyboard occupies at the bottom of the screen.
pub const KEYBOARD_HEIGHT: u16 = 12;
/// First row of the keyboard.
pub const KEYBOARD_TOP: u16 = HEIGHT - KEYBOARD_HEIGHT;
/// Columns left free before a key's offset.
pub const KEY_MARGIN: u16 = 4;
/// Rows of one key.
pub const KEY_HEIGHT: u16 = 3;

#[derive(Debug, Clone, Copy, PartialEq, Eq, Structural)]
pub enum KeyboardLayout {
    Azerty,
}

#[derive(Debug, Clone, Copy, PartialEq, Eq, Structural)]
pub enum SymbolLevel {
    Letters,
    First,
    Second,
}

/// A key press; `NoOp` changes nothing.
#[derive(Debug, Clone, Copy, PartialEq, Eq, Structural)]
pub enum KeyboardEvent {
    Letter(char),
    Maj,
    Enter,
    Delete,
    Symbols(SymbolLevel),
    NoOp,
}

/// Upper case of an ASCII lower-case letter; any other character is kept.
pub open spec fn ascii_upper(c: char) -> char {
    if 'a' <= c && c <= 'z' {
        ((c as u32) - 32) as u8 as char
    } else {
        c
    }
}

/// Upper case of an ASCII lower-case letter; any other character is kept.
pub fn to_ascii_upper(c: char) -> (r: char)
    ensures
        r == ascii_upper(c),
{
    if 'a' <= c && c <= 'z' {
        ((c as u32) - 32) as u8 as char
    } else {
        c
    }
}

/// Relies on `str::to_ascii_uppercase`: each ASCII lower-case letter is
/// replaced by its upper case, every other character is kept.
#[verifier::external_body]
fn str_to_ascii_upper(s: &str) -> (r: String)
    ensures
        r@ == s@.map_values(|c: char| ascii_upper(c)),
{
    s.to_ascii_uppercase()
}

/// Relies on `String::push`: appends one character.
#[verifier::external_body]
fn string_push(s: &mut String, c: char)
    ensures
        final(s)@ == old(s)@.push(c),
{
    s.push(c)
}

/// Relies on `String::pop`: removes and returns the last character, and
/// returns `None` on an empty string.
#[verifier::external_body]
fn string_pop(s: &mut String) -> (r: Option<char>)
    ensures
        old(s)@.len() == 0 ==> r.is_none() && final(s)@ == old(s)@,
        old(s)@.len() > 0 ==> r == Some(old(s)@.last()) && final(s)@ == old(s)@.drop_last(),
{
    s.pop()
}

impl KeyboardEvent {
    pub open spec fn spec_maj_letter(self) -> KeyboardEvent {
        match self {
            KeyboardEvent::Letter(c) => KeyboardEvent::Letter(ascii_upper(c)),
            other => other,
        }
    }

    /// The same key on the upper-case layout.
    pub fn maj_letter(&self) -> (r: KeyboardEvent)
        ensures
            r == self.spec_maj_letter(),
    {
        match self {
            KeyboardEvent::Letter(c) => KeyboardEvent::Letter(to_ascii_upper(*c)),
            other => *other,
        }
    }
}

/// One key of a layout table: its label, its event, its row and its column
/// offset.
#[derive(Debug, Clone, Copy, PartialEq, Eq)]
pub struct KeyDef {
    pub label: &'static str,
    pub event: KeyboardEvent,
    pub row: u16,
    pub offset: u16,
}

impl KeyDef {
    /// The key's rectangle can be computed without overflow.
    pub open spec fn wf(self) -> bool {
        &&& KEY_MARGIN + self.offset <= u16::MAX
        &&& KEYBOARD_TOP + KEY_HEIGHT * self.row <= u16::MAX
    }
}

/// A key ready to be drawn: its label, its rectangle and its event.
#[derive(Debug, Clone, PartialEq, Eq)]
pub struct KeyCap {
    pub label: String,
    pub area: Rect,
    pub event: KeyboardEvent,
}

/// Width of a key whose label has `len` characters: the label and a border
/// on each side.
pub open spec fn key_width(len: nat) -> u16 {
    if len < 65534 {
        (len + 2) as u16
    } else {
        u16::MAX
    }
}

/// The rectangle of a key.
pub open spec fn key_area(k: KeyDef) -> Rect {
    Rect {
        x: (KEY_MARGIN + k.offset) as u16,
        y: (KEYBOARD_TOP + KEY_HEIGHT * k.row) as u16,
        width: key_width(k.label@.len()),
        height: KEY_HEIGHT,
    }
}

/// `cap` is key `k` prepared for drawing, in upper case when `uppercase`.
pub open spec fn is_cap_of(cap: KeyCap, k: KeyDef, uppercase: bool) -> bool {
    &&& cap.area == key_area(k)
    &&& cap.event == if uppercase {
        k.event.spec_maj_letter()
    } else {
        k.event
    }
    &&& cap.label@ == if uppercase {
        k.label@.map_values(|c: char| ascii_upper(c))
    } else {
        k.label@
    }
}

/// Prepares each key of a layout table for drawing.
pub fn prerender_layout(keys: &Vec<KeyDef>, uppercase: bool) -> (caps: Vec<KeyCap>)
    requires
        forall|i: int| 0 <= i < keys@.len() ==> (#[trigger] keys@[i]).wf(),
    ensures
        caps@.len() == keys@.len(),
        forall|i: int| 0 <= i < keys@.len() ==> is_cap_of(#[trigger] caps@[i], keys@[i], uppercase),
{
    let mut caps: Vec<KeyCap> = Vec::new();
    let mut i: usize = 0;
    while i < keys.len()
        invariant
            i <= keys@.len(),
            caps@.len() == i,
            forall|j: int| 0 <= j < keys@.len() ==> (#[trigger] keys@[j]).wf(),
            forall|j: int| 0 <= j < i ==> is_cap_of(#[trigger] caps@[j], keys@[j], uppercase),
        decreases keys.len() - i,
    {
        let k = keys[i];
        let (label, event) = if uppercase {
            (str_to_ascii_upper(k.label), k.event.maj_letter())
        } else {
            (k.label.to_owned(), k.event)
        };
        let n = k.label.unicode_len();
        let width: u16 = if n < 65534 {
            (n + 2) as u16
        } else {
            u16::MAX
        };
        let area = Rect {
            x: KEY_MARGIN + k.offset,
            y: KEYBOARD_TOP + KEY_HEIGHT * k.row,
            width,
            height: KEY_HEIGHT,
        };
        caps.push(KeyCap { label, area, event });
        i = i + 1;
    }
    caps
}

/// The layout tables of the keyboard.
#[derive(Debug, Clone, Copy, PartialEq, Eq, Structural)]
pub enum KeyTable {
    Letters(KeyboardLayout),
    Symbols1,
    Symbols2,
}

/// Row of the `i`-th key of a table: ten keys on each of the first two
/// rows, nine on the third and five on the last.
pub open spec fn row_of(i: int) -> u16 {
    if i < 10 {
        0
    } else if i < 20 {
        1
    } else if i < 29 {
        2
    } else {
        3
    }
}

/// The key that opens the third row: the case toggle on the letters, and a
/// switch between the symbol levels otherwise.
pub open spec fn third_row_switch(table: KeyTable) -> KeyboardEvent {
    match table {
        KeyTable::Letters(_) => KeyboardEvent::Maj,
        KeyTable::Symbols1 => KeyboardEvent::Symbols(SymbolLevel::Second),
        KeyTable::Symbols2 => KeyboardEvent::Symbols(SymbolLevel::First),
    }
}

/// The key that opens the last row: to the first symbol level from the
/// letters, back to the letters otherwise.
pub open spec fn last_row_switch(table: KeyTable) -> KeyboardEvent {
    match table {
        KeyTable::Letters(_) => KeyboardEvent::Symbols(SymbolLevel::First),
        _ => KeyboardEvent::Symbols(SymbolLevel::Letters),
    }
}

/// The shape shared by the tables: 34 keys on four rows; the third row
/// opens with a switch and ends with Delete, the last row opens with a
/// switch and ends with Enter; every other key types a character.
pub open spec fn table_shape(keys: Seq<KeyDef>, table: KeyTable) -> bool {
    &&& keys.len() == 34
    &&& forall|i: int| 0 <= i < 34 ==> (#[trigger] keys[i]).wf() && keys[i].row == row_of(i)
    &&& keys[20].event == third_row_switch(table) && keys[20].offset == 0
    &&& keys[28].event == KeyboardEvent::Delete && keys[28].offset == 26
    &&& keys[29].event == last_row_switch(table) && keys[29].offset == 0
    &&& keys[33].event == KeyboardEvent::Enter && keys[33].offset == 24
    &&& forall|i: int|
        0 <= i < 34 && i != 20 && i != 28 && i != 29 && i != 33 ==> (#[trigger] keys[i]).event is Letter
}

/// `caps` are `keys` prepared for drawing, in upper case when `uppercase`.
pub open spec fn prepared(caps: Seq<KeyCap>, keys: Seq<KeyDef>, uppercase: bool) -> bool {
    &&& caps.len() == keys.len()
    &&& forall|i: int| 0 <= i < keys.len() ==> is_cap_of(#[trigger] caps[i], keys[i], uppercase)
}

fn key(label: &'static str, event: KeyboardEvent, row: u16, offset: u16) -> (k: KeyDef)
    requires
        row < 4,
        offset <= 64,
    ensures
        k == (KeyDef { label, event, row, offset }),
        k.wf(),
{
    KeyDef { label, event, row, offset }
}

fn letter(label: &'static str, c: char, row: u16, offset: u16) -> (k: KeyDef)
    requires
        row < 4,
        offset <= 64,
    ensures
        k == (KeyDef { label, event: KeyboardEvent::Letter(c), row, offset }),
        k.wf(),
{
    key(label, KeyboardEvent::Letter(c), row, offset)
}

pub open spec fn spec_key(label: &'static str, event: KeyboardEvent, row: u16, offset: u16) -> KeyDef {
    KeyDef { label, event, row, offset }
}

pub open spec fn spec_letter(label: &'static str, c: char, row: u16, offset: u16) -> KeyDef {
    KeyDef { label, event: KeyboardEvent::Letter(c), row, offset }
}

/// The keys of each layout table, row by row, each with its label, event,
/// row and column offset.
pub open spec fn table_keys(table: KeyTable) -> Seq<KeyDef> {
    match table {
        KeyTable::Letters(KeyboardLayout::Azerty) => seq![
            spec_letter("a", 'a', 0, 0), spec_letter("z", 'z', 0, 3), spec_letter("e", 'e', 0, 6),
            spec_letter("r", 'r', 0, 9), spec_letter("t", 't', 0, 12), spec_letter("y", 'y', 0, 15),
            spec_letter("u", 'u', 0, 18), spec_letter("i", 'i', 0, 21), spec_letter("o", 'o', 0, 24),
            spec_letter("p", 'p', 0, 27),
            spec_letter("q", 'q', 1, 0), spec_letter("s", 's', 1, 3), spec_letter("d", 'd', 1, 6),
            spec_letter("f", 'f', 1, 9), spec_letter("g", 'g', 1, 12), spec_letter("h", 'h', 1, 15),
            spec_letter("j", 'j', 1, 18), spec_letter("k", 'k', 1, 21), spec_letter("l", 'l', 1, 24),
            spec_letter("m", 'm', 1, 27),
            spec_key("Maj", KeyboardEvent::Maj, 2, 0), spec_letter("w", 'w', 2, 5), spec_letter("x", 'x', 2, 8),
            spec_letter("c", 'c', 2, 11), spec_letter("v", 'v', 2, 14), spec_letter("b", 'b', 2, 17),
            spec_letter("n", 'n', 2, 20), spec_letter("'", '\'', 2, 23), spec_key("DEL", KeyboardEvent::Delete, 2, 26),
            spec_key("?123", KeyboardEvent::Symbols(SymbolLevel::First), 3, 0), spec_letter(",", ',', 3, 6),
            spec_letter("          ", ' ', 3, 9), spec_letter(".", '.', 3, 21),
            spec_key("ENTER", KeyboardEvent::Enter, 3, 24),
        ],
        KeyTable::Symbols1 => seq![
            spec_letter("1", '1', 0, 0), spec_letter("2", '2', 0, 3), spec_letter("3", '3', 0, 6),
            spec_letter("4", '4', 0, 9), spec_letter("5", '5', 0, 12), spec_letter("6", '6', 0, 15),
            spec_letter("7", '7', 0, 18), spec_letter("8", '8', 0, 21), spec_letter("9", '9', 0, 24),
            spec_letter("0", '0', 0, 27),
            spec_letter("@", '@', 1, 0), spec_letter("#", '#', 1, 3), spec_letter("\u{20ac}", '\u{20ac}', 1, 6),
            spec_letter("_", '_', 1, 9), spec_letter("&", '&', 1, 12), spec_letter("-", '-', 1, 15),
            spec_letter("+", '+', 1, 18), spec_letter("(", '(', 1, 21), spec_letter(")", ')', 1, 24),
            spec_letter("/", '/', 1, 27),
            spec_key("=\\<", KeyboardEvent::Symbols(SymbolLevel::Second), 2, 0), spec_letter("*", '*', 2, 5),
            spec_letter("\"", '"', 2, 8), spec_letter("'", '\'', 2, 11), spec_letter(":", ':', 2, 14),
            spec_letter(";", ';', 2, 17), spec_letter("!", '!', 2, 20), spec_letter("?", '?', 2, 23),
            spec_key("DEL", KeyboardEvent::Delete, 2, 26),
            spec_key("?123", KeyboardEvent::Symbols(SymbolLevel::Letters), 3, 0), spec_letter(",", ',', 3, 6),
            spec_letter("          ", ' ', 3, 9), spec_letter(".", '.', 3, 21),
            spec_key("ENTER", KeyboardEvent::Enter, 3, 24),
        ],
        KeyTable::Symbols2 => seq![
            spec_letter("~", '~', 0, 0), spec_letter("`", '`', 0, 3), spec_letter("|", '|', 0, 6),
            spec_letter("\u{2022}", '\u{2022}', 0, 9), spec_letter("\u{221a}", '\u{221a}', 0, 12),
            spec_letter("\u{3c0}", '\u{3c0}', 0, 15), spec_letter("\u{f7}", '\u{f7}', 0, 18),
            spec_letter("\u{d7}", '\u{d7}', 0, 21), spec_letter("\u{a7}", '\u{a7}', 0, 24),
            spec_letter("\u{2206}", '\u{2206}', 0, 27),
            spec_letter("\u{a3}", '\u{a3}', 1, 0), spec_letter("\u{a5}", '\u{a5}', 1, 3), spec_letter("$", '$', 1, 6),
            spec_letter("\u{a2}", '\u{a2}', 1, 9), spec_letter("^", '^', 1, 12), spec_letter("\u{b0}", '\u{b0}', 1, 15),
            spec_letter("=", '=', 1, 18), spec_letter("{", '{', 1, 21), spec_letter("}", '}', 1, 24),
            spec_letter("\\", '\\', 1, 27),
            spec_key("=\\<", KeyboardEvent::Symbols(SymbolLevel::First), 2, 0), spec_letter("%", '%', 2, 5),
            spec_letter("\u{a9}", '\u{a9}', 2, 8), spec_letter("\u{ae}", '\u{ae}', 2, 11),
            spec_letter("\u{2122}", '\u{2122}', 2, 14), spec_letter("\u{2713}", '\u{2713}', 2, 17),
            spec_letter("[", '[', 2, 20), spec_letter("]", ']', 2, 23), spec_key("DEL", KeyboardEvent::Delete, 2, 26),
            spec_key("?123", KeyboardEvent::Symbols(SymbolLevel::Letters), 3, 0), spec_letter("<", '<', 3, 6),
            spec_letter("          ", ' ', 3, 9), spec_letter(">", '>', 3, 21),
            spec_key("ENTER", KeyboardEvent::Enter, 3, 24),
        ],
    }
}

/// The keys of a layout table, row by row.
pub fn layout_keys(table: KeyTable) -> (keys: Vec<KeyDef>)
    ensures
        keys@ == table_keys(table),
        forall|i: int| 0 <= i < keys@.len() ==> (#[trigger] keys@[i]).wf(),
        table_shape(keys@, table),
{
    match table {
        KeyTable::Letters(KeyboardLayout::Azerty) => vec![
            letter("a", 'a', 0, 0), letter("z", 'z', 0, 3), letter("e", 'e', 0, 6),
            letter("r", 'r', 0, 9), letter("t", 't', 0, 12), letter("y", 'y', 0, 15),
            letter("u", 'u', 0, 18), letter("i", 'i', 0, 21), letter("o", 'o', 0, 24),
            letter("p", 'p', 0, 27),
            letter("q", 'q', 1, 0), letter("s", 's', 1, 3), letter("d", 'd', 1, 6),
            letter("f", 'f', 1, 9), letter("g", 'g', 1, 12), letter("h", 'h', 1, 15),
            letter("j", 'j', 1, 18), letter("k", 'k', 1, 21), letter("l", 'l', 1, 24),
            letter("m", 'm', 1, 27),
            key("Maj", KeyboardEvent::Maj, 2, 0), letter("w", 'w', 2, 5), letter("x", 'x', 2, 8),
            letter("c", 'c', 2, 11), letter("v", 'v', 2, 14), letter("b", 'b', 2, 17),
            letter("n", 'n', 2, 20), letter("'", '\'', 2, 23), key("DEL", KeyboardEvent::Delete, 2, 26),
            key("?123", KeyboardEvent::Symbols(SymbolLevel::First), 3, 0), letter(",", ',', 3, 6),
            letter("          ", ' ', 3, 9), letter(".", '.', 3, 21),
            key("ENTER", KeyboardEvent::Enter, 3, 24),
        ],
        KeyTable::Symbols1 => vec![
            letter("1", '1', 0, 0), letter("2", '2', 0, 3), letter("3", '3', 0, 6),
            letter("4", '4', 0, 9), letter("5", '5', 0, 12), letter("6", '6', 0, 15),
            letter("7", '7', 0, 18), letter("8", '8', 0, 21), letter("9", '9', 0, 24),
            letter("0", '0', 0, 27),
            letter("@", '@', 1, 0), letter("#", '#', 1, 3), letter("\u{20ac}", '\u{20ac}', 1, 6),
            letter("_", '_', 1, 9), letter("&", '&', 1, 12), letter("-", '-', 1, 15),
            letter("+", '+', 1, 18), letter("(", '(', 1, 21), letter(")", ')', 1, 24),
            letter("/", '/', 1, 27),
            key("=\\<", KeyboardEvent::Symbols(SymbolLevel::Second), 2, 0), letter("*", '*', 2, 5),
            letter("\"", '"', 2, 8), letter("'", '\'', 2, 11), letter(":", ':', 2, 14),
            letter(";", ';', 2, 17), letter("!", '!', 2, 20), letter("?", '?', 2, 23),
            key("DEL", KeyboardEvent::Delete, 2, 26),
            key("?123", KeyboardEvent::Symbols(SymbolLevel::Letters), 3, 0), letter(",", ',', 3, 6),
            letter("          ", ' ', 3, 9), letter(".", '.', 3, 21),
            key("ENTER", KeyboardEvent::Enter, 3, 24),
        ],
        KeyTable::Symbols2 => vec![
            letter("~", '~', 0, 0), letter("`", '`', 0, 3), letter("|", '|', 0, 6),
            letter("\u{2022}", '\u{2022}', 0, 9), letter("\u{221a}", '\u{221a}', 0, 12),
            letter("\u{3c0}", '\u{3c0}', 0, 15), letter("\u{f7}", '\u{f7}', 0, 18),
            letter("\u{d7}", '\u{d7}', 0, 21), letter("\u{a7}", '\u{a7}', 0, 24),
            letter("\u{2206}", '\u{2206}', 0, 27),
            letter("\u{a3}", '\u{a3}', 1, 0), letter("\u{a5}", '\u{a5}', 1, 3), letter("$", '$', 1, 6),
            letter("\u{a2}", '\u{a2}', 1, 9), letter("^", '^', 1, 12), letter("\u{b0}", '\u{b0}', 1, 15),
            letter("=", '=', 1, 18), letter("{", '{', 1, 21), letter("}", '}', 1, 24),
            letter("\\", '\\', 1, 27),
            key("=\\<", KeyboardEvent::Symbols(SymbolLevel::First), 2, 0), letter("%", '%', 2, 5),
            letter("\u{a9}", '\u{a9}', 2, 8), letter("\u{ae}", '\u{ae}', 2, 11),
            letter("\u{2122}", '\u{2122}', 2, 14), letter("\u{2713}", '\u{2713}', 2, 17),
            letter("[", '[', 2, 20), letter("]", ']', 2, 23), key("DEL", KeyboardEvent::Delete, 2, 26),
            key("?123", KeyboardEvent::Symbols(SymbolLevel::Letters), 3, 0), letter("<", '<', 3, 6),
            letter("          ", ' ', 3, 9), letter(">", '>', 3, 21),
            key("ENTER", KeyboardEvent::Enter, 3, 24),
        ],
    }
}

/// Text, layout and modifier state of the keyboard shown by a screen.
#[derive(Debug, Clone)]
pub struct Keyboard {
    pub text: String,
    pub layout: KeyboardLayout,
    pub maj: bool,
    pub symbols: SymbolLevel,
    pub hide_enter: bool,
}

/// The text after a key press: letters append; Enter appends a newline
/// unless the hosting screen suppressed it; Delete removes the last
/// character if there is one.
pub open spec fn text_after(text: Seq<char>, e: KeyboardEvent, hide_enter: bool) -> Seq<char> {
    match e {
        KeyboardEvent::Letter(c) => text.push(c),
        KeyboardEvent::Enter => if hide_enter {
            text
        } else {
            text.push('\n')
        },
        KeyboardEvent::Delete => if text.len() == 0 {
            text
        } else {
            text.drop_last()
        },
        _ => text,
    }
}

/// The shift flag after a key press.
pub open spec fn maj_after(maj: bool, e: KeyboardEvent) -> bool {
    match e {
        KeyboardEvent::Maj => !maj,
        _ => maj,
    }
}

/// The symbol level after a key press; toggling the case returns to the
/// letters.
pub open spec fn symbols_after(level: SymbolLevel, e: KeyboardEvent) -> SymbolLevel {
    match e {
        KeyboardEvent::Maj => SymbolLevel::Letters,
        KeyboardEvent::Symbols(l) => l,
        _ => level,
    }
}

/// The table shown for a layout, shift flag and symbol level, and whether it
/// is shown in upper case.
pub open spec fn table_shown(layout: KeyboardLayout, maj: bool, level: SymbolLevel) -> (KeyTable, bool) {
    match level {
        SymbolLevel::Letters => (KeyTable::Letters(layout), maj),
        SymbolLevel::First => (KeyTable::Symbols1, false),
        SymbolLevel::Second => (KeyTable::Symbols2, false),
    }
}

/// Whether a key is left out of the regions: Enter, while suppressed.
pub open spec fn key_hidden(cap: KeyCap, hide_enter: bool) -> bool {
    hide_enter && cap.event == KeyboardEvent::Enter
}

/// The regions of `caps` in order, leaving out a suppressed Enter key.
pub open spec fn cap_regions(caps: Seq<KeyCap>, hide_enter: bool) -> Seq<ClickableArea>
    decreases caps.len(),
{
    if caps.len() == 0 {
        Seq::empty()
    } else if key_hidden(caps.last(), hide_enter) {
        cap_regions(caps.drop_last(), hide_enter)
    } else {
        cap_regions(caps.drop_last(), hide_enter).push(
            ClickableArea(caps.last().area, AppEvent::Keyboard(caps.last().event)),
        )
    }
}

/// What a key press does to the keyboard.
pub open spec fn pressed(before: Keyboard, after: Keyboard, e: KeyboardEvent) -> bool {
    &&& after.text@ == text_after(before.text@, e, before.hide_enter)
    &&& after.maj == maj_after(before.maj, e)
    &&& after.symbols == symbols_after(before.symbols, e)
    &&& after.layout == before.layout
    &&& after.hide_enter == before.hide_enter
}

/// The regions of the keys that keyboard `k` shows, in table order; a
/// suppressed Enter key is drawn disabled and has no region.
pub open spec fn keyboard_regions(k: Keyboard, tables: KeyboardTables) -> Seq<ClickableArea> {
    cap_regions(tables.spec_caps(k.spec_active_table()), k.hide_enter)
}

/// The four prepared tables, computed once and reused by every frame.
#[derive(Debug, Clone)]
pub struct KeyboardTables {
    pub letters: Vec<KeyCap>,
    pub letters_upper: Vec<KeyCap>,
    pub symbols_1: Vec<KeyCap>,
    pub symbols_2: Vec<KeyCap>,
}

impl KeyboardTables {
    /// The upper-case letter table is the letter table with each letter
    /// raised.
    /// Each table holds the keys of its layout table prepared for drawing;
    /// the upper-case letter table raises the letters.
    pub open spec fn wf(self) -> bool {
        &&& prepared(self.letters@, table_keys(KeyTable::Letters(KeyboardLayout::Azerty)), false)
        &&& prepared(self.letters_upper@, table_keys(KeyTable::Letters(KeyboardLayout::Azerty)), true)
        &&& prepared(self.symbols_1@, table_keys(KeyTable::Symbols1), false)
        &&& prepared(self.symbols_2@, table_keys(KeyTable::Symbols2), false)
    }

    pub fn new() -> (t: KeyboardTables)
        ensures
            t.wf(),
    {
        let letters_keys = layout_keys(KeyTable::Letters(KeyboardLayout::Azerty));
        let letters = prerender_layout(&letters_keys, false);
        let letters_upper = prerender_layout(&letters_keys, true);
        let symbols_1_keys = layout_keys(KeyTable::Symbols1);
        let symbols_1 = prerender_layout(&symbols_1_keys, false);
        let symbols_2_keys = layout_keys(KeyTable::Symbols2);
        let symbols_2 = prerender_layout(&symbols_2_keys, false);
        KeyboardTables { letters, letters_upper, symbols_1, symbols_2 }
    }

    pub open spec fn spec_caps(self, table: (KeyTable, bool)) -> Seq<KeyCap> {
        match table.0 {
            KeyTable::Letters(_) => if table.1 {
                self.letters_upper@
            } else {
                self.letters@
            },
            KeyTable::Symbols1 => self.symbols_1@,
            KeyTable::Symbols2 => self.symbols_2@,
        }
    }

    /// The prepared keys of a table.
    pub fn caps(&self, table: (KeyTable, bool)) -> (caps: &Vec<KeyCap>)
        ensures
            caps@ == self.spec_caps(table),
    {
        match table.0 {
            KeyTable::Letters(_) => if table.1 {
                &self.letters_upper
            } else {
                &self.letters
            },
            KeyTable::Symbols1 => &self.symbols_1,
            KeyTable::Symbols2 => &self.symbols_2,
        }
    }
}

impl Keyboard {
    /// An empty keyboard on the letters of `layout`, in lower case.
    pub fn new(layout: KeyboardLayout, hide_enter: bool) -> (k: Keyboard)
        ensures
            k.is_fresh(layout, hide_enter),
    {
        Keyboard { text: String::new(), layout, maj: false, symbols: SymbolLevel::Letters, hide_enter }
    }

    /// An empty keyboard on the letters of `layout`, in lower case.
    pub open spec fn is_fresh(self, layout: KeyboardLayout, hide_enter: bool) -> bool {
        &&& self.text@.len() == 0
        &&& self.layout == layout
        &&& !self.maj
        &&& self.symbols == SymbolLevel::Letters
        &&& self.hide_enter == hide_enter
    }

    pub open spec fn spec_active_table(self) -> (KeyTable, bool) {
        table_shown(self.layout, self.maj, self.symbols)
    }

    /// The table that the keyboard shows, and whether in upper case.
    pub fn active_table(&self) -> (t: (KeyTable, bool))
        ensures
            t == self.spec_active_table(),
    {
        match self.symbols {
            SymbolLevel::Letters => (KeyTable::Letters(self.layout), self.maj),
            SymbolLevel::First => (KeyTable::Symbols1, false),
            SymbolLevel::Second => (KeyTable::Symbols2, false),
        }
    }

    /// Whether a key is shown disabled: Enter, while the hosting screen
    /// suppresses it.
    pub fn is_disabled(&self, cap: &KeyCap) -> (r: bool)
        ensures
            r == (self.hide_enter && cap.event == KeyboardEvent::Enter),
    {
        self.hide_enter && cap.event == KeyboardEvent::Enter
    }

    /// The regions of the keys shown, in table order; a suppressed Enter key
    /// has none.
    pub fn render(&self, tables: &KeyboardTables) -> (areas: Vec<ClickableArea>)
        ensures
            areas@ == keyboard_regions(*self, *tables),
    {
        let caps = tables.caps(self.active_table());
        let mut areas: Vec<ClickableArea> = Vec::new();
        let mut i: usize = 0;
        while i < caps.len()
            invariant
                caps@ == tables.spec_caps(self.spec_active_table()),
                i <= caps@.len(),
                areas@ == cap_regions(caps@.take(i as int), self.hide_enter),
            decreases caps.len() - i,
        {
            let cap = &caps[i];
            assert(caps@.take(i + 1).drop_last() =~= caps@.take(i as int));
            if !self.is_disabled(cap) {
                areas.push(ClickableArea(cap.area, AppEvent::Keyboard(cap.event)));
            }
            i = i + 1;
        }
        assert(caps@.take(caps@.len() as int) =~= caps@);
        areas
    }

    /// Applies a key press to the text and the modifiers.
    pub fn handle_event(&mut self, event: &KeyboardEvent)
        ensures
            pressed(*old(self), *final(self), *event),
    {
        match event {
            KeyboardEvent::Letter(letter) => string_push(&mut self.text, *letter),
            KeyboardEvent::Maj => {
                self.maj = !self.maj;
                self.symbols = SymbolLevel::Letters;
            },
            KeyboardEvent::Delete => {
                string_pop(&mut self.text);
            },
            KeyboardEvent::Enter => if !self.hide_enter {
                string_push(&mut self.text, '\n')
            },
            KeyboardEvent::Symbols(level) => self.symbols = *level,
            KeyboardEvent::NoOp => {},
        }
    }
}

/// Delete on an empty buffer leaves it empty; toggling the case twice
/// restores the shift flag and returns to the letters, which is the table
/// shown before when the letters were shown; cycling the symbol levels from
/// the letters through both symbol levels back to the letters shows the
/// same letter table again.
pub proof fn lemma_keyboard_round_trips(
    text: Seq<char>,
    layout: KeyboardLayout,
    maj: bool,
    level: SymbolLevel,
)
    ensures
        text.len() == 0 ==> text_after(text, KeyboardEvent::Delete, false) == text && text_after(
            text,
            KeyboardEvent::Delete,
            true,
        ) == text,
        maj_after(maj_after(maj, KeyboardEvent::Maj), KeyboardEvent::Maj) == maj,
        symbols_after(symbols_after(level, KeyboardEvent::Maj), KeyboardEvent::Maj)
            == SymbolLevel::Letters,
        level == SymbolLevel::Letters ==> table_shown(
            layout,
            maj_after(maj_after(maj, KeyboardEvent::Maj), KeyboardEvent::Maj),
            symbols_after(symbols_after(level, KeyboardEvent::Maj), KeyboardEvent::Maj),
        ) == table_shown(layout, maj, level),
        ({
            let l1 = symbols_after(level, KeyboardEvent::Symbols(SymbolLevel::First));
            let l2 = symbols_after(l1, KeyboardEvent::Symbols(SymbolLevel::Second));
            let l3 = symbols_after(l2, KeyboardEvent::Symbols(SymbolLevel::Letters));
            &&& l1 == SymbolLevel::First
            &&& l2 == SymbolLevel::Second
            &&& l3 == SymbolLevel::Letters
            &&& table_shown(layout, maj, l3) == table_shown(layout, maj, SymbolLevel::Letters)
        }),
{
}

} // verus!
