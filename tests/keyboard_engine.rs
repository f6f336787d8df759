use phone_os::events::{AppEvent, ClickableArea};
use phone_os::keyboard::{
    layout_keys, prerender_layout, to_ascii_upper, KeyTable, Keyboard, KeyboardEvent,
    KeyboardLayout, KeyboardTables, SymbolLevel, KEYBOARD_TOP,
};

#[test]
fn letters_append_and_delete_removes_last() {
    let mut k = Keyboard::new(KeyboardLayout::Azerty, false);
    k.handle_event(&KeyboardEvent::Letter('h'));
    k.handle_event(&KeyboardEvent::Letter('i'));
    assert_eq!(k.text, "hi");
    k.handle_event(&KeyboardEvent::Delete);
    assert_eq!(k.text, "h");
    k.handle_event(&KeyboardEvent::Enter);
    assert_eq!(k.text, "h\n");
    k.handle_event(&KeyboardEvent::NoOp);
    assert_eq!(k.text, "h\n");
}

#[test]
fn delete_on_empty_buffer_keeps_it_empty() {
    let mut k = Keyboard::new(KeyboardLayout::Azerty, false);
    k.handle_event(&KeyboardEvent::Delete);
    assert_eq!(k.text, "");
}

#[test]
fn toggling_case_twice_restores_case_and_layout() {
    let tables = KeyboardTables::new();
    let mut k = Keyboard::new(KeyboardLayout::Azerty, false);
    let before = k.render(&tables);
    k.handle_event(&KeyboardEvent::Maj);
    assert!(k.maj);
    assert_eq!(k.active_table(), (KeyTable::Letters(KeyboardLayout::Azerty), true));
    k.handle_event(&KeyboardEvent::Maj);
    assert!(!k.maj);
    assert_eq!(k.symbols, SymbolLevel::Letters);
    assert_eq!(k.render(&tables), before);
}

#[test]
fn toggling_case_returns_to_letters() {
    let mut k = Keyboard::new(KeyboardLayout::Azerty, false);
    k.handle_event(&KeyboardEvent::Symbols(SymbolLevel::Second));
    k.handle_event(&KeyboardEvent::Maj);
    assert_eq!(k.symbols, SymbolLevel::Letters);
    assert!(k.maj);
}

#[test]
fn cycling_symbol_levels_returns_the_letter_table() {
    let tables = KeyboardTables::new();
    let mut k = Keyboard::new(KeyboardLayout::Azerty, false);
    let letters = k.render(&tables);
    k.handle_event(&KeyboardEvent::Symbols(SymbolLevel::First));
    assert_eq!(k.active_table(), (KeyTable::Symbols1, false));
    k.handle_event(&KeyboardEvent::Symbols(SymbolLevel::Second));
    assert_eq!(k.active_table(), (KeyTable::Symbols2, false));
    k.handle_event(&KeyboardEvent::Symbols(SymbolLevel::Letters));
    assert_eq!(k.render(&tables), letters);
}

#[test]
fn uppercase_table_raises_letters_and_labels() {
    let keys = layout_keys(KeyTable::Letters(KeyboardLayout::Azerty));
    let caps = prerender_layout(&keys, true);
    assert_eq!(caps.len(), keys.len());
    assert_eq!(caps[0].label, "A");
    assert_eq!(caps[0].event, KeyboardEvent::Letter('A'));
    let maj = caps.iter().find(|c| c.event == KeyboardEvent::Maj).unwrap();
    assert_eq!(maj.label, "MAJ");
    let lower = prerender_layout(&keys, false);
    assert_eq!(lower[0].label, "a");
    assert_eq!(lower[0].event, KeyboardEvent::Letter('a'));
}

#[test]
fn key_rectangles_follow_row_offset_and_label() {
    let keys = layout_keys(KeyTable::Letters(KeyboardLayout::Azerty));
    let caps = prerender_layout(&keys, false);
    assert_eq!(caps[0].area.x, 4);
    assert_eq!(caps[0].area.y, KEYBOARD_TOP);
    assert_eq!(caps[0].area.width, 3);
    assert_eq!(caps[0].area.height, 3);
    let enter = caps.iter().find(|c| c.event == KeyboardEvent::Enter).unwrap();
    assert_eq!((enter.area.x, enter.area.y, enter.area.width), (28, KEYBOARD_TOP + 9, 7));
    let symbols = prerender_layout(&layout_keys(KeyTable::Symbols1), false);
    let euro = symbols.iter().find(|c| c.event == KeyboardEvent::Letter('\u{20ac}')).unwrap();
    assert_eq!(euro.area.width, 3);
}

#[test]
fn suppressed_enter_has_no_region() {
    let tables = KeyboardTables::new();
    let shown = Keyboard::new(KeyboardLayout::Azerty, false).render(&tables);
    let hidden = Keyboard::new(KeyboardLayout::Azerty, true).render(&tables);
    assert_eq!(shown.len(), 34);
    assert_eq!(hidden.len(), 33);
    let i = shown.iter().position(|a| a.1 == AppEvent::Keyboard(KeyboardEvent::Enter)).unwrap();
    let mut expected: Vec<ClickableArea> = shown.clone();
    expected.remove(i);
    assert_eq!(hidden, expected);
}

#[test]
fn suppressed_enter_appends_nothing() {
    let mut k = Keyboard::new(KeyboardLayout::Azerty, true);
    k.handle_event(&KeyboardEvent::Letter('a'));
    k.handle_event(&KeyboardEvent::Enter);
    assert_eq!(k.text, "a");
    let tables = KeyboardTables::new();
    let cap = tables.letters.iter().find(|c| c.event == KeyboardEvent::Enter).unwrap();
    assert!(k.is_disabled(cap));
}

#[test]
fn letter_table_keys_are_in_layout_order() {
    let keys = layout_keys(KeyTable::Letters(KeyboardLayout::Azerty));
    let letters: String = keys[..10].iter().map(|k| k.label).collect();
    assert_eq!(letters, "azertyuiop");
    assert_eq!(keys[20].event, KeyboardEvent::Maj);
    assert_eq!(keys[29].event, KeyboardEvent::Symbols(SymbolLevel::First));
    assert_eq!((keys[33].row, keys[33].offset), (3, 24));
}

#[test]
fn maj_letter_raises_only_letters() {
    assert_eq!(KeyboardEvent::Letter('q').maj_letter(), KeyboardEvent::Letter('Q'));
    assert_eq!(KeyboardEvent::Letter('7').maj_letter(), KeyboardEvent::Letter('7'));
    assert_eq!(KeyboardEvent::Letter('\u{e9}').maj_letter(), KeyboardEvent::Letter('\u{e9}'));
    assert_eq!(KeyboardEvent::Delete.maj_letter(), KeyboardEvent::Delete);
    assert_eq!(to_ascii_upper('z'), 'Z');
}
