use keybinder::{
    Action, Arrangement, Binding, Chord, Event, KeyBinder, KeyBinderState, LayoutMessage, Mode,
    Outcome, Resolved,
};

fn b(descriptor: &'static str, action: Action) -> Binding {
    Binding { descriptor, action }
}

/// A US layout, as far as the configured descriptors go.
fn code_of(name: &str) -> Option<u8> {
    match name {
        "g" => Some(42),
        "h" => Some(43),
        "j" => Some(44),
        "k" => Some(45),
        "q" => Some(24),
        "Return" => Some(36),
        "Escape" => Some(9),
        "bracketleft" => Some(34),
        "bracketright" => Some(35),
        "semicolon" => Some(47),
        "Up" => Some(111),
        "Down" => Some(116),
        "Left" => Some(113),
        "Right" => Some(114),
        _ => None,
    }
}

/// Stands in for the layout lookup that the window manager provides.
fn resolve(binding: Binding) -> Resolved {
    let mut parts: Vec<&str> = binding.descriptor.split('-').collect();
    let name = parts.pop().unwrap();
    let mut mask: u16 = 0;
    for p in parts {
        mask |= match p {
            "S" => 1,
            "C" => 4,
            "A" => 8,
            "M" => 64,
            _ => return binding.resolved(None),
        };
    }
    binding.resolved(code_of(name).map(|code| Chord::new(code, mask)))
}

fn configured_state() -> KeyBinderState {
    let unlock = resolve(KeyBinderState::unlock_binding());
    let tables: Vec<(Mode, Vec<Resolved>)> = KeyBinderState::mode_bindings()
        .into_iter()
        .map(|(mode, bindings)| (mode, bindings.into_iter().map(resolve).collect()))
        .collect();
    let fallback: Vec<Resolved> =
        KeyBinderState::fallback_bindings().into_iter().map(resolve).collect();
    KeyBinderState::with_bindings(unlock, &tables, &fallback).unwrap()
}

fn keys(chords: &[Chord]) -> Vec<(u16, u8)> {
    let mut keys: Vec<(u16, u8)> = chords.iter().map(|c| (c.mask, c.code)).collect();
    keys.sort();
    keys
}

#[test]
fn unlock_binding_is_alt_g() {
    assert_eq!(KeyBinderState::unlock_binding(), b("A-g", Action::ToggleMode));
}

#[test]
fn locked_bindings_hold_only_the_switch() {
    assert_eq!(KeyBinderState::locked_bindings(), vec![b("A-g", Action::ToggleMode)]);
}

#[test]
fn normal_bindings_are_as_configured() {
    assert_eq!(
        KeyBinderState::normal_bindings(),
        vec![
            b("A-g", Action::ToggleMode),
            b("A-h", Action::NoOp),
            b("A-Return", Action::Spawn("alacritty")),
            b("A-Escape", Action::Exit),
        ]
    );
}

#[test]
fn fallback_bindings_are_as_configured() {
    assert_eq!(
        KeyBinderState::fallback_bindings(),
        vec![
            b("A-j", Action::Modify(Arrangement::FocusDown)),
            b("A-k", Action::Modify(Arrangement::FocusUp)),
            b("A-S-j", Action::Modify(Arrangement::SwapDown)),
            b("A-S-k", Action::Modify(Arrangement::SwapUp)),
            b("A-q", Action::Modify(Arrangement::KillFocused)),
            b("A-bracketright", Action::Modify(Arrangement::NextLayout)),
            b("A-bracketleft", Action::Modify(Arrangement::PreviousLayout)),
            b("A-S-Up", Action::Layout(LayoutMessage::IncMain(1))),
            b("A-S-Down", Action::Layout(LayoutMessage::IncMain(-1))),
            b("A-S-Right", Action::Layout(LayoutMessage::ExpandMain)),
            b("A-S-Left", Action::Layout(LayoutMessage::ShrinkMain)),
            b("A-semicolon", Action::Spawn("dmenu_run")),
            b("A-Return", Action::Spawn("alacritty")),
            b("A-Escape", Action::Exit),
        ]
    );
}

#[test]
fn mode_bindings_give_locked_and_normal_a_table() {
    let tables = KeyBinderState::mode_bindings();
    assert_eq!(tables.len(), 2);
    assert_eq!(tables[0], (Mode::Locked, KeyBinderState::locked_bindings()));
    assert_eq!(tables[1], (Mode::Normal, KeyBinderState::normal_bindings()));
}

#[test]
fn every_configured_descriptor_resolves_on_a_full_layout() {
    let mut all = vec![KeyBinderState::unlock_binding()];
    for (_, bindings) in KeyBinderState::mode_bindings() {
        all.extend(bindings);
    }
    all.extend(KeyBinderState::fallback_bindings());
    assert_eq!(all.len(), 20);
    for binding in all {
        assert!(resolve(binding).chord.is_some(), "{} did not resolve", binding.descriptor);
    }
    let state = configured_state();
    assert_eq!(state.current_mode(), Mode::Normal);
    assert_eq!(state.unlock_chord(), Chord::new(42, 8));
}

#[test]
fn configured_state_dispatches_normal_bindings() {
    let mut state = configured_state();
    let press = |state: &mut KeyBinderState, code: u8, mask: u16| {
        KeyBinder.call(state, &Event::KeyPress(Chord::new(code, mask)))
    };
    assert_eq!(press(&mut state, 43, 8), Outcome::Invoke(Action::NoOp));
    assert_eq!(press(&mut state, 36, 8), Outcome::Invoke(Action::Spawn("alacritty")));
    assert_eq!(press(&mut state, 9, 8), Outcome::Invoke(Action::Exit));
    // Normal has a table of its own, so the fallback bindings are not live
    assert_eq!(press(&mut state, 44, 8), Outcome::NotConsumed);
    assert_eq!(press(&mut state, 47, 8), Outcome::NotConsumed);
    assert_eq!(keys(&KeyBinder.bind(&state)), vec![(8, 9), (8, 36), (8, 42), (8, 43)]);
}

#[test]
fn configured_state_locks_and_unlocks() {
    let mut state = configured_state();
    let unlock = Event::KeyPress(Chord::new(42, 8));
    match KeyBinder.call(&mut state, &unlock) {
        Outcome::Regrab(chords) => assert_eq!(keys(&chords), vec![(8, 42)]),
        other => panic!("expected a regrab, got {:?}", other),
    }
    assert_eq!(state.current_mode(), Mode::Locked);
    for (code, mask) in [(43u8, 8u16), (36, 8), (9, 8), (44, 8), (44, 9), (111, 9)] {
        let out = KeyBinder.call(&mut state, &Event::KeyPress(Chord::new(code, mask)));
        assert_eq!(out, Outcome::NotConsumed);
    }
    match KeyBinder.call(&mut state, &unlock) {
        Outcome::Regrab(chords) => {
            assert_eq!(keys(&chords), vec![(8, 9), (8, 36), (8, 42), (8, 43)])
        }
        other => panic!("expected a regrab, got {:?}", other),
    }
    assert_eq!(state.current_mode(), Mode::Normal);
}

#[test]
fn startup_fails_on_a_layout_without_a_symbol() {
    // a layout that lacks `semicolon`
    let lacking = |binding: Binding| {
        if binding.descriptor == "A-semicolon" {
            binding.resolved(None)
        } else {
            resolve(binding)
        }
    };
    let unlock = lacking(KeyBinderState::unlock_binding());
    let tables: Vec<(Mode, Vec<Resolved>)> = KeyBinderState::mode_bindings()
        .into_iter()
        .map(|(mode, bindings)| (mode, bindings.into_iter().map(lacking).collect()))
        .collect();
    let fallback: Vec<Resolved> =
        KeyBinderState::fallback_bindings().into_iter().map(lacking).collect();
    match KeyBinderState::with_bindings(unlock, &tables, &fallback) {
        Ok(_) => panic!("expected a resolution error"),
        Err(e) => assert_eq!(e.descriptor, "A-semicolon"),
    }
}
