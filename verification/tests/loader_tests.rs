use rusty_xinput::loader::bind_probe;
use rusty_xinput::loader::bind_symbols;
use rusty_xinput::loader::candidate_names;
use rusty_xinput::loader::decide_probe;
use rusty_xinput::loader::resolve_candidates;
use rusty_xinput::loader::ProbeDecision;
use rusty_xinput::loader::ProbeOutcome;
use rusty_xinput::loader::SymbolReport;
use rusty_xinput::loader::ORDINAL_GET_CAPABILITIES_EX;
use rusty_xinput::loader::ORDINAL_GET_STATE_EX;
use rusty_xinput::handle::interpret_state_result;
use rusty_xinput::types::RawControllerState;
use rusty_xinput::types::RawGamepad;
use rusty_xinput::XInputLoadingFailure;

fn full_report() -> SymbolReport {
    SymbolReport {
        enable: true,
        get_state: true,
        set_state: true,
        get_capabilities: true,
        get_state_ex: true,
        get_capabilities_ex: true,
        get_keystroke: true,
        get_battery_information: true,
        get_audio_device_ids: true,
        get_dsound_audio_device_guids: true,
    }
}

fn empty_report() -> SymbolReport {
    SymbolReport {
        enable: false,
        get_state: false,
        set_state: false,
        get_capabilities: false,
        get_state_ex: false,
        get_capabilities_ex: false,
        get_keystroke: false,
        get_battery_information: false,
        get_audio_device_ids: false,
        get_dsound_audio_device_guids: false,
    }
}

#[test]
fn candidate_names_order_is_canonical() {
    let names = candidate_names();
    assert_eq!(
        names,
        vec!["xinput1_4.dll", "xinput1_3.dll", "xinput1_2.dll", "xinput1_1.dll", "xinput9_1_0.dll"]
    );
}

#[test]
fn undocumented_ordinals() {
    assert_eq!(ORDINAL_GET_STATE_EX, 100);
    assert_eq!(ORDINAL_GET_CAPABILITIES_EX, 108);
}

#[test]
fn binding_needs_every_required_symbol() {
    let handle = bind_symbols(&full_report()).unwrap();
    assert!(handle.has_get_keystroke);
    assert!(handle.has_get_battery_information);
    // each required symbol missing alone is a hard failure
    for i in 0..4 {
        let mut report = full_report();
        match i {
            0 => report.enable = false,
            1 => report.get_state = false,
            2 => report.set_state = false,
            _ => report.get_capabilities = false,
        }
        assert_eq!(bind_symbols(&report), Err(XInputLoadingFailure::NoPointers));
    }
    // a missing optional symbol is recorded as absent, not a failure
    let mut report = full_report();
    report.get_keystroke = false;
    let handle = bind_symbols(&report).unwrap();
    assert!(!handle.has_get_keystroke);
    assert!(handle.has_get_state_ex);
}

#[test]
fn library_without_required_symbols_is_released() {
    // a library that loads but exposes no required symbols: NoPointers, and
    // the decision orders the library released, never leaked
    let outcome = ProbeOutcome::Loaded(empty_report());
    assert_eq!(bind_probe(&outcome), Err(XInputLoadingFailure::NoPointers));
    assert_eq!(decide_probe(&outcome), ProbeDecision::ReleaseAndTryNext);
}

#[test]
fn missing_library_tries_the_next_name() {
    assert_eq!(bind_probe(&ProbeOutcome::Missing), Err(XInputLoadingFailure::NoDLL));
    assert_eq!(decide_probe(&ProbeOutcome::Missing), ProbeDecision::TryNext);
}

#[test]
fn empty_candidate_list_yields_no_dll() {
    assert_eq!(resolve_candidates(&vec![]), Err(XInputLoadingFailure::NoDLL));
}

#[test]
fn exhausted_candidate_list_yields_no_dll() {
    let outcomes = vec![ProbeOutcome::Missing; 5];
    assert_eq!(resolve_candidates(&outcomes), Err(XInputLoadingFailure::NoDLL));
    // candidates that load without the required symbols exhaust the list too
    let outcomes = vec![
        ProbeOutcome::Missing,
        ProbeOutcome::Loaded(empty_report()),
        ProbeOutcome::Missing,
    ];
    assert_eq!(resolve_candidates(&outcomes), Err(XInputLoadingFailure::NoDLL));
}

#[test]
fn first_usable_candidate_wins() {
    let mut second = full_report();
    second.get_keystroke = false;
    let outcomes = vec![
        ProbeOutcome::Missing,
        ProbeOutcome::Loaded(second),
        ProbeOutcome::Loaded(full_report()),
    ];
    let (chosen, handle) = resolve_candidates(&outcomes).unwrap();
    assert_eq!(chosen, 1);
    assert!(!handle.has_get_keystroke);
}

#[test]
fn load_default_scenario_last_of_five_loadable() {
    // only the last of 5 candidates is loadable: the handle binds to it
    let outcomes = vec![
        ProbeOutcome::Missing,
        ProbeOutcome::Missing,
        ProbeOutcome::Missing,
        ProbeOutcome::Missing,
        ProbeOutcome::Loaded(full_report()),
    ];
    let (chosen, _handle) = resolve_candidates(&outcomes).unwrap();
    assert_eq!(chosen, 4);
    // a poll through that handle on a connected fixture: packet number 7,
    // north button held
    let raw = RawControllerState {
        packet_number: 7,
        gamepad: RawGamepad {
            buttons: 0x8000,
            left_trigger: 0,
            right_trigger: 0,
            thumb_lx: 0,
            thumb_ly: 0,
            thumb_rx: 0,
            thumb_ry: 0,
        },
    };
    let state = interpret_state_result(0, raw).unwrap();
    assert!(state.north_button());
    assert_eq!(state.raw.packet_number, 7);
}
