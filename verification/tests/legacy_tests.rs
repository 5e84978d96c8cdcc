use rusty_xinput::legacy::begin_load;
use rusty_xinput::legacy::complete_load;
use rusty_xinput::legacy::STATUS_ACTIVE;
use rusty_xinput::legacy::STATUS_LOADING;
use rusty_xinput::legacy::STATUS_UNINITIALIZED;
use rusty_xinput::XInputLoadingFailure;

#[test]
fn racing_loaders_get_deterministic_answers() {
    // the winner claims the uninitialized register and starts loading
    let (status, winner) = begin_load(STATUS_UNINITIALIZED);
    assert_eq!(status, STATUS_LOADING);
    assert_eq!(winner, Ok(()));
    // while the winner is mid-load, a racing loser is told AlreadyLoading —
    // never AlreadyActive — and the register stays as it was
    let (status, loser) = begin_load(status);
    assert_eq!(status, STATUS_LOADING);
    assert_eq!(loser, Err(XInputLoadingFailure::AlreadyLoading));
    // the winner completes successfully: the register becomes active
    let status = complete_load(true);
    assert_eq!(status, STATUS_ACTIVE);
    // a load attempt after the winner completed is told AlreadyActive
    let (status, late) = begin_load(status);
    assert_eq!(status, STATUS_ACTIVE);
    assert_eq!(late, Err(XInputLoadingFailure::AlreadyActive));
}

#[test]
fn failed_load_resets_the_register() {
    let (status, claimed) = begin_load(STATUS_UNINITIALIZED);
    assert_eq!(status, STATUS_LOADING);
    assert_eq!(claimed, Ok(()));
    // the claimed load fails: back to uninitialized, a retry may claim again
    let status = complete_load(false);
    assert_eq!(status, STATUS_UNINITIALIZED);
    let (status, retry) = begin_load(status);
    assert_eq!(status, STATUS_LOADING);
    assert_eq!(retry, Ok(()));
}

#[test]
fn corrupted_register_is_unknown_state() {
    let (status, outcome) = begin_load(7);
    assert_eq!(status, 7);
    assert_eq!(outcome, Err(XInputLoadingFailure::UnknownState));
}
