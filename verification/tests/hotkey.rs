use patina_sre::efi::SUCCESS;
use patina_sre::hotkey::{
    button_services_guid, detect_sre_hotkey, detect_sre_hotkey_via_protocol,
    ms_button_services_guid, probe_sre_hotkey, ButtonAction, ButtonAnswer, HotkeyDetection,
    HotkeyProbe, SreHotkey,
};
use r_efi::efi;

fn not_found() -> usize {
    efi::Status::NOT_FOUND.as_usize()
}

/// Runs a detection against button services whose check answers `check`.
/// Gives the result and how often the state was checked and cleared.
fn detect(located: Result<usize, usize>, check: (usize, u8)) -> (bool, usize, usize) {
    let mut detection: HotkeyDetection = detect_sre_hotkey();
    let (mut checked, mut cleared) = (0, 0);
    loop {
        let answer = match detection.action() {
            ButtonAction::LocateProtocol(guid) => {
                assert_eq!(guid, button_services_guid());
                ButtonAnswer::Located(located)
            }
            ButtonAction::CheckVolumeUp { interface } => {
                assert_eq!(Ok(interface), located);
                checked += 1;
                ButtonAnswer::Checked { status: check.0, state: check.1 }
            }
            ButtonAction::ClearState { interface } => {
                assert_eq!(Ok(interface), located);
                assert_eq!(checked, 1);
                cleared += 1;
                ButtonAnswer::Cleared
            }
            ButtonAction::CheckVolumeDown { .. } => unreachable!(),
            ButtonAction::Finished(pressed) => return (pressed, checked, cleared),
        };
        detection = detection.advance(answer);
    }
}

/// Runs a probe and gives the result and the calls.
fn probe(
    located: Result<usize, usize>,
    up: (usize, u8),
    down: (usize, u8),
) -> (SreHotkey, Vec<&'static str>) {
    let mut probe: HotkeyProbe = probe_sre_hotkey();
    let mut calls = Vec::new();
    loop {
        let answer = match probe.action() {
            ButtonAction::LocateProtocol(guid) => {
                assert_eq!(guid, ms_button_services_guid());
                calls.push("locate");
                ButtonAnswer::Located(located)
            }
            ButtonAction::CheckVolumeUp { interface } => {
                assert_eq!(Ok(interface), located);
                calls.push("up");
                ButtonAnswer::Checked { status: up.0, state: up.1 }
            }
            ButtonAction::CheckVolumeDown { interface } => {
                assert_eq!(Ok(interface), located);
                calls.push("down");
                ButtonAnswer::Checked { status: down.0, state: down.1 }
            }
            ButtonAction::ClearState { interface } => {
                assert_eq!(Ok(interface), located);
                calls.push("clear");
                ButtonAnswer::Cleared
            }
            ButtonAction::Finished(hotkey) => return (hotkey, calls),
        };
        probe = probe.advance(answer);
    }
}

#[test]
fn test_detect_sre_hotkey_returns_false_when_protocol_absent() {
    assert!(!detect(Err(not_found()), (SUCCESS, 1)).0, "absent button service must produce false");
}

#[test]
fn test_detect_sre_hotkey_inner_pressed() {
    let (pressed, checked, cleared) = detect(Ok(0x40), (SUCCESS, 1));
    assert!(pressed, "TRUE state must surface as pressed");
    assert_eq!(checked, 1);
    assert_eq!(cleared, 1, "clear must run even on success");
}

#[test]
fn test_detect_sre_hotkey_inner_not_pressed() {
    assert!(!detect(Ok(0x40), (SUCCESS, 0)).0);
}

#[test]
fn test_detect_sre_hotkey_inner_check_errors_returns_false() {
    assert!(!detect(Ok(0x40), (efi::Status::DEVICE_ERROR.as_usize(), 0)).0);
}

#[test]
fn failed_check_is_cleared_and_does_not_count() {
    assert_eq!(detect(Ok(0x40), (efi::Status::DEVICE_ERROR.as_usize(), 1)), (false, 1, 1));
    assert_eq!(detect(Err(not_found()), (SUCCESS, 1)), (false, 0, 0));
    assert_eq!(detect(Ok(0), (SUCCESS, 1)), (false, 0, 0));
}

#[test]
fn every_state_but_zero_is_a_press() {
    assert!(!detect_sre_hotkey_via_protocol(SUCCESS, 0));
    for state in [1, 2, 0x80, 0xFF] {
        assert!(detect_sre_hotkey_via_protocol(SUCCESS, state));
        assert!(!detect_sre_hotkey_via_protocol(1, state));
    }
}

#[test]
fn probe_goes_by_the_states() {
    let all = vec!["locate", "up", "down", "clear"];
    let error = efi::Status::DEVICE_ERROR.as_usize();
    assert_eq!(probe(Ok(0x40), (SUCCESS, 1), (SUCCESS, 0)), (SreHotkey::VolumeUp, all.clone()));
    assert_eq!(probe(Ok(0x40), (SUCCESS, 0), (SUCCESS, 9)), (SreHotkey::VolumeDown, all.clone()));
    assert_eq!(probe(Ok(0x40), (SUCCESS, 0), (SUCCESS, 0)), (SreHotkey::NoHotkey, all.clone()));
    // Volume up wins.
    assert_eq!(probe(Ok(0x40), (SUCCESS, 2), (SUCCESS, 2)), (SreHotkey::VolumeUp, all.clone()));
    // A failed check counts by the state that it left.
    assert_eq!(probe(Ok(0x40), (error, 1), (error, 0)), (SreHotkey::VolumeUp, all));
}

#[test]
fn probe_without_button_services_stops() {
    let nothing = (SreHotkey::NoHotkey, vec!["locate"]);
    assert_eq!(probe(Err(not_found()), (SUCCESS, 1), (SUCCESS, 1)), nothing);
    // A lookup that gives the null pointer.
    assert_eq!(probe(Ok(0), (SUCCESS, 1), (SUCCESS, 1)), nothing);
}

#[test]
fn button_services_have_their_own_guids() {
    assert_eq!(
        button_services_guid().to_bytes(),
        *efi::Guid::from_fields(0x7e057b73, 0xa18d, 0x4b19, 0x86, 0xf3, &[0x30, 0xc5, 0xa6, 0xf1, 0x67, 0xce])
            .as_bytes()
    );
    assert_eq!(
        ms_button_services_guid().to_bytes(),
        *efi::Guid::from_fields(0xe0084c50, 0x3efd, 0x43f7, 0x88, 0xdf, &[0x19, 0x4d, 0xf2, 0xd1, 0x60, 0xf0])
            .as_bytes()
    );
}
