use patina_sre::boot_run::{dfci_start_of_bds_notify_guid, ms_start_of_bds_notify_guid};
use patina_sre::efi::EfiError;
use patina_sre::event_group::{
    signal_event_group, EventAction, EventAnswer, EVT_NOTIFY_SIGNAL, TPL_CALLBACK,
};
use r_efi::efi;

fn signal(
    created: Result<usize, usize>,
    signaled: Result<(), usize>,
    closed: Result<(), usize>,
) -> (Result<(), EfiError>, Vec<String>) {
    let mut signal = signal_event_group(ms_start_of_bds_notify_guid());
    let mut calls = Vec::new();
    loop {
        let answer = match signal.action() {
            EventAction::CreateEvent { event_type, notify_tpl, group } => {
                assert_eq!(event_type, efi::EVT_NOTIFY_SIGNAL);
                assert_eq!(notify_tpl, efi::TPL_CALLBACK);
                assert_eq!(group, ms_start_of_bds_notify_guid());
                calls.push("create".to_string());
                EventAnswer::Created(created)
            }
            EventAction::SignalEvent(event) => {
                calls.push(format!("signal {event}"));
                EventAnswer::Signaled(signaled)
            }
            EventAction::CloseEvent(event) => {
                calls.push(format!("close {event}"));
                EventAnswer::Closed(closed)
            }
            EventAction::Finished(result) => return (result, calls),
        };
        signal = signal.advance(answer);
    }
}

#[test]
fn event_is_created_signaled_and_closed() {
    let (result, calls) = signal(Ok(5), Ok(()), Ok(()));
    assert_eq!(result, Ok(()));
    assert_eq!(calls, ["create", "signal 5", "close 5"]);
}

#[test]
fn failed_creation_signals_nothing() {
    let status = efi::Status::OUT_OF_RESOURCES.as_usize();
    let (result, calls) = signal(Err(status), Ok(()), Ok(()));
    assert_eq!(result, Err(EfiError::Named(status)));
    assert_eq!(calls, ["create"]);
}

#[test]
fn event_is_closed_also_if_the_signal_fails() {
    let (first, second) =
        (efi::Status::INVALID_PARAMETER.as_usize(), efi::Status::DEVICE_ERROR.as_usize());
    let (result, calls) = signal(Ok(5), Err(first), Ok(()));
    assert_eq!(result, Err(EfiError::Named(first)));
    assert_eq!(calls, ["create", "signal 5", "close 5"]);
    assert_eq!(signal(Ok(5), Ok(()), Err(second)).0, Err(EfiError::Named(second)));
    // The error of the signal goes first.
    assert_eq!(signal(Ok(5), Err(first), Err(second)).0, Err(EfiError::Named(first)));
}

#[test]
fn event_constants_are_those_of_uefi() {
    assert_eq!(EVT_NOTIFY_SIGNAL, efi::EVT_NOTIFY_SIGNAL);
    assert_eq!(TPL_CALLBACK, efi::TPL_CALLBACK);
}

#[test]
fn group_guids() {
    assert_eq!(
        ms_start_of_bds_notify_guid().to_bytes(),
        *efi::Guid::from_fields(0x056e730a, 0x2ac9, 0x4f9c, 0xa7, 0x92, &[0x1f, 0x3f, 0x1a, 0x48, 0xa2, 0x4d])
            .as_bytes()
    );
    assert_eq!(
        dfci_start_of_bds_notify_guid().to_bytes(),
        *efi::Guid::from_fields(0xc9341466, 0x1a6c, 0x4ded, 0x89, 0xc2, &[0x78, 0x12, 0xb0, 0x29, 0x9c, 0x45])
            .as_bytes()
    );
}
