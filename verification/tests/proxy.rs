use patina_sre::efi::{EfiError, SUCCESS};
use patina_sre::proxy::{
    check, connect_all_default_consoles, connect_console_variable, dispatch_deferred_images,
    display_boot_logo, install_dxe_smm_ready_to_lock, locate, perform_memory_test,
    process_capsules, process_load_option, protocol_guid, start_hotkey_service,
    update_console_variable, ConsoleType, Protocol, ProxyAction, ProxyAnswer, ProxyCall,
    ProxyOutput, ProxyRun, REVISION,
};
use r_efi::efi;

/// Makes a call and gives the result and the call that was dispatched.
fn call(
    run: ProxyRun,
    located: Result<Option<Protocol>, usize>,
    status: usize,
) -> (Result<ProxyOutput, EfiError>, Option<ProxyCall>) {
    let mut run = run;
    let mut dispatched = None;
    loop {
        let answer = match run.action() {
            ProxyAction::LocateProtocol(guid) => {
                assert_eq!(guid, protocol_guid());
                ProxyAnswer::Located(located)
            }
            ProxyAction::Dispatch(call) => {
                assert_eq!(dispatched, None);
                dispatched = Some(call);
                ProxyAnswer::Returned { status, event: 0x77 }
            }
            ProxyAction::Finished(result) => return (result, dispatched),
        };
        run = run.advance(answer);
    }
}

fn revision(revision: u32) -> Result<Option<Protocol>, usize> {
    Ok(Some(Protocol { revision }))
}

fn calls() -> Vec<(ProxyRun, ProxyCall)> {
    let console_type = ConsoleType::ConOut;
    vec![
        (process_capsules(), ProxyCall::ProcessCapsules),
        (connect_all_default_consoles(), ProxyCall::ConnectAllDefaultConsoles),
        (perform_memory_test(), ProxyCall::PerformMemoryTest),
        (display_boot_logo(), ProxyCall::DisplayBootLogo),
        (
            connect_console_variable(ConsoleType::ErrOut),
            ProxyCall::ConnectConsoleVariable(ConsoleType::ErrOut),
        ),
        (
            update_console_variable(console_type, 0x1000, 0),
            ProxyCall::UpdateConsoleVariable { console_type, customized: 0x1000, exclusive: 0 },
        ),
        (start_hotkey_service(), ProxyCall::StartHotkeyService),
        (dispatch_deferred_images(), ProxyCall::DispatchDeferredImages),
        (process_load_option(0x2000), ProxyCall::ProcessLoadOption(0x2000)),
        (install_dxe_smm_ready_to_lock(), ProxyCall::InstallDxeSmmReadyToLock),
    ]
}

#[test]
fn calls_are_dispatched() {
    for (run, expected) in calls() {
        let output = if expected == ProxyCall::StartHotkeyService {
            ProxyOutput::Event(0x77)
        } else {
            ProxyOutput::Done
        };
        assert_eq!(call(run, revision(REVISION), SUCCESS), (Ok(output), Some(expected)));
    }
}

#[test]
fn calls_report_their_status() {
    let status = efi::Status::DEVICE_ERROR.as_usize();
    for (run, expected) in calls() {
        assert_eq!(
            call(run, revision(REVISION), status),
            (Err(EfiError::Named(status)), Some(expected))
        );
    }
}

#[test]
fn nothing_is_dispatched_without_the_proxy() {
    let status = efi::Status::NOT_READY.as_usize();
    for (run, _) in calls() {
        assert_eq!(call(run, Err(status), SUCCESS), (Err(EfiError::Named(status)), None));
        assert_eq!(call(run, Ok(None), SUCCESS), (Err(EfiError::not_found()), None));
    }
}

#[test]
fn other_major_revisions_are_refused() {
    for (run, _) in calls() {
        for other in [0x0000_0002, 0x0000_FFFF, 0x0002_0002, 0xFFFF_0002] {
            assert_eq!(call(run, revision(other), SUCCESS), (Err(EfiError::unsupported()), None));
        }
    }
}

#[test]
fn late_calls_need_their_revision() {
    for (run, expected) in calls() {
        for minor in 0..4 {
            let needed = match expected {
                ProxyCall::PerformMemoryTest => 1,
                ProxyCall::DisplayBootLogo => 2,
                _ => 0,
            };
            let (result, dispatched) = call(run, revision(0x0001_0000 + minor), SUCCESS);
            if minor < needed {
                assert_eq!((result, dispatched), (Err(EfiError::unsupported()), None));
            } else {
                assert!(result.is_ok());
                assert_eq!(dispatched, Some(expected));
            }
        }
    }
}

#[test]
fn lookups_and_statuses() {
    let protocol = Protocol { revision: 0x0001_0000 };
    assert_eq!(locate(Ok(Some(protocol))), Ok(protocol));
    assert_eq!(locate(Ok(None)), Err(EfiError::not_found()));
    assert_eq!(locate(Err(3)), Err(EfiError::Unknown(3)));
    assert_eq!(check(SUCCESS), Ok(()));
    assert_eq!(check(3), Err(EfiError::Unknown(3)));
}

#[test]
fn console_codes() {
    assert_eq!(ConsoleType::ConIn.code(), 0);
    assert_eq!(ConsoleType::ConOut.code(), 1);
    assert_eq!(ConsoleType::ErrOut.code(), 2);
}

#[test]
fn proxy_guid() {
    assert_eq!(
        protocol_guid().to_bytes(),
        *efi::Guid::from_fields(0x9E5B1A40, 0x7C42, 0x4E91, 0xB8, 0xD6, &[0x3F, 0x2A, 0x8E, 0x5D, 0x7C, 0x13])
            .as_bytes()
    );
}
