use patina_sre::efi::{to_result, EfiError, Guid, NOT_FOUND, SUCCESS, UNSUPPORTED};
use r_efi::efi;

fn error_bit(code: usize) -> usize {
    code | (1 << (usize::BITS - 1))
}

#[test]
fn numbers_are_those_of_uefi() {
    assert_eq!(SUCCESS, efi::Status::SUCCESS.as_usize());
    assert_eq!(error_bit(UNSUPPORTED), efi::Status::UNSUPPORTED.as_usize());
    assert_eq!(error_bit(NOT_FOUND), efi::Status::NOT_FOUND.as_usize());
}

#[test]
fn named_errors_have_names() {
    for code in (1..=28).chain(31..=35) {
        let status = error_bit(code);
        assert_eq!(EfiError::from_status(status), EfiError::Named(status));
    }
}

#[test]
fn other_statuses_are_unknown() {
    // Without the error bit, gaps between the names, network errors, and more.
    for status in
        [1, 14, error_bit(0), error_bit(29), error_bit(30), error_bit(36), error_bit(100), usize::MAX]
    {
        assert_eq!(EfiError::from_status(status), EfiError::Unknown(status));
    }
}

#[test]
fn errors_keep_their_status() {
    for status in [efi::Status::DEVICE_ERROR.as_usize(), 7] {
        assert_eq!(EfiError::from_status(status).status(), status);
    }
    assert_ne!(
        EfiError::from_status(efi::Status::DEVICE_ERROR.as_usize()),
        EfiError::from_status(efi::Status::TIMEOUT.as_usize())
    );
}

#[test]
fn own_errors_are_those_of_the_firmware() {
    assert_eq!(
        EfiError::not_found(),
        EfiError::from_status(efi::Status::NOT_FOUND.as_usize())
    );
    assert_eq!(
        EfiError::unsupported(),
        EfiError::from_status(efi::Status::UNSUPPORTED.as_usize())
    );
}

#[test]
fn results_of_services() {
    assert_eq!(to_result(Ok(7)), Ok(7));
    let status = efi::Status::ABORTED.as_usize();
    assert_eq!(to_result::<u8>(Err(status)), Err(EfiError::Named(status)));
}

#[test]
fn guid_bytes_are_mixed_endian() {
    let guid = Guid {
        time_low: 0x00112233,
        time_mid: 0x4455,
        time_hi_and_version: 0x6677,
        clk_seq_hi_res: 0x88,
        clk_seq_low: 0x99,
        node: [0xAA, 0xBB, 0xCC, 0xDD, 0xEE, 0xFF],
    };
    assert_eq!(
        guid.to_bytes(),
        [
            0x33, 0x22, 0x11, 0x00, 0x55, 0x44, 0x77, 0x66, 0x88, 0x99, 0xAA, 0xBB, 0xCC, 0xDD,
            0xEE, 0xFF
        ]
    );
}

#[test]
fn protocol_guids_are_those_of_uefi() {
    assert_eq!(
        &patina_sre::chainload::device_path_protocol_guid().to_bytes(),
        r_efi::protocols::device_path::PROTOCOL_GUID.as_bytes()
    );
    assert_eq!(
        &patina_sre::usb_search::simple_file_system_guid().to_bytes(),
        r_efi::protocols::simple_file_system::PROTOCOL_GUID.as_bytes()
    );
}
