use patina_sre::chainload::{
    build_chainload_path, chainload_from_ramdisk, device_path_protocol_guid, ChainloadAction,
    ChainloadAnswer, CHAINLOAD_FILE_PATH,
};
use patina_sre::device_path::DevicePathBuf;
use patina_sre::efi::EfiError;
use patina_sre::file_path::build_file_path_node;
use r_efi::efi;

const RAM_DISK: [u8; 12] = [0x04, 0x09, 0x08, 0x00, 1, 2, 3, 4, 0x7F, 0xFF, 0x04, 0x00];

struct Firmware {
    located: Result<usize, usize>,
    loaded: Result<usize, usize>,
    started: Result<(), usize>,
}

/// Runs a start on behalf of image 0x11 with the path of the RAM disk at
/// 0x22. Gives the result and the calls.
fn chainload(firmware: &Firmware) -> (Result<(), EfiError>, Vec<String>) {
    let mut chainload = chainload_from_ramdisk(0x11, 0x22);
    let mut calls = Vec::new();
    loop {
        let answer = match chainload.action() {
            ChainloadAction::LocateDevicePath { protocol, device_path } => {
                assert_eq!(protocol, device_path_protocol_guid());
                calls.push(format!("locate {device_path:#x}"));
                ChainloadAnswer::Located(firmware.located)
            }
            ChainloadAction::ConnectController { handle, recursive } => {
                calls.push(format!("connect {handle:#x} {recursive}"));
                ChainloadAnswer::Connected
            }
            ChainloadAction::ReadDevicePath { device_path } => {
                calls.push(format!("read {device_path:#x}"));
                ChainloadAnswer::Path(RAM_DISK.to_vec())
            }
            ChainloadAction::LoadImage { boot_policy, parent_image, full_path } => {
                assert_eq!(full_path, build_chainload_path(&RAM_DISK).as_slice());
                calls.push(format!("load {boot_policy} {parent_image:#x}"));
                ChainloadAnswer::Loaded(firmware.loaded)
            }
            ChainloadAction::StartImage(image) => {
                calls.push(format!("start {image:#x}"));
                ChainloadAnswer::Started(firmware.started)
            }
            ChainloadAction::Finished(result) => return (result, calls),
        };
        chainload = chainload.advance(answer);
    }
}

#[test]
fn path_is_parent_file_and_end() {
    let path = build_chainload_path(&RAM_DISK);
    let mut expected = RAM_DISK[..8].to_vec();
    expected.extend_from_slice(&build_file_path_node(CHAINLOAD_FILE_PATH));
    assert_eq!(path, expected);
    // "\\EFI\\Boot\\bootx64.efi" has 21 characters.
    assert_eq!(&path[8..12], &[0x04, 0x04, 48, 0]);
    assert!(DevicePathBuf::try_from_bytes(&path).is_some());
}

#[test]
fn bytes_after_the_parent_are_left_out() {
    let mut bytes = RAM_DISK.to_vec();
    bytes.extend_from_slice(&[9; 7]);
    assert_eq!(build_chainload_path(&bytes), build_chainload_path(&RAM_DISK));
}

#[test]
fn application_is_loaded_and_started() {
    let (result, calls) = chainload(&Firmware { located: Ok(3), loaded: Ok(4), started: Ok(()) });
    assert_eq!(result, Ok(()));
    assert_eq!(
        calls,
        ["locate 0x22", "connect 0x3 true", "read 0x22", "load true 0x11", "start 0x4"]
    );
}

#[test]
fn each_failure_ends_the_start() {
    let status = efi::Status::NOT_FOUND.as_usize();
    let (result, calls) =
        chainload(&Firmware { located: Err(status), loaded: Ok(4), started: Ok(()) });
    assert_eq!((result, calls.len()), (Err(EfiError::not_found()), 1));
    let status = efi::Status::SECURITY_VIOLATION.as_usize();
    let (result, calls) =
        chainload(&Firmware { located: Ok(3), loaded: Err(status), started: Ok(()) });
    assert_eq!((result, calls.len()), (Err(EfiError::Named(status)), 4));
    let (result, calls) =
        chainload(&Firmware { located: Ok(3), loaded: Ok(4), started: Err(status) });
    assert_eq!((result, calls.len()), (Err(EfiError::Named(status)), 5));
}
