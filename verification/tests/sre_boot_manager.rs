use patina_sre::boot_run::{
    dfci_start_of_bds_notify_guid, ms_start_of_bds_notify_guid, BootAction, BootAnswer,
};
use patina_sre::device_path::DevicePathBuf;
use patina_sre::efi::{EfiError, Guid};
use patina_sre::hotkey::SreHotkey;
use patina_sre::sre_boot_manager::{
    fv_file_device_path, fv_volume_file_device_path, SreBootManager,
};
use r_efi::efi;

fn test_device_path() -> DevicePathBuf {
    DevicePathBuf::try_from_bytes(&[0x7F, 0xFF, 0x04, 0x00]).unwrap()
}

/// A path with one node that tells it apart.
fn disk(number: u8) -> DevicePathBuf {
    DevicePathBuf::try_from_bytes(&[0x04, 0x01, 0x05, 0x00, number, 0x7F, 0xFF, 0x04, 0x00]).unwrap()
}

/// A path with one USB node that tells it apart.
fn usb(number: u8) -> DevicePathBuf {
    DevicePathBuf::try_from_bytes(&[0x03, 0x05, 0x05, 0x00, number, 0x7F, 0xFF, 0x04, 0x00]).unwrap()
}

const MAIN_OS: u8 = 99;
const SRE_APP: u8 = 98;
const FRONTPAGE: u8 = 97;
const STICK: u8 = 96;

struct Platform {
    hotkey: SreHotkey,
    stick: bool,
    image: bool,
    options: Result<Vec<DevicePathBuf>, EfiError>,
    fails: bool,
}

fn platform() -> Platform {
    Platform {
        hotkey: SreHotkey::NoHotkey,
        stick: false,
        image: false,
        options: Ok(vec![]),
        fails: false,
    }
}

/// Boots on behalf of image 0x11 and gives what was done.
fn boot(manager: &SreBootManager, platform: Platform) -> Vec<String> {
    let mut run = manager.execute(0x11);
    let mut options = Some(platform.options);
    let mut done = Vec::new();
    loop {
        let result = if platform.fails { Err(EfiError::unsupported()) } else { Ok(()) };
        let (name, answer) = match run.action() {
            BootAction::Interleave => ("interleave".to_string(), BootAnswer::Done(result)),
            BootAction::ConnectAll => ("connect".to_string(), BootAnswer::Done(result)),
            BootAction::SignalBdsPhaseEntry => ("entry".to_string(), BootAnswer::Done(result)),
            BootAction::SignalEventGroup(guid) => {
                let name = if guid == ms_start_of_bds_notify_guid() {
                    "ms start"
                } else {
                    assert_eq!(guid, dfci_start_of_bds_notify_guid());
                    "dfci start"
                };
                (name.to_string(), BootAnswer::Done(result))
            }
            BootAction::DiscoverConsoles => ("consoles".to_string(), BootAnswer::Done(result)),
            BootAction::ProbeHotkey => {
                ("hotkey".to_string(), BootAnswer::Hotkey(platform.hotkey))
            }
            BootAction::FindUsb => {
                let found = if platform.stick { Some(usb(STICK)) } else { None };
                ("find usb".to_string(), BootAnswer::Usb(found))
            }
            BootAction::SignalReadyToBoot => ("ready".to_string(), BootAnswer::Done(result)),
            BootAction::Boot { image_handle, path } => {
                assert_eq!(image_handle, 0x11);
                (format!("boot {}", path.as_bytes()[4]), BootAnswer::Done(result))
            }
            BootAction::RunSreFlow { image_handle } => {
                assert_eq!(image_handle, 0x11);
                ("sre flow".to_string(), BootAnswer::Done(result))
            }
            BootAction::ProbeRecoveryImage => {
                ("probe image".to_string(), BootAnswer::RecoveryImage(platform.image))
            }
            BootAction::DiscoverBootOptions => {
                ("options".to_string(), BootAnswer::Options(options.take().unwrap()))
            }
            BootAction::Finished(error) => {
                assert_eq!(error, EfiError::not_found());
                return done;
            }
        };
        done.push(name);
        run = run.advance(answer);
    }
}

/// What was done after the seven steps that every boot starts with.
fn boot_after_prologue(manager: &SreBootManager, platform: Platform) -> Vec<String> {
    let mut done = boot(manager, platform);
    let rest = done.split_off(7);
    assert_eq!(
        done,
        ["interleave", "connect", "entry", "ms start", "dfci start", "consoles", "hotkey"]
    );
    rest
}

fn plain() -> SreBootManager {
    SreBootManager::new(test_device_path(), disk(MAIN_OS))
}

#[test]
fn test_new_constructs() {
    let manager = SreBootManager::new(test_device_path(), test_device_path());
    assert_eq!(manager.boot_partition_path().as_bytes(), &[0x7F, 0xFF, 0x04, 0x00]);
    assert_eq!(manager.main_os_path().as_bytes(), &[0x7F, 0xFF, 0x04, 0x00]);
    assert!(!manager.bp_sre_fallback());
    assert!(manager.with_bp_sre_fallback().bp_sre_fallback());
}

#[test]
fn options_are_tried_in_order() {
    let options = Ok(vec![disk(1), usb(2), disk(3)]);
    assert_eq!(
        boot_after_prologue(&plain(), Platform { options, ..platform() }),
        ["options", "ready", "boot 1", "ready", "boot 2", "ready", "boot 3"]
    );
}

#[test]
fn main_os_is_booted_without_options() {
    let expected = ["options", "ready", "boot 99"];
    assert_eq!(boot_after_prologue(&plain(), platform()), expected);
    let options = Err(EfiError::not_found());
    assert_eq!(boot_after_prologue(&plain(), Platform { options, ..platform() }), expected);
}

#[test]
fn volume_up_boots_the_app_or_runs_the_flow() {
    let hotkey = SreHotkey::VolumeUp;
    let with_app = plain().with_sre_app_path(disk(SRE_APP));
    assert_eq!(
        boot_after_prologue(&with_app, Platform { hotkey, ..platform() }),
        ["ready", "boot 98", "options", "ready", "boot 99"]
    );
    assert_eq!(
        boot_after_prologue(&plain(), Platform { hotkey, ..platform() }),
        ["ready", "sre flow", "options", "ready", "boot 99"]
    );
}

#[test]
fn volume_down_boots_usb_or_the_fallback_app() {
    let hotkey = SreHotkey::VolumeDown;
    let with_app = plain().with_frontpage_app_path(disk(FRONTPAGE));
    assert_eq!(
        boot_after_prologue(&with_app, Platform { hotkey, stick: true, ..platform() }),
        ["find usb", "ready", "boot 96", "options", "ready", "boot 99"]
    );
    assert_eq!(
        boot_after_prologue(&with_app, Platform { hotkey, ..platform() }),
        ["find usb", "ready", "boot 97", "options", "ready", "boot 99"]
    );
    assert_eq!(
        boot_after_prologue(&plain(), Platform { hotkey, ..platform() }),
        ["find usb", "options", "ready", "boot 99"]
    );
}

#[test]
fn recovery_image_skips_usb_options_and_is_the_last_resort() {
    let manager = plain().with_bp_sre_fallback();
    let options = Ok(vec![usb(1), disk(2), usb(3)]);
    assert_eq!(
        boot_after_prologue(&manager, Platform { image: true, options, ..platform() }),
        ["probe image", "options", "ready", "boot 2", "sre flow"]
    );
    // With all options skipped the main operating system is tried.
    let options = Ok(vec![usb(1), usb(3)]);
    assert_eq!(
        boot_after_prologue(&manager, Platform { image: true, options, ..platform() }),
        ["probe image", "options", "ready", "boot 99", "sre flow"]
    );
}

#[test]
fn fallback_without_an_image_adds_the_probe_alone() {
    let options = || Ok(vec![usb(1), disk(2)]);
    assert_eq!(
        boot_after_prologue(
            &plain().with_bp_sre_fallback(),
            Platform { options: options(), ..platform() }
        ),
        ["probe image", "options", "ready", "boot 1", "ready", "boot 2"]
    );
    // Without the fallback an image does not count.
    assert_eq!(
        boot_after_prologue(&plain(), Platform { image: true, options: options(), ..platform() }),
        ["options", "ready", "boot 1", "ready", "boot 2"]
    );
}

#[test]
fn failures_make_no_difference() {
    let manager = plain().with_bp_sre_fallback();
    let on = |fails| Platform {
        hotkey: SreHotkey::VolumeUp,
        image: true,
        options: Ok(vec![disk(1), disk(2)]),
        fails,
        ..platform()
    };
    assert_eq!(boot(&manager, on(false)), boot(&manager, on(true)));
}

fn file_guid() -> Guid {
    Guid {
        time_low: 0x00112233,
        time_mid: 0x4455,
        time_hi_and_version: 0x6677,
        clk_seq_hi_res: 0x88,
        clk_seq_low: 0x99,
        node: [0xAA, 0xBB, 0xCC, 0xDD, 0xEE, 0xFF],
    }
}

#[test]
fn firmware_file_paths() {
    let bytes = *efi::Guid::from_fields(
        0x00112233,
        0x4455,
        0x6677,
        0x88,
        0x99,
        &[0xAA, 0xBB, 0xCC, 0xDD, 0xEE, 0xFF],
    )
    .as_bytes();
    let file = [&[0x04, 0x06, 20, 0], bytes.as_slice()].concat();
    let end = [0x7F, 0xFF, 0x04, 0x00];
    assert_eq!(fv_file_device_path(file_guid()).as_bytes(), [file.as_slice(), &end].concat());
    let volume_guid = ms_start_of_bds_notify_guid();
    let volume = [&[0x04, 0x07, 20, 0], volume_guid.to_bytes().as_slice()].concat();
    let path = fv_volume_file_device_path(volume_guid, file_guid());
    assert_eq!(path.as_bytes(), [volume.as_slice(), &file, &end].concat());
    assert_eq!(path.as_bytes().len(), 44);
    assert!(DevicePathBuf::try_from_bytes(path.as_bytes()).is_some());
}
