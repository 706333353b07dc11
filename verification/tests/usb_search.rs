use patina_sre::chainload::device_path_protocol_guid;
use patina_sre::usb_search::{
    find_first_usb_block_io_device_path, simple_file_system_guid, PathLookup, UsbSearchAction,
    UsbSearchAnswer,
};

const DISK: [u8; 8] = [0x04, 0x01, 0x04, 0x00, 0x7F, 0xFF, 0x04, 0x00];
const USB: [u8; 10] = [0x03, 0x05, 0x06, 0x00, 0x01, 0x00, 0x7F, 0xFF, 0x04, 0x00];
const OTHER_USB: [u8; 10] = [0x03, 0x0F, 0x06, 0x00, 0x02, 0x00, 0x7F, 0xFF, 0x04, 0x00];

/// Runs a search over handles 100, 101 and so on with these lookups. Gives the
/// path and the handles that were looked at.
fn search(lookups: Option<Vec<PathLookup<Vec<u8>>>>) -> (Option<Vec<u8>>, Vec<usize>) {
    let mut search = find_first_usb_block_io_device_path();
    let handles = lookups.as_ref().map(|all| (100..100 + all.len()).collect::<Vec<usize>>());
    let mut lookups = lookups.unwrap_or_default().into_iter();
    let mut seen = Vec::new();
    loop {
        let answer = match search.action() {
            UsbSearchAction::LocateHandles(guid) => {
                assert_eq!(guid, simple_file_system_guid());
                UsbSearchAnswer::Handles(handles.clone())
            }
            UsbSearchAction::LookUpPath { handle, protocol } => {
                assert_eq!(protocol, device_path_protocol_guid());
                seen.push(handle);
                UsbSearchAnswer::Path(lookups.next().unwrap())
            }
            UsbSearchAction::Finished(found) => {
                return (found.map(|path| path.as_bytes().to_vec()), seen)
            }
        };
        search = search.advance(answer);
    }
}

fn present(bytes: &[u8]) -> PathLookup<Vec<u8>> {
    PathLookup::Present(bytes.to_vec())
}

#[test]
fn first_usb_volume_is_found() {
    let (found, seen) = search(Some(vec![present(&DISK), present(&USB), present(&OTHER_USB)]));
    assert_eq!(found.as_deref(), Some(USB.as_slice()));
    assert_eq!(seen, [100, 101]);
}

#[test]
fn unreadable_paths_are_passed_over() {
    let (found, seen) =
        search(Some(vec![PathLookup::Absent, present(&USB[..7]), present(&[]), present(&OTHER_USB)]));
    assert_eq!(found.as_deref(), Some(OTHER_USB.as_slice()));
    assert_eq!(seen, [100, 101, 102, 103]);
}

#[test]
fn path_is_taken_up_to_its_end_node() {
    // The end node says eight bytes; the path ends with its header.
    let bytes = [0x03, 0x05, 0x06, 0x00, 0x01, 0x00, 0x7F, 0xFF, 0x08, 0x00, 1, 2, 3, 4];
    let (found, seen) = search(Some(vec![present(&bytes), present(&USB)]));
    assert_eq!(found.as_deref(), Some(&bytes[..10]));
    assert_eq!(seen, [100]);
}

#[test]
fn failed_lookup_is_passed_over() {
    let (found, seen) = search(Some(vec![present(&DISK), PathLookup::Failed, present(&USB)]));
    assert_eq!(found.as_deref(), Some(USB.as_slice()));
    assert_eq!(seen, [100, 101, 102]);
    let (found, seen) = search(Some(vec![PathLookup::Failed, present(&USB)]));
    assert_eq!(found.as_deref(), Some(USB.as_slice()));
    assert_eq!(seen, [100, 101]);
}

#[test]
fn nothing_is_found_without_usb_volumes() {
    assert_eq!(search(Some(vec![present(&DISK), present(&DISK)])), (None, vec![100, 101]));
    assert_eq!(search(Some(vec![present(&DISK), PathLookup::Failed])), (None, vec![100, 101]));
    assert_eq!(search(Some(vec![])), (None, vec![]));
    assert_eq!(search(None), (None, vec![]));
}
