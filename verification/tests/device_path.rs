use patina_sre::device_path::{
    device_path_has_usb_node, device_path_size, node_step, DevicePathBuf, NodeStep,
    SUBTYPE_END_ENTIRE, SUBTYPE_FILE_PATH, SUBTYPE_FIRMWARE_FILE, SUBTYPE_FIRMWARE_VOLUME,
    TYPE_END, TYPE_MEDIA, TYPE_MESSAGING,
};
use r_efi::protocols::device_path;

const END: [u8; 4] = [0x7F, 0xFF, 0x04, 0x00];
const ACPI: [u8; 12] =
    [0x02, 0x01, 0x0C, 0x00, 0x41, 0xD0, 0x0A, 0x03, 0x00, 0x00, 0x00, 0x00];

fn path(nodes: &[&[u8]]) -> DevicePathBuf {
    DevicePathBuf::try_from_bytes(&nodes.concat()).unwrap()
}

#[test]
fn test_device_path_size_walks_to_end_entire() {
    // One ACPI node (type 2, sub-type 1, length 12) and the end-entire node.
    let dp: [u8; 16] = [
        0x02, 0x01, 0x0C, 0x00, // ACPI node header
        0x41, 0xD0, 0x0A, 0x03, // HID
        0x00, 0x00, 0x00, 0x00, // UID
        0x7F, 0xFF, 0x04, 0x00, // end-entire node
    ];
    let size = device_path_size(&dp);
    assert_eq!(size, 16);
}

#[test]
fn test_device_path_size_end_entire_only() {
    let dp: [u8; 4] = [0x7F, 0xFF, 0x04, 0x00];
    let size = device_path_size(&dp);
    assert_eq!(size, 4);
}

#[test]
fn size_stops_at_the_end_node() {
    let mut bytes = [ACPI.as_slice(), END.as_slice()].concat();
    bytes.extend_from_slice(&[1, 2, 3, 4, 5]);
    assert_eq!(device_path_size(&bytes), 16);
}

#[test]
fn node_types_are_those_of_uefi() {
    assert_eq!(TYPE_MESSAGING, device_path::TYPE_MESSAGING);
    assert_eq!(TYPE_MEDIA, device_path::TYPE_MEDIA);
    assert_eq!(TYPE_END, device_path::TYPE_END);
    assert_eq!(SUBTYPE_END_ENTIRE, device_path::End::SUBTYPE_ENTIRE);
    assert_eq!(SUBTYPE_FILE_PATH, device_path::Media::SUBTYPE_FILE_PATH);
    assert_eq!(SUBTYPE_FIRMWARE_FILE, device_path::Media::SUBTYPE_PIWG_FIRMWARE_FILE);
    assert_eq!(SUBTYPE_FIRMWARE_VOLUME, device_path::Media::SUBTYPE_PIWG_FIRMWARE_VOLUME);
}

#[test]
fn node_step_reads_the_header() {
    assert_eq!(node_step(&[0x7F, 0xFF, 0x04, 0x00]), NodeStep::Last(4));
    assert_eq!(node_step(&[0x7F, 0x01, 0x04, 0x00]), NodeStep::Next(4));
    assert_eq!(node_step(&[0x02, 0x01, 0x0C, 0x01]), NodeStep::Next(0x010C));
    assert_eq!(node_step(&[0x02, 0x01, 0x00, 0x00]), NodeStep::Stuck);
}

#[test]
fn paths_are_taken_up_to_their_end_node() {
    let good = [ACPI.as_slice(), END.as_slice()].concat();
    assert_eq!(DevicePathBuf::try_from_bytes(&good).unwrap().as_bytes(), good.as_slice());
    // What comes after the end node is left out.
    let longer = [good.as_slice(), &[1, 2, 3]].concat();
    assert_eq!(DevicePathBuf::try_from_bytes(&longer).unwrap().as_bytes(), good.as_slice());
    // No end node, a byte too few, nothing at all, a node without a length.
    assert!(DevicePathBuf::try_from_bytes(&ACPI).is_none());
    assert!(DevicePathBuf::try_from_bytes(&good[..15]).is_none());
    assert!(DevicePathBuf::try_from_bytes(&[]).is_none());
    assert!(DevicePathBuf::try_from_bytes(&[0x02, 0x01, 0x00, 0x00, 0x7F, 0xFF, 4, 0]).is_none());
}

#[test]
fn length_of_the_end_node_does_not_count() {
    for length in [0u8, 3, 5, 200] {
        let usb = [0x03, 0x05, 0x06, 0x00, 0x01, 0x02];
        let bytes = [usb.as_slice(), &[0x7F, 0xFF, length, 0x00]].concat();
        let path = DevicePathBuf::try_from_bytes(&[bytes.as_slice(), &[9; 4]].concat()).unwrap();
        assert_eq!(path.as_bytes(), bytes.as_slice());
        assert!(device_path_has_usb_node(&path));
        let other = DevicePathBuf::try_from_bytes(&[ACPI.as_slice(), &bytes[6..]].concat()).unwrap();
        assert!(!device_path_has_usb_node(&other));
    }
}

#[test]
fn nodes_end_at_one_shorter_than_its_header() {
    // A node of three bytes and then one of four.
    let short = [0x02, 0x01, 0x03, 0x00, 0x05, 0x04, 0x00];
    let usb = [0x03, 0x05, 0x04, 0x00];
    assert!(device_path_has_usb_node(&path(&[&usb, &short, &END])));
    assert!(!device_path_has_usb_node(&path(&[&short, &usb, &END])));
}

#[test]
fn duplicate_keeps_the_bytes() {
    let original = path(&[&ACPI, &END]);
    assert_eq!(original.duplicate().as_bytes(), original.as_bytes());
}

#[test]
fn usb_nodes_are_found() {
    for sub_type in [5u8, 15, 16] {
        let usb = [0x03, sub_type, 0x06, 0x00, 0x01, 0x02];
        assert!(device_path_has_usb_node(&path(&[&usb, &END])));
        assert!(device_path_has_usb_node(&path(&[&ACPI, &usb, &ACPI, &END])));
    }
}

#[test]
fn other_nodes_are_not_usb() {
    assert!(!device_path_has_usb_node(&path(&[&END])));
    assert!(!device_path_has_usb_node(&path(&[&ACPI, &END])));
    // A messaging node of another sub-type, and the sub-type without the type.
    assert!(!device_path_has_usb_node(&path(&[&[0x03, 0x12, 0x04, 0x00], &END])));
    assert!(!device_path_has_usb_node(&path(&[&[0x01, 0x05, 0x04, 0x00], &END])));
    // What looks like a USB node inside another node.
    assert!(!device_path_has_usb_node(&path(&[&[0x04, 0x04, 0x08, 0x00, 0x03, 0x05, 4, 0], &END])));
}
