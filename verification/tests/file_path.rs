use patina_sre::chainload::CHAINLOAD_FILE_PATH;
use patina_sre::file_path::build_file_path_node;

#[test]
fn test_build_file_path_node_header_and_path_bytes() {
    let bytes = build_file_path_node("\\X");
    // Type 0x04, sub-type 0x04, length 4 + 2 * 3 = 10 as a little-endian
    // 16-bit number; UTF-16 units 0x005C 0x0058 0x0000; the end-entire node.
    let expected: &[u8] = &[
        0x04, 0x04, 0x0A, 0x00, // node header
        0x5C, 0x00, 0x58, 0x00, 0x00, 0x00, // UTF-16 "\X\0"
        0x7F, 0xFF, 0x04, 0x00, // end-entire node
    ];
    assert_eq!(bytes.as_slice(), expected);
}

#[test]
fn test_build_file_path_node_chainload_default() {
    let bytes = build_file_path_node(CHAINLOAD_FILE_PATH);
    assert_eq!(bytes[0], 0x04, "MEDIA_DEVICE_PATH type");
    assert_eq!(bytes[1], 0x04, "MEDIA_FILEPATH_DP subtype");
    let len = bytes.len();
    assert_eq!(&bytes[len - 4..], &[0x7F, 0xFF, 0x04, 0x00]);
}

#[test]
fn characters_outside_the_basic_plane_take_two_units() {
    // U+1F600 is the pair 0xD83D 0xDE00.
    let bytes = build_file_path_node("\u{1F600}");
    let expected: &[u8] =
        &[0x04, 0x04, 0x0A, 0x00, 0x3D, 0xD8, 0x00, 0xDE, 0x00, 0x00, 0x7F, 0xFF, 0x04, 0x00];
    assert_eq!(bytes.as_slice(), expected);
}

#[test]
fn units_are_those_of_the_standard_library() {
    for text in ["", "A", "\u{FFFF}", "\u{10000}", "\u{10FFFF}", "a\u{20AC}\u{1D11E}z"] {
        let bytes = build_file_path_node(text);
        let mut expected: Vec<u8> = Vec::new();
        for unit in text.encode_utf16() {
            expected.extend_from_slice(&unit.to_le_bytes());
        }
        expected.extend_from_slice(&[0, 0]);
        assert_eq!(&bytes[4..bytes.len() - 4], expected.as_slice());
        let length = u16::from_le_bytes([bytes[2], bytes[3]]) as usize;
        assert_eq!(length, expected.len() + 4);
    }
}

#[test]
fn length_field_keeps_the_low_sixteen_bits() {
    // 4 + 2 * (40000 + 1) = 80006 = 0x13886.
    let bytes = build_file_path_node("x".repeat(40000).as_str());
    assert_eq!(&bytes[..4], &[0x04, 0x04, 0x86, 0x38]);
    assert_eq!(bytes.len(), 80006 + 4);
}
