//! File path nodes of device paths.

use vstd::prelude::*;
use crate::device_path::{
    HEADER_BYTES, SUBTYPE_END_ENTIRE, SUBTYPE_FILE_PATH, TYPE_END, TYPE_MEDIA, end_entire_node,
    is_device_path, node_length, path_nodes,
};

verus! {

/// The UTF-16 code units of one character.
pub open spec fn utf16_of(c: char) -> Seq<u16> {
    let code = c as u32;
    if code < 0x1_0000 {
        seq![code as u16]
    } else {
        seq![
            (0xD800 + (code - 0x1_0000) / 0x400) as u16,
            (0xDC00 + (code - 0x1_0000) % 0x400) as u16,
        ]
    }
}

/// The UTF-16 code units of a text.
pub open spec fn utf16(text: Seq<char>) -> Seq<u16>
    decreases text.len(),
{
    if text.len() == 0 {
        seq![]
    } else {
        utf16(text.drop_last()) + utf16_of(text.last())
    }
}

/// Every character takes one or two code units.
pub proof fn utf16_len(text: Seq<char>)
    ensures
        text.len() <= utf16(text).len() <= 2 * text.len(),
    decreases text.len(),
{
    if text.len() > 0 {
        utf16_len(text.drop_last());
    }
}

/// The bytes of 16-bit units, each with its low byte first.
pub open spec fn little_endian(units: Seq<u16>) -> Seq<u8> {
    Seq::new(
        2 * units.len(),
        |i: int|
            if i % 2 == 0 {
                (units[i / 2] % 256) as u8
            } else {
                (units[i / 2] / 256) as u8
            },
    )
}

/// A media node that holds `path` as UTF-16 with a closing zero. The length
/// field is cut to 16 bits.
pub open spec fn file_path_node(path: Seq<char>) -> Seq<u8> {
    let units = utf16(path).push(0);
    let length = HEADER_BYTES + 2 * units.len();
    seq![TYPE_MEDIA, SUBTYPE_FILE_PATH, (length % 256) as u8, (length / 256 % 256) as u8]
        + little_endian(units)
}

/// Encodes a text as UTF-16.
fn encode_utf16(text: &str) -> (units: Vec<u16>)
    ensures
        units@ == utf16(text@),
{
    let mut units: Vec<u16> = Vec::new();
    let ghost mut done: Seq<char> = seq![];
    for c in chars: text.chars()
        invariant
            chars.seq() == text@,
            done == text@.take(chars.index() as int),
            units@ == utf16(done),
    {
        let code: u32 = c as u32;
        if code < 0x1_0000 {
            units.push(code as u16);
        } else {
            let offset: u32 = code - 0x1_0000;
            units.push((0xD800 + offset / 0x400) as u16);
            units.push((0xDC00 + offset % 0x400) as u16);
        }
        proof {
            let before = done;
            done = text@.take(chars.index() + 1);
            assert(done.drop_last() =~= before);
            assert(units@ =~= utf16(before) + utf16_of(c));
        }
    }
    assert(text@.take(text@.len() as int) =~= text@);
    units
}

/// Builds a file path node for `path` followed by an end-entire node. The
/// caller puts the nodes of the device in front of it.
pub fn build_file_path_node(path: &str) -> (bytes: Vec<u8>)
    ensures
        bytes@ == file_path_node(path@) + end_entire_node(),
{
    let mut units = encode_utf16(path);
    units.push(0);
    // The length up to a multiple of 65536, which the length field leaves out.
    let node_len: usize = 4 + units.len() % 0x8000 * 2;
    let mut out: Vec<u8> = Vec::new();
    out.push(TYPE_MEDIA);
    out.push(SUBTYPE_FILE_PATH);
    out.push((node_len % 256) as u8);
    out.push((node_len / 256 % 256) as u8);
    proof {
        let length = HEADER_BYTES + 2 * units@.len();
        assert(length == node_len + 0x1_0000 * (units@.len() / 0x8000));
        assert(length % 256 == node_len % 256);
        assert(length / 256 % 256 == node_len / 256 % 256);
    }
    let ghost header = out@;
    for i in 0..units.len()
        invariant
            out@ == header + little_endian(units@.take(i as int)),
    {
        let unit: u16 = units[i];
        let ghost before = out@;
        out.push((unit % 256) as u8);
        out.push((unit / 256) as u8);
        proof {
            let more = units@.take(i + 1);
            assert(little_endian(more) =~= little_endian(units@.take(i as int)).push(
                (unit % 256) as u8,
            ).push((unit / 256) as u8));
            assert(out@ =~= header + little_endian(more));
        }
    }
    assert(units@.take(units.len() as int) =~= units@);
    out.push(TYPE_END);
    out.push(SUBTYPE_END_ENTIRE);
    out.push(0x04);
    out.push(0x00);
    assert(out@ =~= file_path_node(path@) + end_entire_node());
    out
}

/// A file path node that fits its length field, closed by an end-entire node,
/// is a device path of these two nodes.
pub proof fn file_path_is_device_path(path: Seq<char>)
    requires
        2 * utf16(path).len() + 6 <= 0xFFFF,
    ensures
        is_device_path(file_path_node(path) + end_entire_node()),
        path_nodes(file_path_node(path) + end_entire_node()) == seq![
            file_path_node(path),
            end_entire_node(),
        ],
{
    let node = file_path_node(path);
    let end = end_entire_node();
    let bytes = node + end;
    let length = node.len() as int;
    assert(node_length(bytes) == length);
    assert(bytes.take(length) =~= node);
    assert(bytes.skip(length) =~= end);
    assert(end.take(4) =~= end);
    assert(path_nodes(end.skip(4)) =~= seq![]);
    assert(path_nodes(end) =~= seq![end]);
    assert(is_device_path(end));
    assert(path_nodes(bytes) =~= seq![node, end]);
}

/// The node holds the path: its 16-bit units after the header are those of the
/// path and a closing zero.
pub proof fn file_path_node_holds_path(path: Seq<char>, i: int)
    requires
        0 <= i <= utf16(path).len(),
    ensures
        file_path_node(path)[4 + 2 * i] + 256 * file_path_node(path)[5 + 2 * i] == utf16(path).push(
            0,
        )[i],
{
    let units = utf16(path).push(0);
    assert((2 * i) / 2 == i && (2 * i + 1) / 2 == i);
    assert(little_endian(units)[2 * i] == (units[i] % 256) as u8);
    assert(little_endian(units)[2 * i + 1] == (units[i] / 256) as u8);
}

/// The units of a character decode to it: one unit is the character itself,
/// below 0x10000; two units are a high and a low surrogate that hold ten bits
/// of it each.
pub proof fn utf16_decodes(c: char)
    ensures
        ({
            let code = c as u32;
            let units = utf16(seq![c]);
            if code < 0x1_0000 {
                units.len() == 1 && units[0] == code
            } else {
                &&& units.len() == 2
                &&& 0xD800 <= units[0] < 0xDC00
                &&& 0xDC00 <= units[1] < 0xE000
                &&& 0x1_0000 + (units[0] - 0xD800) * 0x400 + (units[1] - 0xDC00) == code
            }
        }),
{
    reveal_with_fuel(utf16, 2);
    assert(seq![c].drop_last() =~= seq![]);
    assert(utf16(seq![c]) =~= utf16_of(c));
}

/// A text is encoded character by character, in order, and the empty text has
/// no units.
pub proof fn utf16_of_joined_texts(front: Seq<char>, back: Seq<char>)
    ensures
        utf16(front + back) == utf16(front) + utf16(back),
        utf16(seq![]) == Seq::<u16>::empty(),
    decreases back.len(),
{
    if back.len() == 0 {
        assert(front + back =~= front);
        assert(utf16(front) + utf16(back) =~= utf16(front));
    } else {
        utf16_of_joined_texts(front, back.drop_last());
        assert((front + back).drop_last() =~= front + back.drop_last());
        assert(utf16(front + back) =~= utf16(front) + utf16(back));
    }
}

/// The bytes of a file path are a media node (type 4) of sub-type 4 and the end
/// node 7F FF 04 00. The node says its length, cut to 16 bits, and holds the
/// units of the path and a zero, each with its low byte first.
pub proof fn file_path_bytes(path: Seq<char>)
    ensures
        ({
            let bytes = file_path_node(path) + end_entire_node();
            let count = utf16(path).len() as int;
            &&& bytes.len() == 4 + 2 * (count + 1) + 4
            &&& bytes[0] == 4 && bytes[1] == 4
            &&& bytes[2] + 256 * bytes[3] == (4 + 2 * (count + 1)) % 0x1_0000
            &&& forall|i: int|
                0 <= i < count ==> bytes[4 + 2 * i] + 256 * bytes[5 + 2 * i] == #[trigger] utf16(
                    path,
                )[i]
            &&& bytes[4 + 2 * count] == 0 && bytes[5 + 2 * count] == 0
            &&& bytes.skip(6 + 2 * count) == seq![0x7Fu8, 0xFFu8, 4u8, 0u8]
        }),
{
    let bytes = file_path_node(path) + end_entire_node();
    let count = utf16(path).len() as int;
    assert forall|i: int| 0 <= i <= count implies #[trigger] bytes[4 + 2 * i] + 256 * bytes[5 + 2
        * i] == utf16(path).push(0)[i] by {
        file_path_node_holds_path(path, i);
    }
    assert(bytes[4 + 2 * count] + 256 * bytes[5 + 2 * count] == 0);
    assert forall|i: int| 0 <= i < count implies bytes[4 + 2 * i] + 256 * bytes[5 + 2 * i]
        == #[trigger] utf16(path)[i] by {
        assert(bytes[4 + 2 * i] + 256 * bytes[5 + 2 * i] == utf16(path).push(0)[i]);
    }
    assert(bytes.skip(6 + 2 * count) =~= seq![0x7Fu8, 0xFFu8, 4u8, 0u8]);
}

/// A text of characters below 0x10000 is encoded one unit a character.
pub proof fn utf16_of_basic_text(text: Seq<char>)
    requires
        forall|i: int| 0 <= i < text.len() ==> (#[trigger] text[i] as u32) < 0x1_0000,
    ensures
        utf16(text).len() == text.len(),
        forall|i: int| 0 <= i < text.len() ==> #[trigger] utf16(text)[i] == text[i] as u32,
    decreases text.len(),
{
    if text.len() > 0 {
        let front = text.drop_last();
        assert forall|i: int| 0 <= i < front.len() implies (#[trigger] front[i] as u32)
            < 0x1_0000 by {
            assert(front[i] == text[i]);
        }
        utf16_of_basic_text(front);
        assert((text.last() as u32) < 0x1_0000);
        assert forall|i: int| 0 <= i < text.len() implies #[trigger] utf16(text)[i]
            == text[i] as u32 by {
            if i < front.len() {
                assert(utf16(text)[i] == utf16(front)[i]);
                assert(front[i] == text[i]);
            }
        }
    }
}

/// The bytes of a short file path of characters below 0x100: each character is a
/// byte with a zero after it.
pub proof fn file_path_bytes_of_latin_text(path: Seq<char>)
    requires
        path.len() < 0x100,
        forall|i: int| 0 <= i < path.len() ==> (#[trigger] path[i] as u32) < 0x100,
    ensures
        ({
            let bytes = file_path_node(path) + end_entire_node();
            let count = path.len() as int;
            &&& bytes.len() == 10 + 2 * count
            &&& bytes[0] == 4 && bytes[1] == 4
            &&& bytes[2] + 256 * bytes[3] == 6 + 2 * count
            &&& forall|i: int|
                0 <= i < count ==> bytes[4 + 2 * i] == #[trigger] path[i] as u32 && bytes[5 + 2 * i]
                    == 0
            &&& bytes.skip(4 + 2 * count) == seq![0u8, 0u8, 0x7Fu8, 0xFFu8, 4u8, 0u8]
        }),
{
    utf16_of_basic_text(path);
    file_path_bytes(path);
    lemma_latin_bytes(path, utf16(path), file_path_node(path) + end_entire_node());
}

/// Bytes that hold units below 0x100, a zero and the end node.
proof fn lemma_latin_bytes(path: Seq<char>, units: Seq<u16>, bytes: Seq<u8>)
    requires
        path.len() < 0x100,
        units.len() == path.len(),
        bytes.len() == 10 + 2 * units.len(),
        forall|i: int| 0 <= i < path.len() ==> (#[trigger] path[i] as u32) < 0x100,
        forall|i: int| 0 <= i < path.len() ==> #[trigger] units[i] == path[i] as u32,
        forall|i: int|
            0 <= i < units.len() ==> bytes[4 + 2 * i] + 256 * bytes[5 + 2 * i]
                == #[trigger] units[i],
        bytes[4 + 2int * units.len()] == 0,
        bytes[5 + 2int * units.len()] == 0,
        bytes.skip(6 + 2int * units.len()) == seq![0x7Fu8, 0xFFu8, 4u8, 0u8],
    ensures
        forall|i: int|
            0 <= i < path.len() ==> bytes[4 + 2 * i] == #[trigger] path[i] as u32 && bytes[5 + 2
                * i] == 0,
        bytes.skip(4 + 2int * path.len()) == seq![0u8, 0u8, 0x7Fu8, 0xFFu8, 4u8, 0u8],
{
    let count = path.len() as int;
    assert forall|i: int| 0 <= i < count implies bytes[4 + 2 * i] == #[trigger] path[i] as u32
        && bytes[5 + 2 * i] == 0 by {
        assert(units[i] == path[i] as u32);
    }
    let end = bytes.skip(6 + 2 * count);
    assert(end[0] == bytes[6 + 2 * count] && end[1] == bytes[7 + 2 * count]);
    assert(end[2] == bytes[8 + 2 * count] && end[3] == bytes[9 + 2 * count]);
    assert(bytes.skip(4 + 2 * count) =~= seq![0u8, 0u8, 0x7Fu8, 0xFFu8, 4u8, 0u8]);
}

} // verus!
