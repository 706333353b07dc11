//! UEFI device paths as byte strings.
//!
//! A device path is a run of nodes. Each node starts with a header of four
//! bytes: its type, its sub-type and its length in bytes, header included, as
//! a little-endian 16-bit number. The last node is the end-entire node.

use vstd::prelude::*;

verus! {

/// Bytes of a node header.
pub const HEADER_BYTES: usize = 4;

/// Type of messaging nodes.
pub const TYPE_MESSAGING: u8 = 0x03;

/// Type of media nodes.
pub const TYPE_MEDIA: u8 = 0x04;

/// Type of end nodes.
pub const TYPE_END: u8 = 0x7F;

/// Sub-type of the messaging node of a USB device.
pub const SUBTYPE_USB: u8 = 5;

/// Sub-type of the messaging node of a USB device class.
pub const SUBTYPE_USB_CLASS: u8 = 15;

/// Sub-type of the messaging node of a USB device by serial number.
pub const SUBTYPE_USB_WWID: u8 = 16;

/// Sub-type of the media node of a file path.
pub const SUBTYPE_FILE_PATH: u8 = 0x04;

/// Sub-type of the media node of a file in a firmware volume.
pub const SUBTYPE_FIRMWARE_FILE: u8 = 0x06;

/// Sub-type of the media node of a firmware volume.
pub const SUBTYPE_FIRMWARE_VOLUME: u8 = 0x07;

/// Sub-type of the end node that closes the whole path.
pub const SUBTYPE_END_ENTIRE: u8 = 0xFF;

/// The length field of the node at the front of `bytes`.
pub open spec fn node_length(bytes: Seq<u8>) -> nat {
    (bytes[2] + 256 * bytes[3]) as nat
}

/// Whether the node at the front of `bytes` closes the whole path.
pub open spec fn is_end_entire(bytes: Seq<u8>) -> bool {
    bytes[0] == TYPE_END && bytes[1] == SUBTYPE_END_ENTIRE
}

/// The end-entire node.
pub open spec fn end_entire_node() -> Seq<u8> {
    seq![TYPE_END, SUBTYPE_END_ENTIRE, 4u8, 0u8]
}

/// The size in bytes of the device path at the front of `bytes`, end node
/// included, or `None` if no end-entire node is reached within `bytes`.
pub open spec fn path_size(bytes: Seq<u8>) -> Option<nat>
    decreases bytes.len(),
{
    if bytes.len() < HEADER_BYTES {
        None
    } else if is_end_entire(bytes) {
        Some(node_length(bytes))
    } else if node_length(bytes) == 0 || node_length(bytes) > bytes.len() {
        None
    } else {
        match path_size(bytes.skip(node_length(bytes) as int)) {
            Some(rest) => Some(node_length(bytes) + rest),
            None => None,
        }
    }
}

/// Whether `bytes` is a device path and nothing else: every node holds at
/// least its header and fits, and the last one, and only that one, is an
/// end-entire node of header size.
pub open spec fn is_device_path(bytes: Seq<u8>) -> bool
    decreases bytes.len(),
{
    &&& bytes.len() >= HEADER_BYTES
    &&& HEADER_BYTES <= node_length(bytes) <= bytes.len()
    &&& if is_end_entire(bytes) {
        node_length(bytes) == HEADER_BYTES == bytes.len()
    } else {
        is_device_path(bytes.skip(node_length(bytes) as int))
    }
}

/// The bytes from the front of `bytes` up to and including the header of the
/// first end-entire node that the lengths of the nodes lead to, or `None` if
/// they lead to none within `bytes`. What the end node says of its own length
/// does not count.
pub open spec fn closed_size(bytes: Seq<u8>) -> Option<nat>
    decreases bytes.len(),
{
    if bytes.len() < HEADER_BYTES {
        None
    } else if is_end_entire(bytes) {
        Some(HEADER_BYTES as nat)
    } else if node_length(bytes) == 0 || node_length(bytes) > bytes.len() {
        None
    } else {
        match closed_size(bytes.skip(node_length(bytes) as int)) {
            Some(rest) => Some(node_length(bytes) + rest),
            None => None,
        }
    }
}

/// Whether `bytes` end in the header of the first end-entire node that the
/// lengths of the nodes lead to.
pub open spec fn is_closed_path(bytes: Seq<u8>) -> bool {
    closed_size(bytes) == Some(bytes.len())
}

/// What is up to the end-entire node of a path is a closed path.
proof fn lemma_closed_prefix(bytes: Seq<u8>)
    requires
        closed_size(bytes) is Some,
    ensures
        HEADER_BYTES <= closed_size(bytes)->0 <= bytes.len(),
        is_closed_path(bytes.take(closed_size(bytes)->0 as int)),
    decreases bytes.len(),
{
    let size = closed_size(bytes)->0 as int;
    let prefix = bytes.take(size);
    if is_end_entire(bytes) {
        assert(is_end_entire(prefix));
    } else {
        let length = node_length(bytes) as int;
        let rest = bytes.skip(length);
        lemma_closed_prefix(rest);
        assert(node_length(prefix) == length);
        assert(prefix.skip(length) =~= rest.take(size - length));
    }
}

/// The nodes of `bytes` from the front on, up to the first that does not hold
/// its header or does not fit.
pub open spec fn path_nodes(bytes: Seq<u8>) -> Seq<Seq<u8>>
    decreases bytes.len(),
{
    if bytes.len() < HEADER_BYTES || node_length(bytes) < HEADER_BYTES || node_length(bytes)
        > bytes.len() {
        seq![]
    } else {
        seq![bytes.take(node_length(bytes) as int)] + path_nodes(
            bytes.skip(node_length(bytes) as int),
        )
    }
}

/// Whether `node` is a messaging node of a USB device.
pub open spec fn is_usb_node(node: Seq<u8>) -> bool {
    &&& node[0] == TYPE_MESSAGING
    &&& (node[1] == SUBTYPE_USB || node[1] == SUBTYPE_USB_CLASS || node[1] == SUBTYPE_USB_WWID)
}

/// Whether some node of the device path `bytes` is a USB messaging node.
pub open spec fn has_usb_node(bytes: Seq<u8>) -> bool {
    exists|i: int| 0 <= i < path_nodes(bytes).len() && is_usb_node(#[trigger] path_nodes(bytes)[i])
}

/// What a node header says about where the walk along a path goes on.
#[derive(Clone, Copy, Debug, PartialEq, Eq, Structural)]
pub enum NodeStep {
    /// The node is the end-entire node, of this many bytes.
    Last(usize),
    /// Another node starts this many bytes further on.
    Next(usize),
    /// The node has no length, so the path leads nowhere.
    Stuck,
}

/// What the node header at the front of `bytes` says.
pub open spec fn spec_node_step(bytes: Seq<u8>) -> NodeStep {
    if is_end_entire(bytes) {
        NodeStep::Last(node_length(bytes) as usize)
    } else if node_length(bytes) == 0 {
        NodeStep::Stuck
    } else {
        NodeStep::Next(node_length(bytes) as usize)
    }
}

/// Reads the length field of the node at `offset`.
fn read_node_length(bytes: &[u8], offset: usize) -> (length: usize)
    requires
        offset + HEADER_BYTES <= bytes@.len() <= usize::MAX,
    ensures
        length == node_length(bytes@.skip(offset as int)),
        length <= 0xFFFF,
{
    bytes[offset + 2] as usize + 256 * (bytes[offset + 3] as usize)
}

/// Tells from a node header where the walk along a path goes on.
pub fn node_step(header: &[u8; 4]) -> (step: NodeStep)
    ensures
        step == spec_node_step(header@),
{
    let length: usize = header[2] as usize + 256 * (header[3] as usize);
    if header[0] == TYPE_END && header[1] == SUBTYPE_END_ENTIRE {
        NodeStep::Last(length)
    } else if length == 0 {
        NodeStep::Stuck
    } else {
        NodeStep::Next(length)
    }
}

/// Computes the size in bytes of the device path at the front of `dp`, end
/// node included. The path must be closed by an end-entire node within `dp`.
pub fn device_path_size(dp: &[u8]) -> (size: usize)
    requires
        path_size(dp@) is Some,
        dp@.len() <= isize::MAX,
    ensures
        path_size(dp@) == Some(size as nat),
{
    let mut offset: usize = 0;
    assert(dp@.skip(0) =~= dp@);
    loop
        invariant
            offset <= dp@.len() <= isize::MAX,
            path_size(dp@.skip(offset as int)) is Some,
            path_size(dp@) == Some(offset as nat + path_size(dp@.skip(offset as int))->0),
        decreases dp@.len() - offset,
    {
        let length: usize = read_node_length(dp, offset);
        if dp[offset] == TYPE_END && dp[offset + 1] == SUBTYPE_END_ENTIRE {
            return offset + length;
        }
        assert(dp@.skip(offset as int).skip(length as int) =~= dp@.skip(offset + length));
        offset = offset + length;
    }
}

/// An owned device path: its bytes up to and including the header of the
/// end-entire node.
#[derive(Debug)]
pub struct DevicePathBuf {
    buffer: Vec<u8>,
}

impl View for DevicePathBuf {
    type V = Seq<u8>;

    closed spec fn view(&self) -> Seq<u8> {
        self.buffer@
    }
}

impl DevicePathBuf {
    /// The bytes end in the header of the first end-entire node.
    #[verifier::type_invariant]
    closed spec fn well_formed(self) -> bool {
        is_closed_path(self.buffer@)
    }

    /// Owns bytes that are known to be a closed path.
    pub(crate) fn from_vec(buffer: Vec<u8>) -> (path: DevicePathBuf)
        requires
            is_closed_path(buffer@),
        ensures
            path@ == buffer@,
    {
        DevicePathBuf { buffer }
    }

    /// Copies the path at the front of `bytes`, up to and including the header
    /// of its end-entire node, if the nodes lead to one within `bytes`.
    pub fn try_from_bytes(bytes: &[u8]) -> (path: Option<DevicePathBuf>)
        ensures
            path is Some <==> closed_size(bytes@) is Some,
            path matches Some(path) ==> path@ == bytes@.take(closed_size(bytes@)->0 as int),
    {
        let total: usize = bytes.len();
        let mut offset: usize = 0;
        assert(bytes@.skip(0) =~= bytes@);
        loop
            invariant
                offset <= bytes@.len() == total,
                closed_size(bytes@) == (match closed_size(bytes@.skip(offset as int)) {
                    Some(rest) => Some((offset + rest) as nat),
                    None => None,
                }),
            decreases bytes@.len() - offset,
        {
            if total - offset < HEADER_BYTES {
                return None;
            }
            if bytes[offset] == TYPE_END && bytes[offset + 1] == SUBTYPE_END_ENTIRE {
                let path = vstd::slice::slice_subrange(bytes, 0, offset + HEADER_BYTES);
                proof {
                    lemma_closed_prefix(bytes@);
                    assert(path@ =~= bytes@.take(offset + HEADER_BYTES));
                }
                return Some(DevicePathBuf::from_vec(vstd::slice::slice_to_vec(path)));
            }
            let length: usize = read_node_length(bytes, offset);
            if length == 0 || length > total - offset {
                return None;
            }
            assert(bytes@.skip(offset as int).skip(length as int) =~= bytes@.skip(offset + length));
            offset = offset + length;
        }
    }

    /// The bytes of the path.
    pub fn as_bytes(&self) -> (bytes: &[u8])
        ensures
            bytes@ == self@,
            is_closed_path(bytes@),
    {
        proof {
            use_type_invariant(self);
        }
        self.buffer.as_slice()
    }

    /// A copy of the path.
    pub fn duplicate(&self) -> (path: DevicePathBuf)
        ensures
            path@ == self@,
    {
        let bytes = self.as_bytes();
        DevicePathBuf::from_vec(vstd::slice::slice_to_vec(bytes))
    }
}

/// A path with a readable first node has a USB node exactly if that node is
/// one or the rest has one.
proof fn lemma_usb_node_step(bytes: Seq<u8>)
    requires
        bytes.len() >= HEADER_BYTES,
        HEADER_BYTES <= node_length(bytes) <= bytes.len(),
    ensures
        has_usb_node(bytes) == (is_usb_node(bytes) || has_usb_node(
            bytes.skip(node_length(bytes) as int),
        )),
{
    let first = bytes.take(node_length(bytes) as int);
    let rest = path_nodes(bytes.skip(node_length(bytes) as int));
    let all = path_nodes(bytes);
    assert(all =~= seq![first] + rest);
    assert(all[0] == first);
    assert(is_usb_node(first) == is_usb_node(bytes));
    assert forall|i: int| 0 <= i < rest.len() implies rest[i] == #[trigger] all[i + 1] by {}
    if has_usb_node(bytes) {
        let i = choose|i: int| 0 <= i < all.len() && is_usb_node(#[trigger] all[i]);
        if i > 0 {
            assert(is_usb_node(rest[i - 1]));
        }
    }
    if has_usb_node(bytes.skip(node_length(bytes) as int)) {
        let i = choose|i: int| 0 <= i < rest.len() && is_usb_node(#[trigger] rest[i]);
        assert(is_usb_node(all[i + 1]));
    }
}

/// Whether some node of `dp` is a USB messaging node: a USB device, a USB
/// device class or a USB device by serial number.
pub fn device_path_has_usb_node(dp: &DevicePathBuf) -> (found: bool)
    ensures
        found == has_usb_node(dp@),
{
    let bytes = dp.as_bytes();
    let total: usize = bytes.len();
    let mut offset: usize = 0;
    assert(bytes@.skip(0) =~= bytes@);
    loop
        invariant
            bytes@ == dp@,
            offset <= bytes@.len() == total,
            has_usb_node(bytes@) == has_usb_node(bytes@.skip(offset as int)),
        decreases bytes@.len() - offset,
    {
        let ghost rest = bytes@.skip(offset as int);
        if total - offset < HEADER_BYTES {
            assert(path_nodes(rest) =~= seq![]);
            return false;
        }
        let length: usize = read_node_length(bytes, offset);
        if length < HEADER_BYTES || length > total - offset {
            assert(path_nodes(rest) =~= seq![]);
            return false;
        }
        proof {
            lemma_usb_node_step(rest);
            assert(rest.skip(length as int) =~= bytes@.skip(offset + length));
        }
        let sub_type = bytes[offset + 1];
        if bytes[offset] == TYPE_MESSAGING && (sub_type == SUBTYPE_USB || sub_type
            == SUBTYPE_USB_CLASS || sub_type == SUBTYPE_USB_WWID) {
            return true;
        }
        offset = offset + length;
    }
}

/// The size of a device path is the number of its bytes, and it is closed.
pub proof fn path_size_of_device_path(bytes: Seq<u8>)
    requires
        is_device_path(bytes),
    ensures
        path_size(bytes) == Some(bytes.len()),
        is_closed_path(bytes),
    decreases bytes.len(),
{
    if !is_end_entire(bytes) {
        path_size_of_device_path(bytes.skip(node_length(bytes) as int));
    }
}

/// A device path ends in the end-entire node, which is its last node.
pub proof fn device_path_is_closed(bytes: Seq<u8>)
    requires
        is_device_path(bytes),
    ensures
        bytes.skip(bytes.len() - HEADER_BYTES) == end_entire_node(),
        path_nodes(bytes).len() > 0,
        path_nodes(bytes).last() == end_entire_node(),
    decreases bytes.len(),
{
    if is_end_entire(bytes) {
        assert(bytes =~= end_entire_node());
        assert(bytes.skip(0) =~= bytes);
        assert(bytes.take(4) =~= bytes);
        assert(path_nodes(bytes.skip(4)) =~= seq![]);
        assert(path_nodes(bytes) =~= seq![bytes]);
    } else {
        let length = node_length(bytes) as int;
        let rest = bytes.skip(length);
        device_path_is_closed(rest);
        assert(bytes.skip(bytes.len() - HEADER_BYTES) =~= rest.skip(rest.len() - HEADER_BYTES));
        assert(path_nodes(bytes) =~= seq![bytes.take(length)] + path_nodes(rest));
    }
}

/// Putting a device path in the place of another's end node gives a device
/// path whose nodes are those of the one, without its end node, and then those
/// of the other.
pub proof fn joined_device_path(front: Seq<u8>, back: Seq<u8>)
    requires
        is_device_path(front),
        is_device_path(back),
    ensures
        is_device_path(front.take(front.len() - HEADER_BYTES) + back),
        path_nodes(front.take(front.len() - HEADER_BYTES) + back) == path_nodes(front).drop_last()
            + path_nodes(back),
    decreases front.len(),
{
    let joined = front.take(front.len() - HEADER_BYTES) + back;
    if is_end_entire(front) {
        assert(joined =~= back);
        assert(path_nodes(front.skip(4)) =~= seq![]);
        assert(path_nodes(front).drop_last() =~= seq![]);
        assert(path_nodes(front).drop_last() + path_nodes(back) =~= path_nodes(back));
    } else {
        let length = node_length(front) as int;
        let rest = front.skip(length);
        device_path_is_closed(rest);
        joined_device_path(rest, back);
        assert(rest.len() >= HEADER_BYTES);
        assert(joined.take(length) =~= front.take(length));
        assert(joined.skip(length) =~= rest.take(rest.len() - HEADER_BYTES) + back);
        assert(path_nodes(joined) =~= seq![front.take(length)] + path_nodes(
            rest.take(rest.len() - HEADER_BYTES) + back,
        ));
        assert(path_nodes(front) =~= seq![front.take(length)] + path_nodes(rest));
        assert(path_nodes(front).drop_last() =~= seq![front.take(length)]
            + path_nodes(rest).drop_last());
    }
}

/// Bytes are the path that their nodes make. Whatever the nodes are, as long as
/// each says its own length and none but the last closes the path, the path at
/// the front of the bytes reaches up to the end node, whose header is its last
/// four bytes, and what comes after it makes no difference. The path has a USB
/// node exactly if one of the nodes, at whatever place, is a messaging node
/// (type 3) of sub-type 5, 15 or 16.
pub proof fn nodes_make_path(nodes: Seq<Seq<u8>>, low: u8, high: u8, tail: Seq<u8>)
    requires
        forall|i: int|
            0 <= i < nodes.len() ==> {
                &&& (#[trigger] nodes[i]).len() >= 4
                &&& nodes[i][2] + 256 * nodes[i][3] == nodes[i].len()
                &&& !(nodes[i][0] == 0x7F && nodes[i][1] == 0xFF)
            },
    ensures
        ({
            let path = nodes.flatten() + seq![0x7Fu8, 0xFFu8, low, high];
            &&& closed_size(path + tail) == Some(path.len())
            &&& is_closed_path(path)
            &&& path_size(path + tail) == Some((path.len() - 4 + low + 256 * high) as nat)
            &&& has_usb_node(path) <==> exists|i: int|
                0 <= i < nodes.len() && (#[trigger] nodes[i])[0] == 3 && (nodes[i][1] == 5
                    || nodes[i][1] == 15 || nodes[i][1] == 16)
            &&& is_device_path(path) <==> low == 4 && high == 0
            &&& low == 4 && high == 0 ==> path_nodes(path) == nodes.push(
                seq![0x7Fu8, 0xFFu8, 4u8, 0u8],
            )
        }),
    decreases nodes.len(),
{
    let end = seq![0x7Fu8, 0xFFu8, low, high];
    let path = nodes.flatten() + end;
    assert(path + Seq::<u8>::empty() =~= path);
    if nodes.len() == 0 {
        assert(path =~= end);
        assert(is_end_entire(path) && is_end_entire(path + tail));
        if low == 4 && high == 0 {
            lemma_usb_node_step(path);
            assert(path_nodes(path.skip(4)) =~= seq![]);
            assert(path.take(4) =~= end);
            assert(path_nodes(path) =~= nodes.push(end));
        } else {
            assert(path_nodes(path) =~= seq![] || path_nodes(path).len() == 1);
            assert(node_length(path) < 4 || node_length(path) > 4);
            assert(path_nodes(path) =~= seq![]);
        }
    } else {
        let first = nodes[0];
        let rest = nodes.drop_first();
        let length = first.len() as int;
        assert forall|i: int| 0 <= i < rest.len() implies {
            &&& (#[trigger] rest[i]).len() >= 4
            &&& rest[i][2] + 256 * rest[i][3] == rest[i].len()
            &&& !(rest[i][0] == 0x7F && rest[i][1] == 0xFF)
        } by {
            assert(rest[i] == nodes[i + 1]);
        }
        nodes_make_path(rest, low, high, tail);
        nodes_make_path(rest, low, high, seq![]);
        let rest_path = rest.flatten() + end;
        assert(rest_path + Seq::<u8>::empty() =~= rest_path);
        assert(path =~= first + rest_path);
        assert(path.skip(length) =~= rest_path);
        assert((path + tail).skip(length) =~= rest_path + tail);
        assert(node_length(path) == length && node_length(path + tail) == length);
        assert(!is_end_entire(path) && !is_end_entire(path + tail));
        assert(path.take(length) =~= first);
        lemma_usb_node_step(path);
        if is_usb_node(path) {
            assert(nodes[0][0] == 3);
        }
        if has_usb_node(rest_path) {
            let i = choose|i: int|
                0 <= i < rest.len() && (#[trigger] rest[i])[0] == 3 && (rest[i][1] == 5
                    || rest[i][1] == 15 || rest[i][1] == 16);
            assert(nodes[i + 1] == rest[i]);
        }
        if exists|i: int|
            0 <= i < nodes.len() && (#[trigger] nodes[i])[0] == 3 && (nodes[i][1] == 5
                || nodes[i][1] == 15 || nodes[i][1] == 16) {
            let i = choose|i: int|
                0 <= i < nodes.len() && (#[trigger] nodes[i])[0] == 3 && (nodes[i][1] == 5
                    || nodes[i][1] == 15 || nodes[i][1] == 16);
            if i > 0 {
                assert(rest[i - 1] == nodes[i]);
            }
        }
        if low == 4 && high == 0 {
            assert(path_nodes(path) =~= nodes.push(end));
        }
    }
}

/// Nodes without one that closes the path make no path.
pub proof fn nodes_without_end_make_no_path(nodes: Seq<Seq<u8>>, tail: Seq<u8>)
    requires
        forall|i: int|
            0 <= i < nodes.len() ==> {
                &&& (#[trigger] nodes[i]).len() >= 4
                &&& nodes[i][2] + 256 * nodes[i][3] == nodes[i].len()
                &&& !(nodes[i][0] == 0x7F && nodes[i][1] == 0xFF)
            },
        tail.len() < 4,
    ensures
        closed_size(nodes.flatten() + tail) is None,
        path_size(nodes.flatten() + tail) is None,
        !is_device_path(nodes.flatten() + tail),
    decreases nodes.len(),
{
    let bytes = nodes.flatten() + tail;
    if nodes.len() == 0 {
        assert(bytes =~= tail);
    } else {
        let rest = nodes.drop_first();
        let length = nodes[0].len() as int;
        assert forall|i: int| 0 <= i < rest.len() implies {
            &&& (#[trigger] rest[i]).len() >= 4
            &&& rest[i][2] + 256 * rest[i][3] == rest[i].len()
            &&& !(rest[i][0] == 0x7F && rest[i][1] == 0xFF)
        } by {
            assert(rest[i] == nodes[i + 1]);
        }
        nodes_without_end_make_no_path(rest, tail);
        assert(bytes =~= nodes[0] + (rest.flatten() + tail));
        assert(bytes.skip(length) =~= rest.flatten() + tail);
        assert(node_length(bytes) == length);
    }
}

/// A device path is its nodes, one after the other. Each says its own length,
/// and the last one, and only that one, closes the path.
pub proof fn device_path_is_its_nodes(bytes: Seq<u8>)
    requires
        is_device_path(bytes),
    ensures
        ({
            let nodes = path_nodes(bytes);
            &&& nodes.flatten() == bytes
            &&& nodes.len() > 0
            &&& nodes.last() == seq![0x7Fu8, 0xFFu8, 4u8, 0u8]
            &&& forall|i: int|
                0 <= i < nodes.len() ==> {
                    &&& (#[trigger] nodes[i]).len() >= 4
                    &&& nodes[i][2] + 256 * nodes[i][3] == nodes[i].len()
                    &&& nodes[i][0] == 0x7F && nodes[i][1] == 0xFF ==> i == nodes.len() - 1
                }
        }),
    decreases bytes.len(),
{
    let length = node_length(bytes) as int;
    let nodes = path_nodes(bytes);
    let rest = bytes.skip(length);
    assert(nodes.drop_first() =~= path_nodes(rest));
    assert(bytes =~= bytes.take(length) + rest);
    if is_end_entire(bytes) {
        assert(path_nodes(rest) =~= seq![]);
        assert(rest =~= seq![]);
        assert(nodes[0] =~= seq![0x7Fu8, 0xFFu8, 4u8, 0u8]);
        assert(nodes.drop_first().flatten() =~= seq![]);
        assert(nodes.flatten() =~= bytes);
    } else {
        device_path_is_its_nodes(rest);
        assert forall|i: int| 0 <= i < nodes.len() implies {
            &&& (#[trigger] nodes[i]).len() >= 4
            &&& nodes[i][2] + 256 * nodes[i][3] == nodes[i].len()
            &&& nodes[i][0] == 0x7F && nodes[i][1] == 0xFF ==> i == nodes.len() - 1
        } by {
            if i > 0 {
                assert(nodes[i] == path_nodes(rest)[i - 1]);
            }
        }
    }
}

/// A device path has a USB node exactly if one of its nodes, at whatever place,
/// is a messaging node (type 3) of sub-type 5, 15 or 16.
pub proof fn usb_nodes_by_number(bytes: Seq<u8>)
    ensures
        has_usb_node(bytes) <==> exists|i: int|
            0 <= i < path_nodes(bytes).len() && (#[trigger] path_nodes(bytes)[i])[0] == 3 && (
            path_nodes(bytes)[i][1] == 5 || path_nodes(bytes)[i][1] == 15
                || path_nodes(bytes)[i][1] == 16),
{
    let nodes = path_nodes(bytes);
    if has_usb_node(bytes) {
        let i = choose|i: int| 0 <= i < nodes.len() && is_usb_node(#[trigger] nodes[i]);
        assert(nodes[i][0] == 3);
    }
}

/// A walk along a path goes on by the length that a node says, its low byte
/// first, and ends at the node of type 0x7F and sub-type 0xFF.
pub proof fn walk_goes_by_node_length(header: Seq<u8>)
    requires
        header.len() == 4,
    ensures
        ({
            let length = (header[2] + 256 * header[3]) as usize;
            let step = spec_node_step(header);
            if header[0] == 0x7F && header[1] == 0xFF {
                step == NodeStep::Last(length)
            } else if length == 0 {
                step == NodeStep::Stuck
            } else {
                step == NodeStep::Next(length)
            }
        }),
{
}

/// Whatever the bytes are, a path goes on by the length that its first node
/// says, its low byte first. Without the four bytes of a header there is no
/// path; the node of type 0x7F and sub-type 0xFF ends it; a node of no length,
/// or longer than what is there, leads nowhere; and any other node is as long as
/// it says, with the rest of the path after it. A node too short for its own
/// header is none of the path's nodes and ends them.
pub proof fn path_goes_by_node_length(bytes: Seq<u8>)
    ensures
        ({
            let length = bytes[2] + 256 * bytes[3];
            let rest = bytes.skip(length);
            let ends = bytes[0] == 0x7F && bytes[1] == 0xFF;
            &&& bytes.len() < 4 ==> {
                &&& closed_size(bytes) is None && path_size(bytes) is None
                &&& path_nodes(bytes).len() == 0 && !has_usb_node(bytes)
            }
            &&& bytes.len() >= 4 && ends ==> {
                &&& closed_size(bytes) == Some(4nat)
                &&& path_size(bytes) == Some(length as nat)
            }
            &&& bytes.len() >= 4 && !ends && (length == 0 || length > bytes.len()) ==> {
                &&& closed_size(bytes) is None && path_size(bytes) is None
            }
            &&& bytes.len() >= 4 && !ends && 0 < length <= bytes.len() ==> {
                &&& closed_size(bytes) is Some <==> closed_size(rest) is Some
                &&& closed_size(rest) matches Some(size) ==> closed_size(bytes) == Some(
                    (length + size) as nat,
                )
                &&& path_size(bytes) is Some <==> path_size(rest) is Some
                &&& path_size(rest) matches Some(size) ==> path_size(bytes) == Some(
                    (length + size) as nat,
                )
            }
            &&& bytes.len() >= 4 && (length < 4 || length > bytes.len()) ==> {
                &&& path_nodes(bytes).len() == 0 && !has_usb_node(bytes)
            }
            &&& bytes.len() >= 4 && 4 <= length <= bytes.len() ==> {
                &&& path_nodes(bytes) == seq![bytes.take(length)] + path_nodes(rest)
                &&& has_usb_node(bytes) <==> has_usb_node(rest) || bytes[0] == 3 && (bytes[1] == 5
                    || bytes[1] == 15 || bytes[1] == 16)
            }
        }),
{
    let length = bytes[2] + 256 * bytes[3];
    if bytes.len() >= 4 && 4 <= length <= bytes.len() {
        lemma_usb_node_step(bytes);
    }
}

} // verus!
