//! Start of the boot application on a RAM disk.
//!
//! The machine and its calls are generic in how a device path is held: the
//! executable ones own or borrow its bytes, and their views hold the sequence
//! of bytes, on which the contracts are stated.

use vstd::prelude::*;
use crate::device_path::{
    device_path_size, end_entire_node, is_device_path, joined_device_path, nodes_make_path,
    path_nodes, path_size, path_size_of_device_path,
};
use crate::efi::{EfiError, Guid, SUCCESS, is_service_answer, service_result};
use crate::file_path::{
    build_file_path_node, file_path_bytes_of_latin_text, file_path_is_device_path, file_path_node,
    utf16, utf16_len,
};

verus! {

/// The file that is started, by its path on the volume.
pub const CHAINLOAD_FILE_PATH: &'static str = "\\EFI\\Boot\\bootx64.efi";

/// GUID of `EFI_DEVICE_PATH_PROTOCOL`.
#[verifier::allow_in_spec]
pub fn device_path_protocol_guid() -> Guid
    returns
        (Guid {
            time_low: 0x09576e91,
            time_mid: 0x6d3f,
            time_hi_and_version: 0x11d2,
            clk_seq_hi_res: 0x8e,
            clk_seq_low: 0x39,
            node: [0x00, 0xa0, 0xc9, 0x69, 0x72, 0x3b],
        }),
{
    Guid {
        time_low: 0x09576e91,
        time_mid: 0x6d3f,
        time_hi_and_version: 0x11d2,
        clk_seq_hi_res: 0x8e,
        clk_seq_low: 0x39,
        node: [0x00, 0xa0, 0xc9, 0x69, 0x72, 0x3b],
    }
}

/// Whether `bytes` start with a device path that is closed within them by an
/// end-entire node and that holds at least a node header.
pub open spec fn is_parent_path(bytes: Seq<u8>) -> bool {
    &&& bytes.len() <= isize::MAX
    &&& path_size(bytes) matches Some(size) && 4 <= size <= bytes.len()
}

/// The path of the boot application on the device that `parent` leads to: the
/// parent path without the four bytes of its end node, and then the file path
/// node and the end node.
pub open spec fn chainload_path(parent: Seq<u8>) -> Seq<u8> {
    parent.take(path_size(parent)->0 - 4) + (file_path_node(CHAINLOAD_FILE_PATH@)
        + end_entire_node())
}

/// The file path is short enough for the length field of its node.
proof fn lemma_chainload_file_path_is_short()
    ensures
        utf16(CHAINLOAD_FILE_PATH@).len() <= 42,
{
    reveal_strlit("\\EFI\\Boot\\bootx64.efi");
    utf16_len(CHAINLOAD_FILE_PATH@);
}

/// Builds the path of the boot application on the device that `parent` leads
/// to.
pub fn build_chainload_path(parent: &[u8]) -> (path: Vec<u8>)
    requires
        is_parent_path(parent@),
    ensures
        path@ == chainload_path(parent@),
{
    let payload: usize = device_path_size(parent) - 4;
    let file_node = build_file_path_node(CHAINLOAD_FILE_PATH);
    let mut path: Vec<u8> = Vec::new();
    path.extend_from_slice(vstd::slice::slice_subrange(parent, 0, payload));
    path.extend_from_slice(file_node.as_slice());
    assert(path@ =~= chainload_path(parent@));
    path
}

/// If the parent is a device path, the result is one too: the nodes of the
/// parent, with the file path node in front of the end node.
pub proof fn chainload_path_extends_parent(parent: Seq<u8>)
    requires
        is_device_path(parent),
    ensures
        is_device_path(chainload_path(parent)),
        path_nodes(chainload_path(parent)) == path_nodes(parent).drop_last() + seq![
            file_path_node(CHAINLOAD_FILE_PATH@),
            end_entire_node(),
        ],
{
    lemma_chainload_file_path_is_short();
    path_size_of_device_path(parent);
    file_path_is_device_path(CHAINLOAD_FILE_PATH@);
    joined_device_path(parent, file_path_node(CHAINLOAD_FILE_PATH@) + end_entire_node());
}

/// A call to make to start the boot application. Handles and addresses are
/// plain numbers.
#[derive(Debug)]
pub enum ChainloadAction<P> {
    /// Locate the handle with the protocol `protocol` that is nearest to the
    /// device path at address `device_path`.
    LocateDevicePath { protocol: Guid, device_path: usize },
    /// Connect the drivers to `handle`, none named and no remaining path, down
    /// to its children if `recursive`.
    ConnectController { handle: usize, recursive: bool },
    /// Read the device path at address `device_path` from memory.
    ReadDevicePath { device_path: usize },
    /// Load the image at `full_path` from its device, without a source
    /// buffer, on behalf of `parent_image`.
    LoadImage { boot_policy: bool, parent_image: usize, full_path: P },
    /// Start the image with this handle.
    StartImage(usize),
    /// Nothing is left to do; this is the result.
    Finished(Result<(), EfiError>),
}

impl<'a> View for ChainloadAction<&'a [u8]> {
    type V = ChainloadAction<Seq<u8>>;

    open spec fn view(&self) -> ChainloadAction<Seq<u8>> {
        match *self {
            ChainloadAction::LocateDevicePath { protocol, device_path } => {
                ChainloadAction::LocateDevicePath { protocol, device_path }
            },
            ChainloadAction::ConnectController { handle, recursive } => {
                ChainloadAction::ConnectController { handle, recursive }
            },
            ChainloadAction::ReadDevicePath { device_path } => ChainloadAction::ReadDevicePath {
                device_path,
            },
            ChainloadAction::LoadImage { boot_policy, parent_image, full_path } => {
                ChainloadAction::LoadImage { boot_policy, parent_image, full_path: full_path@ }
            },
            ChainloadAction::StartImage(image) => ChainloadAction::StartImage(image),
            ChainloadAction::Finished(result) => ChainloadAction::Finished(result),
        }
    }
}

/// The answer to a call of the start. What was asked for, or the status of the
/// failure.
#[derive(Debug)]
pub enum ChainloadAnswer<P> {
    /// The handle that was located.
    Located(Result<usize, usize>),
    /// The drivers were connected, or could not be.
    Connected,
    /// The bytes from the start of the device path on.
    Path(P),
    /// The handle of the loaded image.
    Loaded(Result<usize, usize>),
    /// The image returned.
    Started(Result<(), usize>),
}

impl View for ChainloadAnswer<Vec<u8>> {
    type V = ChainloadAnswer<Seq<u8>>;

    open spec fn view(&self) -> ChainloadAnswer<Seq<u8>> {
        match *self {
            ChainloadAnswer::Located(located) => ChainloadAnswer::Located(located),
            ChainloadAnswer::Connected => ChainloadAnswer::Connected,
            ChainloadAnswer::Path(bytes) => ChainloadAnswer::Path(bytes@),
            ChainloadAnswer::Loaded(loaded) => ChainloadAnswer::Loaded(loaded),
            ChainloadAnswer::Started(started) => ChainloadAnswer::Started(started),
        }
    }
}

/// Whether `answer` is one that `action` can have.
pub open spec fn answers_chainload_action(
    action: ChainloadAction<Seq<u8>>,
    answer: ChainloadAnswer<Seq<u8>>,
) -> bool {
    match (action, answer) {
        (
            ChainloadAction::LocateDevicePath { protocol, device_path },
            ChainloadAnswer::Located(located),
        ) => is_service_answer(located),
        (
            ChainloadAction::ConnectController { handle, recursive },
            ChainloadAnswer::Connected,
        ) => true,
        (ChainloadAction::ReadDevicePath { device_path }, ChainloadAnswer::Path(bytes)) => {
            is_parent_path(bytes)
        },
        (
            ChainloadAction::LoadImage { boot_policy, parent_image, full_path },
            ChainloadAnswer::Loaded(loaded),
        ) => is_service_answer(loaded),
        (ChainloadAction::StartImage(image), ChainloadAnswer::Started(started)) => {
            is_service_answer(started)
        },
        _ => false,
    }
}

/// The start of the boot application on a RAM disk.
#[derive(Debug)]
pub enum Chainload<P> {
    /// The handle of the RAM disk is to be located; holds the image on whose
    /// behalf, and the address of the device path of the RAM disk.
    Locate { image_handle: usize, parent_dp: usize },
    /// The drivers are to be connected to the RAM disk.
    Connect { image_handle: usize, parent_dp: usize, ram_handle: usize },
    /// The device path of the RAM disk is to be read.
    ReadPath { image_handle: usize, parent_dp: usize },
    /// The application is to be loaded; holds its path.
    Load { image_handle: usize, full_path: P },
    /// The application is to be started; holds its image.
    Start { new_image: usize },
    /// Nothing is left to do; holds the result.
    Finished(Result<(), EfiError>),
}

impl View for Chainload<Vec<u8>> {
    type V = Chainload<Seq<u8>>;

    open spec fn view(&self) -> Chainload<Seq<u8>> {
        match *self {
            Chainload::Locate { image_handle, parent_dp } => Chainload::Locate {
                image_handle,
                parent_dp,
            },
            Chainload::Connect { image_handle, parent_dp, ram_handle } => Chainload::Connect {
                image_handle,
                parent_dp,
                ram_handle,
            },
            Chainload::ReadPath { image_handle, parent_dp } => Chainload::ReadPath {
                image_handle,
                parent_dp,
            },
            Chainload::Load { image_handle, full_path } => Chainload::Load {
                image_handle,
                full_path: full_path@,
            },
            Chainload::Start { new_image } => Chainload::Start { new_image },
            Chainload::Finished(result) => Chainload::Finished(result),
        }
    }
}

impl Chainload<Seq<u8>> {
    /// The call to make next.
    pub open spec fn spec_action(self) -> ChainloadAction<Seq<u8>> {
        match self {
            Chainload::Locate { image_handle, parent_dp } => ChainloadAction::LocateDevicePath {
                protocol: device_path_protocol_guid(),
                device_path: parent_dp,
            },
            Chainload::Connect { image_handle, parent_dp, ram_handle } => {
                ChainloadAction::ConnectController { handle: ram_handle, recursive: true }
            },
            Chainload::ReadPath { image_handle, parent_dp } => ChainloadAction::ReadDevicePath {
                device_path: parent_dp,
            },
            Chainload::Load { image_handle, full_path } => ChainloadAction::LoadImage {
                boot_policy: true,
                parent_image: image_handle,
                full_path,
            },
            Chainload::Start { new_image } => ChainloadAction::StartImage(new_image),
            Chainload::Finished(result) => ChainloadAction::Finished(result),
        }
    }

    /// What follows from the answer to that call.
    pub open spec fn spec_next(self, answer: ChainloadAnswer<Seq<u8>>) -> Chainload<Seq<u8>> {
        match (self, answer) {
            (
                Chainload::Locate { image_handle, parent_dp },
                ChainloadAnswer::Located(located),
            ) => match located {
                Ok(ram_handle) => Chainload::Connect { image_handle, parent_dp, ram_handle },
                Err(status) => Chainload::Finished(Err(EfiError::of_status(status))),
            },
            (
                Chainload::Connect { image_handle, parent_dp, ram_handle },
                ChainloadAnswer::Connected,
            ) => Chainload::ReadPath { image_handle, parent_dp },
            (
                Chainload::ReadPath { image_handle, parent_dp },
                ChainloadAnswer::Path(bytes),
            ) => Chainload::Load { image_handle, full_path: chainload_path(bytes) },
            (
                Chainload::Load { image_handle, full_path },
                ChainloadAnswer::Loaded(loaded),
            ) => match loaded {
                Ok(new_image) => Chainload::Start { new_image },
                Err(status) => Chainload::Finished(Err(EfiError::of_status(status))),
            },
            (Chainload::Start { new_image }, ChainloadAnswer::Started(started)) => match started {
                Ok(_) => Chainload::Finished(Ok(())),
                Err(status) => Chainload::Finished(Err(EfiError::of_status(status))),
            },
            _ => self,
        }
    }
}

/// Starts to start the boot application on the RAM disk whose device path is
/// at address `parent_dp`, on behalf of `image_handle`.
pub fn chainload_from_ramdisk(image_handle: usize, parent_dp: usize) -> (chainload: Chainload<
    Vec<u8>,
>)
    ensures
        chainload@ == (Chainload::<Seq<u8>>::Locate { image_handle, parent_dp }),
{
    Chainload::Locate { image_handle, parent_dp }
}

impl Chainload<Vec<u8>> {
    /// The call to make next.
    pub fn action(&self) -> (action: ChainloadAction<&[u8]>)
        ensures
            action@ == self@.spec_action(),
    {
        match self {
            Chainload::Locate { parent_dp, .. } => ChainloadAction::LocateDevicePath {
                protocol: device_path_protocol_guid(),
                device_path: *parent_dp,
            },
            Chainload::Connect { ram_handle, .. } => ChainloadAction::ConnectController {
                handle: *ram_handle,
                recursive: true,
            },
            Chainload::ReadPath { parent_dp, .. } => ChainloadAction::ReadDevicePath {
                device_path: *parent_dp,
            },
            Chainload::Load { image_handle, full_path } => ChainloadAction::LoadImage {
                boot_policy: true,
                parent_image: *image_handle,
                full_path: full_path.as_slice(),
            },
            Chainload::Start { new_image } => ChainloadAction::StartImage(*new_image),
            Chainload::Finished(result) => ChainloadAction::Finished(*result),
        }
    }

    /// Takes the answer to the call.
    pub fn advance(self, answer: ChainloadAnswer<Vec<u8>>) -> (next: Chainload<Vec<u8>>)
        requires
            answers_chainload_action(self@.spec_action(), answer@),
        ensures
            next@ == self@.spec_next(answer@),
    {
        match (self, answer) {
            (
                Chainload::Locate { image_handle, parent_dp },
                ChainloadAnswer::Located(located),
            ) => match located {
                Ok(ram_handle) => Chainload::Connect { image_handle, parent_dp, ram_handle },
                Err(status) => Chainload::Finished(Err(EfiError::from_status(status))),
            },
            (
                Chainload::Connect { image_handle, parent_dp, .. },
                ChainloadAnswer::Connected,
            ) => Chainload::ReadPath { image_handle, parent_dp },
            (
                Chainload::ReadPath { image_handle, .. },
                ChainloadAnswer::Path(bytes),
            ) => Chainload::Load {
                image_handle,
                full_path: build_chainload_path(bytes.as_slice()),
            },
            (Chainload::Load { .. }, ChainloadAnswer::Loaded(loaded)) => match loaded {
                Ok(new_image) => Chainload::Start { new_image },
                Err(status) => Chainload::Finished(Err(EfiError::from_status(status))),
            },
            (Chainload::Start { .. }, ChainloadAnswer::Started(started)) => match started {
                Ok(_) => Chainload::Finished(Ok(())),
                Err(status) => Chainload::Finished(Err(EfiError::from_status(status))),
            },
            (state, _) => state,
        }
    }
}

/// Once the RAM disk is located, its drivers are connected, whatever comes of
/// that, then its device path is read, and the application at that path is
/// loaded and started. The result is that of the application, or the error
/// that it could not be loaded with.
pub proof fn chainload_starts_application(
    image_handle: usize,
    parent_dp: usize,
    ram_handle: usize,
    bytes: Seq<u8>,
    loaded: Result<usize, usize>,
    started: Result<(), usize>,
)
    ensures
        ({
            let connect = (Chainload::<Seq<u8>>::Locate { image_handle, parent_dp }).spec_next(
                ChainloadAnswer::Located(Ok(ram_handle)),
            );
            let read = connect.spec_next(ChainloadAnswer::Connected);
            let load = read.spec_next(ChainloadAnswer::Path(bytes));
            let start = load.spec_next(ChainloadAnswer::Loaded(loaded));
            let done = start.spec_next(ChainloadAnswer::Started(started));
            &&& connect.spec_action() == (ChainloadAction::<Seq<u8>>::ConnectController {
                handle: ram_handle,
                recursive: true,
            })
            &&& read.spec_action() == (ChainloadAction::<Seq<u8>>::ReadDevicePath {
                device_path: parent_dp,
            })
            &&& load.spec_action() == (ChainloadAction::LoadImage {
                boot_policy: true,
                parent_image: image_handle,
                full_path: chainload_path(bytes),
            })
            &&& loaded matches Err(status) ==> start.spec_action() == ChainloadAction::<
                Seq<u8>,
            >::Finished(Err(EfiError::of_status(status)))
            &&& loaded matches Ok(image) ==> {
                &&& start.spec_action() == ChainloadAction::<Seq<u8>>::StartImage(image)
                &&& done.spec_action() == ChainloadAction::<Seq<u8>>::Finished(
                    service_result(started),
                )
            }
        }),
{
}

/// If the RAM disk cannot be located, nothing is loaded, and the error is that
/// of the lookup.
pub proof fn chainload_without_ram_disk(image_handle: usize, parent_dp: usize, status: usize)
    requires
        status != SUCCESS,
    ensures
        (Chainload::<Seq<u8>>::Locate { image_handle, parent_dp }).spec_next(
            ChainloadAnswer::Located(Err(status)),
        ).spec_action() == ChainloadAction::<Seq<u8>>::Finished(Err(EfiError::of_status(status))),
{
}

/// What is started from a device is `\EFI\Boot\bootx64.efi` on it: its path is
/// the nodes of the device, whatever they are, and then, in place of the end
/// node, a media node (04 04, 48 bytes) with the 21 characters of that name and
/// a zero as 16-bit units, and the end node 7F FF 04 00. What comes after the
/// end node of the device makes no difference.
pub proof fn chainload_path_by_bytes(nodes: Seq<Seq<u8>>, tail: Seq<u8>)
    requires
        forall|i: int|
            0 <= i < nodes.len() ==> {
                &&& (#[trigger] nodes[i]).len() >= 4
                &&& nodes[i][2] + 256 * nodes[i][3] == nodes[i].len()
                &&& !(nodes[i][0] == 0x7F && nodes[i][1] == 0xFF)
            },
    ensures
        ({
            let device = nodes.flatten();
            let parent = device + seq![0x7Fu8, 0xFFu8, 4u8, 0u8] + tail;
            let path = chainload_path(parent);
            let file = path.skip(device.len() as int);
            let name = "\\EFI\\Boot\\bootx64.efi"@;
            &&& parent.len() <= isize::MAX ==> is_parent_path(parent)
            &&& path.take(device.len() as int) == device
            &&& file.len() == 52
            &&& file.take(4) == seq![4u8, 4u8, 48u8, 0u8]
            &&& name.len() == 21
            &&& forall|i: int|
                0 <= i < 21 ==> file[4 + 2 * i] == #[trigger] name[i] as u32 && file[5 + 2 * i] == 0
            &&& file.skip(46) == seq![0u8, 0u8, 0x7Fu8, 0xFFu8, 4u8, 0u8]
        }),
{
    let device = nodes.flatten();
    let parent = device + seq![0x7Fu8, 0xFFu8, 4u8, 0u8] + tail;
    let bytes = file_path_node(CHAINLOAD_FILE_PATH@) + end_entire_node();
    lemma_file_bytes();
    lemma_chainload_path_of(nodes, tail);
    let path = device + bytes;
    assert(path.skip(device.len() as int) =~= bytes);
    assert(path.take(device.len() as int) =~= device);
}

/// The path of the application on the device with these nodes.
proof fn lemma_chainload_path_of(nodes: Seq<Seq<u8>>, tail: Seq<u8>)
    requires
        forall|i: int|
            0 <= i < nodes.len() ==> {
                &&& (#[trigger] nodes[i]).len() >= 4
                &&& nodes[i][2] + 256 * nodes[i][3] == nodes[i].len()
                &&& !(nodes[i][0] == 0x7F && nodes[i][1] == 0xFF)
            },
    ensures
        ({
            let parent = nodes.flatten() + seq![0x7Fu8, 0xFFu8, 4u8, 0u8] + tail;
            &&& parent.len() <= isize::MAX ==> is_parent_path(parent)
            &&& chainload_path(parent) == nodes.flatten() + (file_path_node(CHAINLOAD_FILE_PATH@)
                + end_entire_node())
        }),
{
    let device = nodes.flatten();
    let parent = device + seq![0x7Fu8, 0xFFu8, 4u8, 0u8] + tail;
    nodes_make_path(nodes, 4, 0, tail);
    assert(parent.take(parent.len() - tail.len() - 4) =~= device);
}

/// The bytes of the file path node and the end node.
proof fn lemma_file_bytes()
    ensures
        ({
            let bytes = file_path_node(CHAINLOAD_FILE_PATH@) + end_entire_node();
            let name = "\\EFI\\Boot\\bootx64.efi"@;
            &&& bytes.len() == 52
            &&& bytes.take(4) == seq![4u8, 4u8, 48u8, 0u8]
            &&& name.len() == 21
            &&& forall|i: int|
                0 <= i < 21 ==> bytes[4 + 2 * i] == #[trigger] name[i] as u32 && bytes[5 + 2 * i]
                    == 0
            &&& bytes.skip(46) == seq![0u8, 0u8, 0x7Fu8, 0xFFu8, 4u8, 0u8]
        }),
{
    let bytes = file_path_node(CHAINLOAD_FILE_PATH@) + end_entire_node();
    lemma_name_is_ascii();
    file_path_bytes_of_latin_text(CHAINLOAD_FILE_PATH@);
    assert(bytes[2] == 48 && bytes[3] == 0);
    assert(bytes.take(4) =~= seq![4u8, 4u8, 48u8, 0u8]);
}

/// The name has 21 characters, each below 0x80.
proof fn lemma_name_is_ascii()
    ensures
        CHAINLOAD_FILE_PATH@.len() == 21,
        CHAINLOAD_FILE_PATH@ == "\\EFI\\Boot\\bootx64.efi"@,
        forall|i: int| 0 <= i < 21 ==> (#[trigger] CHAINLOAD_FILE_PATH@[i] as u32) < 0x80,
{
    reveal_strlit("\\EFI\\Boot\\bootx64.efi");
}

/// The calls to start the application name what they are about: the RAM disk is
/// located by the device path that was given and the GUID of device paths.
pub proof fn chainload_locates_ram_disk(image_handle: usize, parent_dp: usize)
    ensures
        (Chainload::<Seq<u8>>::Locate { image_handle, parent_dp }).spec_action() == (
        ChainloadAction::<Seq<u8>>::LocateDevicePath {
            protocol: Guid {
                time_low: 0x09576e91,
                time_mid: 0x6d3f,
                time_hi_and_version: 0x11d2,
                clk_seq_hi_res: 0x8e,
                clk_seq_low: 0x39,
                node: [0x00, 0xa0, 0xc9, 0x69, 0x72, 0x3b],
            },
            device_path: parent_dp,
        }),
{
}

/// Whatever the path of the device is, the path of the application keeps it but
/// for its last four bytes, of which the length that its end node says tells
/// where they are, and puts the 52 bytes of the file path node for
/// `\EFI\Boot\bootx64.efi` and of the end node after it.
pub proof fn chainload_path_keeps_device(parent: Seq<u8>)
    requires
        is_parent_path(parent),
    ensures
        ({
            let path = chainload_path(parent);
            let kept = path_size(parent)->0 - 4;
            let file = path.skip(kept);
            let name = "\\EFI\\Boot\\bootx64.efi"@;
            &&& path.len() == kept + 52
            &&& path.take(kept) == parent.take(kept)
            &&& file.take(4) == seq![4u8, 4u8, 48u8, 0u8]
            &&& name.len() == 21
            &&& forall|i: int|
                0 <= i < 21 ==> file[4 + 2 * i] == #[trigger] name[i] as u32 && file[5 + 2 * i] == 0
            &&& file.skip(46) == seq![0u8, 0u8, 0x7Fu8, 0xFFu8, 4u8, 0u8]
        }),
{
    lemma_file_bytes();
    let path = chainload_path(parent);
    let kept = path_size(parent)->0 - 4;
    let bytes = file_path_node(CHAINLOAD_FILE_PATH@) + end_entire_node();
    assert(path.skip(kept) =~= bytes);
    assert(path.take(kept) =~= parent.take(kept));
}

/// A device path can be that of a parent whenever it fits in memory with what
/// its end node says of its length, four bytes at least.
pub proof fn closed_paths_are_parents(nodes: Seq<Seq<u8>>, low: u8, high: u8, tail: Seq<u8>)
    requires
        forall|i: int|
            0 <= i < nodes.len() ==> {
                &&& (#[trigger] nodes[i]).len() >= 4
                &&& nodes[i][2] + 256 * nodes[i][3] == nodes[i].len()
                &&& !(nodes[i][0] == 0x7F && nodes[i][1] == 0xFF)
            },
        nodes.flatten().len() + 4 + tail.len() <= isize::MAX,
        low + 256 * high <= 4 + tail.len(),
        nodes.len() > 0 || low + 256 * high >= 4,
    ensures
        is_parent_path(nodes.flatten() + seq![0x7Fu8, 0xFFu8, low, high] + tail),
{
    nodes_make_path(nodes, low, high, tail);
    if nodes.len() > 0 {
        let rest = nodes.drop_first();
        assert(nodes.flatten() == nodes[0] + rest.flatten());
    }
}

} // verus!
