//! The configuration of the boot manager.

use vstd::prelude::*;
use crate::device_path::{
    DevicePathBuf, SUBTYPE_END_ENTIRE, SUBTYPE_FIRMWARE_FILE, SUBTYPE_FIRMWARE_VOLUME, TYPE_END,
    TYPE_MEDIA, end_entire_node, is_device_path, node_length, path_nodes,
    path_size_of_device_path,
};
use crate::efi::Guid;

verus! {

/// Bytes of a node that holds a GUID.
pub const GUID_NODE_BYTES: u8 = 20;

/// A media node that holds a GUID.
pub open spec fn guid_node(sub_type: u8, guid: Guid) -> Seq<u8> {
    seq![TYPE_MEDIA, sub_type, GUID_NODE_BYTES, 0u8] + guid.layout()
}

/// A node that holds a GUID, in front of a device path, makes a device path
/// with that node in front.
proof fn lemma_guid_node_in_front(sub_type: u8, guid: Guid, rest: Seq<u8>)
    requires
        is_device_path(rest),
    ensures
        is_device_path(guid_node(sub_type, guid) + rest),
        path_nodes(guid_node(sub_type, guid) + rest) == seq![guid_node(sub_type, guid)]
            + path_nodes(rest),
{
    let node = guid_node(sub_type, guid);
    let bytes = node + rest;
    assert(node.len() == 20);
    assert(node_length(bytes) == 20);
    assert(bytes.take(20) =~= node);
    assert(bytes.skip(20) =~= rest);
}

/// The end-entire node alone is a device path.
proof fn lemma_end_is_device_path()
    ensures
        is_device_path(end_entire_node()),
        path_nodes(end_entire_node()) == seq![end_entire_node()],
{
    let end = end_entire_node();
    assert(end.take(4) =~= end);
    assert(path_nodes(end.skip(4)) =~= seq![]);
    assert(path_nodes(end) =~= seq![end]);
}

/// Appends a node that holds a GUID.
fn push_guid_node(bytes: &mut Vec<u8>, sub_type: u8, guid: &Guid)
    ensures
        final(bytes)@ == old(bytes)@ + guid_node(sub_type, *guid),
{
    let layout = guid.to_bytes();
    bytes.push(TYPE_MEDIA);
    bytes.push(sub_type);
    bytes.push(GUID_NODE_BYTES);
    bytes.push(0);
    bytes.extend_from_slice(&layout);
    assert(bytes@ =~= old(bytes)@ + guid_node(sub_type, *guid));
}

/// Appends the end-entire node.
fn push_end_entire(bytes: &mut Vec<u8>)
    ensures
        final(bytes)@ == old(bytes)@ + end_entire_node(),
{
    bytes.push(TYPE_END);
    bytes.push(SUBTYPE_END_ENTIRE);
    bytes.push(4);
    bytes.push(0);
    assert(bytes@ =~= old(bytes)@ + end_entire_node());
}

/// Builds the path to a file in some firmware volume: the file node and the
/// end node.
pub fn fv_file_device_path(file_guid: Guid) -> (path: DevicePathBuf)
    ensures
        path@ == guid_node(SUBTYPE_FIRMWARE_FILE, file_guid) + end_entire_node(),
        path@ == seq![4u8, 6u8, 20u8, 0u8] + file_guid.layout() + seq![0x7Fu8, 0xFFu8, 4u8, 0u8],
        path_nodes(path@) == seq![
            guid_node(SUBTYPE_FIRMWARE_FILE, file_guid),
            end_entire_node(),
        ],
{
    let mut bytes: Vec<u8> = Vec::new();
    push_guid_node(&mut bytes, SUBTYPE_FIRMWARE_FILE, &file_guid);
    push_end_entire(&mut bytes);
    proof {
        lemma_end_is_device_path();
        lemma_guid_node_in_front(SUBTYPE_FIRMWARE_FILE, file_guid, end_entire_node());
        assert(bytes@ =~= guid_node(SUBTYPE_FIRMWARE_FILE, file_guid) + end_entire_node());
        path_size_of_device_path(bytes@);
        assert(bytes@ =~= seq![4u8, 6u8, 20u8, 0u8] + file_guid.layout() + seq![
            0x7Fu8,
            0xFFu8,
            4u8,
            0u8,
        ]);
        assert(path_nodes(bytes@) =~= seq![
            guid_node(SUBTYPE_FIRMWARE_FILE, file_guid),
            end_entire_node(),
        ]);
    }
    DevicePathBuf::from_vec(bytes)
}

/// Builds the full path to a file in a firmware volume: the volume node, the
/// file node and the end node.
pub fn fv_volume_file_device_path(fv_guid: Guid, file_guid: Guid) -> (path: DevicePathBuf)
    ensures
        path@ == guid_node(SUBTYPE_FIRMWARE_VOLUME, fv_guid) + (guid_node(
            SUBTYPE_FIRMWARE_FILE,
            file_guid,
        ) + end_entire_node()),
        path@ == seq![4u8, 7u8, 20u8, 0u8] + fv_guid.layout() + seq![4u8, 6u8, 20u8, 0u8]
            + file_guid.layout() + seq![0x7Fu8, 0xFFu8, 4u8, 0u8],
        path_nodes(path@) == seq![
            guid_node(SUBTYPE_FIRMWARE_VOLUME, fv_guid),
            guid_node(SUBTYPE_FIRMWARE_FILE, file_guid),
            end_entire_node(),
        ],
{
    let mut bytes: Vec<u8> = Vec::new();
    push_guid_node(&mut bytes, SUBTYPE_FIRMWARE_VOLUME, &fv_guid);
    push_guid_node(&mut bytes, SUBTYPE_FIRMWARE_FILE, &file_guid);
    push_end_entire(&mut bytes);
    proof {
        let file = guid_node(SUBTYPE_FIRMWARE_FILE, file_guid) + end_entire_node();
        lemma_end_is_device_path();
        lemma_guid_node_in_front(SUBTYPE_FIRMWARE_FILE, file_guid, end_entire_node());
        lemma_guid_node_in_front(SUBTYPE_FIRMWARE_VOLUME, fv_guid, file);
        assert(bytes@ =~= guid_node(SUBTYPE_FIRMWARE_VOLUME, fv_guid) + file);
        path_size_of_device_path(bytes@);
        assert(bytes@ =~= seq![4u8, 7u8, 20u8, 0u8] + fv_guid.layout() + seq![4u8, 6u8, 20u8, 0u8]
            + file_guid.layout() + seq![0x7Fu8, 0xFFu8, 4u8, 0u8]);
        assert(path_nodes(bytes@) =~= seq![
            guid_node(SUBTYPE_FIRMWARE_VOLUME, fv_guid),
            guid_node(SUBTYPE_FIRMWARE_FILE, file_guid),
            end_entire_node(),
        ]);
    }
    DevicePathBuf::from_vec(bytes)
}

/// The boot manager's configuration.
#[derive(Debug)]
pub struct SreBootManager {
    boot_partition_path: DevicePathBuf,
    main_os_path: DevicePathBuf,
    sre_app_path: Option<DevicePathBuf>,
    frontpage_app_path: Option<DevicePathBuf>,
    bp_sre_fallback: bool,
}

/// The configuration with each device path as its bytes.
pub struct BootConfig {
    /// The boot partition that is to be write-locked.
    pub boot_partition: Seq<u8>,
    /// The main operating system.
    pub main_os: Seq<u8>,
    /// The app for volume up, in place of the recovery boot.
    pub sre_app: Option<Seq<u8>>,
    /// The app for volume down without USB media.
    pub frontpage_app: Option<Seq<u8>>,
    /// Whether a recovery image on the boot partition is looked for: it makes
    /// USB boot options be skipped and is booted as the last resort.
    pub bp_sre_fallback: bool,
}

/// The bytes of a path, if there is one.
pub open spec fn optional_path(path: Option<DevicePathBuf>) -> Option<Seq<u8>> {
    match path {
        Some(path) => Some(path@),
        None => None,
    }
}

impl View for SreBootManager {
    type V = BootConfig;

    closed spec fn view(&self) -> BootConfig {
        BootConfig {
            boot_partition: self.boot_partition_path@,
            main_os: self.main_os_path@,
            sre_app: optional_path(self.sre_app_path),
            frontpage_app: optional_path(self.frontpage_app_path),
            bp_sre_fallback: self.bp_sre_fallback,
        }
    }
}

impl SreBootManager {
    /// A boot manager for this boot partition and this main operating system,
    /// without apps for the hotkeys and without the fallback to the boot
    /// partition.
    pub fn new(boot_partition_path: DevicePathBuf, main_os_path: DevicePathBuf) -> (manager:
        SreBootManager)
        ensures
            manager@ == (BootConfig {
                boot_partition: boot_partition_path@,
                main_os: main_os_path@,
                sre_app: None,
                frontpage_app: None,
                bp_sre_fallback: false,
            }),
    {
        SreBootManager {
            boot_partition_path,
            main_os_path,
            sre_app_path: None,
            frontpage_app_path: None,
            bp_sre_fallback: false,
        }
    }

    /// Boots this app on volume up, in place of the recovery boot.
    pub fn with_sre_app_path(self, sre_app_path: DevicePathBuf) -> (manager: SreBootManager)
        ensures
            manager@ == (BootConfig { sre_app: Some(sre_app_path@), ..self@ }),
    {
        let mut manager = self;
        manager.sre_app_path = Some(sre_app_path);
        manager
    }

    /// Boots this app on volume down if there is no USB volume.
    pub fn with_frontpage_app_path(self, frontpage_app_path: DevicePathBuf) -> (manager:
        SreBootManager)
        ensures
            manager@ == (BootConfig { frontpage_app: Some(frontpage_app_path@), ..self@ }),
    {
        let mut manager = self;
        manager.frontpage_app_path = Some(frontpage_app_path);
        manager
    }

    /// Looks for a recovery image on the boot partition before the boot
    /// options are tried. If there is one, USB boot options are skipped, and
    /// the image is booted if everything else fails.
    pub fn with_bp_sre_fallback(self) -> (manager: SreBootManager)
        ensures
            manager@ == (BootConfig { bp_sre_fallback: true, ..self@ }),
    {
        let mut manager = self;
        manager.bp_sre_fallback = true;
        manager
    }

    /// The boot partition that is to be write-locked.
    pub fn boot_partition_path(&self) -> (path: &DevicePathBuf)
        ensures
            path@ == self@.boot_partition,
    {
        &self.boot_partition_path
    }

    /// The main operating system.
    pub fn main_os_path(&self) -> (path: &DevicePathBuf)
        ensures
            path@ == self@.main_os,
    {
        &self.main_os_path
    }

    /// A copy of the path of the app for volume up, if there is one.
    pub(crate) fn duplicate_sre_app_path(&self) -> (path: Option<DevicePathBuf>)
        ensures
            optional_path(path) == self@.sre_app,
    {
        match &self.sre_app_path {
            Some(path) => Some(path.duplicate()),
            None => None,
        }
    }

    /// A copy of the path of the app for volume down, if there is one.
    pub(crate) fn duplicate_frontpage_app_path(&self) -> (path: Option<DevicePathBuf>)
        ensures
            optional_path(path) == self@.frontpage_app,
    {
        match &self.frontpage_app_path {
            Some(path) => Some(path.duplicate()),
            None => None,
        }
    }

    /// Whether a recovery image on the boot partition is looked for.
    pub fn bp_sre_fallback(&self) -> (enabled: bool)
        ensures
            enabled == self@.bp_sre_fallback,
    {
        self.bp_sre_fallback
    }
}

} // verus!
