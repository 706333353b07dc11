use patina_sre::bp_read::{BpAction, BPSIZE_BYTES};
use patina_sre::bp_recovery::{run_sre_flow, RecoveryAction, RecoveryAnswer};
use patina_sre::chainload::{build_chainload_path, ChainloadAction, ChainloadAnswer};
use patina_sre::efi::{EfiError, SUCCESS};
use patina_sre::nvme_pass_thru::{self, identify_controller, ID_CTRL_OFFSET_MDTS};
use patina_sre::ram_disk::{RamDiskAction, RamDiskAnswer};
use r_efi::efi;

const RAM_DISK: [u8; 8] = [0x04, 0x09, 0x04, 0x00, 0x7F, 0xFF, 0x04, 0x00];

/// What the firmware does; `failing` names the one step that fails.
struct Firmware {
    mdts: u8,
    failing: &'static str,
}

fn failure() -> usize {
    efi::Status::DEVICE_ERROR.as_usize()
}

impl Firmware {
    fn status(&self, step: &str) -> usize {
        if self.failing == step {
            failure()
        } else {
            SUCCESS
        }
    }

    fn result<T>(&self, step: &str, value: T) -> Result<T, usize> {
        if self.failing == step {
            Err(failure())
        } else {
            Ok(value)
        }
    }

    /// Runs the flow on behalf of image 0x11. Gives the result, the calls with
    /// the reads left out, and the number and the bytes of the reads.
    fn run(&self) -> (Result<(), EfiError>, Vec<String>, usize, usize) {
        let mut flow = run_sre_flow(0x11);
        let (mut calls, mut reads, mut bytes) = (Vec::new(), 0, 0);
        loop {
            let answer = match flow.action() {
                RecoveryAction::ConnectAll => {
                    calls.push("connect".to_string());
                    RecoveryAnswer::Connected
                }
                RecoveryAction::LocateProtocol(guid) => {
                    assert_eq!(guid, nvme_pass_thru::protocol_guid());
                    calls.push("locate".to_string());
                    RecoveryAnswer::Located(self.result("locate", ()))
                }
                RecoveryAction::Identify { namespace_id, packet } => {
                    assert_eq!(namespace_id, 0);
                    assert_eq!(packet, identify_controller());
                    calls.push("identify".to_string());
                    let mut identify = vec![0u8; packet.transfer_length as usize];
                    identify[ID_CTRL_OFFSET_MDTS] = self.mdts;
                    RecoveryAnswer::Identified { status: self.status("identify"), identify }
                }
                RecoveryAction::Allocate { bytes } => {
                    calls.push(format!("allocate {bytes:#x}"));
                    RecoveryAnswer::Allocated(0x10_0000)
                }
                RecoveryAction::Read { base, read } => {
                    assert_eq!(base, 0x10_0000);
                    match read {
                        BpAction::PassThru { dest_offset, read_bytes, packet, .. } => {
                            assert_eq!(dest_offset, bytes);
                            assert_eq!((packet.nvme_cmd.cdw10 >> 8) & 0x7F, 1);
                            reads += 1;
                            bytes += read_bytes;
                        }
                        BpAction::Finished(_) => panic!("a read is to be made"),
                    }
                    RecoveryAnswer::Read(if reads == 3 { self.status("read") } else { SUCCESS })
                }
                RecoveryAction::RamDisk(RamDiskAction::LocateProtocol(_)) => {
                    calls.push("locate ram disk".to_string());
                    RecoveryAnswer::RamDisk(RamDiskAnswer::Located(self.result("ram disk", ())))
                }
                RecoveryAction::RamDisk(RamDiskAction::Register {
                    ram_disk_base,
                    ram_disk_size,
                    ..
                }) => {
                    calls.push(format!("register {ram_disk_base:#x} {ram_disk_size:#x}"));
                    RecoveryAnswer::RamDisk(RamDiskAnswer::Registered {
                        status: self.status("register"),
                        device_path: 0x22,
                    })
                }
                RecoveryAction::RamDisk(RamDiskAction::Finished(_)) => unreachable!(),
                RecoveryAction::KeepMemory { base, bytes } => {
                    calls.push(format!("keep {base:#x} {bytes:#x}"));
                    RecoveryAnswer::Kept
                }
                RecoveryAction::Chainload(action) => RecoveryAnswer::Chainload(match action {
                    ChainloadAction::LocateDevicePath { device_path, .. } => {
                        calls.push(format!("locate handle {device_path:#x}"));
                        ChainloadAnswer::Located(self.result("handle", 3))
                    }
                    ChainloadAction::ConnectController { .. } => ChainloadAnswer::Connected,
                    ChainloadAction::ReadDevicePath { .. } => {
                        ChainloadAnswer::Path(RAM_DISK.to_vec())
                    }
                    ChainloadAction::LoadImage { parent_image, full_path, .. } => {
                        assert_eq!(full_path, build_chainload_path(&RAM_DISK).as_slice());
                        calls.push(format!("load {parent_image:#x}"));
                        ChainloadAnswer::Loaded(self.result("load", 4))
                    }
                    ChainloadAction::StartImage(image) => {
                        calls.push(format!("start {image:#x}"));
                        ChainloadAnswer::Started(self.result("start", ()))
                    }
                    ChainloadAction::Finished(_) => unreachable!(),
                }),
                RecoveryAction::Finished(result) => return (result, calls, reads, bytes),
            };
            flow = flow.advance(answer);
        }
    }
}

#[test]
fn flow_goes_from_partition_to_application() {
    let (result, calls, reads, bytes) = Firmware { mdts: 7, failing: "" }.run();
    assert_eq!(result, Ok(()));
    assert_eq!(
        calls,
        [
            "connect",
            "locate",
            "identify",
            "allocate 0x40000000",
            "locate ram disk",
            "register 0x100000 0x40000000",
            "keep 0x100000 0x40000000",
            "locate handle 0x22",
            "load 0x11",
            "start 0x4"
        ]
    );
    assert_eq!(reads, 2048);
    assert_eq!(bytes, BPSIZE_BYTES);
}

#[test]
fn failed_identify_reads_by_the_default_chunk() {
    let (result, _, reads, bytes) = Firmware { mdts: 7, failing: "identify" }.run();
    assert_eq!(result, Ok(()));
    assert_eq!((reads, bytes), (16384, BPSIZE_BYTES));
}

#[test]
fn each_failure_ends_the_flow() {
    for (failing, last, count) in [
        ("locate", "locate", 2),
        ("read", "allocate 0x40000000", 4),
        ("ram disk", "locate ram disk", 5),
        ("register", "register 0x100000 0x40000000", 6),
        ("handle", "locate handle 0x22", 8),
        ("load", "load 0x11", 9),
        ("start", "start 0x4", 10),
    ] {
        let (result, calls, reads, _) = Firmware { mdts: 0, failing }.run();
        assert_eq!(result, Err(EfiError::Named(failure())), "{failing}");
        assert_eq!(calls.last().unwrap(), last);
        assert_eq!(calls.len(), count);
        // The memory is kept if, and only if, it was registered.
        let kept = calls.iter().filter(|call| call.starts_with("keep")).count();
        assert_eq!(kept, if count >= 8 { 1 } else { 0 });
        if failing == "read" {
            assert_eq!(reads, 3);
        }
    }
}

#[test]
fn pass_through_guid() {
    assert_eq!(
        nvme_pass_thru::protocol_guid().to_bytes(),
        *efi::Guid::from_fields(0x52c78312, 0x8edc, 0x4233, 0x98, 0xf2, &[0x1a, 0x1a, 0xa5, 0xe3, 0x88, 0xa5])
            .as_bytes()
    );
}
