//! The recovery boot on a model of the platform.
//!
//! [`Machine`] holds what a platform has: an NVMe controller with boot
//! partitions, memory, a RAM disk protocol and an image loader. It answers the
//! calls of the flow and notes what they did to it. The laws say what the
//! machine holds once the flow is through.

use vstd::prelude::*;
use crate::bp_read::{
    BpAction, BpReader, max_transfer, max_transfer_divides_partition, read_is_not_short,
    read_is_served, reads_go_by_chunks, served, transferred,
};
use crate::bp_recovery::{
    RecoveryAction, RecoveryAnswer, RecoveryFlow, answers_recovery_action, bytes_to_read,
    recovery_makes_progress, stage,
};
use crate::chainload::{
    Chainload, ChainloadAction, ChainloadAnswer, chainload_path, is_parent_path,
};
use crate::efi::{EfiError, Guid};
use crate::nvme_pass_thru::{
    Command, CommandPacket, Completion, identify_packet_by_number, log_page_packet_by_number,
};
use crate::ram_disk::{RamDiskAction, RamDiskAnswer, RamDiskRegistration};

verus! {

/// What a platform is like. Every call to it that could fail succeeds, but for
/// identifying the controller and the boot application, which end as said here.
pub struct Machine {
    /// The boot partition log page of each partition.
    pub log_pages: spec_fn(int) -> Seq<u8>,
    /// How identifying the controller ends.
    pub identify_status: usize,
    /// What the controller says of itself.
    pub identify: Seq<u8>,
    /// Where the memory is that is allocated.
    pub base: u64,
    /// Where the device path of the RAM disk is.
    pub device_path: usize,
    /// The bytes there.
    pub device_path_bytes: Seq<u8>,
    /// The handle of the RAM disk.
    pub ram_handle: usize,
    /// The image that is loaded.
    pub new_image: usize,
    /// How the boot application ends.
    pub exit: Result<(), usize>,
}

impl Machine {
    /// The controller says a page of 4096 bytes of itself, partition 1 has an
    /// image of 1 GiB after a header of 16 bytes, the RAM disk has a device
    /// path, and a boot application that fails says how.
    pub open spec fn wf(self) -> bool {
        &&& self.identify.len() == 4096
        &&& (self.log_pages)(1).len() >= 16 + 0x4000_0000
        &&& is_parent_path(self.device_path_bytes)
        &&& self.exit matches Err(status) ==> status != 0
    }
}

/// What the calls of the flow did to the machine.
pub struct Effects {
    /// Whether all controllers were connected, before anything else.
    pub connected: bool,
    /// Whether the controller's protocol was located.
    pub located: bool,
    /// Whether the controller was asked to identify itself.
    pub identified: bool,
    /// The memory that was allocated.
    pub memory: Seq<u8>,
    /// The region that was registered as a RAM disk, by its address, and what
    /// was in it.
    pub disk: Option<(u64, Seq<u8>)>,
    /// The memory that is kept, by its address and size.
    pub kept: Option<(u64, usize)>,
    /// The handle that drivers were connected to.
    pub drivers: Option<usize>,
    /// What was loaded, by its device path, and on behalf of which image.
    pub loaded: Option<(usize, Seq<u8>)>,
    /// The image that was started.
    pub started: Option<usize>,
}

/// A machine that nothing was done to.
pub open spec fn untouched() -> Effects {
    Effects {
        connected: false,
        located: false,
        identified: false,
        memory: seq![],
        disk: None,
        kept: None,
        drivers: None,
        loaded: None,
        started: None,
    }
}

impl Machine {
    /// What the machine answers to a call.
    pub open spec fn answer(self, action: RecoveryAction<Seq<u8>>) -> RecoveryAnswer<Seq<u8>> {
        match action {
            RecoveryAction::ConnectAll => RecoveryAnswer::Connected,
            RecoveryAction::LocateProtocol(guid) => RecoveryAnswer::Located(Ok(())),
            RecoveryAction::Identify { namespace_id, packet } => RecoveryAnswer::Identified {
                status: self.identify_status,
                identify: self.identify,
            },
            RecoveryAction::Allocate { bytes } => RecoveryAnswer::Allocated(self.base),
            RecoveryAction::Read { base, read } => RecoveryAnswer::Read(0),
            RecoveryAction::RamDisk(call) => RecoveryAnswer::RamDisk(
                match call {
                    RamDiskAction::LocateProtocol(guid) => RamDiskAnswer::Located(Ok(())),
                    _ => RamDiskAnswer::Registered { status: 0, device_path: self.device_path },
                },
            ),
            RecoveryAction::KeepMemory { base, bytes } => RecoveryAnswer::Kept,
            RecoveryAction::Chainload(call) => RecoveryAnswer::Chainload(
                match call {
                    ChainloadAction::LocateDevicePath { protocol, device_path } => {
                        ChainloadAnswer::Located(Ok(self.ram_handle))
                    },
                    ChainloadAction::ConnectController { handle, recursive } => {
                        ChainloadAnswer::Connected
                    },
                    ChainloadAction::ReadDevicePath { device_path } => ChainloadAnswer::Path(
                        self.device_path_bytes,
                    ),
                    ChainloadAction::LoadImage { boot_policy, parent_image, full_path } => {
                        ChainloadAnswer::Loaded(Ok(self.new_image))
                    },
                    _ => ChainloadAnswer::Started(self.exit),
                },
            ),
            RecoveryAction::Finished(result) => RecoveryAnswer::Connected,
        }
    }

    /// What a call does to the machine. A call that is not quite right does
    /// nothing.
    pub open spec fn effect(self, effects: Effects, action: RecoveryAction<Seq<u8>>) -> Effects {
        match action {
            RecoveryAction::ConnectAll => if effects == untouched() {
                Effects { connected: true, ..effects }
            } else {
                effects
            },
            RecoveryAction::LocateProtocol(guid) => if guid == (Guid {
                time_low: 0x52c78312,
                time_mid: 0x8edc,
                time_hi_and_version: 0x4233,
                clk_seq_hi_res: 0x98,
                clk_seq_low: 0xf2,
                node: [0x1a, 0x1a, 0xa5, 0xe3, 0x88, 0xa5],
            }) {
                Effects { located: true, ..effects }
            } else {
                effects
            },
            RecoveryAction::Identify { namespace_id, packet } => if effects.located && namespace_id
                == 0 && packet.queue_type == 0 && packet.transfer_length == 4096
                && packet.nvme_cmd.cdw0 == 6 && packet.nvme_cmd.flags == 0x04
                && packet.nvme_cmd.cdw10 == 1 {
                Effects { identified: true, ..effects }
            } else {
                effects
            },
            RecoveryAction::Allocate { bytes } => Effects {
                memory: Seq::new(bytes as nat, |i: int| 0u8),
                ..effects
            },
            RecoveryAction::Read { base, read } => match read {
                BpAction::PassThru { namespace_id, dest_offset, read_bytes, packet } => if base
                    == self.base && effects.located {
                    Effects {
                        memory: served(
                            effects.memory,
                            dest_offset as int,
                            read_bytes as int,
                            namespace_id,
                            packet,
                            self.log_pages,
                        ),
                        ..effects
                    }
                } else {
                    effects
                },
                BpAction::Finished(result) => effects,
            },
            RecoveryAction::RamDisk(call) => match call {
                RamDiskAction::Register {
                    ram_disk_base,
                    ram_disk_size,
                    ram_disk_type,
                    parent_device_path,
                } => if ram_disk_base == self.base && ram_disk_size <= effects.memory.len()
                    && parent_device_path == 0 && ram_disk_type == (Guid {
                    time_low: 0x77ab535a,
                    time_mid: 0x45fc,
                    time_hi_and_version: 0x624b,
                    clk_seq_hi_res: 0x55,
                    clk_seq_low: 0x60,
                    node: [0xf7, 0xb2, 0x81, 0xd1, 0xf9, 0x6e],
                }) {
                    Effects {
                        disk: Some((ram_disk_base, effects.memory.take(ram_disk_size as int))),
                        ..effects
                    }
                } else {
                    effects
                },
                _ => effects,
            },
            RecoveryAction::KeepMemory { base, bytes } => if effects.disk is Some {
                Effects { kept: Some((base, bytes)), ..effects }
            } else {
                effects
            },
            RecoveryAction::Chainload(call) => match call {
                ChainloadAction::ConnectController { handle, recursive } => if recursive
                    && effects.kept is Some {
                    Effects { drivers: Some(handle), ..effects }
                } else {
                    effects
                },
                ChainloadAction::LoadImage { boot_policy, parent_image, full_path } => {
                    if boot_policy && effects.drivers is Some {
                        Effects { loaded: Some((parent_image, full_path)), ..effects }
                    } else {
                        effects
                    }
                },
                ChainloadAction::StartImage(image) => if effects.loaded is Some {
                    Effects { started: Some(image), ..effects }
                } else {
                    effects
                },
                _ => effects,
            },
            RecoveryAction::Finished(result) => effects,
        }
    }
}

/// What the flow comes to from `flow` on: what it did to the machine in all, and
/// its result.
pub open spec fn carried_out(
    flow: RecoveryFlow<Seq<u8>>,
    effects: Effects,
    machine: Machine,
) -> (Effects, Result<(), EfiError>)
    decreases stage(flow), bytes_to_read(flow),
    when flow.wf() && machine.wf()
    via carried_out_decreases
{
    match flow.spec_action() {
        RecoveryAction::Finished(result) => (effects, result),
        action => carried_out(
            flow.spec_next(machine.answer(action)),
            machine.effect(effects, action),
            machine,
        ),
    }
}

#[via_fn]
proof fn carried_out_decreases(
    flow: RecoveryFlow<Seq<u8>>,
    effects: Effects,
    machine: Machine,
) {
    if flow.spec_action() !is Finished {
        machine_answers(flow, machine);
        recovery_makes_progress(flow, machine.answer(flow.spec_action()));
    }
}

/// What the machine answers is what the flow can take.
pub proof fn machine_answers(flow: RecoveryFlow<Seq<u8>>, machine: Machine)
    requires
        flow.wf(),
        machine.wf(),
        flow.spec_action() !is Finished,
    ensures
        answers_recovery_action(flow.spec_action(), machine.answer(flow.spec_action())),
{
}

/// One step of the flow on the machine.
proof fn lemma_step(flow: RecoveryFlow<Seq<u8>>, effects: Effects, machine: Machine)
    requires
        flow.wf(),
        machine.wf(),
        flow.spec_action() !is Finished,
    ensures
        ({
            let next = flow.spec_next(machine.answer(flow.spec_action()));
            &&& next.wf()
            &&& carried_out(flow, effects, machine) == carried_out(
                next,
                machine.effect(effects, flow.spec_action()),
                machine,
            )
        }),
{
    machine_answers(flow, machine);
    recovery_makes_progress(flow, machine.answer(flow.spec_action()));
}

/// The reads of the flow, from `reader` on, fill the rest of the memory with the
/// rest of the image and lead to its registration.
proof fn lemma_reads(
    image_handle: usize,
    reader: BpReader,
    effects: Effects,
    machine: Machine,
)
    requires
        machine.wf(),
        (RecoveryFlow::<Seq<u8>>::Read { image_handle, base: machine.base, reader }).wf(),
        reader.chunk_bytes <= u32::MAX,
        reader.chunk_bytes % 4 == 0,
        reader.bp_off % 4 == 0,
        effects.located,
        effects.memory.len() == 0x4000_0000,
        effects.memory.take(reader.bp_off as int) == (machine.log_pages)(1).subrange(
            16,
            16 + reader.bp_off,
        ),
    ensures
        carried_out(
            RecoveryFlow::Read { image_handle, base: machine.base, reader },
            effects,
            machine,
        ) == carried_out(
            RecoveryFlow::Register {
                image_handle,
                base: machine.base,
                registration: RamDiskRegistration::Locate {
                    base: machine.base,
                    size: 0x4000_0000,
                },
            },
            Effects { memory: (machine.log_pages)(1).subrange(16, 0x4000_0010), ..effects },
            machine,
        ),
    decreases reader.dest_len - reader.bp_off,
{
    let flow = RecoveryFlow::<Seq<u8>>::Read { image_handle, base: machine.base, reader };
    let page = (machine.log_pages)(1);
    lemma_step(flow, effects, machine);
    read_is_served(reader, effects.memory, machine.log_pages);
    let off = reader.bp_off as int;
    let next = reader.spec_next(0);
    let count = next.bp_off - off;
    let memory = transferred(effects.memory, off, page, 16 + off, count);
    let after = machine.effect(effects, flow.spec_action());
    assert(after.memory == memory);
    assert(memory.take(off + count) =~= effects.memory.take(off) + page.subrange(
        16 + off,
        16 + off + count,
    ));
    assert(memory.take(off + count) =~= page.subrange(16, 16 + off + count));
    assert(after == (Effects { memory, ..effects }));
    if next.bp_off < next.dest_len {
        lemma_reads(image_handle, next, after, machine);
    } else {
        assert(memory =~= page.subrange(16, 0x4000_0010));
    }
}

/// Where everything that must succeed does, the recovery boot puts the image on
/// boot partition 1 into a RAM disk and starts the boot application from it. In
/// that order: all controllers are connected; the NVMe controller is located
/// and asked to identify itself; 1 GiB is allocated; exactly the image on the
/// partition, the bytes of its log page after the header of 16, comes into it,
/// whatever the controller says of its transfer limit; exactly that memory
/// becomes the RAM disk and is kept; drivers are connected to the handle of the
/// disk; and the application at the disk's path is loaded on behalf of the
/// given image and started. The result is how the application ended.
pub proof fn recovery_boots_image_on_partition(image_handle: usize, machine: Machine)
    requires
        machine.wf(),
    ensures
        ({
            let (effects, result) = carried_out(
                RecoveryFlow::ConnectAll { image_handle },
                untouched(),
                machine,
            );
            let image = (machine.log_pages)(1).subrange(16, 0x4000_0010);
            &&& effects.connected && effects.located && effects.identified
            &&& effects.disk == Some((machine.base, image))
            &&& effects.memory == image
            &&& effects.kept == Some((machine.base, 0x4000_0000usize))
            &&& effects.drivers == Some(machine.ram_handle)
            &&& effects.loaded == Some((image_handle, chainload_path(machine.device_path_bytes)))
            &&& effects.started == Some(machine.new_image)
            &&& machine.exit is Ok ==> result == Ok::<(), EfiError>(())
            &&& machine.exit matches Err(status) ==> result == Err::<(), EfiError>(
                EfiError::of_status(status),
            )
        }),
{
    let none = untouched();
    let page = (machine.log_pages)(1);
    let f0 = RecoveryFlow::<Seq<u8>>::ConnectAll { image_handle };
    lemma_step(f0, none, machine);
    let e1 = Effects { connected: true, ..none };
    let f1 = RecoveryFlow::<Seq<u8>>::Locate { image_handle };
    lemma_step(f1, e1, machine);
    let e2 = Effects { located: true, ..e1 };
    let f2 = RecoveryFlow::<Seq<u8>>::Identify { image_handle };
    identify_packet_by_number();
    lemma_step(f2, e2, machine);
    let e3 = Effects { identified: true, ..e2 };
    max_transfer_divides_partition(machine.identify_status, machine.identify);
    let chunk = max_transfer(machine.identify_status, machine.identify) as usize;
    let f3 = RecoveryFlow::<Seq<u8>>::Allocate { image_handle, chunk };
    lemma_step(f3, e3, machine);
    let zeros = Seq::new(0x4000_0000nat, |i: int| 0u8);
    let e4 = Effects { memory: zeros, ..e3 };
    assert(machine.effect(e3, f3.spec_action()) == e4);
    let reader = BpReader::start(1, chunk, 0x4000_0000);
    assert(zeros.take(0) =~= page.subrange(16, 16));
    let f4 = RecoveryFlow::<Seq<u8>>::Read { image_handle, base: machine.base, reader };
    assert(f3.spec_next(machine.answer(f3.spec_action())) == f4);
    lemma_reads(image_handle, reader, e4, machine);
    let image = page.subrange(16, 0x4000_0010);
    let e5 = Effects { memory: image, ..e4 };
    lemma_start(image_handle, e5, machine);
}

/// From the registration on.
proof fn lemma_start(image_handle: usize, effects: Effects, machine: Machine)
    requires
        machine.wf(),
        effects.memory.len() == 0x4000_0000,
    ensures
        ({
            let (after, result) = carried_out(
                RecoveryFlow::Register {
                    image_handle,
                    base: machine.base,
                    registration: RamDiskRegistration::Locate {
                        base: machine.base,
                        size: 0x4000_0000,
                    },
                },
                effects,
                machine,
            );
            &&& after == (Effects {
                disk: Some((machine.base, effects.memory)),
                kept: Some((machine.base, 0x4000_0000usize)),
                drivers: Some(machine.ram_handle),
                loaded: Some((image_handle, chainload_path(machine.device_path_bytes))),
                started: Some(machine.new_image),
                ..effects
            })
            &&& machine.exit is Ok ==> result == Ok::<(), EfiError>(())
            &&& machine.exit matches Err(status) ==> result == Err::<(), EfiError>(
                EfiError::of_status(status),
            )
        }),
{
    let base = machine.base;
    let locate = RamDiskRegistration::Locate { base, size: 0x4000_0000 };
    let register = RamDiskRegistration::Register { base, size: 0x4000_0000 };
    let f0 = RecoveryFlow::<Seq<u8>>::Register { image_handle, base, registration: locate };
    lemma_step(f0, effects, machine);
    let f1 = RecoveryFlow::<Seq<u8>>::Register { image_handle, base, registration: register };
    lemma_step(f1, effects, machine);
    assert(effects.memory.take(0x4000_0000) =~= effects.memory);
    let e2 = Effects { disk: Some((base, effects.memory)), ..effects };
    let f2 = RecoveryFlow::<Seq<u8>>::Keep {
        image_handle,
        base,
        device_path: machine.device_path,
    };
    lemma_step(f2, e2, machine);
    let e3 = Effects { kept: Some((base, 0x4000_0000usize)), ..e2 };
    let parent_dp = machine.device_path;
    let c3 = Chainload::<Seq<u8>>::Locate { image_handle, parent_dp };
    lemma_step(RecoveryFlow::Start(c3), e3, machine);
    let c4 = Chainload::<Seq<u8>>::Connect {
        image_handle,
        parent_dp,
        ram_handle: machine.ram_handle,
    };
    lemma_step(RecoveryFlow::Start(c4), e3, machine);
    let e5 = Effects { drivers: Some(machine.ram_handle), ..e3 };
    let c5 = Chainload::<Seq<u8>>::ReadPath { image_handle, parent_dp };
    lemma_step(RecoveryFlow::Start(c5), e5, machine);
    let full_path = chainload_path(machine.device_path_bytes);
    let c6 = Chainload::Load { image_handle, full_path };
    lemma_step(RecoveryFlow::Start(c6), e5, machine);
    let e7 = Effects { loaded: Some((image_handle, full_path)), ..e5 };
    let c7 = Chainload::<Seq<u8>>::Start { new_image: machine.new_image };
    lemma_step(RecoveryFlow::Start(c7), e7, machine);
}

/// The calls that ask for something by address or GUID ask for the right thing:
/// the RAM disk protocol by its GUID, and the handle and the path of the RAM
/// disk by the device path that the registration gave.
pub proof fn recovery_asks_for_ram_disk(
    image_handle: usize,
    base: u64,
    device_path: usize,
    ram_handle: usize,
)
    ensures
        (RecoveryFlow::<Seq<u8>>::Register {
            image_handle,
            base,
            registration: RamDiskRegistration::Locate { base, size: 0x4000_0000 },
        }).spec_action() == RecoveryAction::<Seq<u8>>::RamDisk(
            RamDiskAction::LocateProtocol(
                Guid {
                    time_low: 0xab38a0df,
                    time_mid: 0x6873,
                    time_hi_and_version: 0x44a9,
                    clk_seq_hi_res: 0x87,
                    clk_seq_low: 0xe6,
                    node: [0xd4, 0xeb, 0x56, 0x14, 0x86, 0x49],
                },
            ),
        ),
        ({
            let keep = RecoveryFlow::<Seq<u8>>::Keep { image_handle, base, device_path };
            let start = keep.spec_next(RecoveryAnswer::Kept);
            let read = start.spec_next(
                RecoveryAnswer::Chainload(ChainloadAnswer::Located(Ok(ram_handle))),
            ).spec_next(RecoveryAnswer::Chainload(ChainloadAnswer::Connected));
            &&& start.spec_action() == RecoveryAction::<Seq<u8>>::Chainload(
                ChainloadAction::LocateDevicePath {
                    protocol: Guid {
                        time_low: 0x09576e91,
                        time_mid: 0x6d3f,
                        time_hi_and_version: 0x11d2,
                        clk_seq_hi_res: 0x8e,
                        clk_seq_low: 0x39,
                        node: [0x00, 0xa0, 0xc9, 0x69, 0x72, 0x3b],
                    },
                    device_path,
                },
            )
            &&& read.spec_action() == RecoveryAction::<Seq<u8>>::Chainload(
                ChainloadAction::ReadDevicePath { device_path },
            )
        }),
{
}

/// The commands of the flow, field by field. The controller is identified by
/// the whole packet for that. A read of the flow is a read of boot partition 1
/// into the memory that was allocated, of the next chunk or of what is left,
/// within ten seconds, and every field that says nothing of this is zero.
pub proof fn recovery_commands_by_number(image_handle: usize, base: u64, reader: BpReader)
    requires
        (RecoveryFlow::<Seq<u8>>::Read { image_handle, base, reader }).wf(),
        reader.chunk_bytes <= u32::MAX,
    ensures
        (RecoveryFlow::<Seq<u8>>::Identify { image_handle }).spec_action() == (RecoveryAction::<
            Seq<u8>,
        >::Identify {
            namespace_id: 0,
            packet: CommandPacket {
                command_timeout: 50_000_000,
                transfer_length: 4096,
                metadata_length: 0,
                queue_type: 0,
                nvme_cmd: Command {
                    cdw0: 6,
                    flags: 0x04,
                    nsid: 0,
                    cdw2: 0,
                    cdw3: 0,
                    cdw10: 1,
                    cdw11: 0,
                    cdw12: 0,
                    cdw13: 0,
                    cdw14: 0,
                    cdw15: 0,
                },
                nvme_completion: Completion { dw0: 0, dw1: 0, dw2: 0, dw3: 0 },
            },
        }),
        ({
            let left = 0x4000_0000 - reader.bp_off;
            let count = if left < reader.chunk_bytes {
                left
            } else {
                reader.chunk_bytes as int
            };
            let action = (RecoveryFlow::<Seq<u8>>::Read {
                image_handle,
                base,
                reader,
            }).spec_action();
            &&& action matches RecoveryAction::Read { base: memory, read }
            &&& memory == base
            &&& read matches BpAction::PassThru { namespace_id, dest_offset, read_bytes, packet }
            &&& namespace_id == 0 && dest_offset == reader.bp_off && read_bytes == count
            &&& packet.command_timeout == 100_000_000 && packet.transfer_length == count
            &&& packet.metadata_length == 0 && packet.queue_type == 0
            &&& packet.nvme_completion == (Completion { dw0: 0, dw1: 0, dw2: 0, dw3: 0 })
            &&& packet.nvme_cmd.cdw0 == 2 && packet.nvme_cmd.flags == 0x3C
            &&& packet.nvme_cmd.cdw10 % 0x1_0000 == 0x115
            &&& packet.nvme_cmd.cdw12 + 0x1_0000_0000 * packet.nvme_cmd.cdw13 == 16 + reader.bp_off
            &&& 4 * (packet.nvme_cmd.cdw10 / 0x1_0000 + 0x1_0000 * packet.nvme_cmd.cdw11 + 1)
                == count - count % 4
            &&& packet.nvme_cmd.nsid == 0 && packet.nvme_cmd.cdw2 == 0 && packet.nvme_cmd.cdw3 == 0
            &&& packet.nvme_cmd.cdw14 == 0 && packet.nvme_cmd.cdw15 == 0
        }),
{
    identify_packet_by_number();
    reads_go_by_chunks(reader);
    read_is_not_short(reader);
    log_page_packet_by_number(1, reader.bp_off as u64, reader.read_bytes() as usize);
}

} // verus!
