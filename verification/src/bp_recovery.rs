//! The recovery boot: the image on the boot partition becomes a RAM disk, and
//! the boot application on it is started.

use vstd::prelude::*;
use crate::bp_read::{
    BPSIZE_BYTES, BpAction, BpReader, TARGET_BPID, filled, is_readable, max_transfer,
    max_transfer_divides_partition, probe_max_transfer,
    reads_fill_destination_with_image,
};
use crate::chainload::{
    Chainload, ChainloadAction, ChainloadAnswer, answers_chainload_action, chainload_from_ramdisk,
};
use crate::efi::{EfiError, Guid, SUCCESS, is_service_answer};
use crate::nvme_pass_thru;
use crate::nvme_pass_thru::{
    CommandPacket, IDENTIFY_BUFFER_BYTES, LID_BP_HEADER_BYTES, NAMESPACE_CONTROLLER,
    identify_controller, identify_packet,
};
use crate::ram_disk::{
    RamDiskAction, RamDiskAnswer, RamDiskRegistration, answers_ram_disk_action, register_ram_disk,
};

verus! {

/// A call to make for the recovery boot.
#[derive(Debug)]
pub enum RecoveryAction<P> {
    /// Connect all controllers.
    ConnectAll,
    /// Locate the protocol with this GUID.
    LocateProtocol(Guid),
    /// Send `packet` to `namespace_id`, with a zeroed transfer buffer of its
    /// own.
    Identify { namespace_id: u32, packet: CommandPacket },
    /// Allocate this many zeroed bytes. Unless they are to be kept later, they
    /// are freed when the flow ends.
    Allocate { bytes: usize },
    /// Make this read of the boot partition; the destination is the memory
    /// that was allocated at address `base`.
    Read { base: u64, read: BpAction },
    /// Make this call to register the RAM disk.
    RamDisk(RamDiskAction),
    /// Keep the `bytes` bytes at address `base`, which were allocated, for
    /// good: they belong to the RAM disk.
    KeepMemory { base: u64, bytes: usize },
    /// Make this call to start the boot application.
    Chainload(ChainloadAction<P>),
    /// Nothing is left to do; this is the result.
    Finished(Result<(), EfiError>),
}

impl<'a> View for RecoveryAction<&'a [u8]> {
    type V = RecoveryAction<Seq<u8>>;

    open spec fn view(&self) -> RecoveryAction<Seq<u8>> {
        match *self {
            RecoveryAction::ConnectAll => RecoveryAction::ConnectAll,
            RecoveryAction::LocateProtocol(guid) => RecoveryAction::LocateProtocol(guid),
            RecoveryAction::Identify { namespace_id, packet } => RecoveryAction::Identify {
                namespace_id,
                packet,
            },
            RecoveryAction::Allocate { bytes } => RecoveryAction::Allocate { bytes },
            RecoveryAction::Read { base, read } => RecoveryAction::Read { base, read },
            RecoveryAction::RamDisk(action) => RecoveryAction::RamDisk(action),
            RecoveryAction::KeepMemory { base, bytes } => RecoveryAction::KeepMemory {
                base,
                bytes,
            },
            RecoveryAction::Chainload(action) => RecoveryAction::Chainload(action@),
            RecoveryAction::Finished(result) => RecoveryAction::Finished(result),
        }
    }
}

/// The answer to a call of the recovery boot.
#[derive(Debug)]
pub enum RecoveryAnswer<P> {
    /// The controllers were connected, or could not be.
    Connected,
    /// Whether the protocol was located, or the status that it was not with.
    Located(Result<(), usize>),
    /// The status of the command and the bytes of its transfer buffer.
    Identified { status: usize, identify: P },
    /// The address of the allocated memory.
    Allocated(u64),
    /// The status that the read ended with.
    Read(usize),
    /// The answer to the call for the RAM disk.
    RamDisk(RamDiskAnswer),
    /// The memory will not be freed.
    Kept,
    /// The answer to the call for the boot application.
    Chainload(ChainloadAnswer<P>),
}

impl View for RecoveryAnswer<Vec<u8>> {
    type V = RecoveryAnswer<Seq<u8>>;

    open spec fn view(&self) -> RecoveryAnswer<Seq<u8>> {
        match *self {
            RecoveryAnswer::Connected => RecoveryAnswer::Connected,
            RecoveryAnswer::Located(located) => RecoveryAnswer::Located(located),
            RecoveryAnswer::Identified { status, identify } => RecoveryAnswer::Identified {
                status,
                identify: identify@,
            },
            RecoveryAnswer::Allocated(base) => RecoveryAnswer::Allocated(base),
            RecoveryAnswer::Read(status) => RecoveryAnswer::Read(status),
            RecoveryAnswer::RamDisk(answer) => RecoveryAnswer::RamDisk(answer),
            RecoveryAnswer::Kept => RecoveryAnswer::Kept,
            RecoveryAnswer::Chainload(answer) => RecoveryAnswer::Chainload(answer@),
        }
    }
}

/// Whether `answer` is one that `action` can have.
pub open spec fn answers_recovery_action(
    action: RecoveryAction<Seq<u8>>,
    answer: RecoveryAnswer<Seq<u8>>,
) -> bool {
    match (action, answer) {
        (RecoveryAction::ConnectAll, RecoveryAnswer::Connected) => true,
        (RecoveryAction::LocateProtocol(guid), RecoveryAnswer::Located(located)) => {
            is_service_answer(located)
        },
        (
            RecoveryAction::Identify { namespace_id, packet },
            RecoveryAnswer::Identified { status, identify },
        ) => identify.len() == IDENTIFY_BUFFER_BYTES,
        (RecoveryAction::Allocate { bytes }, RecoveryAnswer::Allocated(base)) => true,
        (RecoveryAction::Read { base, read }, RecoveryAnswer::Read(status)) => true,
        (RecoveryAction::RamDisk(action), RecoveryAnswer::RamDisk(answer)) => {
            answers_ram_disk_action(action, answer)
        },
        (RecoveryAction::KeepMemory { base, bytes }, RecoveryAnswer::Kept) => true,
        (RecoveryAction::Chainload(action), RecoveryAnswer::Chainload(answer)) => {
            answers_chainload_action(action, answer)
        },
        _ => false,
    }
}

/// The recovery boot.
#[derive(Debug)]
pub enum RecoveryFlow<P> {
    /// All controllers are to be connected; holds the image on whose behalf
    /// the boot application is started.
    ConnectAll { image_handle: usize },
    /// The pass-through protocol of the NVMe controller is to be located.
    Locate { image_handle: usize },
    /// The controller is to be identified.
    Identify { image_handle: usize },
    /// The memory for the image is to be allocated; holds the bytes of a read.
    Allocate { image_handle: usize, chunk: usize },
    /// The image is to be read into the memory at `base`.
    Read { image_handle: usize, base: u64, reader: BpReader },
    /// The memory at `base` is to be registered as a RAM disk.
    Register { image_handle: usize, base: u64, registration: RamDiskRegistration },
    /// The memory at `base` is to be kept; holds the address of the device
    /// path of the RAM disk that it became.
    Keep { image_handle: usize, base: u64, device_path: usize },
    /// The boot application is to be started.
    Start(Chainload<P>),
    /// Nothing is left to do; holds the result.
    Finished(Result<(), EfiError>),
}

impl View for RecoveryFlow<Vec<u8>> {
    type V = RecoveryFlow<Seq<u8>>;

    open spec fn view(&self) -> RecoveryFlow<Seq<u8>> {
        match *self {
            RecoveryFlow::ConnectAll { image_handle } => RecoveryFlow::ConnectAll { image_handle },
            RecoveryFlow::Locate { image_handle } => RecoveryFlow::Locate { image_handle },
            RecoveryFlow::Identify { image_handle } => RecoveryFlow::Identify { image_handle },
            RecoveryFlow::Allocate { image_handle, chunk } => RecoveryFlow::Allocate {
                image_handle,
                chunk,
            },
            RecoveryFlow::Read { image_handle, base, reader } => RecoveryFlow::Read {
                image_handle,
                base,
                reader,
            },
            RecoveryFlow::Register { image_handle, base, registration } => RecoveryFlow::Register {
                image_handle,
                base,
                registration,
            },
            RecoveryFlow::Keep { image_handle, base, device_path } => RecoveryFlow::Keep {
                image_handle,
                base,
                device_path,
            },
            RecoveryFlow::Start(chainload) => RecoveryFlow::Start(chainload@),
            RecoveryFlow::Finished(result) => RecoveryFlow::Finished(result),
        }
    }
}

impl RecoveryFlow<Seq<u8>> {
    /// What every step keeps: the chunk divides the partition, what is
    /// registered is the whole allocation, and a step that is still to be made
    /// is not at its end already.
    pub open spec fn wf(self) -> bool {
        match self {
            RecoveryFlow::Allocate { image_handle, chunk } => {
                is_readable(chunk, BPSIZE_BYTES)
            },
            RecoveryFlow::Read { image_handle, base, reader } => {
                &&& reader.wf()
                &&& reader.spec_action() is PassThru
                &&& reader.bp_id == TARGET_BPID
                &&& reader.dest_len == BPSIZE_BYTES
            },
            RecoveryFlow::Register { image_handle, base, registration } => {
                ||| registration == (RamDiskRegistration::Locate {
                    base,
                    size: BPSIZE_BYTES as u64,
                })
                ||| registration == (RamDiskRegistration::Register {
                    base,
                    size: BPSIZE_BYTES as u64,
                })
            },
            RecoveryFlow::Start(chainload) => chainload !is Finished,
            _ => true,
        }
    }

    /// The call to make next.
    pub open spec fn spec_action(self) -> RecoveryAction<Seq<u8>> {
        match self {
            RecoveryFlow::ConnectAll { image_handle } => RecoveryAction::ConnectAll,
            RecoveryFlow::Locate { image_handle } => RecoveryAction::LocateProtocol(
                nvme_pass_thru::protocol_guid(),
            ),
            RecoveryFlow::Identify { image_handle } => RecoveryAction::Identify {
                namespace_id: NAMESPACE_CONTROLLER,
                packet: identify_packet(),
            },
            RecoveryFlow::Allocate { image_handle, chunk } => RecoveryAction::Allocate {
                bytes: BPSIZE_BYTES,
            },
            RecoveryFlow::Read { image_handle, base, reader } => RecoveryAction::Read {
                base,
                read: reader.spec_action(),
            },
            RecoveryFlow::Register { image_handle, base, registration } => RecoveryAction::RamDisk(
                registration.spec_action(),
            ),
            RecoveryFlow::Keep { image_handle, base, device_path } => RecoveryAction::KeepMemory {
                base,
                bytes: BPSIZE_BYTES,
            },
            RecoveryFlow::Start(chainload) => RecoveryAction::Chainload(chainload.spec_action()),
            RecoveryFlow::Finished(result) => RecoveryAction::Finished(result),
        }
    }

    /// The flow with its reads at `reader`: done with them, they lead on to
    /// the RAM disk or to the end.
    pub open spec fn reading(
        image_handle: usize,
        base: u64,
        reader: BpReader,
    ) -> RecoveryFlow<Seq<u8>> {
        match reader.spec_action() {
            BpAction::PassThru { namespace_id, dest_offset, read_bytes, packet } => {
                RecoveryFlow::Read { image_handle, base, reader }
            },
            BpAction::Finished(result) => match result {
                Ok(_) => RecoveryFlow::Register {
                    image_handle,
                    base,
                    registration: RamDiskRegistration::Locate { base, size: BPSIZE_BYTES as u64 },
                },
                Err(error) => RecoveryFlow::Finished(Err(error)),
            },
        }
    }

    /// The flow with its registration at `registration`: done with it, it
    /// leads on to keeping the memory or to the end.
    pub open spec fn registering(
        image_handle: usize,
        base: u64,
        registration: RamDiskRegistration,
    ) -> RecoveryFlow<Seq<u8>> {
        match registration {
            RamDiskRegistration::Finished(result) => match result {
                Ok(device_path) => RecoveryFlow::Keep { image_handle, base, device_path },
                Err(error) => RecoveryFlow::Finished(Err(error)),
            },
            _ => RecoveryFlow::Register { image_handle, base, registration },
        }
    }

    /// The flow with the start of the boot application at `chainload`.
    pub open spec fn starting(chainload: Chainload<Seq<u8>>) -> RecoveryFlow<Seq<u8>> {
        match chainload {
            Chainload::Finished(result) => RecoveryFlow::Finished(result),
            _ => RecoveryFlow::Start(chainload),
        }
    }

    /// What follows from the answer to that call.
    pub open spec fn spec_next(self, answer: RecoveryAnswer<Seq<u8>>) -> RecoveryFlow<Seq<u8>> {
        match (self, answer) {
            (RecoveryFlow::ConnectAll { image_handle }, RecoveryAnswer::Connected) => {
                RecoveryFlow::Locate { image_handle }
            },
            (
                RecoveryFlow::Locate { image_handle },
                RecoveryAnswer::Located(located),
            ) => match located {
                Ok(_) => RecoveryFlow::Identify { image_handle },
                Err(status) => RecoveryFlow::Finished(Err(EfiError::of_status(status))),
            },
            (
                RecoveryFlow::Identify { image_handle },
                RecoveryAnswer::Identified { status, identify },
            ) => RecoveryFlow::Allocate {
                image_handle,
                chunk: max_transfer(status, identify) as usize,
            },
            (
                RecoveryFlow::Allocate { image_handle, chunk },
                RecoveryAnswer::Allocated(base),
            ) => RecoveryFlow::reading(
                image_handle,
                base,
                BpReader::start(TARGET_BPID, chunk, BPSIZE_BYTES),
            ),
            (
                RecoveryFlow::Read { image_handle, base, reader },
                RecoveryAnswer::Read(status),
            ) => RecoveryFlow::reading(image_handle, base, reader.spec_next(status)),
            (
                RecoveryFlow::Register { image_handle, base, registration },
                RecoveryAnswer::RamDisk(answer),
            ) => RecoveryFlow::registering(image_handle, base, registration.spec_next(answer)),
            (
                RecoveryFlow::Keep { image_handle, base, device_path },
                RecoveryAnswer::Kept,
            ) => RecoveryFlow::Start(Chainload::Locate { image_handle, parent_dp: device_path }),
            (RecoveryFlow::Start(chainload), RecoveryAnswer::Chainload(answer)) => {
                RecoveryFlow::starting(chainload.spec_next(answer))
            },
            _ => self,
        }
    }
}

/// Starts the recovery boot on behalf of `image_handle`.
pub fn run_sre_flow(image_handle: usize) -> (run: RecoveryRun)
    ensures
        run@ == (RecoveryFlow::<Seq<u8>>::ConnectAll { image_handle }),
{
    RecoveryRun { flow: RecoveryFlow::ConnectAll { image_handle } }
}

/// The recovery boot under way.
#[derive(Debug)]
pub struct RecoveryRun {
    flow: RecoveryFlow<Vec<u8>>,
}

impl View for RecoveryRun {
    type V = RecoveryFlow<Seq<u8>>;

    closed spec fn view(&self) -> RecoveryFlow<Seq<u8>> {
        self.flow@
    }
}

impl RecoveryRun {
    /// The flow is one that its steps lead to.
    #[verifier::type_invariant]
    closed spec fn well_formed(self) -> bool {
        self.flow@.wf()
    }

    /// The call to make next.
    pub fn action(&self) -> (action: RecoveryAction<&[u8]>)
        ensures
            action@ == self@.spec_action(),
    {
        proof {
            use_type_invariant(self);
        }
        match &self.flow {
            RecoveryFlow::ConnectAll { .. } => RecoveryAction::ConnectAll,
            RecoveryFlow::Locate { .. } => RecoveryAction::LocateProtocol(
                nvme_pass_thru::protocol_guid(),
            ),
            RecoveryFlow::Identify { .. } => RecoveryAction::Identify {
                namespace_id: NAMESPACE_CONTROLLER,
                packet: identify_controller(),
            },
            RecoveryFlow::Allocate { .. } => RecoveryAction::Allocate { bytes: BPSIZE_BYTES },
            RecoveryFlow::Read { base, reader, .. } => RecoveryAction::Read {
                base: *base,
                read: reader.action(),
            },
            RecoveryFlow::Register { registration, .. } => RecoveryAction::RamDisk(
                registration.action(),
            ),
            RecoveryFlow::Keep { base, .. } => RecoveryAction::KeepMemory {
                base: *base,
                bytes: BPSIZE_BYTES,
            },
            RecoveryFlow::Start(chainload) => RecoveryAction::Chainload(chainload.action()),
            RecoveryFlow::Finished(result) => RecoveryAction::Finished(*result),
        }
    }

    /// The flow with its reads at `reader`.
    fn with_reader(image_handle: usize, base: u64, reader: BpReader) -> (flow: RecoveryFlow<
        Vec<u8>,
    >)
        requires
            reader.wf(),
            reader.bp_id == TARGET_BPID,
            reader.dest_len == BPSIZE_BYTES,
        ensures
            flow@ == RecoveryFlow::reading(image_handle, base, reader),
            flow@.wf(),
    {
        match reader.action() {
            BpAction::PassThru { .. } => RecoveryFlow::Read { image_handle, base, reader },
            BpAction::Finished(Ok(_)) => RecoveryFlow::Register {
                image_handle,
                base,
                registration: register_ram_disk(base, BPSIZE_BYTES),
            },
            BpAction::Finished(Err(error)) => RecoveryFlow::Finished(Err(error)),
        }
    }

    /// Takes the answer to the call.
    pub fn advance(self, answer: RecoveryAnswer<Vec<u8>>) -> (next: RecoveryRun)
        requires
            answers_recovery_action(self@.spec_action(), answer@),
        ensures
            next@ == self@.spec_next(answer@),
    {
        proof {
            use_type_invariant(&self);
        }
        let flow = match (self.flow, answer) {
            (RecoveryFlow::ConnectAll { image_handle }, RecoveryAnswer::Connected) => {
                RecoveryFlow::Locate { image_handle }
            },
            (
                RecoveryFlow::Locate { image_handle },
                RecoveryAnswer::Located(located),
            ) => match located {
                Ok(_) => RecoveryFlow::Identify { image_handle },
                Err(status) => RecoveryFlow::Finished(Err(EfiError::from_status(status))),
            },
            (
                RecoveryFlow::Identify { image_handle },
                RecoveryAnswer::Identified { status, identify },
            ) => {
                proof {
                    max_transfer_divides_partition(status, identify@);
                }
                RecoveryFlow::Allocate {
                    image_handle,
                    chunk: probe_max_transfer(status, identify.as_slice()),
                }
            },
            (
                RecoveryFlow::Allocate { image_handle, chunk },
                RecoveryAnswer::Allocated(base),
            ) => RecoveryRun::with_reader(
                image_handle,
                base,
                BpReader::new(TARGET_BPID, chunk, BPSIZE_BYTES),
            ),
            (
                RecoveryFlow::Read { image_handle, base, reader },
                RecoveryAnswer::Read(status),
            ) => {
                let mut reader = reader;
                reader.advance(status);
                RecoveryRun::with_reader(image_handle, base, reader)
            },
            (
                RecoveryFlow::Register { image_handle, base, registration },
                RecoveryAnswer::RamDisk(answer),
            ) => match registration.advance(answer) {
                RamDiskRegistration::Finished(Ok(device_path)) => RecoveryFlow::Keep {
                    image_handle,
                    base,
                    device_path,
                },
                RamDiskRegistration::Finished(Err(error)) => RecoveryFlow::Finished(Err(error)),
                registration => RecoveryFlow::Register { image_handle, base, registration },
            },
            (
                RecoveryFlow::Keep { image_handle, device_path, .. },
                RecoveryAnswer::Kept,
            ) => RecoveryFlow::Start(chainload_from_ramdisk(image_handle, device_path)),
            (
                RecoveryFlow::Start(chainload),
                RecoveryAnswer::Chainload(answer),
            ) => match chainload.advance(answer) {
                Chainload::Finished(result) => RecoveryFlow::Finished(result),
                chainload => RecoveryFlow::Start(chainload),
            },
            (flow, _) => flow,
        };
        RecoveryRun { flow }
    }
}

/// The bytes that are left to read.
pub open spec fn bytes_to_read(flow: RecoveryFlow<Seq<u8>>) -> int {
    match flow {
        RecoveryFlow::Read { image_handle, base, reader } => reader.dest_len - reader.bp_off,
        _ => 0,
    }
}

/// The stages of the flow, highest first.
pub open spec fn stage(flow: RecoveryFlow<Seq<u8>>) -> nat {
    match flow {
        RecoveryFlow::ConnectAll { image_handle } => 13,
        RecoveryFlow::Locate { image_handle } => 12,
        RecoveryFlow::Identify { image_handle } => 11,
        RecoveryFlow::Allocate { image_handle, chunk } => 10,
        RecoveryFlow::Read { image_handle, base, reader } => 9,
        RecoveryFlow::Register { image_handle, base, registration } => if registration is Locate {
            8
        } else {
            7
        },
        RecoveryFlow::Keep { image_handle, base, device_path } => 6,
        RecoveryFlow::Start(chainload) => match chainload {
            Chainload::Locate { image_handle, parent_dp } => 5,
            Chainload::Connect { image_handle, parent_dp, ram_handle } => 4,
            Chainload::ReadPath { image_handle, parent_dp } => 3,
            Chainload::Load { image_handle, full_path } => 2,
            _ => 1,
        },
        RecoveryFlow::Finished(_) => 0,
    }
}

/// Whatever the firmware answers, a step leads to a later stage or leaves less
/// to read, so that every flow ends.
pub proof fn recovery_makes_progress(
    flow: RecoveryFlow<Seq<u8>>,
    answer: RecoveryAnswer<Seq<u8>>,
)
    requires
        flow.wf(),
        answers_recovery_action(flow.spec_action(), answer),
    ensures
        ({
            let next = flow.spec_next(answer);
            &&& next.wf()
            &&& stage(next) < stage(flow) || stage(next) == stage(flow) && 0 <= bytes_to_read(next)
                < bytes_to_read(flow)
        }),
{
    match (flow, answer) {
        (
            RecoveryFlow::Identify { image_handle },
            RecoveryAnswer::Identified { status, identify },
        ) => {
            max_transfer_divides_partition(status, identify);
        },
        (RecoveryFlow::Allocate { image_handle, chunk }, _) => {
            vstd::arithmetic::div_mod::lemma_small_mod(0, chunk as nat);
        },
        (RecoveryFlow::Read { image_handle, base, reader }, RecoveryAnswer::Read(status)) => {
            lemma_read_step(image_handle, base, reader, status);
        },
        _ => {},
    }
}

/// The flow after all reads that are left were made, each with success.
pub open spec fn after_reads(flow: RecoveryFlow<Seq<u8>>) -> RecoveryFlow<Seq<u8>>
    decreases bytes_to_read(flow),
    when flow.wf()
    via after_reads_decreases
{
    if flow is Read {
        after_reads(flow.spec_next(RecoveryAnswer::Read(SUCCESS)))
    } else {
        flow
    }
}

#[via_fn]
proof fn after_reads_decreases(flow: RecoveryFlow<Seq<u8>>) {
    if let RecoveryFlow::Read { image_handle, base, reader } = flow {
        lemma_read_step(image_handle, base, reader, SUCCESS);
    }
}

/// A read keeps the flow well-formed and, with success, leaves less to read.
proof fn lemma_read_step(image_handle: usize, base: u64, reader: BpReader, status: usize)
    requires
        (RecoveryFlow::<Seq<u8>>::Read { image_handle, base, reader }).wf(),
    ensures
        reader.spec_next(status).wf(),
        status == SUCCESS ==> reader.bp_off < reader.spec_next(status).bp_off <= reader.dest_len,
{
    reader.next_is_wf(status);
}

/// Reads that all succeed lead to the registration of exactly the memory that
/// they filled.
proof fn lemma_reads_lead_to_registration(image_handle: usize, base: u64, reader: BpReader)
    requires
        (RecoveryFlow::<Seq<u8>>::Read { image_handle, base, reader }).wf(),
    ensures
        after_reads(RecoveryFlow::Read { image_handle, base, reader }) == (RecoveryFlow::<
            Seq<u8>,
        >::Register {
            image_handle,
            base,
            registration: RamDiskRegistration::Locate { base, size: BPSIZE_BYTES as u64 },
        }),
    decreases reader.dest_len - reader.bp_off,
{
    reveal_with_fuel(after_reads, 2);
    lemma_read_step(image_handle, base, reader, SUCCESS);
    let next = reader.spec_next(SUCCESS);
    if next.spec_action() is PassThru {
        lemma_reads_lead_to_registration(image_handle, base, next);
    }
}

/// All controllers are connected first, whatever comes of it. Once the
/// controller's protocol is located, the chunk goes by how the controller
/// identifies itself, and the reads, if all succeed, lead to the registration
/// of the whole allocation as a RAM disk. The reads that fill it take the
/// target partition.
pub proof fn recovery_reads_partition_into_ram_disk(
    image_handle: usize,
    status: usize,
    identify: Seq<u8>,
    base: u64,
)
    requires
        identify.len() == IDENTIFY_BUFFER_BYTES,
    ensures
        ({
            let locate = (RecoveryFlow::<Seq<u8>>::ConnectAll { image_handle }).spec_next(
                RecoveryAnswer::Connected,
            );
            let identified = locate.spec_next(RecoveryAnswer::Located(Ok(()))).spec_next(
                RecoveryAnswer::Identified { status, identify },
            );
            let read = identified.spec_next(RecoveryAnswer::Allocated(base));
            &&& locate.spec_action() == RecoveryAction::<Seq<u8>>::LocateProtocol(
                nvme_pass_thru::protocol_guid(),
            )
            &&& identified.spec_action() == (RecoveryAction::<Seq<u8>>::Allocate {
                bytes: BPSIZE_BYTES,
            })
            &&& read == (RecoveryFlow::<Seq<u8>>::Read {
                image_handle,
                base,
                reader: BpReader::start(
                    TARGET_BPID,
                    max_transfer(status, identify) as usize,
                    BPSIZE_BYTES,
                ),
            })
            &&& read.wf()
            &&& after_reads(read) == (RecoveryFlow::<Seq<u8>>::Register {
                image_handle,
                base,
                registration: RamDiskRegistration::Locate { base, size: BPSIZE_BYTES as u64 },
            })
        }),
{
    max_transfer_divides_partition(status, identify);
    let chunk = max_transfer(status, identify);
    let reader = BpReader::start(TARGET_BPID, chunk as usize, BPSIZE_BYTES);
    vstd::arithmetic::div_mod::lemma_small_mod(0, chunk as nat);
    lemma_reads_lead_to_registration(image_handle, base, reader);
}

/// The memory that becomes the RAM disk holds exactly the image on the
/// partition, whatever the controller says of itself.
pub proof fn recovery_ram_disk_holds_image(
    status: usize,
    identify: Seq<u8>,
    memory: Seq<u8>,
    log_page: Seq<u8>,
)
    requires
        memory.len() == BPSIZE_BYTES,
        log_page.len() >= LID_BP_HEADER_BYTES + BPSIZE_BYTES,
    ensures
        filled(
            BpReader::start(TARGET_BPID, max_transfer(status, identify) as usize, BPSIZE_BYTES),
            memory,
            log_page,
        ) == log_page.subrange(
            LID_BP_HEADER_BYTES as int,
            LID_BP_HEADER_BYTES + BPSIZE_BYTES,
        ),
{
    max_transfer_divides_partition(status, identify);
    reads_fill_destination_with_image(
        TARGET_BPID,
        max_transfer(status, identify) as usize,
        memory,
        log_page,
    );
}

/// Every step that must succeed ends the flow with the error of its status if
/// it fails, and no later step is made.
pub proof fn recovery_stops_at_failure(
    flow: RecoveryFlow<Seq<u8>>,
    status: usize,
    device_path: usize,
)
    requires
        flow.wf(),
        status != SUCCESS,
    ensures
        ({
            let ended = RecoveryFlow::<Seq<u8>>::Finished(Err(EfiError::of_status(status)));
            &&& flow is Locate ==> flow.spec_next(RecoveryAnswer::Located(Err(status))) == ended
            &&& flow is Read ==> flow.spec_next(RecoveryAnswer::Read(status)) == ended
            &&& flow matches RecoveryFlow::Register { registration, .. } ==> {
                &&& registration is Locate ==> flow.spec_next(
                    RecoveryAnswer::RamDisk(RamDiskAnswer::Located(Err(status))),
                ) == ended
                &&& registration is Register ==> flow.spec_next(
                    RecoveryAnswer::RamDisk(RamDiskAnswer::Registered { status, device_path }),
                ) == ended
            }
            &&& flow matches RecoveryFlow::Start(chainload) ==> {
                &&& chainload is Locate ==> flow.spec_next(
                    RecoveryAnswer::Chainload(ChainloadAnswer::Located(Err(status))),
                ) == ended
                &&& chainload is Load ==> flow.spec_next(
                    RecoveryAnswer::Chainload(ChainloadAnswer::Loaded(Err(status))),
                ) == ended
                &&& chainload is Start ==> flow.spec_next(
                    RecoveryAnswer::Chainload(ChainloadAnswer::Started(Err(status))),
                ) == ended
            }
        }),
{
}

/// The memory that was registered as a RAM disk is kept for good, and no other:
/// the step to keep memory follows exactly on a registration that succeeded,
/// and is about the region that was registered. No call to start the boot
/// application is made without it.
pub proof fn registered_memory_is_kept(
    flow: RecoveryFlow<Seq<u8>>,
    answer: RecoveryAnswer<Seq<u8>>,
)
    requires
        flow.wf(),
        answers_recovery_action(flow.spec_action(), answer),
    ensures
        ({
            let next = flow.spec_next(answer);
            &&& next.spec_action() is KeepMemory <==> {
                &&& flow.spec_action() matches RecoveryAction::RamDisk(call)
                &&& call is Register
                &&& answer matches RecoveryAnswer::RamDisk(reply)
                &&& reply matches RamDiskAnswer::Registered { status, device_path }
                &&& status == SUCCESS
            }
            &&& next.spec_action() matches RecoveryAction::KeepMemory { base, bytes } ==> (
            flow.spec_action() matches RecoveryAction::RamDisk(call)
                && call matches RamDiskAction::Register { ram_disk_base, ram_disk_size, .. }
                && ram_disk_base == base && ram_disk_size == bytes)
            &&& next.spec_action() is Chainload ==> flow.spec_action() is KeepMemory
                || flow.spec_action() is Chainload
        }),
{
}

/// A registered RAM disk is the one that the boot application is started from,
/// once its memory is kept, and a boot application that returns without an
/// error ends the flow without one.
pub proof fn recovery_starts_registered_disk(
    image_handle: usize,
    base: u64,
    device_path: usize,
    new_image: usize,
)
    ensures
        ({
            let keep = (RecoveryFlow::<Seq<u8>>::Register {
                image_handle,
                base,
                registration: RamDiskRegistration::Register { base, size: BPSIZE_BYTES as u64 },
            }).spec_next(
                RecoveryAnswer::RamDisk(RamDiskAnswer::Registered { status: SUCCESS, device_path }),
            );
            &&& keep.spec_action() == (RecoveryAction::<Seq<u8>>::KeepMemory {
                base,
                bytes: BPSIZE_BYTES,
            })
            &&& keep.spec_next(RecoveryAnswer::Kept) == RecoveryFlow::Start(
                Chainload::<Seq<u8>>::Locate { image_handle, parent_dp: device_path },
            )
        }),
        RecoveryFlow::Start(Chainload::<Seq<u8>>::Start { new_image }).spec_next(
            RecoveryAnswer::Chainload(ChainloadAnswer::Started(Ok(()))),
        ) == RecoveryFlow::<Seq<u8>>::Finished(Ok(())),
{
}

} // verus!
