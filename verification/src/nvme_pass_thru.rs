//! NVMe admin commands as handed to `EFI_NVM_EXPRESS_PASS_THRU_PROTOCOL`.

use vstd::prelude::*;
use crate::efi::Guid;

verus! {

/// Admin opcode of Get Log Page.
pub const OPCODE_GET_LOG_PAGE: u8 = 0x02;

/// Admin opcode of Identify.
pub const OPCODE_IDENTIFY: u8 = 0x06;

/// Identify structure selector of the controller structure.
pub const IDENTIFY_CNS_CONTROLLER: u32 = 0x01;

/// Bytes of an Identify answer.
pub const IDENTIFY_BUFFER_BYTES: usize = 4096;

/// Offset of the maximum data transfer size in the controller structure.
pub const ID_CTRL_OFFSET_MDTS: usize = 77;

/// Log identifier of the boot partition log page.
pub const LID_BOOT_PARTITION: u32 = 0x15;

/// The boot partition log page has a header of this many bytes before the
/// bytes of the image.
pub const LID_BP_HEADER_BYTES: u64 = 16;

/// Command flag: CDW10 is valid.
pub const CMD_FLAG_CDW10_VALID: u8 = 0x04;

/// Command flag: CDW11 is valid.
pub const CMD_FLAG_CDW11_VALID: u8 = 0x08;

/// Command flag: CDW12 is valid.
pub const CMD_FLAG_CDW12_VALID: u8 = 0x10;

/// Command flag: CDW13 is valid.
pub const CMD_FLAG_CDW13_VALID: u8 = 0x20;

/// The admin queue.
pub const QUEUE_TYPE_ADMIN: u8 = 0;

/// Namespace of commands to the controller itself.
pub const NAMESPACE_CONTROLLER: u32 = 0;

/// Five seconds in units of 100 ns.
pub const TIMEOUT_NS_5_SEC: u64 = 50_000_000;

/// Ten seconds in units of 100 ns.
pub const TIMEOUT_NS_10_SEC: u64 = 100_000_000;

/// GUID of `EFI_NVM_EXPRESS_PASS_THRU_PROTOCOL`.
#[verifier::allow_in_spec]
pub fn protocol_guid() -> Guid
    returns
        (Guid {
            time_low: 0x52c78312,
            time_mid: 0x8edc,
            time_hi_and_version: 0x4233,
            clk_seq_hi_res: 0x98,
            clk_seq_low: 0xf2,
            node: [0x1a, 0x1a, 0xa5, 0xe3, 0x88, 0xa5],
        }),
{
    Guid {
        time_low: 0x52c78312,
        time_mid: 0x8edc,
        time_hi_and_version: 0x4233,
        clk_seq_hi_res: 0x98,
        clk_seq_low: 0xf2,
        node: [0x1a, 0x1a, 0xa5, 0xe3, 0x88, 0xa5],
    }
}

/// An NVMe submission queue entry.
#[derive(Clone, Copy, Debug, PartialEq, Eq, Structural)]
pub struct Command {
    pub cdw0: u32,
    pub flags: u8,
    pub nsid: u32,
    pub cdw2: u32,
    pub cdw3: u32,
    pub cdw10: u32,
    pub cdw11: u32,
    pub cdw12: u32,
    pub cdw13: u32,
    pub cdw14: u32,
    pub cdw15: u32,
}

impl Command {
    /// The command with every field zero.
    pub open spec fn zero() -> Command {
        Command {
            cdw0: 0,
            flags: 0,
            nsid: 0,
            cdw2: 0,
            cdw3: 0,
            cdw10: 0,
            cdw11: 0,
            cdw12: 0,
            cdw13: 0,
            cdw14: 0,
            cdw15: 0,
        }
    }

    /// The log page that a Get Log Page command asks for.
    pub open spec fn log_identifier(self) -> int {
        self.cdw10 as int % 0x100
    }

    /// The boot partition that a Get Log Page command asks for.
    pub open spec fn log_specific_field(self) -> int {
        self.cdw10 as int / 0x100 % 0x80
    }

    /// The bytes that a Get Log Page command asks for: the number of dwords,
    /// of which the command holds one less.
    pub open spec fn log_bytes(self) -> int {
        (self.cdw11 % 0x1_0000 * 0x1_0000 + self.cdw10 / 0x1_0000 + 1) * 4
    }

    /// The offset in the log page at which a Get Log Page command starts.
    pub open spec fn log_offset(self) -> int {
        self.cdw13 * 0x1_0000_0000 + self.cdw12
    }
}

impl Default for Command {
    /// The command with every field zero.
    fn default() -> (command: Command)
        ensures
            command == Command::zero(),
    {
        Command {
            cdw0: 0,
            flags: 0,
            nsid: 0,
            cdw2: 0,
            cdw3: 0,
            cdw10: 0,
            cdw11: 0,
            cdw12: 0,
            cdw13: 0,
            cdw14: 0,
            cdw15: 0,
        }
    }
}

/// An NVMe completion queue entry.
#[derive(Clone, Copy, Debug, PartialEq, Eq, Structural)]
pub struct Completion {
    pub dw0: u32,
    pub dw1: u32,
    pub dw2: u32,
    pub dw3: u32,
}

impl Completion {
    /// The completion with every field zero.
    pub open spec fn zero() -> Completion {
        Completion { dw0: 0, dw1: 0, dw2: 0, dw3: 0 }
    }
}

impl Default for Completion {
    /// The completion with every field zero.
    fn default() -> (completion: Completion)
        ensures
            completion == Completion::zero(),
    {
        Completion { dw0: 0, dw1: 0, dw2: 0, dw3: 0 }
    }
}

/// A command packet for the pass-through protocol, less the addresses of its
/// buffers: the platform supplies a transfer buffer of `transfer_length` bytes
/// and no metadata buffer.
#[derive(Clone, Copy, Debug, PartialEq, Eq, Structural)]
pub struct CommandPacket {
    pub command_timeout: u64,
    pub transfer_length: u32,
    pub metadata_length: u32,
    pub queue_type: u8,
    pub nvme_cmd: Command,
    pub nvme_completion: Completion,
}

/// The packet that identifies the controller.
pub open spec fn identify_packet() -> CommandPacket {
    CommandPacket {
        command_timeout: TIMEOUT_NS_5_SEC,
        transfer_length: IDENTIFY_BUFFER_BYTES as u32,
        metadata_length: 0,
        queue_type: QUEUE_TYPE_ADMIN,
        nvme_cmd: Command {
            cdw0: OPCODE_IDENTIFY as u32,
            flags: CMD_FLAG_CDW10_VALID,
            cdw10: IDENTIFY_CNS_CONTROLLER,
            ..Command::zero()
        },
        nvme_completion: Completion::zero(),
    }
}

/// Builds the packet that identifies the controller.
pub fn identify_controller() -> (packet: CommandPacket)
    ensures
        packet == identify_packet(),
{
    let mut cmd = Command::default();
    cmd.cdw0 = OPCODE_IDENTIFY as u32;
    cmd.cdw10 = IDENTIFY_CNS_CONTROLLER;
    cmd.flags = CMD_FLAG_CDW10_VALID;
    CommandPacket {
        command_timeout: TIMEOUT_NS_5_SEC,
        transfer_length: IDENTIFY_BUFFER_BYTES as u32,
        metadata_length: 0,
        queue_type: QUEUE_TYPE_ADMIN,
        nvme_cmd: cmd,
        nvme_completion: Completion::default(),
    }
}

/// The Get Log Page command for boot partition `bp_id` that starts `offset`
/// bytes into the log page and asks for one dword more than `numd`.
pub open spec fn log_page_command(bp_id: u8, offset: u64, numd: u32) -> Command {
    Command {
        cdw0: OPCODE_GET_LOG_PAGE as u32,
        flags: 0x3C,
        cdw10: (numd % 0x1_0000 * 0x1_0000 + bp_id % 0x80 * 0x100 + LID_BOOT_PARTITION) as u32,
        cdw11: numd / 0x1_0000,
        cdw12: (offset % 0x1_0000_0000) as u32,
        cdw13: (offset / 0x1_0000_0000) as u32,
        ..Command::zero()
    }
}

/// The packet that reads `read_bytes` bytes of the image on boot partition
/// `bp_id`, from `bp_off` on. The numbers are cut to the width of the fields.
pub open spec fn log_page_packet(bp_id: u8, bp_off: u64, read_bytes: usize) -> CommandPacket {
    CommandPacket {
        command_timeout: TIMEOUT_NS_10_SEC,
        transfer_length: read_bytes as u32,
        metadata_length: 0,
        queue_type: QUEUE_TYPE_ADMIN,
        nvme_cmd: log_page_command(
            bp_id,
            (LID_BP_HEADER_BYTES + bp_off) as u64,
            (read_bytes / 4 - 1) as u32,
        ),
        nvme_completion: Completion::zero(),
    }
}

/// Builds the packet that reads `read_bytes` bytes of the image on boot
/// partition `bp_id`, from `bp_off` on.
pub fn get_log_page(bp_id: u8, bp_off: u64, read_bytes: usize) -> (packet: CommandPacket)
    requires
        read_bytes >= 4,
        LID_BP_HEADER_BYTES + bp_off <= u64::MAX,
    ensures
        packet == log_page_packet(bp_id, bp_off, read_bytes),
{
    let lpol: u64 = LID_BP_HEADER_BYTES + bp_off;
    let numd: u32 = #[verifier::truncate] ((read_bytes / 4 - 1) as u32);
    let transfer_length: u32 = #[verifier::truncate] (read_bytes as u32);
    let mut cmd = Command::default();
    cmd.cdw0 = OPCODE_GET_LOG_PAGE as u32;
    cmd.cdw10 = ((numd & 0xFFFF) << 16) | (((bp_id as u32) & 0x7F) << 8) | LID_BOOT_PARTITION;
    cmd.cdw11 = (numd >> 16) & 0xFFFF;
    cmd.cdw12 = (lpol & 0xFFFF_FFFF) as u32;
    cmd.cdw13 = ((lpol >> 32) & 0xFFFF_FFFF) as u32;
    cmd.flags = CMD_FLAG_CDW10_VALID | CMD_FLAG_CDW11_VALID | CMD_FLAG_CDW12_VALID
        | CMD_FLAG_CDW13_VALID;
    proof {
        assert(0x04u8 | 0x08u8 | 0x10u8 | 0x20u8 == 0x3Cu8) by (bit_vector);
        let id = bp_id as u32;
        assert(((numd & 0xFFFF) << 16) | ((id & 0x7F) << 8) | 0x15u32 == numd % 0x1_0000
            * 0x1_0000 + id % 0x80 * 0x100 + 0x15) by (bit_vector)
            requires
                id < 256,
        ;
        assert((numd >> 16) & 0xFFFF == numd / 0x1_0000) by (bit_vector);
        assert(lpol & 0xFFFF_FFFF == lpol % 0x1_0000_0000) by (bit_vector);
        assert((lpol >> 32) & 0xFFFF_FFFF == lpol / 0x1_0000_0000) by (bit_vector);
    }
    CommandPacket {
        command_timeout: TIMEOUT_NS_10_SEC,
        transfer_length,
        metadata_length: 0,
        queue_type: QUEUE_TYPE_ADMIN,
        nvme_cmd: cmd,
        nvme_completion: Completion::default(),
    }
}

/// A boot partition read, of whichever partition, skips the header of the log
/// page and asks for exactly the bytes that the transfer buffer holds.
pub proof fn log_page_packet_extent(bp_id: u8, bp_off: u64, read_bytes: usize)
    requires
        4 <= read_bytes <= u32::MAX,
        read_bytes % 4 == 0,
        LID_BP_HEADER_BYTES + bp_off <= u64::MAX,
    ensures
        ({
            let packet = log_page_packet(bp_id, bp_off, read_bytes);
            &&& packet.transfer_length == read_bytes
            &&& packet.nvme_cmd.log_bytes() == read_bytes
            &&& packet.nvme_cmd.log_offset() == LID_BP_HEADER_BYTES + bp_off
        }),
{
}

/// A boot partition read asks for the boot partition log page of the right
/// partition, whose number has seven bits in the command.
pub proof fn log_page_packet_fields(bp_id: u8, bp_off: u64, read_bytes: usize)
    requires
        bp_id < 0x80,
    ensures
        ({
            let packet = log_page_packet(bp_id, bp_off, read_bytes);
            &&& packet.nvme_cmd.log_identifier() == LID_BOOT_PARTITION
            &&& packet.nvme_cmd.log_specific_field() == bp_id
        }),
{
}

/// A boot partition read is a command that the controller takes as one: it goes
/// to the admin queue (0) within ten seconds, without metadata, has the opcode
/// of Get Log Page (2), and says that dwords 10 to 13 of it (0x04, 0x08, 0x10
/// and 0x20) and no other hold something. It asks for log page 0x15 of the
/// partition by its low seven bits, from 16 bytes after `bp_off` on.
pub proof fn log_page_packet_by_number(bp_id: u8, bp_off: u64, read_bytes: usize)
    requires
        read_bytes >= 4,
        16 + bp_off <= u64::MAX,
    ensures
        ({
            let packet = log_page_packet(bp_id, bp_off, read_bytes);
            let cmd = packet.nvme_cmd;
            &&& packet.queue_type == 0
            &&& packet.command_timeout == 100_000_000
            &&& packet.metadata_length == 0
            &&& cmd.cdw0 == 2
            &&& cmd.flags == 0x04 + 0x08 + 0x10 + 0x20
            &&& cmd.cdw10 % 0x100 == 0x15
            &&& cmd.cdw10 / 0x100 % 0x100 == bp_id % 0x80
            &&& cmd.cdw12 + 0x1_0000_0000 * cmd.cdw13 == 16 + bp_off
            &&& cmd.nsid == 0 && cmd.cdw2 == 0 && cmd.cdw3 == 0
            &&& cmd.cdw14 == 0 && cmd.cdw15 == 0
            &&& packet.nvme_completion == (Completion { dw0: 0, dw1: 0, dw2: 0, dw3: 0 })
            &&& read_bytes <= u32::MAX ==> {
                &&& packet.transfer_length == read_bytes
                &&& cmd.cdw11 < 0x1_0000
                &&& 4 * (cmd.cdw10 / 0x1_0000 + 0x1_0000 * cmd.cdw11 + 1) == read_bytes
                    - read_bytes % 4
            }
        }),
{
}

/// The controller is identified by a command that it takes as one: it goes to
/// the admin queue (0) within five seconds, without metadata and with a buffer
/// of 4096 bytes, has the opcode of Identify (6), and says that dword 10 (0x04)
/// and no other holds something, namely 1 for the controller structure.
pub proof fn identify_packet_by_number()
    ensures
        identify_packet() == (CommandPacket {
            command_timeout: 50_000_000,
            transfer_length: 4096,
            metadata_length: 0,
            queue_type: 0,
            nvme_cmd: Command {
                cdw0: 6,
                flags: 0x04,
                nsid: 0,
                cdw2: 0,
                cdw3: 0,
                cdw10: 1,
                cdw11: 0,
                cdw12: 0,
                cdw13: 0,
                cdw14: 0,
                cdw15: 0,
            },
            nvme_completion: Completion { dw0: 0, dw1: 0, dw2: 0, dw3: 0 },
        }),
{
}

/// Of a read that is longer than the fields hold, they hold the low bits: the
/// buffer is told by its size up to a multiple of 0x100000000, and the dwords,
/// less one, likewise.
pub proof fn log_page_packet_is_cut(bp_id: u8, bp_off: u64, read_bytes: usize)
    requires
        read_bytes >= 4,
    ensures
        ({
            let packet = log_page_packet(bp_id, bp_off, read_bytes);
            let cmd = packet.nvme_cmd;
            let dwords = read_bytes as int / 4;
            &&& packet.transfer_length == read_bytes as int % 0x1_0000_0000
            &&& cmd.cdw11 < 0x1_0000
            &&& cmd.cdw10 / 0x1_0000 + 0x1_0000 * cmd.cdw11 == (dwords - 1) % 0x1_0000_0000
        }),
{
    let bytes = read_bytes as u64;
    let numd = (read_bytes as int / 4 - 1) as u64;
    assert(bytes as u32 == bytes % 0x1_0000_0000) by (bit_vector);
    assert(numd as u32 == numd % 0x1_0000_0000) by (bit_vector);
}

} // verus!
