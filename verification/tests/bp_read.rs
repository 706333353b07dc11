use patina_sre::bp_read::{
    probe_max_transfer, read_bp_via_log_page, BpAction, READ_CHUNK_DEFAULT, READ_CHUNK_MAX,
    READ_CHUNK_MIN,
};
use patina_sre::efi::{EfiError, SUCCESS};
use patina_sre::nvme_pass_thru::{
    get_log_page, identify_controller, Command, CommandPacket, Completion, IDENTIFY_BUFFER_BYTES,
    IDENTIFY_CNS_CONTROLLER, ID_CTRL_OFFSET_MDTS, LID_BOOT_PARTITION, LID_BP_HEADER_BYTES,
    OPCODE_GET_LOG_PAGE, OPCODE_IDENTIFY, QUEUE_TYPE_ADMIN, TIMEOUT_NS_10_SEC, TIMEOUT_NS_5_SEC,
};
use r_efi::efi;

fn device_error() -> usize {
    efi::Status::DEVICE_ERROR.as_usize()
}

fn identify_with_mdts(mdts: u8) -> Vec<u8> {
    let mut identify = vec![0u8; IDENTIFY_BUFFER_BYTES];
    identify[ID_CTRL_OFFSET_MDTS] = mdts;
    identify
}

fn log_offset(command: &Command) -> u64 {
    (command.cdw12 as u64) | ((command.cdw13 as u64) << 32)
}

/// Reads `dest` from a controller with this log page; a read at `fails_at`
/// bytes fails. Gives the result and the packets.
fn read(
    bp_id: u8,
    chunk: usize,
    dest: &mut [u8],
    log_page: &[u8],
    fails_at: Option<usize>,
) -> (Result<(), EfiError>, Vec<CommandPacket>) {
    let mut reader = read_bp_via_log_page(bp_id, chunk, dest.len());
    let mut packets = Vec::new();
    loop {
        match reader.action() {
            BpAction::PassThru { namespace_id, dest_offset, read_bytes, packet } => {
                assert_eq!(namespace_id, 0);
                packets.push(packet);
                if fails_at == Some(dest_offset) {
                    reader = reader.advance(device_error());
                    continue;
                }
                let cmd = packet.nvme_cmd;
                let count =
                    ((((cmd.cdw11 as usize) << 16) | (cmd.cdw10 >> 16) as usize) + 1) * 4;
                assert_eq!(count, read_bytes);
                let from = log_offset(&cmd) as usize;
                dest[dest_offset..dest_offset + count].copy_from_slice(&log_page[from..from + count]);
                reader = reader.advance(SUCCESS);
            }
            BpAction::Finished(result) => return (result, packets),
        }
    }
}

#[test]
fn test_probe_max_transfer_mdts_7_yields_512_kib() {
    let packet = identify_controller();
    let chunk = probe_max_transfer(SUCCESS, &identify_with_mdts(7));
    // 128 pages of 4096 bytes are 512 KiB, the upper bound.
    assert_eq!(chunk, 512 * 1024);
    assert_eq!(packet.nvme_cmd.cdw0 & 0xFF, OPCODE_IDENTIFY as u32);
    assert_eq!(packet.nvme_cmd.cdw10, IDENTIFY_CNS_CONTROLLER);
}

#[test]
fn test_probe_max_transfer_mdts_0_yields_chunk_max() {
    let chunk = probe_max_transfer(SUCCESS, &identify_with_mdts(0));
    assert_eq!(chunk, READ_CHUNK_MAX, "MDTS=0 (no limit) clamps to self-imposed ceiling");
}

#[test]
fn test_probe_max_transfer_mdts_low_clamps_to_min() {
    // 8 pages of 4096 bytes are 32 KiB, below the lower bound.
    let chunk = probe_max_transfer(SUCCESS, &identify_with_mdts(3));
    assert_eq!(chunk, READ_CHUNK_MIN, "below floor clamps to READ_CHUNK_MIN");
}

#[test]
fn test_probe_max_transfer_identify_failure_uses_default() {
    let chunk = probe_max_transfer(device_error(), &identify_with_mdts(7));
    assert_eq!(chunk, READ_CHUNK_DEFAULT);
}

#[test]
fn transfer_limits_between_the_bounds_are_kept() {
    assert_eq!(probe_max_transfer(SUCCESS, &identify_with_mdts(4)), 64 * 1024);
    assert_eq!(probe_max_transfer(SUCCESS, &identify_with_mdts(5)), 128 * 1024);
    assert_eq!(probe_max_transfer(SUCCESS, &identify_with_mdts(6)), 256 * 1024);
    for mdts in [8, 51, 52, 63, 64, 255] {
        assert_eq!(probe_max_transfer(SUCCESS, &identify_with_mdts(mdts)), READ_CHUNK_MAX);
    }
}

#[test]
fn identify_packet_is_complete() {
    let packet = identify_controller();
    assert_eq!(packet.command_timeout, TIMEOUT_NS_5_SEC);
    assert_eq!(packet.transfer_length, 4096);
    assert_eq!(packet.metadata_length, 0);
    assert_eq!(packet.queue_type, QUEUE_TYPE_ADMIN);
    assert_eq!(packet.nvme_cmd, Command { cdw0: 6, flags: 4, cdw10: 1, ..Command::default() });
    assert_eq!(packet.nvme_completion, Completion::default());
}

#[test]
fn test_read_bp_via_log_page_single_chunk_skips_lid_header() {
    let mut dest = [0u8; 64 * 1024];
    let log_page = vec![0xA5u8; LID_BP_HEADER_BYTES as usize + 64 * 1024];
    let (result, packets) = read(1, 64 * 1024, &mut dest, &log_page, None);
    assert!(result.is_ok());
    assert_eq!(packets.len(), 1);
    assert_eq!(log_offset(&packets[0].nvme_cmd), LID_BP_HEADER_BYTES);
    let cdw10 = packets[0].nvme_cmd.cdw10;
    assert_eq!(cdw10 & 0xFF, LID_BOOT_PARTITION, "LID byte");
    assert_eq!((cdw10 >> 8) & 0x7F, 1, "BPID in LSP");
    assert_eq!(packets[0].transfer_length, 64 * 1024);
    assert_eq!(dest[0], 0xA5, "destination buffer was populated");
}

#[test]
fn test_read_bp_via_log_page_propagates_failure() {
    let mut dest = [0u8; 64 * 1024];
    let log_page = vec![0u8; 16 + 64 * 1024];
    let (result, _) = read(1, 64 * 1024, &mut dest, &log_page, Some(0));
    assert!(result.is_err());
}

#[test]
fn chunks_fill_the_destination_with_the_image() {
    let log_page: Vec<u8> = (0..16 + 1000u32).map(|i| (i % 251) as u8).collect();
    let mut dest = [0u8; 1000];
    let (result, packets) = read(1, 96, &mut dest, &log_page, None);
    assert_eq!(result, Ok(()));
    assert_eq!(packets.len(), 11);
    // Ten chunks of 96 bytes and one of 40.
    assert_eq!(packets[10].transfer_length, 40);
    assert_eq!(log_offset(&packets[10].nvme_cmd), 16 + 960);
    assert_eq!(&dest[..], &log_page[16..]);
}

#[test]
fn reads_fill_the_destination_for_every_partition_number() {
    let log_page: Vec<u8> = (0..16 + 200u32).map(|i| i as u8).collect();
    for bp_id in [0, 1, 0x7F, 0x80, 0x81, 0xFF] {
        let mut dest = [0u8; 200];
        let (result, packets) = read(bp_id, 64, &mut dest, &log_page, None);
        assert_eq!((result, packets.len()), (Ok(()), 4));
        assert_eq!(&dest[..], &log_page[16..]);
        // The number of the partition is cut to seven bits.
        assert_eq!((packets[0].nvme_cmd.cdw10 >> 8) & 0xFF, (bp_id & 0x7F) as u32);
    }
}

#[test]
fn failed_read_is_the_last() {
    let log_page = vec![7u8; 16 + 400];
    let mut dest = [0u8; 400];
    let (result, packets) = read(1, 100, &mut dest, &log_page, Some(200));
    assert_eq!(result, Err(EfiError::Named(device_error())));
    assert_eq!(packets.len(), 3);
    assert!(dest[200..].iter().all(|&byte| byte == 0));
}

#[test]
fn nothing_to_read_is_a_success() {
    let (result, packets) = read(1, 0, &mut [], &[], None);
    assert_eq!(result, Ok(()));
    assert!(packets.is_empty());
}

#[test]
fn large_reads_use_the_upper_halves() {
    // 512 KiB are 0x20000 dwords; the command holds one less.
    let packet = get_log_page(0x81, 0x3FF8_0000, 512 * 1024);
    assert_eq!(packet.command_timeout, TIMEOUT_NS_10_SEC);
    assert_eq!(packet.transfer_length, 512 * 1024);
    assert_eq!(
        packet.nvme_cmd,
        Command {
            cdw0: OPCODE_GET_LOG_PAGE as u32,
            flags: 0x3C,
            // The partition is cut to seven bits.
            cdw10: 0xFFFF_0115,
            cdw11: 1,
            cdw12: 0x3FF8_0010,
            ..Command::default()
        }
    );
}
