//! Chunked reads of an NVMe boot partition through its log page.

use vstd::prelude::*;
use vstd::arithmetic::power2::pow2;
use crate::efi::{EfiError, SUCCESS};
use crate::nvme_pass_thru::{
    CommandPacket, ID_CTRL_OFFSET_MDTS, LID_BP_HEADER_BYTES, NAMESPACE_CONTROLLER, get_log_page,
    log_page_packet, log_page_packet_by_number,
};

verus! {

/// The boot partition that holds the recovery payload.
pub const TARGET_BPID: u8 = 1;

/// Bytes of a boot partition: 1 GiB.
pub const BPSIZE_BYTES: usize = 0x4000_0000;

/// Lower bound of a chunk: 64 KiB.
pub const READ_CHUNK_MIN: usize = 0x1_0000;

/// Upper bound of a chunk: 512 KiB.
pub const READ_CHUNK_MAX: usize = 0x8_0000;

/// The chunk for a controller that could not be identified: 64 KiB.
pub const READ_CHUNK_DEFAULT: usize = 0x1_0000;

/// Bytes of the controller's memory page, the unit of its transfer limit.
pub const CONTROLLER_PAGE_BYTES: usize = 4096;

/// The number nearest to `value` from `low` to `high`.
pub open spec fn clamped(value: int, low: int, high: int) -> int {
    if value < low {
        low
    } else if value > high {
        high
    } else {
        value
    }
}

/// The chunk to read by, given how identifying the controller ended and what
/// it answered. The controller tells its transfer limit as a power of two of
/// pages, where 0 means that there is no limit.
pub open spec fn max_transfer(status: usize, identify: Seq<u8>) -> int {
    let mdts = identify[ID_CTRL_OFFSET_MDTS as int];
    if status != SUCCESS {
        READ_CHUNK_DEFAULT as int
    } else if mdts == 0 {
        READ_CHUNK_MAX as int
    } else {
        clamped(
            pow2(mdts as nat) * CONTROLLER_PAGE_BYTES,
            READ_CHUNK_MIN as int,
            READ_CHUNK_MAX as int,
        )
    }
}

/// The limits that the chunk bounds stand for, as powers of two of pages.
proof fn lemma_chunk_bounds(mdts: nat)
    ensures
        mdts <= 4 ==> pow2(mdts) * CONTROLLER_PAGE_BYTES <= READ_CHUNK_MIN,
        mdts == 5 ==> pow2(mdts) * CONTROLLER_PAGE_BYTES == 0x2_0000,
        mdts == 6 ==> pow2(mdts) * CONTROLLER_PAGE_BYTES == 0x4_0000,
        mdts >= 7 ==> pow2(mdts) * CONTROLLER_PAGE_BYTES >= READ_CHUNK_MAX,
{
    vstd::arithmetic::power2::lemma2_to64();
    if mdts < 4 {
        vstd::arithmetic::power2::lemma_pow2_strictly_increases(mdts, 4);
    }
    if mdts > 7 {
        vstd::arithmetic::power2::lemma_pow2_strictly_increases(7, mdts);
    }
}

/// Picks the chunk to read by from the answer to identifying the controller:
/// the controller's transfer limit, clamped to 64 KiB through 512 KiB, or
/// 64 KiB if identifying failed.
pub fn probe_max_transfer(status: usize, identify: &[u8]) -> (chunk: usize)
    requires
        identify@.len() > ID_CTRL_OFFSET_MDTS,
    ensures
        chunk == max_transfer(status, identify@),
{
    if status != SUCCESS {
        return READ_CHUNK_DEFAULT;
    }
    let mdts: u8 = identify[ID_CTRL_OFFSET_MDTS];
    proof {
        lemma_chunk_bounds(mdts as nat);
    }
    if mdts == 0 || mdts >= 7 {
        return READ_CHUNK_MAX;
    }
    let pages: u64 = 1u64 << (mdts as u64);
    proof {
        vstd::bits::lemma_u64_shl_is_mul(1, mdts as u64);
        vstd::arithmetic::power2::lemma2_to64();
        vstd::arithmetic::power2::lemma_pow2_strictly_increases(mdts as nat, 7);
    }
    let limit: usize = pages as usize * CONTROLLER_PAGE_BYTES;
    if limit < READ_CHUNK_MIN {
        READ_CHUNK_MIN
    } else if limit > READ_CHUNK_MAX {
        READ_CHUNK_MAX
    } else {
        limit
    }
}

/// The chunk is always one of four sizes, from 64 KiB to 512 KiB, each of
/// which is made of whole dwords and divides the size of a boot partition.
pub proof fn max_transfer_divides_partition(status: usize, identify: Seq<u8>)
    ensures
        READ_CHUNK_MIN <= max_transfer(status, identify) <= READ_CHUNK_MAX,
        BPSIZE_BYTES as int % max_transfer(status, identify) == 0,
        max_transfer(status, identify) % 4 == 0,
{
    lemma_chunk_bounds(identify[ID_CTRL_OFFSET_MDTS as int] as nat);
    let chunk = max_transfer(status, identify);
    assert(chunk == 0x1_0000 || chunk == 0x2_0000 || chunk == 0x4_0000 || chunk == 0x8_0000);
    assert(0x4000_0000int % 0x1_0000 == 0);
    assert(0x4000_0000int % 0x2_0000 == 0);
    assert(0x4000_0000int % 0x4_0000 == 0);
    assert(0x4000_0000int % 0x8_0000 == 0);
}

/// A read of the boot partition to make, or the end of the reads.
#[derive(Clone, Copy, Debug, PartialEq, Eq)]
pub enum BpAction {
    /// Send `packet` to `namespace_id`, with the transfer buffer made of the
    /// `read_bytes` bytes of the destination from `dest_offset` on.
    PassThru {
        namespace_id: u32,
        dest_offset: usize,
        read_bytes: usize,
        packet: CommandPacket,
    },
    /// Nothing is left to do; this is the result.
    Finished(Result<(), EfiError>),
}

/// Whether a destination of `dest_len` bytes can be filled by chunks of
/// `chunk_bytes`: each read, the last one too, asks for a dword at least.
pub open spec fn is_readable(chunk_bytes: usize, dest_len: usize) -> bool {
    ||| dest_len == 0
    ||| chunk_bytes >= 4 && (dest_len % chunk_bytes == 0 || dest_len % chunk_bytes >= 4)
}

/// The chunked reads of a boot partition.
#[derive(Clone, Copy, Debug, PartialEq, Eq)]
pub struct BpReader {
    /// The boot partition to read.
    pub bp_id: u8,
    /// The bytes that one read asks for, but for a shorter last one.
    pub chunk_bytes: usize,
    /// The bytes to read in all.
    pub dest_len: usize,
    /// The bytes that were read.
    pub bp_off: usize,
    /// The error that ended the reads, if one did.
    pub failure: Option<EfiError>,
}

/// Starts to read the first `dest_len` bytes of the image on boot partition
/// `bp_id` in chunks of `chunk_bytes`.
pub fn read_bp_via_log_page(bp_id: u8, chunk_bytes: usize, dest_len: usize) -> (run: BpReadRun)
    requires
        is_readable(chunk_bytes, dest_len),
        dest_len <= isize::MAX,
    ensures
        run@ == BpReader::start(bp_id, chunk_bytes, dest_len),
{
    BpReadRun { reader: BpReader::new(bp_id, chunk_bytes, dest_len) }
}

impl BpReader {
    /// The reader that has read nothing yet.
    pub open spec fn start(bp_id: u8, chunk_bytes: usize, dest_len: usize) -> BpReader {
        BpReader { bp_id, chunk_bytes, dest_len, bp_off: 0, failure: None }
    }

    /// What every step keeps: the reads stop at chunk boundaries or at the end
    /// of the destination, which no read passes.
    pub open spec fn wf(self) -> bool {
        &&& is_readable(self.chunk_bytes, self.dest_len)
        &&& self.dest_len <= isize::MAX
        &&& self.bp_off <= self.dest_len
        &&& self.bp_off < self.dest_len ==> self.bp_off % self.chunk_bytes == 0
    }

    /// The bytes of the next read.
    pub open spec fn read_bytes(self) -> int {
        if self.dest_len - self.bp_off < self.chunk_bytes {
            self.dest_len - self.bp_off
        } else {
            self.chunk_bytes as int
        }
    }

    /// The read to make next.
    pub open spec fn spec_action(self) -> BpAction {
        if self.failure is Some {
            BpAction::Finished(Err(self.failure->0))
        } else if self.bp_off < self.dest_len {
            BpAction::PassThru {
                namespace_id: NAMESPACE_CONTROLLER,
                dest_offset: self.bp_off,
                read_bytes: self.read_bytes() as usize,
                packet: log_page_packet(
                    self.bp_id,
                    self.bp_off as u64,
                    self.read_bytes() as usize,
                ),
            }
        } else {
            BpAction::Finished(Ok(()))
        }
    }

    /// What follows from the status that the read ended with.
    pub open spec fn spec_next(self, status: usize) -> BpReader {
        if status == SUCCESS {
            BpReader { bp_off: (self.bp_off + self.read_bytes()) as usize, ..self }
        } else {
            BpReader { failure: Some(EfiError::of_status(status)), ..self }
        }
    }

    /// Short of the end, a read asks for a dword at least.
    proof fn lemma_read_is_not_short(self)
        requires
            self.wf(),
            self.bp_off < self.dest_len,
        ensures
            self.chunk_bytes >= 4,
            4 <= self.read_bytes() <= self.dest_len - self.bp_off,
    {
        let (off, len, chunk) = (self.bp_off as int, self.dest_len as int, self.chunk_bytes as int);
        if len - off < chunk {
            vstd::arithmetic::div_mod::lemma_fundamental_div_mod(off, chunk);
            vstd::arithmetic::div_mod::lemma_fundamental_div_mod_converse(
                len,
                chunk,
                off / chunk,
                len - off,
            );
        }
    }

    /// A read leaves the reader at a chunk boundary or at the end, and nearer
    /// to it if the read succeeded.
    pub proof fn next_is_wf(self, status: usize)
        requires
            self.wf(),
            self.bp_off < self.dest_len,
        ensures
            self.spec_next(status).wf(),
            status == SUCCESS ==> self.bp_off < self.spec_next(status).bp_off <= self.dest_len,
    {
        self.lemma_read_is_not_short();
        let (off, chunk) = (self.bp_off as int, self.chunk_bytes as int);
        vstd::arithmetic::div_mod::lemma_mod_add_multiples_vanish(off, chunk);
    }

    /// The reader that has read nothing yet.
    pub(crate) fn new(bp_id: u8, chunk_bytes: usize, dest_len: usize) -> (reader: BpReader)
        requires
            is_readable(chunk_bytes, dest_len),
            dest_len <= isize::MAX,
        ensures
            reader == BpReader::start(bp_id, chunk_bytes, dest_len),
            reader.wf(),
    {
        proof {
            if dest_len > 0 {
                vstd::arithmetic::div_mod::lemma_small_mod(0, chunk_bytes as nat);
            }
        }
        BpReader { bp_id, chunk_bytes, dest_len, bp_off: 0, failure: None }
    }

    /// The bytes of the next read.
    fn next_read_bytes(&self) -> (count: usize)
        requires
            self.wf(),
        ensures
            count == self.read_bytes(),
    {
        let remaining: usize = self.dest_len - self.bp_off;
        if remaining < self.chunk_bytes {
            remaining
        } else {
            self.chunk_bytes
        }
    }

    /// The read to make next.
    pub(crate) fn action(&self) -> (action: BpAction)
        requires
            self.wf(),
        ensures
            action == self.spec_action(),
    {
        match self.failure {
            Some(error) => BpAction::Finished(Err(error)),
            None => {
                if self.bp_off < self.dest_len {
                    proof {
                        self.lemma_read_is_not_short();
                    }
                    let read_bytes: usize = self.next_read_bytes();
                    BpAction::PassThru {
                        namespace_id: NAMESPACE_CONTROLLER,
                        dest_offset: self.bp_off,
                        read_bytes,
                        packet: get_log_page(self.bp_id, self.bp_off as u64, read_bytes),
                    }
                } else {
                    BpAction::Finished(Ok(()))
                }
            },
        }
    }

    /// Takes the status that the read ended with.
    pub(crate) fn advance(&mut self, status: usize)
        requires
            old(self).wf(),
            old(self).spec_action() is PassThru,
        ensures
            final(self).wf(),
            *final(self) == old(self).spec_next(status),
    {
        proof {
            self.lemma_read_is_not_short();
            self.next_is_wf(status);
        }
        if status == SUCCESS {
            self.bp_off = self.bp_off + self.next_read_bytes();
        } else {
            self.failure = Some(EfiError::from_status(status));
        }
    }
}

/// The chunked reads of a boot partition under way.
#[derive(Debug)]
pub struct BpReadRun {
    reader: BpReader,
}

impl View for BpReadRun {
    type V = BpReader;

    closed spec fn view(&self) -> BpReader {
        self.reader
    }
}

impl BpReadRun {
    /// The reads stop at chunk boundaries or at the end of the destination.
    #[verifier::type_invariant]
    closed spec fn well_formed(self) -> bool {
        self.reader.wf()
    }

    /// The read to make next.
    pub fn action(&self) -> (action: BpAction)
        ensures
            action == self@.spec_action(),
    {
        proof {
            use_type_invariant(self);
        }
        self.reader.action()
    }

    /// Takes the status that the read ended with.
    pub fn advance(self, status: usize) -> (next: BpReadRun)
        requires
            self@.spec_action() is PassThru,
        ensures
            next@ == self@.spec_next(status),
    {
        proof {
            use_type_invariant(&self);
        }
        let mut reader = self.reader;
        reader.advance(status);
        BpReadRun { reader }
    }
}

/// The destination `dest` after `source`, from `log_offset` on, was copied to
/// the `count` bytes from `dest_offset` on.
pub open spec fn transferred(
    dest: Seq<u8>,
    dest_offset: int,
    source: Seq<u8>,
    log_offset: int,
    count: int,
) -> Seq<u8> {
    dest.take(dest_offset) + source.subrange(log_offset, log_offset + count) + dest.skip(
        dest_offset + count,
    )
}

/// What a controller makes of a command: the destination `dest` after `packet`
/// was sent to `namespace_id` with the `room` bytes from `dest_offset` on as its
/// transfer buffer. The controller has a boot partition log page for each
/// partition number. It copies what the command asks for, but only if it takes
/// the command as a read of that log page: to the controller itself (namespace
/// 0), through the admin queue (0), with the opcode of Get Log Page (2), with
/// dwords 10 to 13 marked as valid (0x3C), for log page 0x15, and with a buffer
/// of just the size that is asked for. It leaves the destination alone if not.
pub open spec fn served(
    dest: Seq<u8>,
    dest_offset: int,
    room: int,
    namespace_id: u32,
    packet: CommandPacket,
    log_pages: spec_fn(int) -> Seq<u8>,
) -> Seq<u8> {
    let cmd = packet.nvme_cmd;
    let count = 4 * (cmd.cdw10 as int / 0x1_0000 + 0x1_0000 * cmd.cdw11 + 1);
    let start = cmd.cdw12 + 0x1_0000_0000 * cmd.cdw13;
    let log_page = log_pages(cmd.cdw10 as int / 0x100 % 0x80);
    if namespace_id == 0 && packet.queue_type == 0 && packet.metadata_length == 0 && cmd.cdw0 == 2
        && cmd.flags == 0x3C && cmd.cdw10 as int % 0x100 == 0x15 && packet.transfer_length == count
        && count == room && start + count <= log_page.len() {
        transferred(dest, dest_offset, log_page, start, count)
    } else {
        dest
    }
}

/// The destination after `reader` has run to its end against a controller with
/// these boot partition log pages, whose every read succeeds.
pub open spec fn filled_from(
    reader: BpReader,
    dest: Seq<u8>,
    log_pages: spec_fn(int) -> Seq<u8>,
) -> Seq<u8>
    decreases reader.dest_len - reader.bp_off,
    when reader.wf() && reader.failure is None
    via filled_decreases
{
    match reader.spec_action() {
        BpAction::PassThru { namespace_id, dest_offset, read_bytes, packet } => filled_from(
            reader.spec_next(SUCCESS),
            served(dest, dest_offset as int, read_bytes as int, namespace_id, packet, log_pages),
            log_pages,
        ),
        BpAction::Finished(_) => dest,
    }
}

#[via_fn]
proof fn filled_decreases(
    reader: BpReader,
    dest: Seq<u8>,
    log_pages: spec_fn(int) -> Seq<u8>,
) {
    if reader.bp_off < reader.dest_len {
        reader.lemma_read_is_not_short();
    }
}

/// The destination after `reader` has run to its end against a controller
/// whose every boot partition log page is `log_page` and whose every read
/// succeeds.
pub open spec fn filled(reader: BpReader, dest: Seq<u8>, log_page: Seq<u8>) -> Seq<u8> {
    filled_from(reader, dest, |partition: int| log_page)
}

/// A read of the `count` bytes from `offset` on keeps what was filled before,
/// and what it fills and what is left make up what was left before.
proof fn lemma_transferred(
    dest: Seq<u8>,
    offset: int,
    source: Seq<u8>,
    start: int,
    count: int,
    end: int,
)
    requires
        0 <= offset,
        0 <= count,
        offset + count <= dest.len(),
        0 <= start,
        start + offset + count <= end <= source.len(),
    ensures
        ({
            let after = transferred(dest, offset, source, start + offset, count);
            &&& after.len() == dest.len()
            &&& after.take(offset + count) + source.subrange(start + offset + count, end)
                == dest.take(offset) + source.subrange(start + offset, end)
        }),
{
    let after = transferred(dest, offset, source, start + offset, count);
    assert(after.take(offset + count) + source.subrange(start + offset + count, end) =~= dest.take(
        offset,
    ) + source.subrange(start + offset, end));
}

/// A packet that is a read of the log page in every field is served.
proof fn lemma_packet_is_served(
    packet: CommandPacket,
    partition: int,
    start: int,
    count: int,
    dest: Seq<u8>,
    dest_offset: int,
    log_pages: spec_fn(int) -> Seq<u8>,
)
    requires
        packet.queue_type == 0,
        packet.metadata_length == 0,
        packet.nvme_cmd.cdw0 == 2,
        packet.nvme_cmd.flags == 0x3C,
        packet.nvme_cmd.cdw10 % 0x100 == 0x15,
        packet.nvme_cmd.cdw10 / 0x100 % 0x100 == partition,
        0 <= partition < 0x80,
        packet.nvme_cmd.cdw12 + 0x1_0000_0000 * packet.nvme_cmd.cdw13 == start,
        packet.transfer_length == count,
        4 * (packet.nvme_cmd.cdw10 / 0x1_0000 + 0x1_0000 * packet.nvme_cmd.cdw11 + 1) == count,
        start + count <= log_pages(partition).len(),
    ensures
        served(dest, dest_offset, count, 0, packet, log_pages) == transferred(
            dest,
            dest_offset,
            log_pages(partition),
            start,
            count,
        ),
{
    assert(packet.nvme_cmd.cdw10 as int / 0x100 % 0x80 == partition);
}

/// A read of whole dwords is served as it is asked for.
pub proof fn read_is_served(
    reader: BpReader,
    dest: Seq<u8>,
    log_pages: spec_fn(int) -> Seq<u8>,
)
    requires
        reader.wf(),
        reader.failure is None,
        reader.bp_off < reader.dest_len,
        reader.chunk_bytes <= u32::MAX,
        reader.chunk_bytes % 4 == 0,
        reader.dest_len % 4 == 0,
        reader.bp_off % 4 == 0,
        dest.len() == reader.dest_len,
        log_pages(reader.bp_id as int % 0x80).len() >= 16 + reader.dest_len,
    ensures
        ({
            let count = if reader.dest_len - reader.bp_off < reader.chunk_bytes {
                reader.dest_len - reader.bp_off
            } else {
                reader.chunk_bytes as int
            };
            &&& reader.spec_action() matches BpAction::PassThru {
                namespace_id,
                dest_offset,
                read_bytes,
                packet,
            } && served(
                dest,
                dest_offset as int,
                read_bytes as int,
                namespace_id,
                packet,
                log_pages,
            ) == transferred(
                dest,
                reader.bp_off as int,
                log_pages(reader.bp_id as int % 0x80),
                16 + reader.bp_off,
                count,
            )
            &&& reader.spec_next(SUCCESS).wf()
            &&& reader.spec_next(SUCCESS) == (BpReader {
                bp_off: (reader.bp_off + count) as usize,
                ..reader
            })
            &&& (reader.bp_off + count) % 4 == 0
            &&& 4 <= count <= reader.dest_len - reader.bp_off
        }),
{
    reader.lemma_read_is_not_short();
    reader.next_is_wf(SUCCESS);
    let count = reader.read_bytes();
    assert(count % 4 == 0 && (reader.bp_off + count) % 4 == 0);
    log_page_packet_by_number(reader.bp_id, reader.bp_off as u64, count as usize);
    lemma_packet_is_served(
        log_page_packet(reader.bp_id, reader.bp_off as u64, count as usize),
        reader.bp_id as int % 0x80,
        16 + reader.bp_off,
        count,
        dest,
        reader.bp_off as int,
        log_pages,
    );
}

/// From any point of the reads on: what is filled already stays, and the rest
/// is filled from the image.
proof fn lemma_filled_from(
    reader: BpReader,
    dest: Seq<u8>,
    log_pages: spec_fn(int) -> Seq<u8>,
)
    requires
        reader.wf(),
        reader.failure is None,
        reader.chunk_bytes <= u32::MAX,
        reader.chunk_bytes % 4 == 0,
        reader.dest_len % 4 == 0,
        reader.bp_off % 4 == 0,
        dest.len() == reader.dest_len,
        log_pages(reader.bp_id as int % 0x80).len() >= 16 + reader.dest_len,
    ensures
        filled_from(reader, dest, log_pages) == dest.take(reader.bp_off as int) + log_pages(
            reader.bp_id as int % 0x80,
        ).subrange(16 + reader.bp_off, 16 + reader.dest_len),
    decreases reader.dest_len - reader.bp_off,
{
    let log_page = log_pages(reader.bp_id as int % 0x80);
    if reader.bp_off < reader.dest_len {
        read_is_served(reader, dest, log_pages);
        let off = reader.bp_off as int;
        let count = reader.read_bytes();
        let next_dest = transferred(dest, off, log_page, 16 + off, count);
        lemma_transferred(dest, off, log_page, 16, count, 16 + reader.dest_len);
        lemma_filled_from(reader.spec_next(SUCCESS), next_dest, log_pages);
    } else {
        assert(dest.take(reader.bp_off as int) + log_page.subrange(
            16 + reader.bp_off,
            16 + reader.dest_len,
        ) =~= dest);
    }
}

/// If every read succeeds, the destination ends up holding exactly the image on
/// the partition that was named, by the low seven bits of its number: the bytes
/// of its log page after the 16 bytes of the header. That is so for every chunk
/// and destination of whole dwords.
pub proof fn reads_fill_destination_from_partition(
    bp_id: u8,
    chunk_bytes: usize,
    dest: Seq<u8>,
    log_pages: spec_fn(int) -> Seq<u8>,
)
    requires
        0 < chunk_bytes <= u32::MAX,
        chunk_bytes % 4 == 0,
        dest.len() <= isize::MAX,
        dest.len() % 4 == 0,
        log_pages(bp_id as int % 0x80).len() >= 16 + dest.len(),
    ensures
        BpReader::start(bp_id, chunk_bytes, dest.len() as usize).wf(),
        filled_from(BpReader::start(bp_id, chunk_bytes, dest.len() as usize), dest, log_pages)
            == log_pages(bp_id as int % 0x80).subrange(16, 16int + dest.len()),
{
    let reader = BpReader::start(bp_id, chunk_bytes, dest.len() as usize);
    let (len, chunk) = (dest.len() as int, chunk_bytes as int);
    assert(len % chunk == 0 || len % chunk >= 4) by {
        vstd::arithmetic::div_mod::lemma_fundamental_div_mod(len, chunk);
        let q = chunk / 4;
        let k = len / chunk;
        assert(chunk * k == 4 * (q * k)) by (nonlinear_arith)
            requires
                chunk == 4 * q,
        ;
    }
    vstd::arithmetic::div_mod::lemma_small_mod(0, chunk as nat);
    lemma_filled_from(reader, dest, log_pages);
    let image = log_pages(bp_id as int % 0x80).subrange(16, 16 + len);
    assert(dest.take(0) + image =~= image);
}

/// If every read succeeds, the destination ends up holding exactly the first
/// `dest_len` bytes of the partition's image, without the header of the log
/// page, for every chunk and destination of whole dwords.
pub proof fn reads_fill_destination_with_image(
    bp_id: u8,
    chunk_bytes: usize,
    dest: Seq<u8>,
    log_page: Seq<u8>,
)
    requires
        0 < chunk_bytes <= u32::MAX,
        chunk_bytes % 4 == 0,
        dest.len() <= isize::MAX,
        dest.len() % 4 == 0,
        log_page.len() >= LID_BP_HEADER_BYTES + dest.len(),
    ensures
        filled(BpReader::start(bp_id, chunk_bytes, dest.len() as usize), dest, log_page)
            == log_page.subrange(LID_BP_HEADER_BYTES as int, LID_BP_HEADER_BYTES + dest.len()),
{
    reads_fill_destination_from_partition(bp_id, chunk_bytes, dest, |partition: int| log_page);
}

/// A read that fails ends the reads with the error of its status.
pub proof fn failed_read_ends_reads(reader: BpReader, status: usize)
    requires
        reader.wf(),
        reader.spec_action() is PassThru,
        status != SUCCESS,
    ensures
        reader.spec_next(status).spec_action() == BpAction::Finished(
            Err(EfiError::of_status(status)),
        ),
{
}

/// Each read asks for the bytes that are next, one chunk or what is left of the
/// destination, whichever is less, and sends its command to the controller
/// itself (namespace 0). A read that ends in success (0) moves on by these
/// bytes; the reads are over, in success, when none are left.
pub proof fn reads_go_by_chunks(reader: BpReader)
    requires
        reader.wf(),
        reader.failure is None,
    ensures
        ({
            let left = reader.dest_len - reader.bp_off;
            let count = if left < reader.chunk_bytes {
                left
            } else {
                reader.chunk_bytes as int
            };
            if left == 0 {
                reader.spec_action() == BpAction::Finished(Ok(()))
            } else {
                &&& reader.spec_action() == (BpAction::PassThru {
                    namespace_id: 0,
                    dest_offset: reader.bp_off,
                    read_bytes: count as usize,
                    packet: log_page_packet(reader.bp_id, reader.bp_off as u64, count as usize),
                })
                &&& reader.spec_next(0) == (BpReader {
                    bp_off: (reader.bp_off + count) as usize,
                    ..reader
                })
            }
        }),
{
}

/// The chunk by the controller's transfer limit, the power of two of 4096-byte
/// pages in byte 77 of what it answers: 64 KiB if it could not be identified or
/// for a limit up to that, 512 KiB if there is no limit or for one from that
/// on, and the limit itself, 128 or 256 KiB, in between.
pub proof fn chunk_by_number(status: usize, identify: Seq<u8>)
    ensures
        ({
            let chunk = max_transfer(status, identify);
            let limit = identify[77];
            &&& status != 0 ==> chunk == 64 * 1024
            &&& status == 0 && limit == 0 ==> chunk == 512 * 1024
            &&& status == 0 && 1 <= limit <= 4 ==> chunk == 64 * 1024
            &&& status == 0 && limit == 5 ==> chunk == 128 * 1024
            &&& status == 0 && limit == 6 ==> chunk == 256 * 1024
            &&& status == 0 && limit >= 7 ==> chunk == 512 * 1024
        }),
{
    lemma_chunk_bounds(identify[77] as nat);
}

/// The reads start at the front of the destination with what was asked for, and
/// with nothing to read they are over at once.
pub proof fn reads_start_at_the_front(bp_id: u8, chunk_bytes: usize, dest_len: usize)
    requires
        is_readable(chunk_bytes, dest_len),
        dest_len <= isize::MAX,
    ensures
        ({
            let reader = BpReader::start(bp_id, chunk_bytes, dest_len);
            &&& reader.bp_id == bp_id && reader.chunk_bytes == chunk_bytes
            &&& reader.dest_len == dest_len
            &&& dest_len == 0 ==> reader.spec_action() == BpAction::Finished(Ok(()))
            &&& dest_len > 0 ==> (reader.spec_action() matches BpAction::PassThru {
                namespace_id,
                dest_offset,
                read_bytes,
                packet,
            } && namespace_id == 0 && dest_offset == 0 && read_bytes == (if dest_len < chunk_bytes {
                dest_len
            } else {
                chunk_bytes
            }))
        }),
{
}

/// Short of the end, every read asks for a dword at least and for no more than
/// is left.
pub proof fn read_is_not_short(reader: BpReader)
    requires
        reader.wf(),
        reader.bp_off < reader.dest_len,
    ensures
        4 <= reader.read_bytes() <= reader.dest_len - reader.bp_off,
{
    reader.lemma_read_is_not_short();
}

} // verus!
