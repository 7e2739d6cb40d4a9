//! The arithmetic of unbuffered file access: a read or a write of any bytes is
//! carried out as reads and writes of whole sectors.

use vstd::prelude::*;

verus! {

/// A sector size that is safe for the disks in use.
pub const DISK_SECTOR_SIZE: usize = 4096;

/// The most bytes that are read from the disk in one go.
pub const MAX_READ_SIZE: usize = 1048576;

/// Whether `size` can be the size of a physical sector: it is not zero and divides
/// the most bytes read in one go.
pub open spec fn is_sector_size(size: usize) -> bool {
    0 < size <= MAX_READ_SIZE && MAX_READ_SIZE as int % size as int == 0
}

/// The sectors that hold some bytes of a file.
#[derive(Clone, Copy, Debug, PartialEq, Eq, Structural)]
pub struct SectorRange {
    /// Where the first sector begins in the file.
    pub aligned_offset: u64,
    /// How far into the first sector the bytes begin.
    pub padding: usize,
    /// The length of the sectors taken together.
    pub len: usize,
}

/// The number of bytes of the next chunk of an access of `remaining` bytes at
/// `offset`: as many as fit into one read together with what precedes them in
/// their sector.
pub open spec fn chunk_len(offset: u64, remaining: usize, sector_size: usize) -> int {
    let room = MAX_READ_SIZE - offset as int % sector_size as int;
    if remaining <= room {
        remaining as int
    } else {
        room
    }
}

/// The number of bytes of the next chunk of an access of `remaining` bytes at
/// `offset`.
pub fn next_chunk_len(offset: u64, remaining: usize, physical_sector_size: usize) -> (len: usize)
    requires
        is_sector_size(physical_sector_size),
    ensures
        len == chunk_len(offset, remaining, physical_sector_size),
        len <= remaining,
        len <= MAX_READ_SIZE,
        remaining > 0 ==> len > 0,
{
    let padding = (offset % (physical_sector_size as u64)) as usize;
    let room = MAX_READ_SIZE - padding;
    if remaining <= room {
        remaining
    } else {
        room
    }
}

/// The sectors of size `sector_size` that hold the `bytes` bytes at `offset`: they
/// begin at the sector boundary at or before `offset` and end at the first sector
/// boundary at or after the end of the bytes.
pub open spec fn sectors_of(offset: u64, bytes: usize, sector_size: usize) -> SectorRange {
    let padding = offset as int % sector_size as int;
    let sectors = (padding + bytes + sector_size - 1) / sector_size as int;
    SectorRange {
        aligned_offset: (offset - padding) as u64,
        padding: padding as usize,
        len: (sectors * sector_size) as usize,
    }
}

/// The sectors of `sectors_of` begin and end on sector boundaries, hold the bytes,
/// and hold less than one sector more than they need to.
pub proof fn lemma_sectors_hold_bytes(offset: u64, bytes: usize, sector_size: usize)
    requires
        sector_size > 0,
        bytes + sector_size <= usize::MAX - sector_size,
    ensures
        ({
            let range = sectors_of(offset, bytes, sector_size);
            &&& range.aligned_offset as int % sector_size as int == 0
            &&& range.len as int % sector_size as int == 0
            &&& range.aligned_offset + range.padding == offset
            &&& range.padding < sector_size
            &&& range.padding + bytes <= range.len
            &&& range.len < range.padding + bytes + sector_size
        }),
{
    let s = sector_size as int;
    let padding = offset as int % s;
    let needed = padding + bytes;
    let sectors = (needed + s - 1) / s;
    let len = sectors * s;
    assert(0 <= padding < s);
    assert((offset as int - padding) % s == 0) by (nonlinear_arith)
        requires
            s > 0,
            padding == offset as int % s,
    ;
    assert(len >= needed && len < needed + s && len % s == 0 && sectors >= 0) by (nonlinear_arith)
        requires
            s > 0,
            needed >= 0,
            sectors == (needed + s - 1) / s,
            len == sectors * s,
    ;
    assert(0 <= len <= usize::MAX);
    assert(padding <= offset) by (nonlinear_arith)
        requires
            s > 0,
            offset >= 0,
            padding == offset as int % s,
    ;
    let range = sectors_of(offset, bytes, sector_size);
    assert(range.len as int == len);
    assert(range.padding as int == padding);
    assert(range.aligned_offset as int == offset - padding);
}

/// The sectors of size `physical_sector_size` that hold the `bytes` bytes at
/// `offset`.
pub fn sector_range(offset: u64, bytes: usize, physical_sector_size: usize) -> (range: SectorRange)
    requires
        physical_sector_size > 0,
        bytes + physical_sector_size <= usize::MAX - physical_sector_size,
    ensures
        range == sectors_of(offset, bytes, physical_sector_size),
{
    let padding = (offset % (physical_sector_size as u64)) as usize;
    assert(offset as int % physical_sector_size as int <= offset) by (nonlinear_arith)
        requires
            physical_sector_size > 0,
            offset >= 0,
    ;
    let aligned_offset = offset - (padding as u64);
    let sectors = (padding + bytes + physical_sector_size - 1) / physical_sector_size;
    proof {
        let s = physical_sector_size as int;
        let needed = padding as int + bytes as int;
        assert(sectors as int * s >= needed && sectors as int * s < needed + s) by (nonlinear_arith)
            requires
                s > 0,
                needed >= 0,
                sectors as int == (needed + s - 1) / s,
        ;
    }
    SectorRange { aligned_offset, padding, len: sectors * physical_sector_size }
}

/// The number of sectors of the safe size that a scratch buffer needs for an access
/// of `bytes` bytes at `offset`.
pub fn scratch_sectors(offset: u64, bytes: usize) -> (sectors: usize)
    requires
        bytes <= usize::MAX - 2 * DISK_SECTOR_SIZE,
    ensures
        sectors == (offset as int % DISK_SECTOR_SIZE as int + bytes + DISK_SECTOR_SIZE - 1)
            / DISK_SECTOR_SIZE as int,
{
    let offset_in_buffer = (offset % (DISK_SECTOR_SIZE as u64)) as usize;
    (bytes + offset_in_buffer + DISK_SECTOR_SIZE - 1) / DISK_SECTOR_SIZE
}

/// Whether a write of `bytes` bytes at `offset` covers whole sectors, so that
/// nothing has to be read before it.
pub fn covers_whole_sectors(offset: u64, bytes: usize, physical_sector_size: usize) -> (whole: bool)
    requires
        physical_sector_size > 0,
        bytes + physical_sector_size <= usize::MAX - physical_sector_size,
    ensures
        whole == (sectors_of(offset, bytes, physical_sector_size).padding == 0 && sectors_of(
            offset,
            bytes,
            physical_sector_size,
        ).len == bytes),
{
    let range = sector_range(offset, bytes, physical_sector_size);
    range.padding == 0 && range.len == bytes
}

} // verus!
