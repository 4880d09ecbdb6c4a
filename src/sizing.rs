use vstd::prelude::*;

verus! {

/// Size of one GOD data block, in bytes.
pub const BLOCK_SIZE: u64 = 0x1000;

/// Number of data blocks carried by one full part file.
pub const BLOCKS_PER_PART: u64 = 0xa1c4;

/// Number of blocks a full part occupies on disk, its hash tables included.
pub const PART_FOOTPRINT_BLOCKS: u64 = 0xa290;

/// Payload bytes carried by one full part file.
pub const PART_BYTES: u64 = 0xa1c4000;

/// Exact ceiling division over the integers.
pub open spec fn ceil_div(n: int, d: int) -> int {
    (n + d - 1) / d
}

/// How much of the source image is converted.
#[derive(Debug, Clone, Copy, PartialEq, Eq, Structural)]
pub enum TrimMode {
    /// Stop at the highest byte the filesystem tree references.
    FromEnd,
    /// Keep everything from the root offset to the end of the file.
    NoTrim,
}

/// Why a conversion could not be planned or completed.
#[derive(Debug, Clone, Copy, PartialEq, Eq, Structural)]
pub enum SizeError {
    /// The payload region is empty: there would be no part to write.
    EmptyImage,
    /// The root offset lies past the end of the image file.
    RootOffsetPastEnd,
    /// A count or size does not fit the field that has to hold it.
    TooLarge,
}

/// The payload size, block count and part count of one conversion.
#[derive(Debug, Clone, Copy, PartialEq, Eq, Structural)]
pub struct Sizing {
    pub data_size: u64,
    pub block_count: u64,
    pub part_count: u64,
}

/// Byte offset, relative to the root offset, at which part `i` starts.
pub open spec fn part_start(i: int) -> int {
    i * PART_BYTES
}

/// Byte offset, relative to the root offset, at which part `i` ends.
pub open spec fn part_end(data_size: int, i: int) -> int {
    if (i + 1) * PART_BYTES <= data_size {
        (i + 1) * PART_BYTES
    } else {
        data_size
    }
}

impl Sizing {
    /// The counts are those that the payload size determines, and there is
    /// at least one part.
    pub open spec fn wf(&self) -> bool {
        &&& self.data_size >= 1
        &&& self.block_count == ceil_div(self.data_size as int, BLOCK_SIZE as int)
        &&& self.part_count == ceil_div(self.block_count as int, BLOCKS_PER_PART as int)
    }
}

/// The text shown to the user for each error.
pub open spec fn message_spec(e: SizeError) -> Seq<char> {
    match e {
        SizeError::EmptyImage => "the image holds no payload to convert"@,
        SizeError::RootOffsetPastEnd => "the image's root offset lies past its end"@,
        SizeError::TooLarge => "the image is too large for the container format"@,
    }
}

impl SizeError {
    /// A description of the error for the user.
    pub fn message(&self) -> (r: String)
        ensures
            r@ == message_spec(*self),
    {
        match self {
            SizeError::EmptyImage => "the image holds no payload to convert".to_owned(),
            SizeError::RootOffsetPastEnd => "the image's root offset lies past its end".to_owned(),
            SizeError::TooLarge => "the image is too large for the container format".to_owned(),
        }
    }
}

impl TrimMode {
    /// The label shown to a user choosing the mode.
    pub fn to_string(&self) -> (r: String)
        ensures
            *self == TrimMode::FromEnd ==> r@ == "Trim Unused Space (From End)"@,
            *self == TrimMode::NoTrim ==> r@ == "Do Not Trim"@,
    {
        match self {
            TrimMode::FromEnd => "Trim Unused Space (From End)".to_owned(),
            TrimMode::NoTrim => "Do Not Trim".to_owned(),
        }
    }
}

impl Default for TrimMode {
    /// Trimming is on unless the user turns it off.
    fn default() -> (r: TrimMode)
        ensures
            r == TrimMode::FromEnd,
    {
        TrimMode::FromEnd
    }
}

/// Ceiling division without an intermediate sum that could overflow.
pub fn div_ceil(n: u64, d: u64) -> (r: u64)
    requires
        d > 0,
    ensures
        r == ceil_div(n as int, d as int),
{
    let q = n / d;
    proof {
        assert(ceil_div(n as int, d as int) == q + if n % d == 0 { 0int } else { 1int })
            by (nonlinear_arith)
            requires
                q == n / d,
                d > 0,
                n >= 0,
        ;
        assert(n % d != 0 ==> q < 0xffff_ffff_ffff_ffffu64) by (nonlinear_arith)
            requires
                q == n / d,
                d > 0,
                n <= 0xffff_ffff_ffff_ffffu64,
        ;
    }
    if n % d == 0 {
        q
    } else {
        q + 1
    }
}

/// The spec of the payload size chosen by a trim mode.
pub open spec fn data_size_spec(
    trim: TrimMode,
    max_used_prefix: u64,
    file_len: u64,
    root_offset: u64,
) -> int {
    match trim {
        TrimMode::FromEnd => max_used_prefix as int,
        TrimMode::NoTrim => file_len - root_offset,
    }
}

/// The number of payload bytes to convert: the used prefix reported by the
/// image reader when trimming, else everything after the root offset.
pub fn data_size(trim: TrimMode, max_used_prefix: u64, file_len: u64, root_offset: u64) -> (r:
    Result<u64, SizeError>)
    ensures
        trim == TrimMode::NoTrim && root_offset > file_len <==> r == Err::<u64, SizeError>(
            SizeError::RootOffsetPastEnd,
        ),
        r is Ok <==> !(trim == TrimMode::NoTrim && root_offset > file_len),
        r is Ok ==> r->Ok_0 == data_size_spec(trim, max_used_prefix, file_len, root_offset),
{
    match trim {
        TrimMode::FromEnd => Ok(max_used_prefix),
        TrimMode::NoTrim => {
            if root_offset > file_len {
                Err(SizeError::RootOffsetPastEnd)
            } else {
                Ok(file_len - root_offset)
            }
        },
    }
}

/// Block and part counts for a payload of `data_size` bytes; an empty
/// payload is refused, since the container needs at least one part.
pub fn compute_sizing(data_size: u64) -> (r: Result<Sizing, SizeError>)
    ensures
        data_size == 0 <==> r == Err::<Sizing, SizeError>(SizeError::EmptyImage),
        r is Ok <==> data_size >= 1,
        r is Ok ==> r->Ok_0.wf() && r->Ok_0.data_size == data_size,
{
    if data_size == 0 {
        return Err(SizeError::EmptyImage);
    }
    let block_count = div_ceil(data_size, BLOCK_SIZE);
    let part_count = div_ceil(block_count, BLOCKS_PER_PART);
    Ok(Sizing { data_size, block_count, part_count })
}

/// The byte range `[start, end)` of the source image that part `index`
/// carries, as absolute offsets into the image.
pub fn part_range(s: &Sizing, root_offset: u64, index: u64) -> (r: (u64, u64))
    requires
        s.wf(),
        index < s.part_count,
        root_offset + s.data_size <= u64::MAX,
    ensures
        r.0 == root_offset + part_start(index as int),
        r.1 == root_offset + part_end(s.data_size as int, index as int),
        r.0 < r.1,
{
    proof {
        lemma_parts_tile(*s);
    }
    let start = index * PART_BYTES;
    let end = if index + 1 < s.part_count {
        (index + 1) * PART_BYTES
    } else {
        s.data_size
    };
    (root_offset + start, root_offset + end)
}

/// The payload size recorded in the header: the last part's file size plus
/// the full on-disk footprint of every part before it.
pub open spec fn total_payload_spec(last_part_size: int, part_count: int) -> int {
    last_part_size + (part_count - 1) * BLOCK_SIZE * PART_FOOTPRINT_BLOCKS
}

/// Computes `total_payload_spec`, refusing a result that does not fit in `u64`.
pub fn total_payload_size(last_part_size: u64, part_count: u64) -> (r: Result<u64, SizeError>)
    requires
        part_count >= 1,
    ensures
        r is Ok <==> total_payload_spec(last_part_size as int, part_count as int) <= u64::MAX,
        r is Ok ==> r->Ok_0 == total_payload_spec(last_part_size as int, part_count as int),
        r is Err ==> r == Err::<u64, SizeError>(SizeError::TooLarge),
{
    let full_parts = part_count - 1;
    let footprint: u64 = BLOCK_SIZE * PART_FOOTPRINT_BLOCKS;
    if full_parts > (u64::MAX - last_part_size) / footprint {
        return Err(SizeError::TooLarge);
    }
    Ok(last_part_size + full_parts * footprint)
}

/// The part count is the ceiling of the block count over the blocks per
/// part, the block count the ceiling of the payload size over the block size,
/// and every part but the last is full of blocks the payload needs.
pub proof fn lemma_part_count(s: Sizing)
    requires
        s.wf(),
    ensures
        s.part_count == ceil_div(
            ceil_div(s.data_size as int, BLOCK_SIZE as int),
            BLOCKS_PER_PART as int,
        ),
        s.part_count >= 1,
        (s.part_count - 1) * BLOCKS_PER_PART * BLOCK_SIZE < s.block_count * BLOCK_SIZE,
{
}

/// The part ranges tile the payload: part 0 starts at its beginning, each
/// part ends where the next one starts, the last ends at the payload's end,
/// and no part is empty. Concatenating the parts in index order therefore
/// gives back exactly the payload bytes.
pub proof fn lemma_parts_tile(s: Sizing)
    requires
        s.wf(),
    ensures
        part_start(0) == 0,
        forall|i: int|
            0 <= i < s.part_count - 1 ==> #[trigger] part_end(s.data_size as int, i)
                == part_start(i + 1),
        part_end(s.data_size as int, s.part_count - 1) == s.data_size,
        forall|i: int|
            0 <= i < s.part_count ==> #[trigger] part_start(i) < part_end(
                s.data_size as int,
                i,
            ),
        (s.part_count - 1) * PART_BYTES < s.data_size <= s.part_count * PART_BYTES,
{
}

} // verus!
