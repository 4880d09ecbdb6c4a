use vstd::prelude::*;
use crate::chain::Digest;
use crate::sizing::{SizeError, Sizing, total_payload_spec, total_payload_size};

verus! {

/// What the container header records, ready for the header encoder.
#[derive(Debug, Clone, PartialEq, Eq)]
pub struct HeaderFields {
    pub block_count: u32,
    pub part_count: u32,
    /// The last part's size plus the footprint of every full part before it.
    pub data_parts_size: u64,
    /// Digest of part 0's finalized hash list.
    pub root_digest: Digest,
    pub title: Option<String>,
}

/// The title written into the header: an explicit override always wins,
/// else the entry found in the title database, else none.
pub open spec fn title_spec(title_override: Option<String>, found: Option<String>) -> Option<
    String,
> {
    if title_override is Some {
        title_override
    } else {
        found
    }
}

/// Picks the header title by precedence: override, then database entry.
pub fn resolve_title(title_override: Option<String>, found: Option<String>) -> (r: Option<String>)
    ensures
        r == title_spec(title_override, found),
{
    match title_override {
        Some(t) => Some(t),
        None => found,
    }
}

/// The header holds the counts of `s` and a payload size that fit in its fields.
pub open spec fn header_fits(s: Sizing, last_part_size: u64) -> bool {
    &&& s.block_count <= u32::MAX
    &&& s.part_count <= u32::MAX
    &&& total_payload_spec(last_part_size as int, s.part_count as int) <= u64::MAX
}

/// Builds the header fields from the sizing, the size of the last part file,
/// the chain's root digest and the title sources.
pub fn assemble_header(
    s: &Sizing,
    last_part_size: u64,
    root_digest: Digest,
    title_override: Option<String>,
    found_title: Option<String>,
) -> (r: Result<HeaderFields, SizeError>)
    requires
        s.wf(),
    ensures
        r is Ok <==> header_fits(*s, last_part_size),
        r is Err ==> r == Err::<HeaderFields, SizeError>(SizeError::TooLarge),
        r is Ok ==> {
            let h = r->Ok_0;
            &&& h.block_count == s.block_count
            &&& h.part_count == s.part_count
            &&& h.data_parts_size == total_payload_spec(
                last_part_size as int,
                s.part_count as int,
            )
            &&& h.root_digest == root_digest
            &&& h.title == title_spec(title_override, found_title)
        },
{
    if s.block_count > u32::MAX as u64 || s.part_count > u32::MAX as u64 {
        return Err(SizeError::TooLarge);
    }
    let data_parts_size = match total_payload_size(last_part_size, s.part_count) {
        Ok(v) => v,
        Err(e) => return Err(e),
    };
    Ok(
        HeaderFields {
            block_count: s.block_count as u32,
            part_count: s.part_count as u32,
            data_parts_size,
            root_digest,
            title: resolve_title(title_override, found_title),
        },
    )
}

/// The characters with Unicode's White_Space property, which `str::trim`
/// strips from both ends.
pub open spec fn is_white_space(c: char) -> bool {
    let u = c as u32;
    ||| 0x9 <= u <= 0xd
    ||| u == 0x20
    ||| u == 0x85
    ||| u == 0xa0
    ||| u == 0x1680
    ||| 0x2000 <= u <= 0x200a
    ||| u == 0x2028
    ||| u == 0x2029
    ||| u == 0x202f
    ||| u == 0x205f
    ||| u == 0x3000
}

/// The text trims to nothing.
pub open spec fn is_blank(s: Seq<char>) -> bool {
    forall|i: int| 0 <= i < s.len() ==> is_white_space(#[trigger] s[i])
}

/// Whether `c` is a White_Space character.
pub fn white_space(c: char) -> (r: bool)
    ensures
        r == is_white_space(c),
{
    let u = c as u32;
    (0x9 <= u && u <= 0xd) || u == 0x20 || u == 0x85 || u == 0xa0 || u == 0x1680 || (0x2000 <= u
        && u <= 0x200a) || u == 0x2028 || u == 0x2029 || u == 0x202f || u == 0x205f || u == 0x3000
}

/// The title override given by what the user typed: none when the text is
/// blank, else the text as typed.
pub fn title_override_from_input(text: String) -> (r: Option<String>)
    ensures
        is_blank(text@) ==> r is None,
        !is_blank(text@) ==> r == Some(text),
{
    let mut blank = true;
    for c in it: text.as_str().chars()
        invariant
            it.seq() == text@,
            blank <==> (forall|i: int| 0 <= i < it.index() ==> is_white_space(#[trigger] text@[i])),
    {
        blank = blank && white_space(c);
    }
    if blank {
        None
    } else {
        Some(text)
    }
}

} // verus!
