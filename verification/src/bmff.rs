//! The few structures of an ISO base media file (MP4, MOV) that chapter
//! detection reads: box headers, the track header's ID and the chapter
//! references of a track. Reading the file is the caller's part; every
//! decision about the bytes that were read is made here.
use vstd::prelude::*;
use crate::probe::{opt_chars, StreamInfo};
use crate::streams::is_chapter_carrier_candidate;
use crate::text::{copy_str, decimal, decimal_string, eq_ignore_case, join2};

verus! {

/// The most boxes one file may hold before it is treated as malformed.
pub const MAX_BMFF_BOXES: usize = 100000;

/// Box types, as the big-endian number of their four ASCII letters.
pub const MOOV: u32 = 0x6d6f6f76;
pub const TRAK: u32 = 0x7472616b;
pub const TKHD: u32 = 0x746b6864;
pub const TREF: u32 = 0x74726566;
pub const CHAP: u32 = 0x63686170;

/// The big-endian 32-bit number at `at`.
pub open spec fn be32(b: Seq<u8>, at: int) -> int {
    b[at] * 16777216 + b[at + 1] * 65536 + b[at + 2] * 256 + b[at + 3]
}

/// The big-endian 64-bit number at `at`.
pub open spec fn be64(b: Seq<u8>, at: int) -> int {
    be32(b, at) * 4294967296 + be32(b, at + 4)
}

/// Reads the big-endian 32-bit number at `at`.
pub fn be_u32(bytes: &Vec<u8>, at: usize) -> (r: u32)
    requires
        at + 4 <= bytes.len(),
    ensures
        r == be32(bytes@, at as int),
{
    let a = bytes[at] as u32;
    let b = bytes[at + 1] as u32;
    let c = bytes[at + 2] as u32;
    let d = bytes[at + 3] as u32;
    a * 16777216 + b * 65536 + c * 256 + d
}

/// Reads the big-endian 64-bit number at `at`.
pub fn be_u64(bytes: &Vec<u8>, at: usize) -> (r: u64)
    requires
        at + 8 <= bytes.len(),
    ensures
        r == be64(bytes@, at as int),
{
    let hi = be_u32(bytes, at) as u64;
    let lo = be_u32(bytes, at + 4) as u64;
    hi * 4294967296 + lo
}

/// One box: its type, where its payload starts and where the box ends, as
/// offsets in the file.
#[derive(Debug, Clone, Copy, PartialEq, Eq, Structural)]
pub struct BmffBox {
    pub kind: u32,
    pub payload_start: u64,
    pub end: u64,
}

/// What the box header at `offset`, inside a parent that ends at `end`,
/// says. `header` holds the bytes of the file from `offset` on, as many as
/// the file has, up to 16; `budget` is how many more boxes may be read.
/// A size of 0 runs to the parent's end and a size of 1 means a 64-bit size
/// follows the type.
pub open spec fn header_outcome(header: Seq<u8>, offset: u64, end: u64, budget: usize) -> Result<
    BmffBox,
    Seq<char>,
> {
    if budget == 0 {
        Err("box count exceeds 100000"@)
    } else if end - offset < 8 {
        Err("truncated box header at offset "@ + decimal(offset as nat))
    } else {
        let size = be32(header, 0);
        let kind = be32(header, 4) as u32;
        if size == 0 {
            Ok(BmffBox { kind, payload_start: (offset + 8) as u64, end })
        } else if size == 1 {
            if header.len() < 16 {
                Err("failed to read 64-bit atom field: failed to fill whole buffer"@)
            } else {
                let large = be64(header, 8);
                if large < 16 {
                    Err("invalid extended box size "@ + decimal(large as nat) + " at "@ + decimal(
                        offset as nat,
                    ))
                } else if offset + large > u64::MAX {
                    Err("box size overflow at "@ + decimal(offset as nat))
                } else if offset + large > end {
                    Err("box at "@ + decimal(offset as nat) + " exceeds parent bound "@ + decimal(
                        end as nat,
                    ))
                } else {
                    Ok(BmffBox { kind, payload_start: (offset + 16) as u64, end: (offset + large) as u64 })
                }
            }
        } else if size >= 8 {
            if offset + size > u64::MAX {
                Err("box size overflow at "@ + decimal(offset as nat))
            } else if offset + size > end {
                Err("box at "@ + decimal(offset as nat) + " exceeds parent bound "@ + decimal(
                    end as nat,
                ))
            } else {
                Ok(BmffBox { kind, payload_start: (offset + 8) as u64, end: (offset + size) as u64 })
            }
        } else {
            Err("invalid box size "@ + decimal(size as nat) + " at "@ + decimal(offset as nat))
        }
    }
}

fn at_offset(prefix: &str, offset: u64) -> (r: String)
    ensures
        r@ == prefix@ + decimal(offset as nat),
{
    let digits = decimal_string(offset);
    join2(prefix, digits.as_str())
}

fn exceeds_parent(offset: u64, end: u64) -> (r: String)
    ensures
        r@ == "box at "@ + decimal(offset as nat) + " exceeds parent bound "@ + decimal(end as nat),
{
    let mut out = at_offset("box at ", offset);
    out.append(" exceeds parent bound ");
    let bound = decimal_string(end);
    out.append(bound.as_str());
    out
}

fn size_at(prefix: &str, size: u64, offset: u64) -> (r: String)
    ensures
        r@ == prefix@ + decimal(size as nat) + " at "@ + decimal(offset as nat),
{
    let mut out = at_offset(prefix, size);
    out.append(" at ");
    let place = decimal_string(offset);
    out.append(place.as_str());
    out
}

/// Reads the box header at `offset`; see `header_outcome`. The caller
/// walks the boxes of a parent by calling this at the parent's payload
/// start, then at each box's end, until it reaches the parent's end, with
/// one less in `budget` each time.
pub fn next_box(header: &Vec<u8>, offset: u64, end: u64, budget: usize) -> (r: Result<BmffBox, String>)
    requires
        offset < end,
        header.len() <= 16,
        end - offset >= 8 ==> header.len() >= 8,
    ensures
        match header_outcome(header@, offset, end, budget) {
            Ok(b) => r == Ok::<BmffBox, String>(b),
            Err(e) => r matches Err(m) && m@ == e,
        },
        r matches Ok(b) ==> offset < b.payload_start <= b.end <= end,
{
    if budget == 0 {
        return Err(copy_str("box count exceeds 100000"));
    }
    if end - offset < 8 {
        return Err(at_offset("truncated box header at offset ", offset));
    }
    let size = be_u32(header, 0);
    let kind = be_u32(header, 4);
    if size == 0 {
        return Ok(BmffBox { kind, payload_start: offset + 8, end });
    }
    if size == 1 {
        if header.len() < 16 {
            return Err(copy_str("failed to read 64-bit atom field: failed to fill whole buffer"));
        }
        let large = be_u64(header, 8);
        if large < 16 {
            return Err(size_at("invalid extended box size ", large, offset));
        }
        match offset.checked_add(large) {
            None => Err(at_offset("box size overflow at ", offset)),
            Some(box_end) => {
                if box_end > end {
                    Err(exceeds_parent(offset, end))
                } else {
                    Ok(BmffBox { kind, payload_start: offset + 16, end: box_end })
                }
            },
        }
    } else if size >= 8 {
        match offset.checked_add(size as u64) {
            None => Err(at_offset("box size overflow at ", offset)),
            Some(box_end) => {
                if box_end > end {
                    Err(exceeds_parent(offset, end))
                } else {
                    Ok(BmffBox { kind, payload_start: offset + 8, end: box_end })
                }
            },
        }
    } else {
        Err(size_at("invalid box size ", size as u64, offset))
    }
}

/// How many of `s` have type `kind`.
pub open spec fn count_kind(s: Seq<BmffBox>, kind: u32) -> nat
    decreases s.len(),
{
    if s.len() == 0 {
        0
    } else {
        count_kind(s.drop_last(), kind) + if s.last().kind == kind {
            1nat
        } else {
            0nat
        }
    }
}

/// The boxes of `s` of type `kind`, in order.
pub open spec fn of_kind(s: Seq<BmffBox>, kind: u32) -> Seq<BmffBox>
    decreases s.len(),
{
    if s.len() == 0 {
        Seq::empty()
    } else if s.last().kind == kind {
        of_kind(s.drop_last(), kind).push(s.last())
    } else {
        of_kind(s.drop_last(), kind)
    }
}

/// The boxes of type `kind`, in the order they came.
pub fn boxes_of_kind(boxes: &Vec<BmffBox>, kind: u32) -> (r: Vec<BmffBox>)
    ensures
        r@ == of_kind(boxes@, kind),
{
    let mut out: Vec<BmffBox> = Vec::new();
    let mut i: usize = 0;
    while i < boxes.len()
        invariant
            i <= boxes.len(),
            out@ == of_kind(boxes@.take(i as int), kind),
        decreases boxes.len() - i,
    {
        assert(boxes@.take(i as int + 1).drop_last() =~= boxes@.take(i as int));
        if boxes[i].kind == kind {
            out.push(boxes[i]);
        }
        i += 1;
    }
    assert(boxes@.take(boxes.len() as int) =~= boxes@);
    out
}

/// How many boxes have type `kind`, and one of them when there is any.
fn count_of_kind(boxes: &Vec<BmffBox>, kind: u32) -> (r: (usize, Option<BmffBox>))
    ensures
        r.0 == count_kind(boxes@, kind),
        r.0 > 0 <==> r.1 is Some,
        r.1 matches Some(b) ==> b.kind == kind && boxes@.contains(b),
{
    let mut n: usize = 0;
    let mut found: Option<BmffBox> = None;
    let mut i: usize = 0;
    while i < boxes.len()
        invariant
            i <= boxes.len(),
            n == count_kind(boxes@.take(i as int), kind),
            n <= i,
            n > 0 <==> found is Some,
            found matches Some(b) ==> b.kind == kind && boxes@.contains(b),
        decreases boxes.len() - i,
    {
        assert(boxes@.take(i as int + 1).drop_last() =~= boxes@.take(i as int));
        if boxes[i].kind == kind {
            n += 1;
            found = Some(boxes[i]);
            assert(boxes@[i as int] == boxes@[i as int]);
        }
        i += 1;
    }
    assert(boxes@.take(boxes.len() as int) =~= boxes@);
    (n, found)
}

/// The file's one `moov` box; a file with none or several is refused.
pub fn single_moov(top: &Vec<BmffBox>) -> (r: Result<BmffBox, String>)
    ensures
        count_kind(top@, MOOV) == 1 ==> (r matches Ok(b) && b.kind == MOOV && top@.contains(b)),
        count_kind(top@, MOOV) != 1 ==> (r matches Err(e) && e@ == "expected exactly one moov box, found "@
            + decimal(count_kind(top@, MOOV))),
{
    let (n, found) = count_of_kind(top, MOOV);
    match found {
        Some(b) if n == 1 => Ok(b),
        _ => Err(at_offset("expected exactly one moov box, found ", n as u64)),
    }
}

/// A track's header box, if it has one; a track with several is refused.
pub fn track_header(children: &Vec<BmffBox>) -> (r: Result<Option<BmffBox>, String>)
    ensures
        count_kind(children@, TKHD) == 0 ==> r == Ok::<Option<BmffBox>, String>(None),
        count_kind(children@, TKHD) == 1 ==> (r matches Ok(Some(b)) && b.kind == TKHD
            && children@.contains(b)),
        count_kind(children@, TKHD) > 1 ==> (r matches Err(e) && e@
            == "trak contains multiple tkhd boxes"@),
{
    let (n, found) = count_of_kind(children, TKHD);
    if n > 1 {
        Err(copy_str("trak contains multiple tkhd boxes"))
    } else {
        Ok(found)
    }
}

/// Where the track ID of a track header sits: 12 bytes into the payload for
/// version 0 and 20 for version 1, and all four bytes within the box.
pub open spec fn tkhd_position(atom: BmffBox, version: u8) -> Result<u64, Seq<char>> {
    if version != 0 && version != 1 {
        Err("unsupported tkhd version "@ + decimal(version as nat))
    } else {
        let skip: int = if version == 0 {
            12
        } else {
            20
        };
        if atom.payload_start + skip > u64::MAX {
            Err("tkhd offset overflow"@)
        } else if atom.payload_start + skip + 4 > atom.end {
            Err("truncated tkhd track ID"@)
        } else {
            Ok((atom.payload_start + skip) as u64)
        }
    }
}

/// Where to read a track header's ID, given the version byte that starts
/// its payload; see `tkhd_position`.
pub fn tkhd_id_position(atom: BmffBox, version: u8) -> (r: Result<u64, String>)
    ensures
        match tkhd_position(atom, version) {
            Ok(p) => r == Ok::<u64, String>(p),
            Err(e) => r matches Err(m) && m@ == e,
        },
{
    let skip: u64 = if version == 0 {
        12
    } else if version == 1 {
        20
    } else {
        return Err(at_offset("unsupported tkhd version ", version as u64));
    };
    match atom.payload_start.checked_add(skip) {
        None => Err(copy_str("tkhd offset overflow")),
        Some(position) => {
            if position > atom.end || atom.end - position < 4 {
                Err(copy_str("truncated tkhd track ID"))
            } else {
                Ok(position)
            }
        },
    }
}

/// A track ID read from a track header: zero is not a track.
pub fn tkhd_track_id(id: u32) -> (r: Result<u32, String>)
    ensures
        id != 0 ==> r == Ok::<u32, String>(id),
        id == 0 ==> (r matches Err(e) && e@ == "tkhd contains zero track ID"@),
{
    if id == 0 {
        Err(copy_str("tkhd contains zero track ID"))
    } else {
        Ok(id)
    }
}

/// Why a chapter reference of `len` payload bytes is refused, if it is: it
/// must hold between one and 1024 track IDs of four bytes each.
pub open spec fn chap_len_error(len: u64) -> Option<Seq<char>> {
    if len == 0 || len % 4 != 0 || len > 4096 {
        Some("invalid tref/chap payload length "@ + decimal(len as nat))
    } else {
        None
    }
}

/// Checks the payload size of a chapter reference before it is read, and
/// gives it as a byte count.
pub fn check_chap_payload_len(len: u64) -> (r: Result<usize, String>)
    ensures
        match chap_len_error(len) {
            Some(e) => r matches Err(m) && m@ == e,
            None => r == Ok::<usize, String>(len as usize),
        },
{
    if len == 0 || len % 4 != 0 || len > 4096 {
        Err(at_offset("invalid tref/chap payload length ", len))
    } else {
        Ok(len as usize)
    }
}

/// The `i`-th track ID of a chapter reference's payload.
pub open spec fn chap_entry(payload: Seq<u8>, i: int) -> int {
    be32(payload, 4 * i)
}

/// The track IDs a chapter reference names; a zero among them is refused.
pub fn chap_track_ids(payload: &Vec<u8>) -> (r: Result<Vec<u32>, String>)
    requires
        payload.len() % 4 == 0,
    ensures
        match r {
            Ok(ids) => ids@.len() == payload.len() / 4 && forall|i: int|
                0 <= i < ids@.len() ==> ids@[i] == chap_entry(payload@, i) && #[trigger] chap_entry(
                    payload@,
                    i,
                ) != 0,
            Err(e) => e@ == "tref/chap contains zero track ID"@ && exists|i: int|
                0 <= i < payload.len() / 4 && #[trigger] chap_entry(payload@, i) == 0,
        },
{
    let ghost q: int = payload.len() as int / 4;
    let mut ids: Vec<u32> = Vec::new();
    let mut p: usize = 0;
    while p < payload.len()
        invariant
            payload.len() == 4 * q,
            p == 4 * ids.len(),
            p <= payload.len(),
            forall|i: int|
                0 <= i < ids@.len() ==> ids@[i] == chap_entry(payload@, i) && #[trigger] chap_entry(
                    payload@,
                    i,
                ) != 0,
        decreases payload.len() - p,
    {
        let id = be_u32(payload, p);
        assert(chap_entry(payload@, ids@.len() as int) == id);
        if id == 0 {
            return Err(copy_str("tref/chap contains zero track ID"));
        }
        ids.push(id);
        p += 4;
    }
    Ok(ids)
}

/// Whether a stream could be a QuickTime chapter carrier; the same test as
/// `is_chapter_carrier_candidate`.
pub open spec fn carrier_candidate(st: StreamInfo) -> bool {
    st.codec_type@ == "data"@ && st.codec_name@ == "bin_data"@ && (match opt_chars(
        st.codec_tag_string,
    ) {
        Some(t) => eq_ignore_case(t, "text"@),
        None => false,
    }) && st.track_id is Some
}

/// A possible carrier whose track a chapter reference names.
pub open spec fn confirmed_carrier(st: StreamInfo, targets: Seq<u32>) -> bool {
    carrier_candidate(st) && targets.contains(st.track_id->0)
}

/// Whether any stream could be a chapter carrier, the case in which the
/// file's boxes must be read.
pub fn any_carrier_candidate(streams: &Vec<StreamInfo>) -> (r: bool)
    ensures
        r == exists|i: int| 0 <= i < streams@.len() && #[trigger] carrier_candidate(streams@[i]),
{
    let mut i: usize = 0;
    while i < streams.len()
        invariant
            i <= streams.len(),
            forall|j: int| 0 <= j < i ==> !#[trigger] carrier_candidate(streams@[j]),
        decreases streams.len() - i,
    {
        if is_chapter_carrier_candidate(&streams[i]) {
            assert(carrier_candidate(streams@[i as int]));
            return true;
        }
        i += 1;
    }
    false
}

/// How many streams of `s` are confirmed chapter carriers.
pub open spec fn count_confirmed(s: Seq<StreamInfo>, targets: Seq<u32>) -> nat
    decreases s.len(),
{
    if s.len() == 0 {
        0
    } else {
        count_confirmed(s.drop_last(), targets) + if confirmed_carrier(s.last(), targets) {
            1nat
        } else {
            0nat
        }
    }
}

fn contains_id(targets: &Vec<u32>, id: u32) -> (r: bool)
    ensures
        r == targets@.contains(id),
{
    let mut i: usize = 0;
    while i < targets.len()
        invariant
            i <= targets.len(),
            forall|j: int| 0 <= j < i ==> targets@[j] != id,
        decreases targets.len() - i,
    {
        if targets[i] == id {
            assert(targets@[i as int] == id);
            return true;
        }
        i += 1;
    }
    false
}

/// The chapter carrier among `streams`, given the track IDs that chapter
/// references name: the stream index of the one possible carrier that is
/// named, or `None` when none is. Two or more named carriers are refused,
/// since it is not clear which one holds the chapters.
pub fn confirmed_chapter_carrier(streams: &Vec<StreamInfo>, targets: &Vec<u32>) -> (r: Result<
    Option<usize>,
    String,
>)
    ensures
        count_confirmed(streams@, targets@) == 0 ==> r == Ok::<Option<usize>, String>(None),
        count_confirmed(streams@, targets@) == 1 ==> (r matches Ok(Some(index)) && exists|i: int|
            0 <= i < streams@.len() && #[trigger] confirmed_carrier(streams@[i], targets@)
                && streams@[i].index == index),
        count_confirmed(streams@, targets@) > 1 ==> (r matches Err(e) && e@
            == "cannot safely classify chapter carrier: "@ + decimal(
            count_confirmed(streams@, targets@),
        ) + " text data tracks are targeted by tref/chap"@),
{
    let mut n: usize = 0;
    let mut found: Option<usize> = None;
    let mut i: usize = 0;
    while i < streams.len()
        invariant
            i <= streams.len(),
            n == count_confirmed(streams@.take(i as int), targets@),
            n <= i,
            n > 0 <==> found is Some,
            found matches Some(index) ==> exists|j: int|
                0 <= j < streams@.len() && #[trigger] confirmed_carrier(streams@[j], targets@)
                    && streams@[j].index == index,
        decreases streams.len() - i,
    {
        assert(streams@.take(i as int + 1).drop_last() =~= streams@.take(i as int));
        let st = &streams[i];
        let confirmed = if is_chapter_carrier_candidate(st) {
            match st.track_id {
                Some(id) => contains_id(targets, id),
                None => false,
            }
        } else {
            false
        };
        assert(confirmed == confirmed_carrier(streams@[i as int], targets@));
        if confirmed {
            n += 1;
            found = Some(st.index);
        }
        i += 1;
    }
    assert(streams@.take(streams.len() as int) =~= streams@);
    if n > 1 {
        let mut out = at_offset("cannot safely classify chapter carrier: ", n as u64);
        out.append(" text data tracks are targeted by tref/chap");
        Err(out)
    } else {
        Ok(found)
    }
}

/// The streams of `s` whose index is not `index`, in order.
pub open spec fn other_streams(s: Seq<StreamInfo>, index: usize) -> Seq<StreamInfo>
    decreases s.len(),
{
    if s.len() == 0 {
        Seq::empty()
    } else if s[0].index != index {
        seq![s[0]] + other_streams(s.drop_first(), index)
    } else {
        other_streams(s.drop_first(), index)
    }
}

/// Drops the stream with the given index, the chapter carrier that is not
/// carried over.
pub fn drop_stream(streams: &mut Vec<StreamInfo>, index: usize)
    ensures
        final(streams)@ == other_streams(old(streams)@, index),
{
    let ghost start = streams@;
    let mut j: usize = streams.len();
    assert(start.subrange(start.len() as int, start.len() as int) =~= Seq::<StreamInfo>::empty());
    while j > 0
        invariant
            j <= start.len(),
            streams@ == start.subrange(0, j as int) + other_streams(
                start.subrange(j as int, start.len() as int),
                index,
            ),
        decreases j,
    {
        let ghost rest = start.subrange(j as int, start.len() as int);
        let ghost longer = start.subrange(j as int - 1, start.len() as int);
        assert(longer.drop_first() =~= rest);
        assert(longer[0] == start[j as int - 1]);
        assert(streams@[j as int - 1] == start[j as int - 1]);
        if streams[j - 1].index == index {
            streams.remove(j - 1);
            assert(streams@ =~= start.subrange(0, j as int - 1) + other_streams(longer, index));
        } else {
            assert(streams@ =~= start.subrange(0, j as int - 1) + other_streams(longer, index));
        }
        j -= 1;
    }
    assert(start.subrange(0, 0) + other_streams(start.subrange(0, start.len() as int), index)
        =~= other_streams(start, index)) by {
        assert(start.subrange(0, start.len() as int) =~= start);
    }
}

} // verus!
