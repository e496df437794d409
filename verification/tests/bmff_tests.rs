use myvidcomp::bmff::{
    any_carrier_candidate, be_u32, be_u64, boxes_of_kind, chap_track_ids, check_chap_payload_len,
    confirmed_chapter_carrier, drop_stream, next_box, single_moov, tkhd_id_position, tkhd_track_id,
    track_header, BmffBox, CHAP, MAX_BMFF_BOXES, MOOV, TKHD, TRAK, TREF,
};
use myvidcomp::probe::StreamInfo;

fn atom(kind: &[u8; 4], payload: &[u8]) -> Vec<u8> {
    let mut out = ((payload.len() + 8) as u32).to_be_bytes().to_vec();
    out.extend_from_slice(kind);
    out.extend_from_slice(payload);
    out
}

fn zero_atom(kind: &[u8; 4], payload: &[u8]) -> Vec<u8> {
    let mut out = 0_u32.to_be_bytes().to_vec();
    out.extend_from_slice(kind);
    out.extend_from_slice(payload);
    out
}

fn extended_atom(kind: &[u8; 4], payload: &[u8]) -> Vec<u8> {
    let mut out = 1_u32.to_be_bytes().to_vec();
    out.extend_from_slice(kind);
    out.extend_from_slice(&((payload.len() + 16) as u64).to_be_bytes());
    out.extend_from_slice(payload);
    out
}

fn chapter_reference_fixture(target_id: u32, extended_moov: bool, zero_chap: bool) -> Vec<u8> {
    let mut tkhd_payload = vec![0_u8; 16];
    tkhd_payload[12..16].copy_from_slice(&1_u32.to_be_bytes());
    let tkhd = atom(b"tkhd", &tkhd_payload);
    let chap = if zero_chap {
        zero_atom(b"chap", &target_id.to_be_bytes())
    } else {
        atom(b"chap", &target_id.to_be_bytes())
    };
    let tref = atom(b"tref", &chap);
    let mut trak_payload = tkhd;
    trak_payload.extend_from_slice(&tref);
    let trak = atom(b"trak", &trak_payload);
    if extended_moov {
        extended_atom(b"moov", &trak)
    } else {
        atom(b"moov", &trak)
    }
}

fn header_at(file: &[u8], offset: u64) -> Vec<u8> {
    let start = offset as usize;
    let stop = (start + 16).min(file.len());
    file[start..stop].to_vec()
}

fn children(file: &[u8], start: u64, end: u64, budget: &mut usize) -> Result<Vec<BmffBox>, String> {
    let mut offset = start;
    let mut boxes = Vec::new();
    while offset < end {
        let found = next_box(&header_at(file, offset), offset, end, *budget);
        *budget = budget.saturating_sub(1);
        let found = found?;
        boxes.push(found);
        offset = found.end;
    }
    Ok(boxes)
}

fn chapter_targets(file: &[u8]) -> Result<Vec<u32>, String> {
    let mut budget = MAX_BMFF_BOXES;
    let top = children(file, 0, file.len() as u64, &mut budget)?;
    let moov = single_moov(&top)?;
    let mut targets = Vec::new();
    for trak in boxes_of_kind(&children(file, moov.payload_start, moov.end, &mut budget)?, TRAK) {
        let kids = children(file, trak.payload_start, trak.end, &mut budget)?;
        if let Some(tkhd) = track_header(&kids)? {
            let version = file[tkhd.payload_start as usize];
            let position = tkhd_id_position(tkhd, version)? as usize;
            let bytes = file[position..position + 4].to_vec();
            tkhd_track_id(be_u32(&bytes, 0))?;
        }
        for tref in boxes_of_kind(&kids, TREF) {
            for chap in boxes_of_kind(&children(file, tref.payload_start, tref.end, &mut budget)?, CHAP) {
                let len = check_chap_payload_len(chap.end - chap.payload_start)?;
                let start = chap.payload_start as usize;
                let payload = file[start..start + len].to_vec();
                targets.extend(chap_track_ids(&payload)?);
            }
        }
    }
    Ok(targets)
}

fn stream(index: usize, codec_type: &str, codec_name: &str) -> StreamInfo {
    StreamInfo {
        index,
        codec_type: codec_type.to_string(),
        codec_name: codec_name.to_string(),
        codec_tag_string: None,
        track_id: None,
        handler_name: None,
    }
}

fn carrier(index: usize, track_id: u32) -> StreamInfo {
    let mut s = stream(index, "data", "bin_data");
    s.codec_tag_string = Some("text".to_string());
    s.track_id = Some(track_id);
    s
}

#[test]
fn parses_bmff_chapter_reference_size_variants() {
    for (extended, zero) in [(false, false), (true, false), (false, true)] {
        let file = chapter_reference_fixture(42, extended, zero);
        assert_eq!(chapter_targets(&file).unwrap(), vec![42]);
    }
}

#[test]
fn malformed_moov_is_refused() {
    let file = vec![0_u8, 0, 0, 20, b'm', b'o', b'o', b'v'];
    let err = chapter_targets(&file).unwrap_err();
    assert_eq!(err, "box at 0 exceeds parent bound 8");
}

#[test]
fn reads_big_endian_numbers() {
    let bytes = vec![0x01, 0x02, 0x03, 0x04, 0x05, 0x06, 0x07, 0x08];
    assert_eq!(be_u32(&bytes, 0), 0x0102_0304);
    assert_eq!(be_u32(&bytes, 4), 0x0506_0708);
    assert_eq!(be_u64(&bytes, 0), 0x0102_0304_0506_0708);
    assert_eq!(be_u32(&b"moov".to_vec(), 0), MOOV);
    assert_eq!(be_u32(&b"tkhd".to_vec(), 0), TKHD);
}

#[test]
fn box_headers_follow_their_size_field() {
    let plain = atom(b"trak", &[0; 4]);
    let found = next_box(&header_at(&plain, 0), 0, 12, 5).unwrap();
    assert_eq!(found, BmffBox { kind: TRAK, payload_start: 8, end: 12 });

    let to_end = zero_atom(b"trak", &[0; 4]);
    let found = next_box(&header_at(&to_end, 0), 0, 12, 5).unwrap();
    assert_eq!(found, BmffBox { kind: TRAK, payload_start: 8, end: 12 });

    let large = extended_atom(b"moov", &[0; 4]);
    let found = next_box(&header_at(&large, 0), 0, 20, 5).unwrap();
    assert_eq!(found, BmffBox { kind: MOOV, payload_start: 16, end: 20 });
}

#[test]
fn box_header_errors_name_the_offset() {
    let plain = atom(b"trak", &[0; 4]);
    assert_eq!(
        next_box(&header_at(&plain, 0), 0, 12, 0).unwrap_err(),
        "box count exceeds 100000"
    );
    assert_eq!(
        next_box(&vec![0, 0, 0], 7, 10, 3).unwrap_err(),
        "truncated box header at offset 7"
    );
    let small = vec![0, 0, 0, 5, b'f', b'r', b'e', b'e'];
    assert_eq!(next_box(&small, 0, 8, 3).unwrap_err(), "invalid box size 5 at 0");
    let mut bad_large = vec![0, 0, 0, 1, b'f', b'r', b'e', b'e'];
    bad_large.extend_from_slice(&8_u64.to_be_bytes());
    assert_eq!(
        next_box(&bad_large, 0, 16, 3).unwrap_err(),
        "invalid extended box size 8 at 0"
    );
    let mut huge = vec![0, 0, 0, 1, b'f', b'r', b'e', b'e'];
    huge.extend_from_slice(&u64::MAX.to_be_bytes());
    assert_eq!(next_box(&huge, 4, 40, 3).unwrap_err(), "box size overflow at 4");
    let short_large = vec![0, 0, 0, 1, b'f', b'r', b'e', b'e'];
    assert_eq!(
        next_box(&short_large, 0, 8, 3).unwrap_err(),
        "failed to read 64-bit atom field: failed to fill whole buffer"
    );
}

#[test]
fn track_headers_and_chapter_references_are_checked() {
    let one = BmffBox { kind: TKHD, payload_start: 8, end: 32 };
    assert_eq!(tkhd_id_position(one, 0).unwrap(), 20);
    assert_eq!(tkhd_id_position(one, 1).unwrap(), 28);
    assert_eq!(tkhd_id_position(one, 2).unwrap_err(), "unsupported tkhd version 2");
    let short = BmffBox { kind: TKHD, payload_start: 8, end: 30 };
    assert_eq!(tkhd_id_position(short, 1).unwrap_err(), "truncated tkhd track ID");
    assert_eq!(tkhd_track_id(7).unwrap(), 7);
    assert_eq!(tkhd_track_id(0).unwrap_err(), "tkhd contains zero track ID");

    assert_eq!(check_chap_payload_len(8).unwrap(), 8);
    assert_eq!(
        check_chap_payload_len(6).unwrap_err(),
        "invalid tref/chap payload length 6"
    );
    assert_eq!(
        check_chap_payload_len(0).unwrap_err(),
        "invalid tref/chap payload length 0"
    );
    assert!(check_chap_payload_len(4100).is_err());
    assert_eq!(chap_track_ids(&vec![0, 0, 0, 42, 0, 0, 1, 0]).unwrap(), vec![42, 256]);
    assert_eq!(
        chap_track_ids(&vec![0, 0, 0, 42, 0, 0, 0, 0]).unwrap_err(),
        "tref/chap contains zero track ID"
    );
}

#[test]
fn box_counts_are_enforced() {
    let moov = BmffBox { kind: MOOV, payload_start: 8, end: 40 };
    let trak = BmffBox { kind: TRAK, payload_start: 48, end: 60 };
    assert_eq!(single_moov(&vec![trak, moov]).unwrap(), moov);
    assert_eq!(
        single_moov(&vec![trak]).unwrap_err(),
        "expected exactly one moov box, found 0"
    );
    assert_eq!(
        single_moov(&vec![moov, moov]).unwrap_err(),
        "expected exactly one moov box, found 2"
    );
    let tkhd = BmffBox { kind: TKHD, payload_start: 8, end: 40 };
    assert_eq!(track_header(&vec![trak]).unwrap(), None);
    assert_eq!(track_header(&vec![trak, tkhd]).unwrap(), Some(tkhd));
    assert_eq!(
        track_header(&vec![tkhd, tkhd]).unwrap_err(),
        "trak contains multiple tkhd boxes"
    );
    assert_eq!(boxes_of_kind(&vec![trak, moov, trak], TRAK), vec![trak, trak]);
}

#[test]
fn confirmed_chapter_carrier_is_filtered() {
    let mut streams = vec![stream(3, "video", "h264"), carrier(9, 42)];
    assert!(any_carrier_candidate(&streams));
    assert_eq!(confirmed_chapter_carrier(&streams, &vec![42]).unwrap(), Some(9));
    assert_eq!(confirmed_chapter_carrier(&streams, &vec![7]).unwrap(), None);
    drop_stream(&mut streams, 9);
    assert_eq!(streams.len(), 1);
    assert_eq!(streams[0].index, 3);
    assert!(!any_carrier_candidate(&streams));
}

#[test]
fn two_named_carriers_are_refused() {
    let streams = vec![stream(0, "video", "h264"), carrier(1, 2), carrier(2, 3)];
    assert_eq!(
        confirmed_chapter_carrier(&streams, &vec![2, 3]).unwrap_err(),
        "cannot safely classify chapter carrier: 2 text data tracks are targeted by tref/chap"
    );
}
