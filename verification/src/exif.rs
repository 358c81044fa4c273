//! EXIF carry-over: the metadata segment of the source JPEG is placed into
//! the freshly encoded one. Best effort; any failure leaves the encoded
//! bytes as they are.

use vstd::prelude::*;

verus! {

/// Marker of the application segment that holds EXIF metadata.
pub const EXIF_MARKER: u8 = 0xE1;

/// Position at which the segment is inserted: right after the leading
/// segment.
pub const INSERT_AT: usize = 1;

/// Longest contents a segment can carry: its 16-bit length field counts
/// itself.
pub const MAX_SEGMENT_CONTENTS: usize = 65533;

/// `img_parts::jpeg::Jpeg`, a parsed JPEG container. What it holds is
/// spoken of through `jpeg_segments`.
#[verifier::external_type_specification]
#[verifier::external_body]
pub struct ExJpeg(img_parts::jpeg::Jpeg);

/// `img_parts::Error`, carried through unread.
#[verifier::external_type_specification]
#[verifier::external_body]
pub struct ExImgPartsError(img_parts::Error);

/// The segments a JPEG container holds, in order: marker, contents, and
/// the entropy-coded data that follows the segment.
pub uninterp spec fn jpeg_segments(jpeg: img_parts::jpeg::Jpeg) -> Seq<(u8, Seq<u8>, Seq<u8>)>;

/// The segments that parsing finds in `bytes`, if they parse as a JPEG.
pub uninterp spec fn parsed_jpeg(bytes: Seq<u8>) -> Option<Seq<(u8, Seq<u8>, Seq<u8>)>>;

/// The bytes that a container with these segments is written as.
pub uninterp spec fn serialized_jpeg(segments: Seq<(u8, Seq<u8>, Seq<u8>)>) -> Seq<u8>;

/// Every segment is short enough for its length field.
pub open spec fn segments_fit(segments: Seq<(u8, Seq<u8>, Seq<u8>)>) -> bool {
    forall|i: int| 0 <= i < segments.len() ==> (#[trigger] segments[i]).1.len() <= MAX_SEGMENT_CONTENTS
}

/// `img_parts::jpeg::Jpeg::from_bytes` on a copy of `bytes`. Parsing
/// depends on the bytes alone, and a segment that was parsed is no longer
/// than its 16-bit length field allowed.
#[verifier::external_body]
fn parse_jpeg(bytes: &Vec<u8>) -> (out: Result<img_parts::jpeg::Jpeg, img_parts::Error>)
    ensures
        match out {
            Ok(jpeg) => parsed_jpeg(bytes@) == Some(jpeg_segments(jpeg)) && segments_fit(
                jpeg_segments(jpeg),
            ),
            Err(_) => parsed_jpeg(bytes@) is None,
        },
{
    img_parts::jpeg::Jpeg::from_bytes(img_parts::Bytes::copy_from_slice(bytes))
}

/// Length of `Jpeg::segments`.
#[verifier::external_body]
fn segment_count(jpeg: &img_parts::jpeg::Jpeg) -> (n: usize)
    ensures
        n == jpeg_segments(*jpeg).len(),
{
    jpeg.segments().len()
}

/// `JpegSegment::marker` of the segment at `index`.
#[verifier::external_body]
fn segment_marker(jpeg: &img_parts::jpeg::Jpeg, index: usize) -> (marker: u8)
    requires
        index < jpeg_segments(*jpeg).len(),
    ensures
        marker == jpeg_segments(*jpeg)[index as int].0,
{
    jpeg.segments()[index].marker()
}

/// Clones the segment at `from` of `source` and inserts it into
/// `Jpeg::segments_mut` of `target` at `at`; the segments behind it move up.
#[verifier::external_body]
fn insert_segment(
    target: &mut img_parts::jpeg::Jpeg,
    at: usize,
    source: &img_parts::jpeg::Jpeg,
    from: usize,
)
    requires
        at <= jpeg_segments(*old(target)).len(),
        from < jpeg_segments(*source).len(),
    ensures
        jpeg_segments(*final(target)) == jpeg_segments(*old(target)).insert(
            at as int,
            jpeg_segments(*source)[from as int],
        ),
{
    let segment = source.segments()[from].clone();
    target.segments_mut().insert(at, segment);
}

/// `Jpeg::encoder` and `ImageEncoder::bytes`, copied into a vector. What is
/// written depends on the segments alone. A segment too long for its length
/// field would make the encoder panic, so such containers are left out.
#[verifier::external_body]
fn serialize_jpeg(jpeg: img_parts::jpeg::Jpeg) -> (bytes: Vec<u8>)
    requires
        segments_fit(jpeg_segments(jpeg)),
    ensures
        bytes@ == serialized_jpeg(jpeg_segments(jpeg)),
{
    jpeg.encoder().bytes().to_vec()
}

/// Index of the first segment from `from` on that carries `marker`.
pub open spec fn find_marker(segments: Seq<(u8, Seq<u8>, Seq<u8>)>, marker: u8, from: int)
    -> Option<int>
    decreases segments.len() - from,
{
    if from < 0 || from >= segments.len() {
        None
    } else if segments[from].0 == marker {
        Some(from)
    } else {
        find_marker(segments, marker, from + 1)
    }
}

/// What `find_marker` returns is the first segment with the marker, and
/// `None` means that no segment from `from` on carries it.
pub proof fn lemma_find_marker_is_first(
    segments: Seq<(u8, Seq<u8>, Seq<u8>)>,
    marker: u8,
    from: int,
)
    requires
        0 <= from,
    ensures
        match find_marker(segments, marker, from) {
            Some(i) => from <= i < segments.len() && segments[i].0 == marker && forall|j: int|
                from <= j < i ==> (#[trigger] segments[j]).0 != marker,
            None => forall|j: int|
                from <= j < segments.len() ==> (#[trigger] segments[j]).0 != marker,
        },
    decreases segments.len() - from,
{
    if from < segments.len() && segments[from].0 != marker {
        lemma_find_marker_is_first(segments, marker, from + 1);
    }
}

/// The segments of the encoded image with the EXIF segment of the source
/// inserted behind the leading segment.
pub open spec fn with_exif(
    encoded: Seq<(u8, Seq<u8>, Seq<u8>)>,
    exif: (u8, Seq<u8>, Seq<u8>),
) -> Seq<(u8, Seq<u8>, Seq<u8>)> {
    encoded.insert(INSERT_AT as int, exif)
}

/// The bytes that EXIF carry-over produces from the source file's bytes
/// and the encoded image: the encoded image itself unless the source
/// parses, holds an EXIF segment, and the encoded image parses with a
/// leading segment to insert behind.
pub open spec fn exif_preserved(source: Seq<u8>, encoded: Seq<u8>) -> Seq<u8> {
    match parsed_jpeg(source) {
        None => encoded,
        Some(source_segments) => match find_marker(source_segments, EXIF_MARKER, 0) {
            None => encoded,
            Some(i) => match parsed_jpeg(encoded) {
                None => encoded,
                Some(encoded_segments) => if encoded_segments.len() < INSERT_AT {
                    encoded
                } else {
                    serialized_jpeg(with_exif(encoded_segments, source_segments[i]))
                },
            },
        },
    }
}

/// Finds the first segment of `jpeg` that carries `marker`.
fn first_segment_with(jpeg: &img_parts::jpeg::Jpeg, marker: u8) -> (found: Option<usize>)
    ensures
        match found {
            Some(i) => find_marker(jpeg_segments(*jpeg), marker, 0) == Some(i as int) && i
                < jpeg_segments(*jpeg).len(),
            None => find_marker(jpeg_segments(*jpeg), marker, 0) is None,
        },
{
    let n: usize = segment_count(jpeg);
    let mut i: usize = 0;
    while i < n
        invariant
            i <= n,
            n == jpeg_segments(*jpeg).len(),
            find_marker(jpeg_segments(*jpeg), marker, 0) == find_marker(
                jpeg_segments(*jpeg),
                marker,
                i as int,
            ),
        decreases n - i,
    {
        if segment_marker(jpeg, i) == marker {
            return Some(i);
        }
        i = i + 1;
    }
    None
}

/// Carries the EXIF segment of the source file over into the encoded
/// image. Never fails: where either side does not parse, or the source has
/// no EXIF segment, the encoded bytes come back unchanged.
pub fn preserve_exif(source: &Vec<u8>, encoded: Vec<u8>) -> (out: Vec<u8>)
    ensures
        out@ == exif_preserved(source@, encoded@),
{
    let source_jpeg = match parse_jpeg(source) {
        Ok(jpeg) => jpeg,
        Err(_) => {
            return encoded;
        },
    };
    let exif_index: usize = match first_segment_with(&source_jpeg, EXIF_MARKER) {
        Some(i) => i,
        None => {
            return encoded;
        },
    };
    let mut encoded_jpeg = match parse_jpeg(&encoded) {
        Ok(jpeg) => jpeg,
        Err(_) => {
            return encoded;
        },
    };
    if segment_count(&encoded_jpeg) < INSERT_AT {
        return encoded;
    }
    insert_segment(&mut encoded_jpeg, INSERT_AT, &source_jpeg, exif_index);
    serialize_jpeg(encoded_jpeg)
}

} // verus!
