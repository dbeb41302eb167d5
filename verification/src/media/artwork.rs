//! Artwork of the current media: which image type it is, the data URL the
//! front end shows, and the colour buckets from which its accent colour is
//! chosen.
use vstd::prelude::*;

use base64::engine::general_purpose::STANDARD as BASE64_STANDARD;
use base64::Engine;
use std::io::Cursor;

use crate::text::{
    ascii_lower_seq, chars_of, decimal, decimal_string, has_prefix, joined, lower_chars, push_char,
    push_str, starts_with_chars, string_from_chars, trim_seq, trimmed,
};

verus! {

/// The largest artwork that is read, in bytes.
pub const MAX_ARTWORK_BYTES: u64 = 4 * 1024 * 1024;
/// The largest artwork width or height that is decoded.
pub const MAX_ARTWORK_DIMENSION: u32 = 4096;
/// The most memory that decoding artwork may take, in bytes.
pub const MAX_ARTWORK_DECODE_BYTES: u64 = 64 * 1024 * 1024;
/// The side of the thumbnail from which colours are counted.
pub const THUMBNAIL_SIDE: u32 = 48;

// ---------------------------------------------------------------------------
// Size and type.
// ---------------------------------------------------------------------------

pub open spec fn too_large_message(size: u64) -> Seq<char> {
    "媒体封面大小为 "@ + decimal(size as nat) + " 字节，超过 4194304 字节限制"@
}

/// Checks the size that the artwork stream reports: no artwork for an
/// empty stream, an error above 4 MiB, else the byte count to load.
pub fn check_artwork_size(size: u64) -> (r: Result<Option<u32>, String>)
    ensures
        size == 0 ==> r matches Ok(None),
        size > MAX_ARTWORK_BYTES ==> (r matches Err(e) && e@ == too_large_message(size)),
        0 < size <= MAX_ARTWORK_BYTES ==> r == Ok::<Option<u32>, String>(Some(size as u32)),
{
    if size == 0 {
        return Ok(None);
    }
    if size > MAX_ARTWORK_BYTES {
        let mut m = "媒体封面大小为 ".to_owned();
        let d = decimal_string(size as u128);
        push_str(&mut m, d.as_str());
        push_str(&mut m, " 字节，超过 4194304 字节限制");
        return Err(m);
    }
    Ok(Some(size as u32))
}

pub open spec fn bytes_start_with(b: Seq<u8>, p: Seq<u8>) -> bool {
    p.len() <= b.len() && b.subrange(0, p.len() as int) == p
}

/// The image type that the file header shows, if any.
pub open spec fn detected_type(b: Seq<u8>) -> Option<Seq<char>> {
    if bytes_start_with(b, seq![0xFFu8, 0xD8u8, 0xFFu8]) {
        Some("image/jpeg"@)
    } else if bytes_start_with(b, seq![0x89u8, 0x50u8, 0x4Eu8, 0x47u8, 0x0Du8, 0x0Au8, 0x1Au8, 0x0Au8]) {
        Some("image/png"@)
    } else if bytes_start_with(b, seq![0x47u8, 0x49u8, 0x46u8, 0x38u8, 0x37u8, 0x61u8])
        || bytes_start_with(b, seq![0x47u8, 0x49u8, 0x46u8, 0x38u8, 0x39u8, 0x61u8]) {
        Some("image/gif"@)
    } else if b.len() >= 12 && bytes_start_with(b, seq![0x52u8, 0x49u8, 0x46u8, 0x46u8])
        && b.subrange(8, 12) == seq![0x57u8, 0x45u8, 0x42u8, 0x50u8] {
        Some("image/webp"@)
    } else if bytes_start_with(b, seq![0x42u8, 0x4Du8]) {
        Some("image/bmp"@)
    } else {
        None
    }
}

/// Length of the part of `s` before the first `,` or `;`.
pub open spec fn first_part_len(s: Seq<char>) -> nat
    decreases s.len(),
{
    if s.len() == 0 || s[0] == ',' || s[0] == ';' {
        0
    } else {
        1 + first_part_len(s.drop_first())
    }
}

/// The first type of a reported list, trimmed and in lower case.
pub open spec fn first_reported_type(reported: Seq<char>) -> Seq<char> {
    ascii_lower_seq(trim_seq(reported.subrange(0, first_part_len(reported) as int)))
}

/// The MIME type of artwork: the one its header shows; else the first
/// reported type where it is an image type; else JPEG.
pub open spec fn artwork_content_type(b: Seq<u8>, reported: Seq<char>) -> Seq<char> {
    match detected_type(b) {
        Some(t) => t,
        None => if has_prefix(first_reported_type(reported), "image/"@) {
            first_reported_type(reported)
        } else {
            "image/jpeg"@
        },
    }
}

fn starts_with_bytes(b: &[u8], p: &[u8]) -> (r: bool)
    ensures
        r == bytes_start_with(b@, p@),
{
    if p.len() > b.len() {
        return false;
    }
    let mut i: usize = 0;
    while i < p.len()
        invariant
            i <= p@.len() <= b@.len(),
            forall|j: int| 0 <= j < i ==> b@[j] == p@[j],
        decreases p.len() - i,
    {
        if b[i] != p[i] {
            assert(b@.subrange(0, p@.len() as int)[i as int] != p@[i as int]);
            return false;
        }
        i += 1;
    }
    assert(b@.subrange(0, p@.len() as int) =~= p@);
    true
}

fn first_part_end(s: &[char]) -> (r: usize)
    ensures
        r == first_part_len(s@),
        r <= s@.len(),
{
    let mut i: usize = 0;
    proof {
        assert(s@.skip(0) =~= s@);
    }
    while i < s.len() && s[i] != ',' && s[i] != ';'
        invariant
            i <= s@.len(),
            first_part_len(s@) == i + first_part_len(s@.skip(i as int)),
        decreases s.len() - i,
    {
        proof {
            assert(s@.skip(i as int).drop_first() =~= s@.skip(i + 1));
        }
        i += 1;
    }
    proof {
        assert(first_part_len(s@.skip(i as int)) == 0);
    }
    i
}

/// The MIME type of artwork for its data URL.
pub fn detect_artwork_content_type(bytes: &[u8], reported_content_type: &str) -> (r: String)
    ensures
        r@ == artwork_content_type(bytes@, reported_content_type@),
{
    proof {
        reveal_strlit("image/jpeg");
        reveal_strlit("image/png");
        reveal_strlit("image/gif");
        reveal_strlit("image/webp");
        reveal_strlit("image/bmp");
        reveal_strlit("image/");
    }
    if starts_with_bytes(bytes, &[0xFFu8, 0xD8u8, 0xFFu8]) {
        return "image/jpeg".to_owned();
    }
    if starts_with_bytes(bytes, &[0x89u8, 0x50u8, 0x4Eu8, 0x47u8, 0x0Du8, 0x0Au8, 0x1Au8, 0x0Au8]) {
        return "image/png".to_owned();
    }
    if starts_with_bytes(bytes, &[0x47u8, 0x49u8, 0x46u8, 0x38u8, 0x37u8, 0x61u8])
        || starts_with_bytes(bytes, &[0x47u8, 0x49u8, 0x46u8, 0x38u8, 0x39u8, 0x61u8]) {
        return "image/gif".to_owned();
    }
    if bytes.len() >= 12 && starts_with_bytes(bytes, &[0x52u8, 0x49u8, 0x46u8, 0x46u8])
        && bytes[8] == 0x57u8 && bytes[9] == 0x45u8 && bytes[10] == 0x42u8 && bytes[11] == 0x50u8 {
        assert(bytes@.subrange(8, 12) =~= seq![0x57u8, 0x45u8, 0x42u8, 0x50u8]);
        return "image/webp".to_owned();
    }
    if bytes.len() >= 12 && starts_with_bytes(bytes, &[0x52u8, 0x49u8, 0x46u8, 0x46u8]) {
        assert(bytes@.subrange(8, 12) != seq![0x57u8, 0x45u8, 0x42u8, 0x50u8]) by {
            if bytes@.subrange(8, 12) == seq![0x57u8, 0x45u8, 0x42u8, 0x50u8] {
                assert(bytes@.subrange(8, 12)[0] == bytes@[8]);
                assert(bytes@.subrange(8, 12)[1] == bytes@[9]);
                assert(bytes@.subrange(8, 12)[2] == bytes@[10]);
                assert(bytes@.subrange(8, 12)[3] == bytes@[11]);
            }
        }
    }
    if starts_with_bytes(bytes, &[0x42u8, 0x4Du8]) {
        return "image/bmp".to_owned();
    }
    let reported = chars_of(reported_content_type);
    let end = first_part_end(reported.as_slice());
    let mut part: Vec<char> = Vec::new();
    let mut i: usize = 0;
    while i < end
        invariant
            i <= end <= reported@.len(),
            part@ == reported@.subrange(0, i as int),
        decreases end - i,
    {
        part.push(reported[i]);
        i += 1;
        proof {
            assert(part@ =~= reported@.subrange(0, i as int));
        }
    }
    let t = trimmed(part.as_slice());
    let lowered = lower_chars(t.as_slice());
    let prefix = chars_of("image/");
    if starts_with_chars(lowered.as_slice(), prefix.as_slice()) {
        string_from_chars(lowered.as_slice())
    } else {
        "image/jpeg".to_owned()
    }
}

// ---------------------------------------------------------------------------
// Data URL.
// ---------------------------------------------------------------------------

/// The character of a 6-bit value in the standard base64 alphabet.
pub open spec fn base64_char(v: int) -> char {
    if v < 26 {
        (('A' as int) + v) as char
    } else if v < 52 {
        (('a' as int) + v - 26) as char
    } else if v < 62 {
        (('0' as int) + v - 52) as char
    } else if v == 62 {
        '+'
    } else {
        '/'
    }
}

/// Standard base64 with `=` padding: each group of three bytes becomes four
/// characters; a last group of one or two bytes becomes two or three
/// characters and padding.
pub open spec fn base64_standard(b: Seq<u8>) -> Seq<char>
    decreases b.len(),
{
    if b.len() == 0 {
        Seq::empty()
    } else if b.len() == 1 {
        seq![base64_char(b[0] as int / 4), base64_char((b[0] as int % 4) * 16), '=', '=']
    } else if b.len() == 2 {
        seq![
            base64_char(b[0] as int / 4),
            base64_char((b[0] as int % 4) * 16 + b[1] as int / 16),
            base64_char((b[1] as int % 16) * 4),
            '=',
        ]
    } else {
        seq![
            base64_char(b[0] as int / 4),
            base64_char((b[0] as int % 4) * 16 + b[1] as int / 16),
            base64_char((b[1] as int % 16) * 4 + b[2] as int / 64),
            base64_char(b[2] as int % 64),
        ] + base64_standard(b.skip(3))
    }
}

/// Encodes `bytes` in standard base64.
///
/// Calls `base64::engine::general_purpose::STANDARD.encode`, which the crate
/// documents as the standard alphabet (RFC 4648) with `=` padding; the
/// contract states that encoding. The input bound keeps the crate's length
/// computation, which panics on overflow, in range.
#[verifier::external_body]
fn encode_base64(bytes: &[u8]) -> (r: String)
    requires
        bytes@.len() <= usize::MAX / 2,
    ensures
        r@ == base64_standard(bytes@),
{
    BASE64_STANDARD.encode(bytes)
}

pub open spec fn data_url(content_type: Seq<char>, bytes: Seq<u8>) -> Seq<char> {
    "data:"@ + content_type + ";base64,"@ + base64_standard(bytes)
}

/// The data URL of artwork of at most 4 MiB.
pub fn artwork_data_url(bytes: &[u8], reported_content_type: &str) -> (r: String)
    requires
        bytes@.len() <= MAX_ARTWORK_BYTES,
    ensures
        r@ == data_url(artwork_content_type(bytes@, reported_content_type@), bytes@),
{
    let content_type = detect_artwork_content_type(bytes, reported_content_type);
    let encoded = encode_base64(bytes);
    let mut r = joined("data:", content_type.as_str());
    push_str(&mut r, ";base64,");
    push_str(&mut r, encoded.as_str());
    r
}

// ---------------------------------------------------------------------------
// Colour buckets.
// ---------------------------------------------------------------------------

/// The step of decoding artwork that failed.
#[derive(Debug, Clone, Copy, PartialEq, Eq, Structural)]
pub enum ThumbnailStep {
    /// The image format could not be guessed from the bytes.
    GuessFormat,
    /// The image could not be decoded within the limits.
    Decode,
}

/// The pixels of artwork decoded within a largest width and height and a
/// memory limit, and scaled down to fit `side`×`side`, as RGBA bytes; or the
/// step that failed and the `image` crate's text of its error.
pub uninterp spec fn decoded_thumbnail(
    bytes: Seq<u8>,
    max_dimension: u32,
    max_alloc: u64,
    side: u32,
) -> Result<Seq<u8>, (ThumbnailStep, Seq<char>)>;

/// Decodes artwork into the RGBA pixels of its thumbnail.
///
/// Calls the `image` crate: `ImageReader::new(..).with_guessed_format()`,
/// `decode` with the given limits on width, height and memory,
/// `thumbnail(side, side)`, `to_rgba8` and `into_raw`. The contract names the
/// result as a function of the arguments alone and states what the crate's
/// source shows of it: four bytes per pixel, and a thumbnail that fits
/// within `side`×`side` (a side of zero would still give one pixel, so it is
/// excluded). An error keeps the crate's own text and says which step failed.
#[verifier::external_body]
fn decode_thumbnail(bytes: &[u8], max_dimension: u32, max_alloc: u64, side: u32) -> (r: Result<
    Vec<u8>,
    (ThumbnailStep, String),
>)
    requires
        side > 0,
    ensures
        match (r, decoded_thumbnail(bytes@, max_dimension, max_alloc, side)) {
            (Ok(p), Ok(q)) => p@ == q && p@.len() % 4 == 0 && p@.len() <= side * side * 4,
            (Err((step, e)), Err((expected_step, m))) => step == expected_step && e@ == m,
            _ => false,
        },
{
    let mut reader = match image::ImageReader::new(Cursor::new(bytes)).with_guessed_format() {
        Ok(reader) => reader,
        Err(error) => return Err((ThumbnailStep::GuessFormat, error.to_string())),
    };
    let mut limits = image::Limits::default();
    limits.max_image_width = Some(max_dimension);
    limits.max_image_height = Some(max_dimension);
    limits.max_alloc = Some(max_alloc);
    reader.limits(limits);
    match reader.decode() {
        Ok(image) => Ok(image.thumbnail(side, side).to_rgba8().into_raw()),
        Err(error) => Err((ThumbnailStep::Decode, error.to_string())),
    }
}

/// The count and channel sums of the opaque pixels in one colour bucket.
#[derive(Debug, Clone, Copy, PartialEq, Eq, Structural)]
pub struct ColorBucket {
    pub count: u32,
    pub red_sum: u64,
    pub green_sum: u64,
    pub blue_sum: u64,
}

/// The bucket of a colour: its channels' upper four bits.
pub open spec fn bucket_index(red: u8, green: u8, blue: u8) -> int {
    (red / 16) * 256 + (green / 16) * 16 + blue / 16
}

/// The bucket `k` after counting the first `n` pixels: pixels with an
/// alpha below 128 are skipped.
pub open spec fn bucket_after(p: Seq<u8>, n: int, k: int) -> ColorBucket
    decreases n,
{
    if n <= 0 {
        ColorBucket { count: 0, red_sum: 0, green_sum: 0, blue_sum: 0 }
    } else {
        let b = bucket_after(p, n - 1, k);
        let i = 4 * (n - 1);
        if p[i + 3] >= 128 && bucket_index(p[i], p[i + 1], p[i + 2]) == k {
            ColorBucket {
                count: (b.count + 1) as u32,
                red_sum: (b.red_sum + p[i]) as u64,
                green_sum: (b.green_sum + p[i + 1]) as u64,
                blue_sum: (b.blue_sum + p[i + 2]) as u64,
            }
        } else {
            b
        }
    }
}

proof fn lemma_bucket_bounds(p: Seq<u8>, n: int, k: int)
    requires
        0 <= n <= 48 * 48,
        4 * n <= p.len(),
    ensures
        bucket_after(p, n, k).count <= n,
        bucket_after(p, n, k).red_sum <= 255 * bucket_after(p, n, k).count,
        bucket_after(p, n, k).green_sum <= 255 * bucket_after(p, n, k).count,
        bucket_after(p, n, k).blue_sum <= 255 * bucket_after(p, n, k).count,
    decreases n,
{
    if n > 0 {
        lemma_bucket_bounds(p, n - 1, k);
    }
}

/// Counts the opaque pixels of an RGBA thumbnail into 4096 colour buckets.
pub fn color_buckets(pixels: &[u8]) -> (r: Vec<ColorBucket>)
    requires
        pixels@.len() % 4 == 0,
        pixels@.len() <= 48 * 48 * 4,
    ensures
        r@.len() == 4096,
        forall|k: int| 0 <= k < 4096 ==> #[trigger] r@[k] == bucket_after(pixels@, (pixels@.len() / 4) as int, k),
{
    let mut buckets: Vec<ColorBucket> = Vec::new();
    let mut k: usize = 0;
    while k < 4096
        invariant
            k <= 4096,
            buckets@.len() == k,
            forall|j: int| 0 <= j < k ==> #[trigger] buckets@[j] == bucket_after(pixels@, 0, j),
        decreases 4096 - k,
    {
        buckets.push(ColorBucket { count: 0, red_sum: 0, green_sum: 0, blue_sum: 0 });
        k += 1;
    }
    let n = pixels.len() / 4;
    let mut i: usize = 0;
    while i < n
        invariant
            n == pixels@.len() / 4,
            pixels@.len() % 4 == 0,
            pixels@.len() <= 48 * 48 * 4,
            i <= n,
            buckets@.len() == 4096,
            forall|j: int| 0 <= j < 4096 ==> #[trigger] buckets@[j] == bucket_after(pixels@, i as int, j),
        decreases n - i,
    {
        let red = pixels[4 * i];
        let green = pixels[4 * i + 1];
        let blue = pixels[4 * i + 2];
        let alpha = pixels[4 * i + 3];
        if alpha >= 128 {
            let index: usize = ((red as usize >> 4) << 8) | ((green as usize >> 4) << 4) | (
            blue as usize >> 4);
            assert(index == bucket_index(red, green, blue) && index < 4096) by (bit_vector)
                requires
                    index == ((red as usize >> 4) << 8) | ((green as usize >> 4) << 4) | (
                    blue as usize >> 4),
            ;
            proof {
                lemma_bucket_bounds(pixels@, i as int, index as int);
            }
            let b = buckets[index];
            let updated = ColorBucket {
                count: b.count + 1,
                red_sum: b.red_sum + red as u64,
                green_sum: b.green_sum + green as u64,
                blue_sum: b.blue_sum + blue as u64,
            };
            buckets.set(index, updated);
        }
        i += 1;
    }
    buckets
}

/// A bucket's average colour, its saturation and its pixel count.
#[derive(Debug, Clone, Copy, PartialEq, Eq, Structural)]
pub struct ColorCandidate {
    pub red: u8,
    pub green: u8,
    pub blue: u8,
    pub saturation: u8,
    pub count: u64,
}

pub open spec fn max3(a: u8, b: u8, c: u8) -> u8 {
    let m = if a >= b { a } else { b };
    if m >= c { m } else { c }
}

pub open spec fn min3(a: u8, b: u8, c: u8) -> u8 {
    let m = if a <= b { a } else { b };
    if m <= c { m } else { c }
}

/// The candidate of a non-empty bucket: the average of each channel
/// (rounded down) and the spread between the largest and smallest channel.
pub open spec fn candidate_of(b: ColorBucket) -> ColorCandidate {
    let red = (b.red_sum / b.count as u64) as u8;
    let green = (b.green_sum / b.count as u64) as u8;
    let blue = (b.blue_sum / b.count as u64) as u8;
    ColorCandidate {
        red,
        green,
        blue,
        saturation: (max3(red, green, blue) - min3(red, green, blue)) as u8,
        count: b.count as u64,
    }
}

/// The candidates of the non-empty buckets, in bucket order.
pub open spec fn candidates_of(bs: Seq<ColorBucket>) -> Seq<ColorCandidate>
    decreases bs.len(),
{
    if bs.len() == 0 {
        Seq::empty()
    } else {
        let rest = candidates_of(bs.drop_last());
        if bs.last().count > 0 {
            rest.push(candidate_of(bs.last()))
        } else {
            rest
        }
    }
}

fn max_channel(a: u8, b: u8, c: u8) -> (r: u8)
    ensures
        r == max3(a, b, c),
{
    let m = if a >= b { a } else { b };
    if m >= c { m } else { c }
}

fn min_channel(a: u8, b: u8, c: u8) -> (r: u8)
    ensures
        r == min3(a, b, c),
{
    let m = if a <= b { a } else { b };
    if m <= c { m } else { c }
}

/// The colour candidates of counted buckets.
pub fn color_candidates(buckets: &[ColorBucket]) -> (r: Vec<ColorCandidate>)
    requires
        forall|k: int| 0 <= k < buckets@.len() ==> #[trigger] buckets@[k].red_sum <= 255 * buckets@[k].count
            && buckets@[k].green_sum <= 255 * buckets@[k].count && buckets@[k].blue_sum <= 255
            * buckets@[k].count,
    ensures
        r@ == candidates_of(buckets@),
{
    let mut r: Vec<ColorCandidate> = Vec::new();
    let mut i: usize = 0;
    while i < buckets.len()
        invariant
            i <= buckets@.len(),
            forall|k: int| 0 <= k < buckets@.len() ==> #[trigger] buckets@[k].red_sum <= 255
                * buckets@[k].count && buckets@[k].green_sum <= 255 * buckets@[k].count
                && buckets@[k].blue_sum <= 255 * buckets@[k].count,
            r@ == candidates_of(buckets@.take(i as int)),
        decreases buckets.len() - i,
    {
        proof {
            assert(buckets@.take(i + 1).drop_last() =~= buckets@.take(i as int));
            assert(buckets@.take(i + 1).last() == buckets@[i as int]);
        }
        let b = buckets[i];
        if b.count > 0 {
            let count = b.count as u64;
            assert(b.red_sum / count <= 255) by (nonlinear_arith)
                requires
                    b.red_sum <= 255 * count,
                    count > 0,
            ;
            assert(b.green_sum / count <= 255) by (nonlinear_arith)
                requires
                    b.green_sum <= 255 * count,
                    count > 0,
            ;
            assert(b.blue_sum / count <= 255) by (nonlinear_arith)
                requires
                    b.blue_sum <= 255 * count,
                    count > 0,
            ;
            let red = (b.red_sum / count) as u8;
            let green = (b.green_sum / count) as u8;
            let blue = (b.blue_sum / count) as u8;
            let saturation = max_channel(red, green, blue) - min_channel(red, green, blue);
            r.push(ColorCandidate { red, green, blue, saturation, count });
        }
        i += 1;
    }
    proof {
        assert(buckets@.take(buckets@.len() as int) =~= buckets@);
    }
    r
}

/// The message for artwork that could not be decoded: what failed, then the
/// `image` crate's text.
pub open spec fn thumbnail_error_message(step: ThumbnailStep, detail: Seq<char>) -> Seq<char> {
    match step {
        ThumbnailStep::GuessFormat => "无法识别媒体封面格式："@ + detail,
        ThumbnailStep::Decode => "媒体封面损坏或超过解码限制："@ + detail,
    }
}

/// Reads the colour candidates of artwork: decodes it within 4096×4096
/// pixels and 64 MiB, scales it to fit 48×48 and counts its colours.
pub fn extract_color_candidates(bytes: &[u8]) -> (r: Result<Vec<ColorCandidate>, String>)
    ensures
        match (r, decoded_thumbnail(bytes@, 4096, 67108864, 48)) {
            (Ok(c), Ok(p)) => exists|bs: Seq<ColorBucket>|
                bs.len() == 4096 && (forall|k: int| 0 <= k < 4096 ==> #[trigger] bs[k] == bucket_after(p, (p.len() / 4) as int, k))
                && c@ == candidates_of(bs),
            (Err(e), Err((step, m))) => e@ == thumbnail_error_message(step, m),
            _ => false,
        },
{
    let decoded = decode_thumbnail(bytes, MAX_ARTWORK_DIMENSION, MAX_ARTWORK_DECODE_BYTES, THUMBNAIL_SIDE);
    let pixels = match decoded {
        Ok(pixels) => pixels,
        Err((ThumbnailStep::GuessFormat, error)) => {
            return Err(joined("无法识别媒体封面格式：", error.as_str()));
        },
        Err((ThumbnailStep::Decode, error)) => {
            return Err(joined("媒体封面损坏或超过解码限制：", error.as_str()));
        },
    };
    let buckets = color_buckets(pixels.as_slice());
    proof {
        assert forall|k: int| 0 <= k < buckets@.len() implies #[trigger] buckets@[k].red_sum <= 255
            * buckets@[k].count && buckets@[k].green_sum <= 255 * buckets@[k].count
            && buckets@[k].blue_sum <= 255 * buckets@[k].count by {
            lemma_bucket_bounds(pixels@, (pixels@.len() / 4) as int, k);
        }
    }
    let c = color_candidates(buckets.as_slice());
    Ok(c)
}

/// A candidate's weight: its count, favouring saturated colours.
pub open spec fn candidate_score(c: ColorCandidate) -> int {
    c.count * (c.saturation * 2 + 32)
}

/// A candidate qualifies with a saturation of at least 24 and enough
/// contrast on light and dark taskbars (judged by the caller).
pub open spec fn qualifies(c: ColorCandidate, contrast_ok: bool) -> bool {
    c.saturation >= 24 && contrast_ok
}

/// Index of the chosen candidate among the first `n`: the first with the
/// highest score among those that qualify.
pub open spec fn chosen_among(cs: Seq<ColorCandidate>, ok: Seq<bool>, n: int) -> Option<int>
    decreases n,
{
    if n <= 0 {
        None
    } else {
        let prev = chosen_among(cs, ok, n - 1);
        let i = n - 1;
        if qualifies(cs[i], ok[i]) && (prev is None || candidate_score(cs[i]) > candidate_score(
            cs[prev->0],
        )) {
            Some(i)
        } else {
            prev
        }
    }
}

proof fn lemma_chosen_among(cs: Seq<ColorCandidate>, ok: Seq<bool>, n: int)
    requires
        0 <= n <= cs.len(),
    ensures
        chosen_among(cs, ok, n) matches Some(i) ==> 0 <= i < n && qualifies(cs[i], ok[i]),
    decreases n,
{
    if n > 0 {
        lemma_chosen_among(cs, ok, n - 1);
    }
}

/// The colour chosen among the candidates, given for each whether its
/// contrast suffices.
pub fn choose_color(candidates: &[ColorCandidate], contrast_ok: &[bool]) -> (r: Option<(u8, u8, u8)>)
    requires
        candidates@.len() == contrast_ok@.len(),
    ensures
        match chosen_among(candidates@, contrast_ok@, candidates@.len() as int) {
            Some(i) => r == Some((candidates@[i].red, candidates@[i].green, candidates@[i].blue)),
            None => r is None,
        },
{
    let mut best: Option<usize> = None;
    let mut best_score: u128 = 0;
    let mut i: usize = 0;
    while i < candidates.len()
        invariant
            i <= candidates@.len() == contrast_ok@.len(),
            match chosen_among(candidates@, contrast_ok@, i as int) {
                Some(b) => best == Some(b as usize) && best_score == candidate_score(candidates@[b]),
                None => best is None,
            },
        decreases candidates.len() - i,
    {
        proof {
            lemma_chosen_among(candidates@, contrast_ok@, i as int);
        }
        let c = candidates[i];
        if c.saturation >= 24 && contrast_ok[i] {
            assert(c.count * (c.saturation * 2 + 32) <= 0xFFFF_FFFF_FFFF_FFFFu128 * 542) by (nonlinear_arith)
                requires
                    c.count <= 0xFFFF_FFFF_FFFF_FFFFu64,
                    c.saturation <= 255,
            ;
            let score: u128 = c.count as u128 * (c.saturation as u128 * 2 + 32);
            if best.is_none() || score > best_score {
                best = Some(i);
                best_score = score;
            }
        }
        i += 1;
    }
    proof {
        lemma_chosen_among(candidates@, contrast_ok@, candidates@.len() as int);
    }
    match best {
        Some(b) => Some((candidates[b].red, candidates[b].green, candidates[b].blue)),
        None => None,
    }
}

// ---------------------------------------------------------------------------
// Colour text.
// ---------------------------------------------------------------------------

/// The upper-case hexadecimal digit of `v` (0..=15).
pub open spec fn hex_digit(v: int) -> char {
    if v < 10 {
        (('0' as int) + v) as char
    } else {
        (('A' as int) + v - 10) as char
    }
}

/// Two upper-case hexadecimal digits of a byte.
pub open spec fn hex_byte(b: u8) -> Seq<char> {
    seq![hex_digit(b as int / 16), hex_digit(b as int % 16)]
}

/// `#RRGGBB` in upper case.
pub open spec fn color_text(red: u8, green: u8, blue: u8) -> Seq<char> {
    seq!['#'] + hex_byte(red) + hex_byte(green) + hex_byte(blue)
}

fn hex_digit_char(v: u8) -> (c: char)
    requires
        v < 16,
    ensures
        c == hex_digit(v as int),
{
    let chars: [char; 16] = [
        '0', '1', '2', '3', '4', '5', '6', '7', '8', '9', 'A', 'B', 'C', 'D', 'E', 'F',
    ];
    let c = chars[v as usize];
    assert(c == hex_digit(v as int)) by {
        assert(chars@ == seq!['0', '1', '2', '3', '4', '5', '6', '7', '8', '9', 'A', 'B', 'C', 'D', 'E', 'F']);
    }
    c
}

fn push_hex_byte(s: &mut String, b: u8)
    ensures
        final(s)@ == old(s)@ + hex_byte(b),
{
    push_char(s, hex_digit_char(b / 16));
    push_char(s, hex_digit_char(b % 16));
    proof {
        assert(final(s)@ =~= old(s)@ + hex_byte(b));
    }
}

/// Writes a colour as `#RRGGBB`.
pub fn color_hex(red: u8, green: u8, blue: u8) -> (r: String)
    ensures
        r@ == color_text(red, green, blue),
{
    let mut r = String::new();
    push_char(&mut r, '#');
    push_hex_byte(&mut r, red);
    push_hex_byte(&mut r, green);
    push_hex_byte(&mut r, blue);
    proof {
        assert(r@ =~= color_text(red, green, blue));
    }
    r
}

/// The Windows accent colour as `#RRGGBB` from the colorization value
/// (its lower 24 bits); the Windows default blue where it could not be
/// read.
pub fn windows_accent_color(colorization: Option<u32>) -> (r: String)
    ensures
        colorization is None ==> r@ == "#0078D4"@,
        colorization matches Some(c) ==> r@ == color_text(
            ((c / 65536) % 256) as u8,
            ((c / 256) % 256) as u8,
            (c % 256) as u8,
        ),
{
    match colorization {
        None => "#0078D4".to_owned(),
        Some(c) => color_hex(((c / 65536) % 256) as u8, ((c / 256) % 256) as u8, (c % 256) as u8),
    }
}

/// The chosen candidate among the first `n`, stated over the inputs.
proof fn lemma_chosen_among_best(cs: Seq<ColorCandidate>, ok: Seq<bool>, n: int)
    requires
        0 <= n <= cs.len(),
        ok.len() == cs.len(),
    ensures
        chosen_among(cs, ok, n) matches Some(i) ==> {
            &&& 0 <= i < n
            &&& cs[i].saturation >= 24 && ok[i]
            &&& forall|j: int|
                0 <= j < n && (#[trigger] cs[j]).saturation >= 24 && ok[j] ==> cs[j].count * (
                cs[j].saturation * 2 + 32) <= cs[i].count * (cs[i].saturation * 2 + 32)
            &&& forall|j: int|
                0 <= j < i && (#[trigger] cs[j]).saturation >= 24 && ok[j] ==> cs[j].count * (
                cs[j].saturation * 2 + 32) < cs[i].count * (cs[i].saturation * 2 + 32)
        },
        chosen_among(cs, ok, n) is None ==> forall|j: int|
            0 <= j < n ==> !((#[trigger] cs[j]).saturation >= 24 && ok[j]),
    decreases n,
{
    if n > 0 {
        lemma_chosen_among_best(cs, ok, n - 1);
    }
}

/// The accent colour is that of a candidate saturated enough (24 or more)
/// with enough contrast whose weight, its count times (twice its saturation
/// plus 32), no other such candidate exceeds; the first of them where
/// several weigh the same. There is none only where no candidate qualifies.
pub proof fn lemma_chosen_color_weighs_most(cs: Seq<ColorCandidate>, ok: Seq<bool>)
    requires
        ok.len() == cs.len(),
    ensures
        chosen_among(cs, ok, cs.len() as int) matches Some(i) ==> {
            &&& 0 <= i < cs.len()
            &&& cs[i].saturation >= 24 && ok[i]
            &&& forall|j: int|
                0 <= j < cs.len() && (#[trigger] cs[j]).saturation >= 24 && ok[j] ==> cs[j].count * (
                cs[j].saturation * 2 + 32) <= cs[i].count * (cs[i].saturation * 2 + 32)
            &&& forall|j: int|
                0 <= j < i && (#[trigger] cs[j]).saturation >= 24 && ok[j] ==> cs[j].count * (
                cs[j].saturation * 2 + 32) < cs[i].count * (cs[i].saturation * 2 + 32)
        },
        chosen_among(cs, ok, cs.len() as int) is None <==> forall|j: int|
            0 <= j < cs.len() ==> !((#[trigger] cs[j]).saturation >= 24 && ok[j]),
{
    lemma_chosen_among_best(cs, ok, cs.len() as int);
}

} // verus!
