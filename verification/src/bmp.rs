//! Shell icons as `data:` addresses: a 32-bit bitmap file, Base64-encoded.
use vstd::prelude::*;

use base64::{engine::general_purpose, Engine as _};

use crate::sound::base64_standard_decoded;
use crate::text::{chars_of, string_from_chars};

verus! {

/// The little-endian bytes of a 16-bit value.
pub open spec fn le_u16(x: u16) -> Seq<u8> {
    seq![(x % 256) as u8, (x / 256) as u8]
}

/// The little-endian bytes of a 32-bit value.
pub open spec fn le_u32(x: u32) -> Seq<u8> {
    seq![
        (x % 256) as u8,
        ((x / 256) % 256) as u8,
        ((x / 65536) % 256) as u8,
        (x / 16777216) as u8,
    ]
}

/// The little-endian two's-complement bytes of a signed 32-bit value.
pub open spec fn le_i32(x: i32) -> Seq<u8> {
    le_u32(x as u32)
}

/// The value that four little-endian bytes encode.
pub open spec fn from_le4(b: Seq<u8>) -> int {
    b[0] + 256 * b[1] + 65536 * b[2] + 16777216 * b[3]
}

/// Where the pixels start in the file: after the 14-byte file header and the
/// 40-byte information header.
pub const PIXEL_DATA_OFFSET: u32 = 54;

/// The 54-byte header of an uncompressed top-down 32-bit bitmap file of
/// `width` by `height` pixels whose pixel data is `len` bytes long.
pub open spec fn bmp_header(width: i32, height: i32, len: nat) -> Seq<u8> {
    seq![66u8, 77u8] + le_u32((54 + len) as u32) + le_u16(0) + le_u16(0) + le_u32(54) + le_u32(40)
        + le_i32(width) + le_i32((-height) as i32) + le_u16(1) + le_u16(32) + le_u32(0) + le_u32(
        len as u32,
    ) + le_i32(2835) + le_i32(2835) + le_u32(0) + le_u32(0)
}

/// The whole bitmap file: the header, then the pixels.
pub open spec fn bmp_file(width: i32, height: i32, pixels: Seq<u8>) -> Seq<u8> {
    bmp_header(width, height, pixels.len()) + pixels
}

/// The prefix of a Base64 bitmap address.
pub open spec fn bmp_address_prefix() -> Seq<char> {
    "data:image/bmp;base64,"@
}

/// The digit of the standard Base64 alphabet for a 6-bit value: `A`-`Z`, `a`-`z`,
/// `0`-`9`, `+`, `/`.
pub open spec fn base64_digit(v: int) -> char {
    if v < 26 {
        (65 + v) as char
    } else if v < 52 {
        (97 + (v - 26)) as char
    } else if v < 62 {
        (48 + (v - 52)) as char
    } else if v == 62 {
        '+'
    } else {
        '/'
    }
}

/// The standard Base64 text of some bytes, padded with `=` (RFC 4648): each group of
/// three bytes becomes four digits of six bits each; a last group of one or two
/// bytes becomes two or three digits, filled up to four with `=`.
pub open spec fn base64_standard(bytes: Seq<u8>) -> Seq<char>
    decreases bytes.len(),
{
    if bytes.len() == 0 {
        Seq::empty()
    } else if bytes.len() == 1 {
        let a = bytes[0] as int;
        seq![base64_digit(a / 4), base64_digit((a % 4) * 16), '=', '=']
    } else if bytes.len() == 2 {
        let a = bytes[0] as int;
        let b = bytes[1] as int;
        seq![base64_digit(a / 4), base64_digit((a % 4) * 16 + b / 16), base64_digit((b % 16) * 4), '=']
    } else {
        let a = bytes[0] as int;
        let b = bytes[1] as int;
        let c = bytes[2] as int;
        seq![
            base64_digit(a / 4),
            base64_digit((a % 4) * 16 + b / 16),
            base64_digit((b % 16) * 4 + c / 64),
            base64_digit(c % 64),
        ] + base64_standard(bytes.skip(3))
    }
}

/// `general_purpose::STANDARD.encode`: the padded standard Base64 text of `bytes`,
/// which the same engine's `decode` turns back into `bytes`. It panics when the
/// text's length overflows `usize`, which `requires` rules out.
#[verifier::external_body]
fn base64_encode(bytes: &[u8]) -> (r: String)
    requires
        bytes@.len() / 3 * 4 + 4 <= usize::MAX,
    ensures
        r@ == base64_standard(bytes@),
        base64_standard_decoded(r@) == Some(bytes@),
{
    general_purpose::STANDARD.encode(bytes)
}

fn push_le_u16(v: &mut Vec<u8>, x: u16)
    ensures
        final(v)@ == old(v)@ + le_u16(x),
{
    v.push((x % 256) as u8);
    v.push((x / 256) as u8);
    assert(v@ =~= old(v)@ + le_u16(x));
}

fn push_le_u32(v: &mut Vec<u8>, x: u32)
    ensures
        final(v)@ == old(v)@ + le_u32(x),
{
    v.push((x % 256) as u8);
    v.push(((x / 256) % 256) as u8);
    v.push(((x / 65536) % 256) as u8);
    v.push((x / 16777216) as u8);
    assert(v@ =~= old(v)@ + le_u32(x));
}

fn push_le_i32(v: &mut Vec<u8>, x: i32)
    ensures
        final(v)@ == old(v)@ + le_i32(x),
{
    push_le_u32(v, x as u32);
}

/// The bytes of an uncompressed top-down 32-bit bitmap file holding `pixels`
/// (rows of BGRA pixels, `width` by `height`).
pub fn bmp_file_bytes(width: i32, height: i32, pixels: &[u8]) -> (r: Vec<u8>)
    requires
        pixels@.len() + 54 <= u32::MAX,
        height != i32::MIN,
    ensures
        r@ == bmp_file(width, height, pixels@),
{
    let len = pixels.len() as u32;
    let file_size = PIXEL_DATA_OFFSET + len;
    let mut bytes: Vec<u8> = Vec::new();
    bytes.push(66u8);
    bytes.push(77u8);
    push_le_u32(&mut bytes, file_size);
    push_le_u16(&mut bytes, 0);
    push_le_u16(&mut bytes, 0);
    push_le_u32(&mut bytes, PIXEL_DATA_OFFSET);
    push_le_u32(&mut bytes, 40);
    push_le_i32(&mut bytes, width);
    push_le_i32(&mut bytes, -height);
    push_le_u16(&mut bytes, 1);
    push_le_u16(&mut bytes, 32);
    push_le_u32(&mut bytes, 0);
    push_le_u32(&mut bytes, len);
    push_le_i32(&mut bytes, 2835);
    push_le_i32(&mut bytes, 2835);
    push_le_u32(&mut bytes, 0);
    push_le_u32(&mut bytes, 0);
    let ghost header = bytes@;
    assert(header =~= bmp_header(width, height, pixels@.len()));
    let mut i: usize = 0;
    while i < pixels.len()
        invariant
            i <= pixels@.len(),
            bytes@ == header + pixels@.take(i as int),
        decreases pixels.len() - i,
    {
        bytes.push(pixels[i]);
        i += 1;
        assert(bytes@ =~= header + pixels@.take(i as int));
    }
    assert(pixels@.take(pixels@.len() as int) =~= pixels@);
    bytes
}

/// The `data:` address of an image from its Base64 text.
pub fn bmp_data_url_from_encoded(encoded: &str) -> (r: String)
    ensures
        r@ == bmp_address_prefix() + encoded@,
{
    let mut v = chars_of("data:image/bmp;base64,");
    let e = chars_of(encoded);
    let ghost head = v@;
    let mut i: usize = 0;
    while i < e.len()
        invariant
            i <= e.len(),
            v@ == head + e@.take(i as int),
        decreases e.len() - i,
    {
        v.push(e[i]);
        i += 1;
        assert(v@ =~= head + e@.take(i as int));
    }
    assert(e@.take(e@.len() as int) =~= e@);
    string_from_chars(v.as_slice())
}

/// The `data:` address of a bitmap image of `width` by `height` BGRA pixels.
pub fn bmp_data_url(width: i32, height: i32, pixels: &[u8]) -> (r: String)
    requires
        pixels@.len() + 54 <= u32::MAX,
        (pixels@.len() + 54) / 3 * 4 + 4 <= usize::MAX,
        height != i32::MIN,
    ensures
        r@ == bmp_address_prefix() + base64_standard(bmp_file(width, height, pixels@)),
        base64_standard_decoded(r@.skip(bmp_address_prefix().len() as int)) == Some(
            bmp_file(width, height, pixels@),
        ),
{
    let bytes = bmp_file_bytes(width, height, pixels);
    assert(bytes@.len() == pixels@.len() + 54);
    let encoded = base64_encode(bytes.as_slice());
    let r = bmp_data_url_from_encoded(encoded.as_str());
    assert(r@.skip(bmp_address_prefix().len() as int) =~= encoded@);
    r
}

/// The pixels of a shell icon drawn into a bitmap.
#[derive(Debug)]
pub struct IconBitmap {
    pub width: i32,
    pub height: i32,
    pub pixels: Vec<u8>,
}

/// The image address of a file's shell icon, when the shell gave one.
pub fn file_icon_data_url(icon: Option<IconBitmap>) -> (r: Option<String>)
    requires
        icon matches Some(b) ==> b.pixels@.len() + 54 <= u32::MAX && (b.pixels@.len() + 54) / 3
            * 4 + 4 <= usize::MAX && b.height != i32::MIN,
    ensures
        match icon {
            Some(b) => opt_string_view(r) == Some(
                bmp_address_prefix() + base64_standard(bmp_file(b.width, b.height, b.pixels@)),
            ) && base64_standard_decoded(r.unwrap()@.skip(bmp_address_prefix().len() as int))
                == Some(bmp_file(b.width, b.height, b.pixels@)),
            None => r is None,
        },
{
    match icon {
        Some(b) => Some(bmp_data_url(b.width, b.height, b.pixels.as_slice())),
        None => None,
    }
}

/// The view of an optional string.
pub open spec fn opt_string_view(o: Option<String>) -> Option<Seq<char>> {
    match o {
        Some(s) => Some(s@),
        None => None,
    }
}

/// The fields of a bitmap file read back as written: the `BM` mark, the file's
/// length, the pixel offset, the width, the negated height (rows top-down), 32 bits
/// per pixel, the pixel data's length, and the pixels themselves.
pub proof fn lemma_bmp_fields(width: i32, height: i32, pixels: Seq<u8>)
    requires
        pixels.len() + 54 <= u32::MAX,
    ensures
        bmp_file(width, height, pixels).len() == 54 + pixels.len(),
        from_le4(bmp_file(width, height, pixels).subrange(2, 6)) == bmp_file(width, height, pixels).len(),
        from_le4(bmp_file(width, height, pixels).subrange(10, 14)) == 54,
        from_le4(bmp_file(width, height, pixels).subrange(34, 38)) == pixels.len(),
        bmp_file(width, height, pixels).subrange(54, 54 + pixels.len() as int) == pixels,
        bmp_file(width, height, pixels).subrange(0, 2) == seq![66u8, 77u8],
        from_le4(bmp_file(width, height, pixels).subrange(18, 22)) == width as u32,
        from_le4(bmp_file(width, height, pixels).subrange(22, 26)) == ((-height) as i32) as u32,
        bmp_file(width, height, pixels).subrange(28, 30) == le_u16(32),
{
    let f = bmp_file(width, height, pixels);
    assert(f.subrange(0, 2) =~= seq![66u8, 77u8]);
    assert(f.subrange(18, 22) =~= le_u32(width as u32));
    assert(f.subrange(22, 26) =~= le_u32(((-height) as i32) as u32));
    assert(f.subrange(28, 30) =~= le_u16(32));
    lemma_le_u32_roundtrip(width as u32);
    lemma_le_u32_roundtrip(((-height) as i32) as u32);
    assert(f.subrange(2, 6) =~= le_u32((54 + pixels.len()) as u32));
    assert(f.subrange(10, 14) =~= le_u32(54));
    assert(f.subrange(34, 38) =~= le_u32(pixels.len() as u32));
    assert(f.subrange(54, 54 + pixels.len() as int) =~= pixels);
    lemma_le_u32_roundtrip((54 + pixels.len()) as u32);
    lemma_le_u32_roundtrip(54);
    lemma_le_u32_roundtrip(pixels.len() as u32);
}

/// Reading four little-endian bytes back gives the value they were written from.
pub proof fn lemma_le_u32_roundtrip(x: u32)
    ensures
        from_le4(le_u32(x)) == x,
{
    let b0 = x % 256;
    let b1 = (x / 256) % 256;
    let b2 = (x / 65536) % 256;
    let b3 = x / 16777216;
    assert(x == b0 + 256 * b1 + 65536 * b2 + 16777216 * b3) by (nonlinear_arith)
        requires
            b0 == x % 256,
            b1 == (x / 256) % 256,
            b2 == (x / 65536) % 256,
            b3 == x / 16777216,
            0 <= x < 0x1_0000_0000,
    ;
}

} // verus!
