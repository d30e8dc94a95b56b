//! PNG decoding into caller-provided RGBA8 buffers, by the `minipng` decoder.

use vstd::prelude::*;
use minipng::{decode_png, decode_png_header, Error, ImageData};
use minipng::Error::{
    BadAdlerChecksum, BadBackReference, BadBlockType, BadChunkSize, BadCode, BadFilter,
    BadHuffmanDict, BadIhdr, BadNlen, BadPlteChunk, BadTrnsChunk, BadZlibHeader, BufferTooSmall,
    CompressedSizeTooSmall, NoIdat, NotPng, TooLargeForUsize, TooMuchData, UnexpectedEob,
    UnexpectedEof, UnrecognizedChunk, UnsupportedInterlace,
};

verus! {

/// The decoder's error type.
#[verifier::external_type_specification]
#[verifier::external_body]
pub struct ExPngError(Error);

/// A decoded image, borrowing the caller's pixel buffer.
#[verifier::external_type_specification]
#[verifier::external_body]
pub struct ExImageData<'a>(ImageData<'a>);

/// Width, height and RGBA8 buffer size that the PNG header of `bytes` announces, or
/// the kind of the decoder's error when the header does not decode.
pub uninterp spec fn png_header_info(bytes: Seq<u8>) -> Result<(u32, u32, usize), PngError>;

/// `minipng::decode_png_header`, read out as width, height and
/// `required_bytes_rgba8bpc` (the buffer size for decoding followed by conversion to
/// RGBA8), its error told by kind. Its contract claims that the outcome (the three
/// numbers, or the error's kind) depends on the bytes alone, as `png_header_info` of
/// them, and that the size is at least the
/// 4 · width · height bytes of RGBA8 when that product fits in `usize` (the source
/// takes the larger of the decoding size and that product).
#[verifier::external_body]
fn read_png_header(bytes: &[u8]) -> (r: Result<(u32, u32, usize), PngError>)
    ensures
        r == png_header_info(bytes@),
        r matches Ok(t) ==> (4 * t.0 * t.1 <= usize::MAX ==> t.2 >= 4 * t.0 * t.1),
{
    match decode_png_header(bytes) {
        Ok(h) => Ok((h.width(), h.height(), h.required_bytes_rgba8bpc())),
        Err(e) => Err(png_error_kind(&e)),
    }
}

/// What `minipng::decode_png` makes of `bytes` with an output buffer that holds `buf`
/// before the call: the kind of its error when decoding fails, else the 8-bit RGBA
/// pixels of the decoded image (what its conversion yields). Both can depend on the
/// buffer's old contents as well as its length: a short stream leaves row filter bytes
/// unwritten.
pub uninterp spec fn png_decoded(bytes: Seq<u8>, buf: Seq<u8>) -> Result<Seq<u8>, PngError>;

/// The pixel bytes that a decoded image holds (what `ImageData::pixels` returns).
pub uninterp spec fn png_image_pixels(img: ImageData) -> Seq<u8>;

/// The 8-bit RGBA pixels that `ImageData::convert_to_rgba8bpc` turns the image into,
/// or `None` when that conversion refuses it (its buffer is too short).
pub uninterp spec fn png_image_rgba(img: ImageData) -> Option<Seq<u8>>;

/// `minipng::decode_png`: decompress `bytes` into `buf`. Claimed: the buffer keeps its
/// length (a slice's length cannot change); success, and the kind of its error,
/// depend on the bytes and the buffer's old contents alone, as `png_decoded` of them;
/// a header that does not decode gives the header's error (the decoder reads it first
/// and passes its error on); the image converts to the decoded RGBA
/// pixels, which are 4 · width · height bytes; and, when that product fits in
/// `usize`, the conversion succeeds exactly when the buffer is at least that long
/// (the image keeps the whole buffer, and the conversion checks only its length).
#[verifier::external_body]
fn png_decode<'a>(bytes: &[u8], buf: &'a mut [u8]) -> (r: Result<ImageData<'a>, PngError>)
    ensures
        final(buf)@.len() == old(buf)@.len(),
        r is Ok <==> png_decoded(bytes@, old(buf)@) is Ok,
        r is Err ==> r->Err_0 == png_decoded(bytes@, old(buf)@)->Err_0,
        png_header_info(bytes@) is Err ==> r is Err && r->Err_0 == png_header_info(bytes@)->Err_0,
        r matches Ok(img) ==> {
            let (w, h, _need) = png_header_info(bytes@)->Ok_0;
            let p = png_decoded(bytes@, old(buf)@)->Ok_0;
            &&& png_image_rgba(img) matches Some(q) ==> q == p
            &&& 4 * w * h <= usize::MAX ==> p.len() == 4 * w * h
                && (png_image_rgba(img) is Some <==> old(buf)@.len() >= 4 * w * h)
        },
{
    match decode_png(bytes, buf) {
        Ok(img) => Ok(img),
        Err(e) => Err(png_error_kind(&e)),
    }
}

/// `minipng::ImageData::convert_to_rgba8bpc`: convert the image in place to 8-bit RGBA.
/// Claimed: it succeeds exactly when `png_image_rgba` of the image is some pixels, and
/// then the image holds those pixels; its only error is `BufferTooSmall` (the one the
/// source returns).
#[verifier::external_body]
fn png_convert_rgba(img: &mut ImageData<'_>) -> (r: Result<(), PngError>)
    ensures
        r is Ok <==> png_image_rgba(*old(img)) is Some,
        r is Ok ==> png_image_pixels(*final(img)) == png_image_rgba(*old(img))->Some_0,
        r is Err ==> r->Err_0 == PngError::BufferTooSmall,
{
    match img.convert_to_rgba8bpc() {
        Ok(()) => Ok(()),
        Err(BufferTooSmall) => Err(PngError::BufferTooSmall),
        Err(_) => Err(PngError::Invalid),
    }
}

/// `minipng::ImageData::pixels`: the image's pixel bytes, as `png_image_pixels` names them.
#[verifier::external_body]
pub(crate) fn image_pixels<'b>(img: &'b ImageData<'_>) -> (r: &'b [u8])
    ensures
        r@ == png_image_pixels(*img),
{
    img.pixels()
}

/// Why a PNG could not be decoded.
#[derive(Debug, Clone, Copy, PartialEq, Eq, Structural)]
pub enum PngError {
    /// The data ends early.
    UnexpectedEof,
    /// The output buffer is too small.
    BufferTooSmall,
    /// The image would need close to `usize::MAX` bytes.
    TooLargeForUsize,
    /// The PNG signature is missing.
    NotPng,
    /// A bad IHDR block.
    BadIhdr,
    /// An unrecognized critical chunk.
    UnrecognizedChunk,
    /// A bad ZLIB block type.
    BadBlockType,
    /// ZLIB LEN does not match NLEN.
    BadNlen,
    /// The decompressed data is larger than it should be.
    TooMuchData,
    /// A PNG block ends early.
    UnexpectedEob,
    /// A bad ZLIB header.
    BadZlibHeader,
    /// A bad Huffman code.
    BadCode,
    /// A bad Huffman dictionary.
    BadHuffmanDict,
    /// A bad LZ77 back reference.
    BadBackReference,
    /// Adam7 interlacing, which the decoder does not support.
    UnsupportedInterlace,
    /// A bad row filter number.
    BadFilter,
    /// A bad PLTE chunk.
    BadPlteChunk,
    /// A bad tRNS chunk.
    BadTrnsChunk,
    /// The IDAT chunk is missing.
    NoIdat,
    /// The Adler-32 checksum does not match.
    BadAdlerChecksum,
    /// A chunk is too large or goes past the end of the file.
    BadChunkSize,
    /// The compressed data is too small for the whole image.
    CompressedSizeTooSmall,
    /// An error kind that a later decoder version adds.
    Invalid,
}

/// The kind of a `minipng::Error`: each of its variants to the variant of the same
/// name, and any variant a later version adds to `Invalid`; nothing more is claimed.
#[verifier::external_body]
fn png_error_kind(e: &Error) -> PngError {
    match e {
        UnexpectedEof => PngError::UnexpectedEof, BufferTooSmall => PngError::BufferTooSmall,
        TooLargeForUsize => PngError::TooLargeForUsize, NotPng => PngError::NotPng,
        BadIhdr => PngError::BadIhdr, UnrecognizedChunk => PngError::UnrecognizedChunk,
        BadBlockType => PngError::BadBlockType, BadNlen => PngError::BadNlen,
        TooMuchData => PngError::TooMuchData, UnexpectedEob => PngError::UnexpectedEob,
        BadZlibHeader => PngError::BadZlibHeader, BadCode => PngError::BadCode,
        BadHuffmanDict => PngError::BadHuffmanDict, BadBackReference => PngError::BadBackReference,
        UnsupportedInterlace => PngError::UnsupportedInterlace, BadFilter => PngError::BadFilter,
        BadPlteChunk => PngError::BadPlteChunk, BadTrnsChunk => PngError::BadTrnsChunk,
        NoIdat => PngError::NoIdat, BadAdlerChecksum => PngError::BadAdlerChecksum,
        BadChunkSize => PngError::BadChunkSize, CompressedSizeTooSmall => PngError::CompressedSizeTooSmall,
        _ => PngError::Invalid,
    }
}

/// Decode a PNG into the caller's buffer and convert it to RGBA8; the error of the first
/// step that fails is returned, a buffer too short for the RGBA pixels of a decoded
/// image giving `BufferTooSmall`. When the header decodes and 4 · width · height fits in
/// `usize`, it succeeds exactly when the decoder decodes the bytes with this buffer and
/// the buffer holds at least 4 · width · height bytes (as the header's RGBA8 size
/// guarantees); on success the image holds the decoded RGBA pixels.
pub fn decode_png_to_rgba<'a>(bytes: &[u8], buf: &'a mut [u8]) -> (r: Result<ImageData<'a>, PngError>)
    ensures
        final(buf)@.len() == old(buf)@.len(),
        match png_header_info(bytes@) {
            Err(k) => r is Err && r->Err_0 == k,
            Ok((w, h, _need)) => 4 * w * h <= usize::MAX ==> {
                &&& r is Ok <==> (png_decoded(bytes@, old(buf)@) is Ok && old(buf)@.len() >= 4 * w * h)
                &&& r matches Ok(img) ==> png_image_pixels(img).len() == 4 * w * h
                &&& png_decoded(bytes@, old(buf)@) is Ok && old(buf)@.len() < 4 * w * h
                    ==> r is Err && r->Err_0 == PngError::BufferTooSmall
            },
        },
        png_decoded(bytes@, old(buf)@) is Err ==> r is Err && r->Err_0 == png_decoded(bytes@, old(buf)@)->Err_0,
        r matches Ok(img) ==> png_decoded(bytes@, old(buf)@) is Ok
            && png_decoded(bytes@, old(buf)@)->Ok_0 == png_image_pixels(img),
{
    match png_decode(bytes, buf) {
        Ok(mut img) => match png_convert_rgba(&mut img) {
            Ok(()) => Ok(img),
            Err(k) => Err(k),
        },
        Err(k) => Err(k),
    }
}

/// Width, height and RGBA8 buffer size of a PNG, read from its header, or the kind of
/// the header's error; the size holds the 4 · width · height bytes of RGBA8 whenever
/// that product fits in `usize`.
pub fn png_dimensions_and_size(bytes: &[u8]) -> (r: Result<(u32, u32, usize), PngError>)
    ensures
        r == png_header_info(bytes@),
        r matches Ok(t) ==> (4 * t.0 * t.1 <= usize::MAX ==> t.2 >= 4 * t.0 * t.1),
{
    read_png_header(bytes)
}

} // verus!
