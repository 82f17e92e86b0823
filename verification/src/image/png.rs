//! Decoder for the PNG chunk format: the signature, then chunks of a
//! big-endian length, a four-byte type, the payload and a checksum. The
//! checksum is read and kept, not verified.

use vstd::prelude::*;
use vstd::slice::{slice_subrange, slice_to_vec};
use vstd::utf8::{decode_utf8, valid_utf8};

verus! {

/// Why a buffer could not be decoded.
#[derive(Debug, Clone, Copy, PartialEq, Eq, Structural)]
pub enum DecodeError {
    /// The buffer does not start with the PNG signature.
    FormatMismatch,
    /// The buffer ends inside a length, a type, a payload or a checksum, or a
    /// payload ends inside a field of its chunk.
    Truncated,
    /// A text field is not well-formed UTF-8.
    EncodingError,
    /// No header chunk was found.
    StructuralError,
}

/// The fields of the header chunk.
#[derive(Debug, Clone, Copy, PartialEq, Eq, Structural)]
pub struct ImageHeader {
    pub width: u32,
    pub height: u32,
    pub bit_depth: u8,
    pub colour_type: u8,
    pub compression_method: u8,
    pub filter_method: u8,
    pub interlace_method: u8,
}

/// The fields of an international text chunk. The text is kept as it stands
/// in the file, whatever the compression flag says.
#[derive(Debug, PartialEq)]
pub struct InternationalText {
    pub keyword: String,
    pub compression_flag: bool,
    pub compression_method: u8,
    pub language_tag: String,
    pub translated_keyword: String,
    pub text: String,
}

/// One chunk. Each variant but `End` ends with the chunk's checksum.
#[derive(Debug, PartialEq)]
pub enum Chunk {
    /// `IHDR`
    ImageHeader(ImageHeader, u32),
    /// `IEND`
    End,
    /// `gAMA`: the gamma value
    ImageGamma(u32, u32),
    /// `tEXt`: keyword and text
    Text(String, String, u32),
    /// `iTXt`
    InternationalText(InternationalText, u32),
    /// Any other chunk: its type and its payload as found
    Other(String, Vec<u8>, u32),
}

/// A decoded file: its chunks in file order, and the size that its first
/// header chunk gives.
#[derive(Debug, PartialEq)]
pub struct PNG {
    pub width: u32,
    pub height: u32,
    pub chunks: Vec<Chunk>,
}

/// What an [`InternationalText`] denotes.
pub struct InternationalTextView {
    pub keyword: Seq<char>,
    pub compression_flag: bool,
    pub compression_method: u8,
    pub language_tag: Seq<char>,
    pub translated_keyword: Seq<char>,
    pub text: Seq<char>,
}

/// What a [`Chunk`] denotes.
pub enum ChunkView {
    ImageHeader(ImageHeader, u32),
    End,
    ImageGamma(u32, u32),
    Text(Seq<char>, Seq<char>, u32),
    InternationalText(InternationalTextView, u32),
    Other(Seq<char>, Seq<u8>, u32),
}

/// What a [`PNG`] denotes.
pub struct PngView {
    pub width: u32,
    pub height: u32,
    pub chunks: Seq<ChunkView>,
}

impl View for InternationalText {
    type V = InternationalTextView;

    open spec fn view(&self) -> InternationalTextView {
        InternationalTextView {
            keyword: self.keyword@,
            compression_flag: self.compression_flag,
            compression_method: self.compression_method,
            language_tag: self.language_tag@,
            translated_keyword: self.translated_keyword@,
            text: self.text@,
        }
    }
}

impl View for Chunk {
    type V = ChunkView;

    open spec fn view(&self) -> ChunkView {
        match self {
            Chunk::ImageHeader(header, crc) => ChunkView::ImageHeader(*header, *crc),
            Chunk::End => ChunkView::End,
            Chunk::ImageGamma(gamma, crc) => ChunkView::ImageGamma(*gamma, *crc),
            Chunk::Text(keyword, text, crc) => ChunkView::Text(keyword@, text@, *crc),
            Chunk::InternationalText(text, crc) => ChunkView::InternationalText(text@, *crc),
            Chunk::Other(chunk_type, bytes, crc) => ChunkView::Other(chunk_type@, bytes@, *crc),
        }
    }
}

/// The views of the chunks of a vector, in order.
pub open spec fn chunk_views(chunks: Seq<Chunk>) -> Seq<ChunkView> {
    chunks.map_values(|c: Chunk| c@)
}

impl View for PNG {
    type V = PngView;

    open spec fn view(&self) -> PngView {
        PngView { width: self.width, height: self.height, chunks: chunk_views(self.chunks@) }
    }
}

/// The eight bytes that every PNG file starts with.
pub open spec fn signature() -> Seq<u8> {
    seq![137u8, 80u8, 78u8, 71u8, 13u8, 10u8, 26u8, 10u8]
}

/// Whether `bytes` starts with the PNG signature.
pub open spec fn has_signature(bytes: Seq<u8>) -> bool {
    bytes.len() >= 8 && bytes.subrange(0, 8) == signature()
}

/// The type of the header chunk, `IHDR`.
pub open spec fn header_type() -> Seq<u8> {
    seq![73u8, 72u8, 68u8, 82u8]
}

/// The type of the text chunk, `tEXt`.
pub open spec fn text_type() -> Seq<u8> {
    seq![116u8, 69u8, 88u8, 116u8]
}

/// The type of the international text chunk, `iTXt`.
pub open spec fn international_text_type() -> Seq<u8> {
    seq![105u8, 84u8, 88u8, 116u8]
}

/// The type of the gamma chunk, `gAMA`.
pub open spec fn gamma_type() -> Seq<u8> {
    seq![103u8, 65u8, 77u8, 65u8]
}

/// The type of the end chunk, `IEND`.
pub open spec fn end_type() -> Seq<u8> {
    seq![73u8, 69u8, 78u8, 68u8]
}

/// Whether `chunk_type` is one of the five types that the decoder interprets.
pub open spec fn is_known_type(chunk_type: Seq<u8>) -> bool {
    chunk_type == header_type() || chunk_type == text_type() || chunk_type
        == international_text_type() || chunk_type == gamma_type() || chunk_type == end_type()
}

/// The big-endian number in the four bytes of `bytes` from `at` on.
pub open spec fn be_u32(bytes: Seq<u8>, at: int) -> u32 {
    (bytes[at] as int * 0x100_0000 + bytes[at + 1] as int * 0x1_0000 + bytes[at + 2] as int * 0x100
        + bytes[at + 3] as int) as u32
}

/// The place of the first zero byte of `bytes` at or after `from`, or the
/// length of `bytes` where there is none.
pub open spec fn first_zero(bytes: Seq<u8>, from: int) -> int
    decreases bytes.len() - from,
{
    if from >= bytes.len() {
        bytes.len() as int
    } else if bytes[from] == 0 {
        from
    } else {
        first_zero(bytes, from + 1)
    }
}

/// What a header chunk with this payload and checksum holds.
pub open spec fn header_entry(payload: Seq<u8>, crc: u32) -> Result<ChunkView, DecodeError> {
    if payload.len() < 13 {
        Err(DecodeError::Truncated)
    } else {
        Ok(
            ChunkView::ImageHeader(
                ImageHeader {
                    width: be_u32(payload, 0),
                    height: be_u32(payload, 4),
                    bit_depth: payload[8],
                    colour_type: payload[9],
                    compression_method: payload[10],
                    filter_method: payload[11],
                    interlace_method: payload[12],
                },
                crc,
            ),
        )
    }
}

/// What a gamma chunk with this payload and checksum holds.
pub open spec fn gamma_entry(payload: Seq<u8>, crc: u32) -> Result<ChunkView, DecodeError> {
    if payload.len() < 4 {
        Err(DecodeError::Truncated)
    } else {
        Ok(ChunkView::ImageGamma(be_u32(payload, 0), crc))
    }
}

/// What a text chunk with this payload and checksum holds: keyword and text
/// are what stands before and after the first zero byte. Without a zero byte
/// the keyword is empty and the whole payload is the text.
pub open spec fn text_entry(payload: Seq<u8>, crc: u32) -> Result<ChunkView, DecodeError> {
    let zero = first_zero(payload, 0);
    if zero < payload.len() {
        let keyword = payload.subrange(0, zero);
        let text = payload.subrange(zero + 1, payload.len() as int);
        if valid_utf8(keyword) && valid_utf8(text) {
            Ok(ChunkView::Text(decode_utf8(keyword), decode_utf8(text), crc))
        } else {
            Err(DecodeError::EncodingError)
        }
    } else if valid_utf8(payload) {
        Ok(ChunkView::Text(Seq::empty(), decode_utf8(payload), crc))
    } else {
        Err(DecodeError::EncodingError)
    }
}

/// What an international text chunk with this payload and checksum holds.
/// The payload is read in this order: the keyword up to a zero byte, the
/// compression flag, the compression method, the language tag up to a zero
/// byte, the translated keyword up to a zero byte, and the text, which is
/// the rest. A field that is not UTF-8 is reported before a field that is
/// missing behind it.
pub open spec fn international_text_entry(payload: Seq<u8>, crc: u32) -> Result<
    ChunkView,
    DecodeError,
> {
    let end = payload.len() as int;
    let keyword_end = first_zero(payload, 0);
    let language_end = first_zero(payload, keyword_end + 3);
    let translated_end = first_zero(payload, language_end + 1);
    if !valid_utf8(payload.subrange(0, keyword_end)) {
        Err(DecodeError::EncodingError)
    } else if end - keyword_end < 3 {
        Err(DecodeError::Truncated)
    } else if !valid_utf8(payload.subrange(keyword_end + 3, language_end)) {
        Err(DecodeError::EncodingError)
    } else if language_end >= end {
        Err(DecodeError::Truncated)
    } else if !valid_utf8(payload.subrange(language_end + 1, translated_end)) {
        Err(DecodeError::EncodingError)
    } else if translated_end >= end {
        Err(DecodeError::Truncated)
    } else if !valid_utf8(payload.subrange(translated_end + 1, end)) {
        Err(DecodeError::EncodingError)
    } else {
        Ok(
            ChunkView::InternationalText(
                InternationalTextView {
                    keyword: decode_utf8(payload.subrange(0, keyword_end)),
                    compression_flag: payload[keyword_end + 1] == 255,
                    compression_method: payload[keyword_end + 2],
                    language_tag: decode_utf8(payload.subrange(keyword_end + 3, language_end)),
                    translated_keyword: decode_utf8(
                        payload.subrange(language_end + 1, translated_end),
                    ),
                    text: decode_utf8(payload.subrange(translated_end + 1, end)),
                },
                crc,
            ),
        )
    }
}

/// What a chunk of this type, payload and checksum holds. A chunk of a type
/// that the decoder does not interpret is kept whole.
pub open spec fn chunk_entry(chunk_type: Seq<u8>, payload: Seq<u8>, crc: u32) -> Result<
    ChunkView,
    DecodeError,
> {
    if chunk_type == header_type() {
        header_entry(payload, crc)
    } else if chunk_type == text_type() {
        text_entry(payload, crc)
    } else if chunk_type == international_text_type() {
        international_text_entry(payload, crc)
    } else if chunk_type == gamma_type() {
        gamma_entry(payload, crc)
    } else if chunk_type == end_type() {
        Ok(ChunkView::End)
    } else {
        Ok(ChunkView::Other(decode_utf8(chunk_type), payload, crc))
    }
}

/// The number of bytes that the chunk at the start of `bytes` takes, where
/// `bytes` holds at least its length field.
pub open spec fn chunk_size(bytes: Seq<u8>) -> int {
    12 + be_u32(bytes, 0)
}

/// The chunk at the start of `bytes`: a length, a type, a payload of that
/// length and a checksum.
pub open spec fn decode_chunk(bytes: Seq<u8>) -> Result<ChunkView, DecodeError> {
    if bytes.len() < 8 {
        Err(DecodeError::Truncated)
    } else if !is_known_type(bytes.subrange(4, 8)) && !valid_utf8(bytes.subrange(4, 8)) {
        Err(DecodeError::EncodingError)
    } else if bytes.len() < chunk_size(bytes) {
        Err(DecodeError::Truncated)
    } else {
        chunk_entry(
            bytes.subrange(4, 8),
            bytes.subrange(8, chunk_size(bytes) - 4),
            be_u32(bytes, chunk_size(bytes) - 4),
        )
    }
}

/// `first` before the chunks of `rest`, or the error of `rest`.
pub open spec fn prepend(first: Seq<ChunkView>, rest: Result<Seq<ChunkView>, DecodeError>) -> Result<
    Seq<ChunkView>,
    DecodeError,
> {
    match rest {
        Ok(chunks) => Ok(first + chunks),
        Err(e) => Err(e),
    }
}

/// The chunks that `bytes` holds from its start to its end. The first chunk
/// that cannot be decoded gives its error to the whole.
pub open spec fn decode_chunks(bytes: Seq<u8>) -> Result<Seq<ChunkView>, DecodeError>
    decreases bytes.len(),
{
    if bytes.len() == 0 {
        Ok(Seq::empty())
    } else {
        match decode_chunk(bytes) {
            Err(e) => Err(e),
            Ok(chunk) => prepend(seq![chunk], decode_chunks(bytes.skip(chunk_size(bytes)))),
        }
    }
}

/// The header of the first header chunk among `chunks`.
pub open spec fn first_header(chunks: Seq<ChunkView>) -> Option<ImageHeader>
    decreases chunks.len(),
{
    if chunks.len() == 0 {
        None
    } else if let ChunkView::ImageHeader(header, _) = chunks[0] {
        Some(header)
    } else {
        first_header(chunks.skip(1))
    }
}

/// What `bytes` decodes to as a PNG file.
pub open spec fn decode_png(bytes: Seq<u8>) -> Result<PngView, DecodeError> {
    if !has_signature(bytes) {
        Err(DecodeError::FormatMismatch)
    } else {
        match decode_chunks(bytes.skip(8)) {
            Err(e) => Err(e),
            Ok(chunks) => match first_header(chunks) {
                None => Err(DecodeError::StructuralError),
                Some(header) => Ok(
                    PngView { width: header.width, height: header.height, chunks },
                ),
            },
        }
    }
}

/// Decodes bytes as UTF-8. Stands for `std::str::from_utf8`, which succeeds
/// on well-formed UTF-8 and on nothing else, and then gives the text that
/// the bytes encode.
#[verifier::external_body]
fn utf8_text(bytes: &[u8]) -> (r: Option<&str>)
    ensures
        r is Some <==> valid_utf8(bytes@),
        r matches Some(text) ==> text@ == decode_utf8(bytes@),
{
    match std::str::from_utf8(bytes) {
        Ok(text) => Some(text),
        Err(_) => None,
    }
}

/// Reads a big-endian number from the four bytes at `at`.
fn read_be_u32(bytes: &[u8], at: usize) -> (r: u32)
    requires
        at + 4 <= bytes@.len(),
    ensures
        r == be_u32(bytes@, at as int),
{
    let b0: u32 = bytes[at] as u32;
    let b1: u32 = bytes[at + 1] as u32;
    let b2: u32 = bytes[at + 2] as u32;
    let b3: u32 = bytes[at + 3] as u32;
    b0 * 0x100_0000 + b1 * 0x1_0000 + b2 * 0x100 + b3
}

/// Finds the first zero byte at or after `from`.
fn find_zero(bytes: &[u8], from: usize) -> (r: usize)
    requires
        from <= bytes@.len(),
    ensures
        r == first_zero(bytes@, from as int),
        from <= r <= bytes@.len(),
{
    let mut i: usize = from;
    while i < bytes.len() && bytes[i] != 0
        invariant
            from <= i <= bytes@.len(),
            first_zero(bytes@, i as int) == first_zero(bytes@, from as int),
        decreases bytes@.len() - i,
    {
        i += 1;
    }
    i
}

/// Whether the four bytes of `chunk_type` are `a`, `b`, `c`, `d`.
fn is_type(chunk_type: &[u8], a: u8, b: u8, c: u8, d: u8) -> (r: bool)
    requires
        chunk_type@.len() == 4,
    ensures
        r == (chunk_type@ == seq![a, b, c, d]),
{
    let r = chunk_type[0] == a && chunk_type[1] == b && chunk_type[2] == c && chunk_type[3] == d;
    proof {
        if r {
            assert(chunk_type@ =~= seq![a, b, c, d]);
        } else {
            assert(seq![a, b, c, d][0] == a && seq![a, b, c, d][1] == b && seq![a, b, c, d][2] == c
                && seq![a, b, c, d][3] == d);
        }
    }
    r
}

/// The text that `bytes[from..to]` encodes.
fn take_str(bytes: &[u8], from: usize, to: usize) -> (r: Result<String, DecodeError>)
    requires
        from <= to <= bytes@.len(),
    ensures
        match r {
            Ok(text) => valid_utf8(bytes@.subrange(from as int, to as int)) && text@ == decode_utf8(
                bytes@.subrange(from as int, to as int),
            ),
            Err(e) => e == DecodeError::EncodingError && !valid_utf8(
                bytes@.subrange(from as int, to as int),
            ),
        },
{
    match utf8_text(slice_subrange(bytes, from, to)) {
        Some(text) => Ok(text.to_owned()),
        None => Err(DecodeError::EncodingError),
    }
}

/// The text from `from` up to the first zero byte or the end of `bytes`, and
/// the place where it ends.
fn take_str_null_delim(bytes: &[u8], from: usize) -> (r: Result<(String, usize), DecodeError>)
    requires
        from <= bytes@.len(),
    ensures
        match r {
            Ok((text, end)) => {
                &&& end == first_zero(bytes@, from as int)
                &&& from <= end <= bytes@.len()
                &&& valid_utf8(bytes@.subrange(from as int, end as int))
                &&& text@ == decode_utf8(bytes@.subrange(from as int, end as int))
            },
            Err(e) => e == DecodeError::EncodingError && !valid_utf8(
                bytes@.subrange(from as int, first_zero(bytes@, from as int)),
            ),
        },
{
    let end = find_zero(bytes, from);
    match take_str(bytes, from, end) {
        Ok(text) => Ok((text, end)),
        Err(e) => Err(e),
    }
}

/// Splits the payload of a text chunk into keyword and text.
pub fn key_value(data: &[u8]) -> (r: Result<(String, String), DecodeError>)
    ensures
        match r {
            Ok((keyword, text)) => text_entry(data@, 0) == Ok::<ChunkView, DecodeError>(
                ChunkView::Text(keyword@, text@, 0),
            ),
            Err(e) => text_entry(data@, 0) == Err::<ChunkView, DecodeError>(e),
        },
{
    let zero = find_zero(data, 0);
    if zero < data.len() {
        let keyword = take_str(data, 0, zero)?;
        let text = take_str(data, zero + 1, data.len())?;
        Ok((keyword, text))
    } else {
        assert(data@.subrange(0, data@.len() as int) =~= data@);
        let text = take_str(data, 0, data.len())?;
        Ok((String::new(), text))
    }
}

/// Decodes the payload of a text chunk.
pub fn parse_text_chunk(payload: &[u8], crc: u32) -> (r: Result<Chunk, DecodeError>)
    ensures
        match r {
            Ok(chunk) => text_entry(payload@, crc) == Ok::<ChunkView, DecodeError>(chunk@),
            Err(e) => text_entry(payload@, crc) == Err::<ChunkView, DecodeError>(e),
        },
{
    match key_value(payload) {
        Ok((keyword, text)) => Ok(Chunk::Text(keyword, text, crc)),
        Err(e) => Err(e),
    }
}

/// Decodes the payload of an international text chunk.
pub fn parse_international_text_chunk(payload: &[u8], crc: u32) -> (r: Result<Chunk, DecodeError>)
    ensures
        match r {
            Ok(chunk) => international_text_entry(payload@, crc) == Ok::<ChunkView, DecodeError>(
                chunk@,
            ),
            Err(e) => international_text_entry(payload@, crc) == Err::<ChunkView, DecodeError>(e),
        },
{
    let end = payload.len();
    let (keyword, keyword_end) = take_str_null_delim(payload, 0)?;
    if end - keyword_end < 3 {
        return Err(DecodeError::Truncated);
    }
    let compression_flag = payload[keyword_end + 1];
    let compression_method = payload[keyword_end + 2];
    let (language_tag, language_end) = take_str_null_delim(payload, keyword_end + 3)?;
    if language_end >= end {
        return Err(DecodeError::Truncated);
    }
    let (translated_keyword, translated_end) = take_str_null_delim(payload, language_end + 1)?;
    if translated_end >= end {
        return Err(DecodeError::Truncated);
    }
    let text = take_str(payload, translated_end + 1, end)?;
    let international_text = InternationalText {
        keyword,
        compression_flag: compression_flag == 255,
        compression_method,
        language_tag,
        translated_keyword,
        text,
    };
    Ok(Chunk::InternationalText(international_text, crc))
}

/// Decodes the payload of a header chunk.
pub fn parse_image_header_chunk(payload: &[u8], crc: u32) -> (r: Result<Chunk, DecodeError>)
    ensures
        match r {
            Ok(chunk) => header_entry(payload@, crc) == Ok::<ChunkView, DecodeError>(chunk@),
            Err(e) => header_entry(payload@, crc) == Err::<ChunkView, DecodeError>(e),
        },
{
    if payload.len() < 13 {
        return Err(DecodeError::Truncated);
    }
    let image_header = ImageHeader {
        width: read_be_u32(payload, 0),
        height: read_be_u32(payload, 4),
        bit_depth: payload[8],
        colour_type: payload[9],
        compression_method: payload[10],
        filter_method: payload[11],
        interlace_method: payload[12],
    };
    Ok(Chunk::ImageHeader(image_header, crc))
}

/// Decodes the payload of a gamma chunk.
pub fn parse_image_gamma_chunk(payload: &[u8], crc: u32) -> (r: Result<Chunk, DecodeError>)
    ensures
        match r {
            Ok(chunk) => gamma_entry(payload@, crc) == Ok::<ChunkView, DecodeError>(chunk@),
            Err(e) => gamma_entry(payload@, crc) == Err::<ChunkView, DecodeError>(e),
        },
{
    if payload.len() < 4 {
        return Err(DecodeError::Truncated);
    }
    Ok(Chunk::ImageGamma(read_be_u32(payload, 0), crc))
}

/// The end chunk.
pub fn parse_end_chunk() -> (r: Chunk)
    ensures
        r@ == ChunkView::End,
{
    Chunk::End
}

/// Keeps a chunk of a type that the decoder does not interpret.
pub fn parse_other_chunk(chunk_type: &str, payload: &[u8], crc: u32) -> (r: Chunk)
    ensures
        r@ == ChunkView::Other(chunk_type@, payload@, crc),
{
    Chunk::Other(chunk_type.to_owned(), slice_to_vec(payload), crc)
}

/// Decodes the chunk that starts at `pos` and says where the next one starts.
pub fn parse_chunk(input: &[u8], pos: usize) -> (r: Result<(Chunk, usize), DecodeError>)
    requires
        pos <= input@.len(),
    ensures
        match r {
            Ok((chunk, next)) => {
                &&& decode_chunk(input@.skip(pos as int)) == Ok::<ChunkView, DecodeError>(chunk@)
                &&& next == pos + chunk_size(input@.skip(pos as int))
                &&& next <= input@.len()
            },
            Err(e) => decode_chunk(input@.skip(pos as int)) == Err::<ChunkView, DecodeError>(e),
        },
{
    let ghost rest = input@.skip(pos as int);
    let left = input.len() - pos;
    if left < 8 {
        return Err(DecodeError::Truncated);
    }
    let length = read_be_u32(input, pos);
    let chunk_type = slice_subrange(input, pos + 4, pos + 8);
    assert(rest.subrange(4, 8) =~= chunk_type@);
    assert(be_u32(rest, 0) == length);
    let is_header = is_type(chunk_type, 73, 72, 68, 82);
    let is_text = is_type(chunk_type, 116, 69, 88, 116);
    let is_international_text = is_type(chunk_type, 105, 84, 88, 116);
    let is_gamma = is_type(chunk_type, 103, 65, 77, 65);
    let is_end = is_type(chunk_type, 73, 69, 78, 68);
    let known = is_header || is_text || is_international_text || is_gamma || is_end;
    let tag_text = utf8_text(chunk_type);
    if !known && tag_text.is_none() {
        return Err(DecodeError::EncodingError);
    }
    if left - 8 < 4 || left - 12 < length as usize {
        return Err(DecodeError::Truncated);
    }
    let payload_end = pos + 8 + length as usize;
    let payload = slice_subrange(input, pos + 8, payload_end);
    let crc = read_be_u32(input, payload_end);
    let next = payload_end + 4;
    assert(rest.subrange(8, chunk_size(rest) - 4) =~= payload@);
    assert(be_u32(rest, chunk_size(rest) - 4) == crc);
    let chunk = if is_header {
        parse_image_header_chunk(payload, crc)?
    } else if is_text {
        parse_text_chunk(payload, crc)?
    } else if is_international_text {
        parse_international_text_chunk(payload, crc)?
    } else if is_gamma {
        parse_image_gamma_chunk(payload, crc)?
    } else if is_end {
        parse_end_chunk()
    } else {
        match tag_text {
            Some(name) => parse_other_chunk(name, payload, crc),
            None => { return Err(DecodeError::EncodingError); },
        }
    };
    Ok((chunk, next))
}

/// Whether `input` starts with the PNG signature.
pub fn check_signature(input: &[u8]) -> (r: bool)
    ensures
        r == has_signature(input@),
{
    if input.len() < 8 {
        return false;
    }
    let r = input[0] == 137 && input[1] == 80 && input[2] == 78 && input[3] == 71 && input[4] == 13
        && input[5] == 10 && input[6] == 26 && input[7] == 10;
    proof {
        let head = input@.subrange(0, 8);
        if r {
            assert(head =~= signature());
        } else {
            assert(head[0] == input@[0] && head[1] == input@[1] && head[2] == input@[2] && head[3]
                == input@[3] && head[4] == input@[4] && head[5] == input@[5] && head[6]
                == input@[6] && head[7] == input@[7]);
        }
    }
    r
}

/// The header of the first header chunk among `chunks`.
pub fn find_header(chunks: &Vec<Chunk>) -> (r: Option<ImageHeader>)
    ensures
        r == first_header(chunk_views(chunks@)),
{
    let ghost views = chunk_views(chunks@);
    let mut i: usize = 0;
    assert(views.skip(0) =~= views);
    while i < chunks.len()
        invariant
            i <= chunks@.len(),
            views == chunk_views(chunks@),
            first_header(views.skip(i as int)) == first_header(views),
        decreases chunks@.len() - i,
    {
        assert(views.skip(i as int)[0] == chunks@[i as int]@);
        if let Chunk::ImageHeader(header, _) = &chunks[i] {
            return Some(*header);
        }
        assert(views.skip(i as int).skip(1) =~= views.skip(i + 1));
        i += 1;
    }
    None
}

/// Decodes a PNG file: the signature, then chunks up to the end of `input`.
/// The size is that of the first header chunk. An end chunk is not asked for.
pub fn parse_png(input: &[u8]) -> (r: Result<PNG, DecodeError>)
    ensures
        match r {
            Ok(png) => decode_png(input@) == Ok::<PngView, DecodeError>(png@),
            Err(e) => decode_png(input@) == Err::<PngView, DecodeError>(e),
        },
        !has_signature(input@) ==> r == Err::<PNG, DecodeError>(DecodeError::FormatMismatch),
        r matches Ok(png) ==> first_header(png@.chunks) matches Some(header) && header.width
            == png.width && header.height == png.height,
{
    if !check_signature(input) {
        return Err(DecodeError::FormatMismatch);
    }
    let mut chunks: Vec<Chunk> = Vec::new();
    let mut pos: usize = 8;
    let ghost all = decode_chunks(input@.skip(8));
    assert(chunk_views(chunks@) =~= Seq::<ChunkView>::empty());
    assert(all == prepend(Seq::empty(), all)) by {
        if let Ok(found) = all {
            assert(Seq::<ChunkView>::empty() + found =~= found);
        }
    }
    while pos < input.len()
        invariant
            8 <= pos <= input@.len(),
            has_signature(input@),
            all == decode_chunks(input@.skip(8)),
            all == prepend(chunk_views(chunks@), decode_chunks(input@.skip(pos as int))),
        decreases input@.len() - pos,
    {
        let ghost rest = input@.skip(pos as int);
        let ghost before = chunk_views(chunks@);
        match parse_chunk(input, pos) {
            Err(e) => {
                return Err(e);
            },
            Ok((chunk, next)) => {
                proof {
                    assert(rest.skip(chunk_size(rest)) =~= input@.skip(next as int));
                    assert(chunk_views(chunks@.push(chunk)) =~= before.push(chunk@));
                    let tail = decode_chunks(input@.skip(next as int));
                    if let Ok(more) = tail {
                        assert(before + (seq![chunk@] + more) =~= before.push(chunk@) + more);
                    }
                }
                chunks.push(chunk);
                pos = next;
            },
        }
    }
    assert(chunk_views(chunks@) + Seq::<ChunkView>::empty() =~= chunk_views(chunks@));
    match find_header(&chunks) {
        None => Err(DecodeError::StructuralError),
        Some(header) => Ok(PNG { width: header.width, height: header.height, chunks }),
    }
}

/// Where a stretch of bytes without a zero byte is followed by a zero
/// byte, the first zero byte from the start of the stretch is that one.
pub proof fn lemma_first_zero_after(bytes: Seq<u8>, from: int, to: int)
    requires
        0 <= from <= to < bytes.len(),
        forall|i: int| from <= i < to ==> bytes[i] != 0,
        bytes[to] == 0,
    ensures
        first_zero(bytes, from) == to,
    decreases to - from,
{
    if from < to {
        lemma_first_zero_after(bytes, from + 1, to);
    }
}

/// A text chunk gives back what it was made of: a keyword without a zero
/// byte, a zero byte and a text decode to that keyword and that text.
pub proof fn lemma_text_entry_round_trip(keyword: Seq<u8>, text: Seq<u8>, crc: u32)
    requires
        !keyword.contains(0),
        valid_utf8(keyword),
        valid_utf8(text),
    ensures
        text_entry(keyword + seq![0u8] + text, crc) == Ok::<ChunkView, DecodeError>(
            ChunkView::Text(decode_utf8(keyword), decode_utf8(text), crc),
        ),
{
    let payload = keyword + seq![0u8] + text;
    let zero = keyword.len() as int;
    assert forall|i: int| 0 <= i < zero implies payload[i] != 0 by {
        assert(keyword.contains(keyword[i]));
    }
    lemma_first_zero_after(payload, 0, zero);
    assert(payload.subrange(0, zero) =~= keyword);
    assert(payload.subrange(zero + 1, payload.len() as int) =~= text);
}

/// An international text chunk gives back what it was made of: keyword,
/// language tag and translated keyword without zero bytes, each followed
/// by a zero byte, with flag and method behind the first, and the text at
/// the end, decode to those fields.
pub proof fn lemma_international_text_round_trip(
    keyword: Seq<u8>,
    flag: u8,
    method: u8,
    language: Seq<u8>,
    translated: Seq<u8>,
    text: Seq<u8>,
    crc: u32,
)
    requires
        !keyword.contains(0),
        !language.contains(0),
        !translated.contains(0),
        valid_utf8(keyword),
        valid_utf8(language),
        valid_utf8(translated),
        valid_utf8(text),
    ensures
        international_text_entry(
            keyword + seq![0u8, flag, method] + language + seq![0u8] + translated + seq![0u8]
                + text,
            crc,
        ) == Ok::<ChunkView, DecodeError>(
            ChunkView::InternationalText(
                InternationalTextView {
                    keyword: decode_utf8(keyword),
                    compression_flag: flag == 255,
                    compression_method: method,
                    language_tag: decode_utf8(language),
                    translated_keyword: decode_utf8(translated),
                    text: decode_utf8(text),
                },
                crc,
            ),
        ),
{
    let payload = keyword + seq![0u8, flag, method] + language + seq![0u8] + translated + seq![
        0u8,
    ] + text;
    let k = keyword.len() as int;
    let l = k + 3 + language.len();
    let t = l + 1 + translated.len();
    assert forall|i: int| 0 <= i < k implies payload[i] != 0 by {
        assert(keyword.contains(keyword[i]));
    }
    assert forall|i: int| k + 3 <= i < l implies payload[i] != 0 by {
        assert(language.contains(language[i - k - 3]));
    }
    assert forall|i: int| l + 1 <= i < t implies payload[i] != 0 by {
        assert(translated.contains(translated[i - l - 1]));
    }
    lemma_first_zero_after(payload, 0, k);
    lemma_first_zero_after(payload, k + 3, l);
    lemma_first_zero_after(payload, l + 1, t);
    assert(payload.subrange(0, k) =~= keyword);
    assert(payload.subrange(k + 3, l) =~= language);
    assert(payload.subrange(l + 1, t) =~= translated);
    assert(payload.subrange(t + 1, payload.len() as int) =~= text);
}

/// A file without the signature is a format mismatch, whatever else it
/// holds.
pub proof fn lemma_signature_is_checked_first(bytes: Seq<u8>)
    requires
        !has_signature(bytes),
    ensures
        decode_png(bytes) == Err::<PngView, DecodeError>(DecodeError::FormatMismatch),
{
}

/// A file that holds the signature and one header chunk, and no end
/// chunk, decodes to that chunk, with the size that the header gives.
pub proof fn lemma_header_alone_decodes(payload: Seq<u8>, checksum: Seq<u8>)
    requires
        payload.len() == 13,
        checksum.len() == 4,
    ensures
        decode_png(signature() + seq![0u8, 0u8, 0u8, 13u8] + header_type() + payload + checksum)
            == Ok::<PngView, DecodeError>(
            PngView {
                width: be_u32(payload, 0),
                height: be_u32(payload, 4),
                chunks: seq![header_entry(payload, be_u32(checksum, 0))->Ok_0],
            },
        ),
{
    let bytes = signature() + seq![0u8, 0u8, 0u8, 13u8] + header_type() + payload + checksum;
    let rest = bytes.skip(8);
    let chunk = header_entry(payload, be_u32(checksum, 0))->Ok_0;
    assert(bytes.subrange(0, 8) =~= signature());
    assert(rest.len() == 25);
    assert(be_u32(rest, 0) == 13);
    assert(rest.subrange(4, 8) =~= header_type());
    assert(rest.subrange(8, 21) =~= payload);
    assert(be_u32(rest, 21) == be_u32(checksum, 0));
    assert(decode_chunk(rest) == Ok::<ChunkView, DecodeError>(chunk));
    assert(chunk_size(rest) == 25);
    assert(rest.skip(25).len() == 0);
    assert(decode_chunks(rest.skip(25)) == Ok::<Seq<ChunkView>, DecodeError>(Seq::empty()));
    assert(seq![chunk] + Seq::<ChunkView>::empty() =~= seq![chunk]);
    assert(decode_chunks(rest) == Ok::<Seq<ChunkView>, DecodeError>(seq![chunk]));
    assert(first_header(seq![chunk]) == Some(chunk->ImageHeader_0));
}

} // verus!
