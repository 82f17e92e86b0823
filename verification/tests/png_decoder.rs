use iiif_forager::image::png::{
    key_value, parse_chunk, parse_international_text_chunk, parse_png, parse_text_chunk, Chunk,
    DecodeError, ImageHeader, InternationalText, PNG,
};

const SIGNATURE: [u8; 8] = [137, 80, 78, 71, 13, 10, 26, 10];

fn chunk(kind: &[u8; 4], payload: &[u8], crc: u32) -> Vec<u8> {
    let mut out = Vec::new();
    out.extend_from_slice(&(payload.len() as u32).to_be_bytes());
    out.extend_from_slice(kind);
    out.extend_from_slice(payload);
    out.extend_from_slice(&crc.to_be_bytes());
    out
}

fn header_payload(width: u32, height: u32) -> Vec<u8> {
    let mut out = Vec::new();
    out.extend_from_slice(&width.to_be_bytes());
    out.extend_from_slice(&height.to_be_bytes());
    out.extend_from_slice(&[8, 6, 0, 0, 1]);
    out
}

fn file(chunks: &[Vec<u8>]) -> Vec<u8> {
    let mut out = SIGNATURE.to_vec();
    for c in chunks {
        out.extend_from_slice(c);
    }
    out
}

fn international_payload(
    keyword: &str,
    flag: u8,
    method: u8,
    language: &str,
    translated: &str,
    text: &str,
) -> Vec<u8> {
    let mut out = Vec::new();
    out.extend_from_slice(keyword.as_bytes());
    out.push(0);
    out.push(flag);
    out.push(method);
    out.extend_from_slice(language.as_bytes());
    out.push(0);
    out.extend_from_slice(translated.as_bytes());
    out.push(0);
    out.extend_from_slice(text.as_bytes());
    out
}

#[test]
fn it_works() {
    let data = file(&[
        chunk(b"IHDR", &header_payload(640, 480), 0x01020304),
        chunk(b"gAMA", &45455u32.to_be_bytes(), 7),
        chunk(b"tEXt", b"Title\0Sample", 8),
        chunk(
            b"iTXt",
            &international_payload("k", 0, 0, "en", "k2", "hello"),
            9,
        ),
        chunk(b"IDAT", &[1, 2, 3, 0, 255], 10),
        chunk(b"IEND", &[], 0xAE426082),
    ]);
    let png = parse_png(&data).unwrap();
    println!("Got the following chunks:");
    for (i, chunk) in png.chunks.iter().enumerate() {
        match chunk {
            Chunk::ImageHeader(image_header, _crc) => println!(
                "{}: ImageHeader: {}, {}",
                i, image_header.width, image_header.height
            ),
            Chunk::ImageGamma(value, _crc) => println!("{}: ImageGamma: {}", i, value),
            Chunk::Text(key, value, _crc) => println!("{}: TextChunk: {} → {}", i, key, value),
            Chunk::InternationalText(text, _crc) => {
                println!("{}: TextChunk: {} → {}", i, text.keyword, text.text)
            }
            Chunk::End => println!("{}: End", i),
            Chunk::Other(chunk_type, _value, _crc) => {
                println!("{}: OtherChunk of type {}", i, chunk_type)
            }
        }
    }
    assert_eq!(png.width, 640);
    assert_eq!(png.height, 480);
    assert_eq!(
        png.chunks,
        vec![
            Chunk::ImageHeader(
                ImageHeader {
                    width: 640,
                    height: 480,
                    bit_depth: 8,
                    colour_type: 6,
                    compression_method: 0,
                    filter_method: 0,
                    interlace_method: 1,
                },
                0x01020304
            ),
            Chunk::ImageGamma(45455, 7),
            Chunk::Text("Title".to_owned(), "Sample".to_owned(), 8),
            Chunk::InternationalText(
                InternationalText {
                    keyword: "k".to_owned(),
                    compression_flag: false,
                    compression_method: 0,
                    language_tag: "en".to_owned(),
                    translated_keyword: "k2".to_owned(),
                    text: "hello".to_owned(),
                },
                9
            ),
            Chunk::Other("IDAT".to_owned(), vec![1, 2, 3, 0, 255], 10),
            Chunk::End,
        ]
    );
}

#[test]
fn wrong_signature_is_a_format_mismatch() {
    assert_eq!(parse_png(&[]), Err(DecodeError::FormatMismatch));
    assert_eq!(parse_png(&SIGNATURE[..7]), Err(DecodeError::FormatMismatch));
    let mut data = file(&[chunk(b"IHDR", &header_payload(1, 1), 0)]);
    data[1] = 81;
    assert_eq!(parse_png(&data), Err(DecodeError::FormatMismatch));
    let jpeg = [0xFF, 0xD8, 0xFF, 0xE0, 0, 16, 74, 70, 73, 70, 0, 1];
    assert_eq!(parse_png(&jpeg), Err(DecodeError::FormatMismatch));
}

#[test]
fn header_alone_decodes() {
    let data = file(&[chunk(b"IHDR", &header_payload(123, 321), 0x9A38C4)]);
    let png = parse_png(&data).unwrap();
    assert_eq!(png.width, 123);
    assert_eq!(png.height, 321);
    assert_eq!(png.chunks.len(), 1);
}

#[test]
fn size_comes_from_the_first_header() {
    let data = file(&[
        chunk(b"tEXt", b"a\0b", 0),
        chunk(b"IHDR", &header_payload(10, 20), 0),
        chunk(b"IHDR", &header_payload(30, 40), 0),
    ]);
    let png = parse_png(&data).unwrap();
    assert_eq!((png.width, png.height), (10, 20));
    assert_eq!(png.chunks.len(), 3);
}

#[test]
fn no_header_is_a_structural_error() {
    assert_eq!(parse_png(&SIGNATURE), Err(DecodeError::StructuralError));
    let data = file(&[chunk(b"tEXt", b"a\0b", 0), chunk(b"IEND", &[], 0)]);
    assert_eq!(parse_png(&data), Err(DecodeError::StructuralError));
}

#[test]
fn a_cut_chunk_is_truncated() {
    let whole = file(&[chunk(b"IHDR", &header_payload(1, 1), 5)]);
    for cut in 9..whole.len() {
        assert_eq!(
            parse_png(&whole[..cut]),
            Err(DecodeError::Truncated),
            "cut at {}",
            cut
        );
    }
    let short_header = file(&[chunk(b"IHDR", &[0, 0, 0, 1], 5)]);
    assert_eq!(parse_png(&short_header), Err(DecodeError::Truncated));
    let short_gamma = file(&[
        chunk(b"IHDR", &header_payload(1, 1), 5),
        chunk(b"gAMA", &[1, 2], 5),
    ]);
    assert_eq!(parse_png(&short_gamma), Err(DecodeError::Truncated));
}

#[test]
fn invalid_text_aborts_the_file() {
    let data = file(&[
        chunk(b"IHDR", &header_payload(1, 1), 5),
        chunk(b"tEXt", &[b'k', 0, 0xFF, 0xFE], 5),
        chunk(b"IEND", &[], 0),
    ]);
    assert_eq!(parse_png(&data), Err(DecodeError::EncodingError));
    let bad_type = file(&[
        chunk(b"IHDR", &header_payload(1, 1), 5),
        chunk(&[0xC3, 0x28, b'a', b'b'], &[], 5),
    ]);
    assert_eq!(parse_png(&bad_type), Err(DecodeError::EncodingError));
}

#[test]
fn text_payload_splits_on_the_first_null() {
    assert_eq!(
        key_value(b"Title\0Sample"),
        Ok(("Title".to_owned(), "Sample".to_owned()))
    );
    assert_eq!(
        key_value(b"no null here"),
        Ok(("".to_owned(), "no null here".to_owned()))
    );
    assert_eq!(
        key_value(b"a\0b\0c"),
        Ok(("a".to_owned(), "b\0c".to_owned()))
    );
    assert_eq!(key_value(b""), Ok(("".to_owned(), "".to_owned())));
    assert_eq!(key_value(&[0xFF]), Err(DecodeError::EncodingError));
    assert_eq!(
        parse_text_chunk(b"Title\0Sample", 77),
        Ok(Chunk::Text("Title".to_owned(), "Sample".to_owned(), 77))
    );
}

#[test]
fn international_text_round_trips() {
    let payload = international_payload("k", 0, 0, "en", "k2", "hello");
    let chunk = parse_international_text_chunk(&payload, 3).unwrap();
    match chunk {
        Chunk::InternationalText(entry, crc) => {
            assert_eq!(entry.keyword, "k");
            assert!(!entry.compression_flag);
            assert_eq!(entry.compression_method, 0);
            assert_eq!(entry.language_tag, "en");
            assert_eq!(entry.translated_keyword, "k2");
            assert_eq!(entry.text, "hello");
            assert_eq!(crc, 3);
        }
        other => panic!("unexpected chunk {:?}", other),
    }
}

#[test]
fn compression_flag_is_kept_and_not_acted_on() {
    let payload = international_payload("k", 255, 0, "", "", "still text");
    match parse_international_text_chunk(&payload, 0).unwrap() {
        Chunk::InternationalText(entry, _) => {
            assert!(entry.compression_flag);
            assert_eq!(entry.text, "still text");
        }
        other => panic!("unexpected chunk {:?}", other),
    }
    let payload = international_payload("k", 1, 9, "", "", "");
    match parse_international_text_chunk(&payload, 0).unwrap() {
        Chunk::InternationalText(entry, _) => {
            assert!(!entry.compression_flag);
            assert_eq!(entry.compression_method, 9);
        }
        other => panic!("unexpected chunk {:?}", other),
    }
}

#[test]
fn international_text_reports_what_is_missing() {
    assert_eq!(
        parse_international_text_chunk(b"keyword", 0),
        Err(DecodeError::Truncated)
    );
    assert_eq!(
        parse_international_text_chunk(b"k\0\0", 0),
        Err(DecodeError::Truncated)
    );
    assert_eq!(
        parse_international_text_chunk(b"k\0\0\0en", 0),
        Err(DecodeError::Truncated)
    );
    assert_eq!(
        parse_international_text_chunk(b"k\0\0\0en\0k2", 0),
        Err(DecodeError::Truncated)
    );
    assert_eq!(
        parse_international_text_chunk(&[0xFF], 0),
        Err(DecodeError::EncodingError)
    );
    assert_eq!(
        parse_international_text_chunk(&[b'k', 0, 0, 0, b'e', 0, b'k', 0, 0xC0], 0),
        Err(DecodeError::EncodingError)
    );
}

#[test]
fn chunk_reader_says_where_the_next_chunk_starts() {
    let data = file(&[
        chunk(b"IHDR", &header_payload(2, 3), 5),
        chunk(b"abcd", &[9, 9], 6),
    ]);
    let (first, next) = parse_chunk(&data, 8).unwrap();
    assert!(matches!(first, Chunk::ImageHeader(_, 5)));
    assert_eq!(next, 8 + 12 + 13);
    let (second, end) = parse_chunk(&data, next).unwrap();
    assert_eq!(second, Chunk::Other("abcd".to_owned(), vec![9, 9], 6));
    assert_eq!(end, data.len());
    assert_eq!(parse_chunk(&data, end), Err(DecodeError::Truncated));
}

#[test]
fn decoded_file_compares_by_value() {
    let data = file(&[chunk(b"IHDR", &header_payload(2, 3), 5)]);
    let expected = PNG {
        width: 2,
        height: 3,
        chunks: vec![Chunk::ImageHeader(
            ImageHeader {
                width: 2,
                height: 3,
                bit_depth: 8,
                colour_type: 6,
                compression_method: 0,
                filter_method: 0,
                interlace_method: 1,
            },
            5,
        )],
    };
    assert_eq!(parse_png(&data), Ok(expected));
}
