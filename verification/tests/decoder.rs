use base64::Engine;
use plantuml_server::encoding::{
    compressed_payload, decode_plantuml, source_text, symbol_index, to_standard_base64,
    to_standard_symbol,
};
use plantuml_server::error::DiagramError;
use std::io::Write;

const PLANTUML: &str = "0123456789ABCDEFGHIJKLMNOPQRSTUVWXYZabcdefghijklmnopqrstuvwxyz-_";
const STANDARD: &str = "ABCDEFGHIJKLMNOPQRSTUVWXYZabcdefghijklmnopqrstuvwxyz0123456789+/";

fn compress(source: &[u8]) -> Vec<u8> {
    let mut encoder = flate2::write::ZlibEncoder::new(Vec::new(), flate2::Compression::default());
    encoder.write_all(source).unwrap();
    encoder.finish().unwrap()
}

/// Standard base64 text moved to PlantUML's alphabet.
fn to_plantuml(text: &str) -> String {
    text.chars()
        .map(|c| {
            let place = STANDARD.find(c).unwrap();
            PLANTUML.as_bytes()[place] as char
        })
        .collect()
}

/// Encodes bytes whose length is a multiple of three, so that no padding is
/// needed.
fn encode_bytes(compressed: &[u8]) -> String {
    assert_eq!(compressed.len() % 3, 0);
    to_plantuml(&base64::engine::general_purpose::STANDARD.encode(compressed))
}

/// `source` with as many newlines added as it takes for its compressed form
/// to need no padding, and the token for it.
fn encodable(source: &str) -> (String, String) {
    let mut text = source.to_string();
    loop {
        let compressed = compress(text.as_bytes());
        if compressed.len() % 3 == 0 {
            return (text, encode_bytes(&compressed));
        }
        text.push('\n');
    }
}

#[test]
fn test_decode_plantuml_simple() {
    let encoded = "SyfFKj2rKt3CoKnELR1Io4ZDoSa70000";
    let result = decode_plantuml(encoded);

    match result {
        Ok(s) => assert!(!s.is_empty()),
        Err(_) => {}
    }
}

#[test]
fn simple_token_is_no_zlib_stream() {
    // The token is well formed and is base64, but what it holds has no zlib header.
    let result = decode_plantuml("SyfFKj2rKt3CoKnELR1Io4ZDoSa70000");
    assert_eq!(
        result,
        Err(DiagramError::DecompressionFailed("corrupt deflate stream".to_string()))
    );
}

#[test]
fn round_trip_of_a_sequence_diagram() {
    let (source, token) = encodable("@startuml\nAlice -> Bob: Hello\n@enduml");
    assert!(source.starts_with("@startuml\nAlice -> Bob: Hello\n@enduml"));
    assert_eq!(decode_plantuml(&token), Ok(source));
}

#[test]
fn round_trip_keeps_text_outside_ascii() {
    let (source, token) = encodable("@startuml\nÅsa -> 李: grüß → ok\n@enduml");
    assert_eq!(decode_plantuml(&token), Ok(source));
}

#[test]
fn round_trip_of_many_sources() {
    for n in 0..200usize {
        let (source, token) = encodable(&format!("@startuml\nA{} -> B: {}\n@enduml", n, "x".repeat(n)));
        assert!(token.chars().all(|c| PLANTUML.contains(c)));
        assert_eq!(decode_plantuml(&token), Ok(source));
    }
}

#[test]
fn round_trip_of_the_empty_source() {
    let (source, token) = encodable("");
    assert_eq!(decode_plantuml(&token), Ok(source));
}

#[test]
fn decoding_twice_gives_the_same() {
    let (_, token) = encodable("@startuml\nBob -> Alice\n@enduml");
    assert_eq!(decode_plantuml(&token), decode_plantuml(&token));
    assert_eq!(decode_plantuml("ab!cd"), decode_plantuml("ab!cd"));
    assert_eq!(decode_plantuml("0"), decode_plantuml("0"));
    assert_eq!(decode_plantuml("0000"), decode_plantuml("0000"));
}

#[test]
fn foreign_character_is_rejected() {
    assert_eq!(decode_plantuml("!"), Err(DiagramError::InvalidEncoding('!')));
    assert_eq!(decode_plantuml("SyfFKj2r!Kt3"), Err(DiagramError::InvalidEncoding('!')));
    assert_eq!(decode_plantuml("abc="), Err(DiagramError::InvalidEncoding('=')));
    assert_eq!(decode_plantuml("ab+c"), Err(DiagramError::InvalidEncoding('+')));
    assert_eq!(decode_plantuml("ab/c"), Err(DiagramError::InvalidEncoding('/')));
    assert_eq!(decode_plantuml("ab c"), Err(DiagramError::InvalidEncoding(' ')));
    assert_eq!(decode_plantuml("abé"), Err(DiagramError::InvalidEncoding('é')));
}

#[test]
fn first_foreign_character_is_reported() {
    assert_eq!(decode_plantuml("ab?cd!ef"), Err(DiagramError::InvalidEncoding('?')));
    assert_eq!(decode_plantuml("#$%"), Err(DiagramError::InvalidEncoding('#')));
}

#[test]
fn foreign_character_wins_over_a_valid_payload() {
    let (_, token) = encodable("@startuml\nAlice -> Bob\n@enduml");
    let spoiled = format!("{}!", token);
    assert_eq!(decode_plantuml(&spoiled), Err(DiagramError::InvalidEncoding('!')));
    let spoiled = format!("*{}", token);
    assert_eq!(decode_plantuml(&spoiled), Err(DiagramError::InvalidEncoding('*')));
}

#[test]
fn every_character_but_the_symbols_is_foreign() {
    for code in 0..=0x10FFFFu32 {
        if let Some(c) = char::from_u32(code) {
            let place = PLANTUML.find(c);
            assert_eq!(symbol_index(c), place.map(|p| p as u8), "{:?}", c);
            let standard = place.map(|p| STANDARD.as_bytes()[p] as char);
            assert_eq!(to_standard_symbol(c), standard, "{:?}", c);
        }
    }
}

#[test]
fn symbols_map_place_by_place() {
    assert_eq!(to_standard_symbol('0'), Some('A'));
    assert_eq!(to_standard_symbol('9'), Some('J'));
    assert_eq!(to_standard_symbol('A'), Some('K'));
    assert_eq!(to_standard_symbol('P'), Some('Z'));
    assert_eq!(to_standard_symbol('Q'), Some('a'));
    assert_eq!(to_standard_symbol('Z'), Some('j'));
    assert_eq!(to_standard_symbol('a'), Some('k'));
    assert_eq!(to_standard_symbol('p'), Some('z'));
    assert_eq!(to_standard_symbol('q'), Some('0'));
    assert_eq!(to_standard_symbol('z'), Some('9'));
    assert_eq!(to_standard_symbol('-'), Some('+'));
    assert_eq!(to_standard_symbol('_'), Some('/'));
    assert_eq!(symbol_index('0'), Some(0));
    assert_eq!(symbol_index('A'), Some(10));
    assert_eq!(symbol_index('a'), Some(36));
    assert_eq!(symbol_index('-'), Some(62));
    assert_eq!(symbol_index('_'), Some(63));
    assert_eq!(symbol_index('='), None);
}

#[test]
fn token_is_moved_to_the_standard_alphabet() {
    assert_eq!(to_standard_base64(""), Ok(String::new()));
    assert_eq!(to_standard_base64(PLANTUML), Ok(STANDARD.to_string()));
    assert_eq!(
        to_standard_base64("SyfFKj2rKt3CoKnELR1Io4ZDoSa70000"),
        Ok("c8pPUtC1U3DMyUxOVbBSyEjNyckHAAAA".to_string())
    );
    assert_eq!(to_standard_base64("abc~"), Err(DiagramError::InvalidEncoding('~')));
}

#[test]
fn token_that_is_no_base64_is_refused() {
    // One symbol cannot stand for a byte.
    let cause = base64::engine::general_purpose::STANDARD.decode("A").unwrap_err().to_string();
    assert_eq!(decode_plantuml("0"), Err(DiagramError::Base64DecodeFailed(cause)));
    // Two symbols would need padding, which PlantUML's alphabet cannot express.
    let cause = base64::engine::general_purpose::STANDARD.decode("AA").unwrap_err().to_string();
    assert_eq!(cause, "Invalid padding");
    assert_eq!(
        decode_plantuml("00"),
        Err(DiagramError::Base64DecodeFailed("Invalid padding".to_string()))
    );
}

#[test]
fn token_without_a_zlib_stream_is_refused() {
    // "AAAA" is three zero bytes.
    assert_eq!(
        decode_plantuml("0000"),
        Err(DiagramError::DecompressionFailed("corrupt deflate stream".to_string()))
    );
}

#[test]
fn empty_token_holds_no_stream() {
    assert_eq!(
        decode_plantuml(""),
        Err(DiagramError::DecompressionFailed("incomplete deflate stream".to_string()))
    );
}

#[test]
fn token_that_would_need_padding_is_refused() {
    // The empty source compresses to eight bytes, which base64 writes in
    // eleven symbols and one padding character.
    let compressed = compress(b"");
    assert_eq!(compressed.len(), 8);
    let text = base64::engine::general_purpose::STANDARD_NO_PAD.encode(&compressed);
    assert_eq!(text.len(), 11);
    let token = to_plantuml(&text);
    assert_eq!(token, "U9m30000004");
    assert_eq!(
        decode_plantuml("U9m30000004"),
        Err(DiagramError::Base64DecodeFailed("Invalid padding".to_string()))
    );
}

#[test]
fn compressed_bytes_that_are_no_utf8_are_refused() {
    let mut bytes = vec![0xffu8, 0xfe, 0xfd];
    loop {
        let compressed = compress(&bytes);
        if compressed.len() % 3 == 0 {
            let token = encode_bytes(&compressed);
            assert_eq!(
                decode_plantuml(&token),
                Err(DiagramError::DecompressionFailed(
                    "stream did not contain valid UTF-8".to_string()
                ))
            );
            return;
        }
        bytes.push(0xff);
    }
}

#[test]
fn truncated_stream_is_refused() {
    let compressed = compress("@startuml\nAlice -> Bob: Hello, and a good day to you\n@enduml".as_bytes());
    let cut = (compressed.len() / 2) / 3 * 3;
    let token = encode_bytes(&compressed[..cut]);
    assert_eq!(
        decode_plantuml(&token),
        Err(DiagramError::DecompressionFailed("incomplete deflate stream".to_string()))
    );
}

#[test]
fn answers_of_the_decoders_are_passed_on() {
    assert_eq!(compressed_payload(Ok(vec![1, 2, 3])), Ok(vec![1, 2, 3]));
    assert_eq!(
        compressed_payload(Err("Invalid padding".to_string())),
        Err(DiagramError::Base64DecodeFailed("Invalid padding".to_string()))
    );
    assert_eq!(source_text(Ok("@startuml".to_string())), Ok("@startuml".to_string()));
    assert_eq!(
        source_text(Err("corrupt deflate stream".to_string())),
        Err(DiagramError::DecompressionFailed("corrupt deflate stream".to_string()))
    );
}
