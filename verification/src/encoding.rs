//! The decoder for PlantUML's URL-safe text encoding.
//!
//! An encoded diagram is the diagram's source, compressed with zlib, written
//! in base64 and then moved, symbol by symbol, from the standard base64
//! alphabet to PlantUML's own. Decoding undoes the three steps in turn.

use crate::error::{bytes_result, text_result, DiagramError, Fault};
use crate::text::push_char;
use vstd::prelude::*;

verus! {

/// PlantUML's alphabet: the digits, the upper-case letters, the lower-case
/// letters, `-` and `_`, in this order.
pub open spec fn plantuml_alphabet() -> Seq<char> {
    "0123456789ABCDEFGHIJKLMNOPQRSTUVWXYZabcdefghijklmnopqrstuvwxyz-_"@
}

/// The standard base64 alphabet: the upper-case letters, the lower-case
/// letters, the digits, `+` and `/`, in this order.
pub open spec fn standard_alphabet() -> Seq<char> {
    "ABCDEFGHIJKLMNOPQRSTUVWXYZabcdefghijklmnopqrstuvwxyz0123456789+/"@
}

/// Whether `c` is one of the 64 symbols of PlantUML's alphabet.
pub open spec fn is_symbol(c: char) -> bool {
    plantuml_alphabet().contains(c)
}

/// The standard symbol that stands where `c` stands in PlantUML's alphabet.
pub open spec fn to_standard(c: char) -> char
    recommends
        is_symbol(c),
{
    standard_alphabet()[plantuml_alphabet().index_of(c)]
}

/// Whether every character of `token` is a symbol of PlantUML's alphabet.
pub open spec fn well_formed(token: Seq<char>) -> bool {
    forall|i: int| 0 <= i < token.len() ==> is_symbol(#[trigger] token[i])
}

/// Whether `i` is the place of the first character of `token` that is no
/// symbol of PlantUML's alphabet.
pub open spec fn is_first_foreign(token: Seq<char>, i: int) -> bool {
    &&& 0 <= i < token.len()
    &&& !is_symbol(token[i])
    &&& well_formed(token.take(i))
}

/// The first character of `token` that is no symbol of PlantUML's alphabet.
pub open spec fn first_foreign(token: Seq<char>) -> char
    recommends
        !well_formed(token),
{
    token[choose|i: int| is_first_foreign(token, i)]
}

/// `token` with each symbol replaced by its standard counterpart.
pub open spec fn standard_text(token: Seq<char>) -> Seq<char> {
    Seq::new(token.len(), |i: int| to_standard(token[i]))
}

/// The token in the standard alphabet: a well-formed token becomes standard
/// base64 text of the same length; any other is refused for its first
/// foreign character.
pub open spec fn remapped(token: Seq<char>) -> Result<Seq<char>, Fault> {
    if well_formed(token) {
        Ok(standard_text(token))
    } else {
        Err(Fault::InvalidEncoding(first_foreign(token)))
    }
}

/// The symbol at place `i` of PlantUML's alphabet, by ranges.
pub open spec fn plantuml_symbol(i: int) -> char
    recommends
        0 <= i < 64,
{
    if i < 10 {
        ('0' as int + i) as char
    } else if i < 36 {
        ('A' as int + (i - 10)) as char
    } else if i < 62 {
        ('a' as int + (i - 36)) as char
    } else if i == 62 {
        '-'
    } else {
        '_'
    }
}

/// The symbol at place `i` of the standard alphabet, by ranges.
pub open spec fn standard_symbol(i: int) -> char
    recommends
        0 <= i < 64,
{
    if i < 26 {
        ('A' as int + i) as char
    } else if i < 52 {
        ('a' as int + (i - 26)) as char
    } else if i < 62 {
        ('0' as int + (i - 52)) as char
    } else if i == 62 {
        '+'
    } else {
        '/'
    }
}

/// Both alphabets hold 64 symbols, and each is what its ranges say.
pub proof fn lemma_alphabets()
    ensures
        plantuml_alphabet().len() == 64,
        standard_alphabet().len() == 64,
        forall|i: int| 0 <= i < 64 ==> #[trigger] plantuml_alphabet()[i] == plantuml_symbol(i),
        forall|i: int| 0 <= i < 64 ==> #[trigger] standard_alphabet()[i] == standard_symbol(i),
{
    reveal_strlit("0123456789ABCDEFGHIJKLMNOPQRSTUVWXYZabcdefghijklmnopqrstuvwxyz-_");
    reveal_strlit("ABCDEFGHIJKLMNOPQRSTUVWXYZabcdefghijklmnopqrstuvwxyz0123456789+/");
}

/// No symbol stands twice in PlantUML's alphabet: a symbol's place is the
/// one at which it is found.
pub proof fn lemma_symbol_place(i: int)
    requires
        0 <= i < 64,
    ensures
        is_symbol(plantuml_symbol(i)),
        plantuml_alphabet().index_of(plantuml_symbol(i)) == i,
        to_standard(plantuml_symbol(i)) == standard_symbol(i),
{
    lemma_alphabets();
    let c = plantuml_symbol(i);
    assert(plantuml_alphabet()[i] == c);
    let j = plantuml_alphabet().index_of(c);
    assert(0 <= j < 64 && plantuml_alphabet()[j] == c);
    assert(plantuml_symbol(j) == c);
}

/// The symbols of PlantUML's alphabet are the ASCII digits and letters, `-`
/// and `_`, and no others.
pub proof fn lemma_symbol_ranges(c: char)
    ensures
        is_symbol(c) <==> ('0' <= c <= '9' || 'A' <= c <= 'Z' || 'a' <= c <= 'z' || c == '-' || c
            == '_'),
{
    lemma_alphabets();
    if is_symbol(c) {
        let i = plantuml_alphabet().index_of(c);
        assert(plantuml_alphabet()[i] == plantuml_symbol(i));
    }
    if '0' <= c <= '9' {
        lemma_symbol_place(c as int - '0' as int);
    } else if 'A' <= c <= 'Z' {
        lemma_symbol_place(c as int - 'A' as int + 10);
    } else if 'a' <= c <= 'z' {
        lemma_symbol_place(c as int - 'a' as int + 36);
    } else if c == '-' {
        lemma_symbol_place(62);
    } else if c == '_' {
        lemma_symbol_place(63);
    }
}

/// The place of `c` in PlantUML's alphabet, if it has one.
pub fn symbol_index(c: char) -> (index: Option<u8>)
    ensures
        (match index {
            Some(i) => is_symbol(c) && i == plantuml_alphabet().index_of(c),
            None => !is_symbol(c),
        }),
{
    let found: Option<u8> = if '0' <= c && c <= '9' {
        Some(c as u8 - 48u8)
    } else if 'A' <= c && c <= 'Z' {
        Some(c as u8 - 65u8 + 10u8)
    } else if 'a' <= c && c <= 'z' {
        Some(c as u8 - 97u8 + 36u8)
    } else if c == '-' {
        Some(62u8)
    } else if c == '_' {
        Some(63u8)
    } else {
        None
    };
    proof {
        lemma_symbol_ranges(c);
        if let Some(i) = found {
            assert(plantuml_symbol(i as int) == c);
            lemma_symbol_place(i as int);
        }
    }
    found
}

/// The symbol at place `index` of the standard base64 alphabet.
fn standard_symbol_at(index: u8) -> (c: char)
    requires
        index < 64,
    ensures
        c == standard_alphabet()[index as int],
{
    proof {
        lemma_alphabets();
    }
    if index < 26 {
        (65u8 + index) as char
    } else if index < 52 {
        (97u8 + (index - 26)) as char
    } else if index < 62 {
        (48u8 + (index - 52)) as char
    } else if index == 62 {
        '+'
    } else {
        '/'
    }
}

/// The standard counterpart of `c`, if `c` is a symbol of PlantUML's
/// alphabet.
pub fn to_standard_symbol(c: char) -> (standard: Option<char>)
    ensures
        standard == (if is_symbol(c) {
            Some(to_standard(c))
        } else {
            None
        }),
{
    match symbol_index(c) {
        Some(index) => {
            proof {
                lemma_alphabets();
            }
            Some(standard_symbol_at(index))
        },
        None => None,
    }
}

/// Whether `c` is one of the 64 symbols of the standard base64 alphabet.
pub open spec fn is_standard_symbol(c: char) -> bool {
    standard_alphabet().contains(c)
}

/// A well-formed token keeps its length in the standard alphabet, and
/// every character of its text there is a symbol of that alphabet.
pub proof fn lemma_standard_text(token: Seq<char>)
    requires
        well_formed(token),
    ensures
        remapped(token) == Ok::<Seq<char>, Fault>(standard_text(token)),
        standard_text(token).len() == token.len(),
        forall|i: int|
            0 <= i < token.len() ==> is_standard_symbol(#[trigger] standard_text(token)[i]),
{
    lemma_alphabets();
    assert forall|i: int| 0 <= i < token.len() implies is_standard_symbol(
        #[trigger] standard_text(token)[i],
    ) by {
        let place = plantuml_alphabet().index_of(token[i]);
        assert(is_symbol(token[i]));
        assert(0 <= place < 64);
        assert(standard_alphabet()[place] == to_standard(token[i]));
    }
}

/// Moves an encoded diagram to the standard base64 alphabet. The first
/// character that is no symbol of PlantUML's alphabet stops the work and is
/// reported; nothing is skipped.
pub fn to_standard_base64(encoded: &str) -> (r: Result<String, DiagramError>)
    ensures
        text_result(r) == remapped(encoded@),
        r matches Ok(text) ==> text@.len() == encoded@.len(),
{
    let mut text = String::new();
    for c in it: encoded.chars()
        invariant
            it.seq() == encoded@,
            well_formed(encoded@.take(it.index() as int)),
            text@ == standard_text(encoded@.take(it.index() as int)),
    {
        let ghost n = it.index() as int;
        match to_standard_symbol(c) {
            Some(standard) => {
                push_char(&mut text, standard);
                proof {
                    assert(encoded@.take(n + 1) =~= encoded@.take(n).push(c));
                    assert(text@ =~= standard_text(encoded@.take(n + 1)));
                }
            },
            None => {
                proof {
                    lemma_first_foreign(encoded@, n);
                }
                return Err(DiagramError::InvalidEncoding(c));
            },
        }
    }
    proof {
        assert(encoded@.take(encoded@.len() as int) =~= encoded@);
    }
    Ok(text)
}

/// A token has at most one first foreign character.
pub proof fn lemma_first_foreign(token: Seq<char>, i: int)
    requires
        is_first_foreign(token, i),
    ensures
        !well_formed(token),
        first_foreign(token) == token[i],
        remapped(token) == Err::<Seq<char>, Fault>(Fault::InvalidEncoding(token[i])),
{
    let j = choose|j: int| is_first_foreign(token, j);
    if j < i {
        assert(token.take(i)[j] == token[j]);
    } else if i < j {
        assert(token.take(j)[i] == token[i]);
    }
}

/// What the standard base64 decoder of the `base64` crate makes of `text`:
/// the bytes, or its complaint in words.
pub uninterp spec fn base64_standard(text: Seq<char>) -> Result<Seq<u8>, Seq<char>>;

/// `Engine::decode` of the `base64` crate, on its `STANDARD` engine: the
/// standard alphabet, with padding required. Nothing is claimed of the
/// answer but that it depends on `text` alone. An error is handed on as the
/// text that its `Display` writes.
#[verifier::external_body]
fn base64_decode(text: &str) -> (r: Result<Vec<u8>, String>)
    ensures
        (match r {
            Ok(bytes) => base64_standard(text@) == Ok::<Seq<u8>, Seq<char>>(bytes@),
            Err(cause) => base64_standard(text@) == Err::<Seq<u8>, Seq<char>>(cause@),
        }),
{
    match base64::Engine::decode(&base64::engine::general_purpose::STANDARD, text) {
        Ok(bytes) => Ok(bytes),
        Err(e) => Err(format!("{}", e)),
    }
}

/// What the zlib decoder of `flate2` reads from `bytes` as UTF-8 text: the
/// text, or its complaint in words.
pub uninterp spec fn zlib_text(bytes: Seq<u8>) -> Result<Seq<char>, Seq<char>>;

/// `read_to_string` on a `flate2::read::ZlibDecoder` over `bytes`: the first
/// zlib stream in `bytes`, decompressed and read as UTF-8. Nothing is claimed
/// of the answer but that it depends on `bytes` alone. An error is handed on
/// as the text that its `Display` writes.
#[verifier::external_body]
fn zlib_read_to_string(bytes: &[u8]) -> (r: Result<String, String>)
    ensures
        (match r {
            Ok(text) => zlib_text(bytes@) == Ok::<Seq<char>, Seq<char>>(text@),
            Err(cause) => zlib_text(bytes@) == Err::<Seq<char>, Seq<char>>(cause@),
        }),
{
    let mut decoder = flate2::read::ZlibDecoder::new(bytes);
    let mut text = String::new();
    match std::io::Read::read_to_string(&mut decoder, &mut text) {
        Ok(_) => Ok(text),
        Err(e) => Err(format!("{}", e)),
    }
}

/// The compressed payload, given what the base64 decoder answered.
pub open spec fn payload_of(answer: Result<Seq<u8>, Seq<char>>) -> Result<Seq<u8>, Fault> {
    match answer {
        Ok(bytes) => Ok(bytes),
        Err(cause) => Err(Fault::Base64DecodeFailed(cause)),
    }
}

/// The diagram's source, given what the zlib decoder answered.
pub open spec fn source_of(answer: Result<Seq<char>, Seq<char>>) -> Result<Seq<char>, Fault> {
    match answer {
        Ok(text) => Ok(text),
        Err(cause) => Err(Fault::DecompressionFailed(cause)),
    }
}

/// What decoding `token` gives: the token is moved to the standard
/// alphabet, the text is read as base64, and the bytes are decompressed to
/// the diagram's source; the first step that fails gives the failure.
pub open spec fn decoded(token: Seq<char>) -> Result<Seq<char>, Fault> {
    match remapped(token) {
        Err(fault) => Err(fault),
        Ok(text) => match payload_of(base64_standard(text)) {
            Err(fault) => Err(fault),
            Ok(bytes) => source_of(zlib_text(bytes)),
        },
    }
}

/// Takes the answer of the base64 decoder: its bytes are the compressed
/// payload, its complaint becomes `Base64DecodeFailed`.
pub fn compressed_payload(answer: Result<Vec<u8>, String>) -> (r: Result<Vec<u8>, DiagramError>)
    ensures
        bytes_result(r) == payload_of(
            match answer {
                Ok(bytes) => Ok(bytes@),
                Err(cause) => Err(cause@),
            },
        ),
{
    match answer {
        Ok(bytes) => Ok(bytes),
        Err(cause) => Err(DiagramError::Base64DecodeFailed(cause)),
    }
}

/// Takes the answer of the zlib decoder: its text is the diagram's source,
/// its complaint becomes `DecompressionFailed`.
pub fn source_text(answer: Result<String, String>) -> (r: Result<String, DiagramError>)
    ensures
        text_result(r) == source_of(
            match answer {
                Ok(text) => Ok(text@),
                Err(cause) => Err(cause@),
            },
        ),
{
    match answer {
        Ok(text) => Ok(text),
        Err(cause) => Err(DiagramError::DecompressionFailed(cause)),
    }
}

/// Decodes PlantUML's URL encoding to the diagram's source.
///
/// The token is moved to the standard base64 alphabet, decoded as base64 and
/// decompressed as a zlib stream of UTF-8 text. Nothing is kept between
/// calls: the answer depends on the token alone.
pub fn decode_plantuml(encoded: &str) -> (r: Result<String, DiagramError>)
    ensures
        text_result(r) == decoded(encoded@),
{
    let text = match to_standard_base64(encoded) {
        Ok(text) => text,
        Err(e) => {
            return Err(e);
        },
    };
    let compressed = match compressed_payload(base64_decode(text.as_str())) {
        Ok(bytes) => bytes,
        Err(e) => {
            return Err(e);
        },
    };
    source_text(zlib_read_to_string(compressed.as_slice()))
}

/// A token that holds a character outside PlantUML's alphabet is refused as
/// a whole, for the first such character, whatever else it holds.
pub proof fn lemma_foreign_character_rejected(token: Seq<char>, i: int)
    requires
        0 <= i < token.len(),
        !is_symbol(token[i]),
    ensures
        decoded(token) is Err,
        decoded(token) == Err::<Seq<char>, Fault>(Fault::InvalidEncoding(first_foreign(token))),
        !is_symbol(first_foreign(token)),
        exists|j: int| 0 <= j <= i && is_first_foreign(token, j) && token[j] == first_foreign(token),
    decreases i,
{
    if well_formed(token.take(i)) {
        lemma_first_foreign(token, i);
        assert(is_first_foreign(token, i));
    } else {
        let j = choose|j: int| 0 <= j < token.take(i).len() && !is_symbol(#[trigger] token.take(i)[j]);
        assert(token.take(i)[j] == token[j]);
        lemma_foreign_character_rejected(token, j);
    }
}

/// Decoding is a function of the token: equal tokens decode alike, to the
/// same source or to the same failure.
pub proof fn lemma_decoding_is_deterministic(first: Seq<char>, second: Seq<char>)
    requires
        first =~= second,
    ensures
        decoded(first) == decoded(second),
{
}

/// The symbol of PlantUML's alphabet that stands where `c` stands in the
/// standard alphabet.
pub open spec fn to_plantuml(c: char) -> char
    recommends
        is_standard_symbol(c),
{
    plantuml_alphabet()[standard_alphabet().index_of(c)]
}

/// Standard base64 text moved to PlantUML's alphabet, as an encoder does in
/// its last step.
pub open spec fn plantuml_text(text: Seq<char>) -> Seq<char> {
    Seq::new(text.len(), |i: int| to_plantuml(text[i]))
}

/// Moving a standard symbol to PlantUML's alphabet and back gives the
/// symbol again.
pub proof fn lemma_symbol_round_trip(c: char)
    requires
        is_standard_symbol(c),
    ensures
        is_symbol(to_plantuml(c)),
        to_standard(to_plantuml(c)) == c,
{
    lemma_alphabets();
    let i = standard_alphabet().index_of(c);
    assert(0 <= i < 64 && standard_alphabet()[i] == c);
    lemma_symbol_place(i);
}

/// Base64 text without padding that is moved to PlantUML's alphabet, as an
/// encoder does, is a well-formed token, and moving the token back gives
/// the text again.
pub proof fn lemma_alphabet_round_trip(text: Seq<char>)
    requires
        forall|i: int| 0 <= i < text.len() ==> is_standard_symbol(#[trigger] text[i]),
    ensures
        well_formed(plantuml_text(text)),
        remapped(plantuml_text(text)) == Ok::<Seq<char>, Fault>(text),
{
    let token = plantuml_text(text);
    assert forall|i: int| 0 <= i < token.len() implies is_symbol(#[trigger] token[i]) by {
        lemma_symbol_round_trip(text[i]);
    }
    assert(standard_text(token) =~= text) by {
        assert forall|i: int| 0 <= i < text.len() implies standard_text(token)[i] == text[i] by {
            lemma_symbol_round_trip(text[i]);
        }
    }
}

/// Let an encoder compress `source` to `compressed`, write that as the
/// base64 text `text` without padding, and move the text to PlantUML's
/// alphabet. If the two decoders read `text` and `compressed` back, decoding
/// the token gives `source` again.
pub proof fn lemma_round_trip(source: Seq<char>, compressed: Seq<u8>, text: Seq<char>)
    requires
        forall|i: int| 0 <= i < text.len() ==> is_standard_symbol(#[trigger] text[i]),
    ensures
        base64_standard(text) == Ok::<Seq<u8>, Seq<char>>(compressed) && zlib_text(compressed)
            == Ok::<Seq<char>, Seq<char>>(source) ==> decoded(plantuml_text(text)) == Ok::<
            Seq<char>,
            Fault,
        >(source),
{
    lemma_alphabet_round_trip(text);
}

} // verus!
