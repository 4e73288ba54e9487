//! Conversion from logical keyboard input to ASR-33 bytes.
//!
//! Non-ASCII input is refused with [`KeyboardEncodingError`]; no partial payload
//! is produced, and the caller shows the error without stopping.

use vstd::prelude::*;
use crate::domain::config::KeyboardParityMode;
use crate::domain::terminal::{encode_even_parity, even_parity_byte};
use crate::util::{empty_string, push_chars};

verus! {

#[derive(Clone, Debug, Eq, PartialEq)]
pub enum KeyboardInput {
    Text(String),
    Return,
    Backspace,
    Tab,
    Control(char),
}

#[derive(Clone, Copy, Debug, Eq, PartialEq, Structural)]
pub struct KeyboardOptions {
    pub uppercase_only: bool,
    pub parity: KeyboardParityMode,
}

/// A typed character that has no ASCII encoding.
#[derive(Clone, Copy, Debug, Eq, PartialEq, Structural)]
pub struct KeyboardEncodingError {
    pub character: char,
}

/// What `char::to_uppercase` yields for `c`.
pub uninterp spec fn char_uppercase(c: char) -> Seq<char>;

/// The text std's `{:?}` formatting gives for `c`, quotes included.
pub uninterp spec fn char_debug_text(c: char) -> Seq<char>;

/// Trusted: collects `char::to_uppercase(c)`, the full Unicode uppercase mapping
/// (one or more characters), as std documents it; the contract only names it.
#[verifier::external_body]
fn uppercase_mapping(c: char) -> (upper: Vec<char>)
    ensures
        upper@ == char_uppercase(c),
{
    c.to_uppercase().collect()
}

/// Trusted: renders `c` with std's `Debug` for `char`; the contract names that
/// rendering.
#[verifier::external_body]
fn char_debug_string(c: char) -> (text: String)
    ensures
        text@ == char_debug_text(c),
{
    format!("{:?}", c)
}

impl KeyboardEncodingError {
    pub open spec fn spec_character(self) -> char {
        self.character
    }

    /// The character that could not be encoded.
    pub fn character(&self) -> (c: char)
        ensures
            c == self.spec_character(),
    {
        self.character
    }

    /// The user-facing description.
    pub fn message(&self) -> (text: String)
        ensures
            text@ == seq!['k', 'e', 'y', 'b', 'o', 'a', 'r', 'd', ' ', 'c', 'h', 'a', 'r', 'a', 'c', 't', 'e', 'r', ' ']
                + char_debug_text(self.spec_character()) + seq![
                ' ',
                'i',
                's',
                ' ',
                'n',
                'o',
                't',
                ' ',
                'A',
                'S',
                'C',
                'I',
                'I',
            ],
    {
        let mut text = empty_string();
        push_chars(&mut text, "keyboard character ");
        let shown = char_debug_string(self.character);
        push_chars(&mut text, shown.as_str());
        push_chars(&mut text, " is not ASCII");
        proof {
            reveal_strlit("keyboard character ");
            reveal_strlit(" is not ASCII");
        }
        assert(text@ =~= seq!['k', 'e', 'y', 'b', 'o', 'a', 'r', 'd', ' ', 'c', 'h', 'a', 'r', 'a', 'c', 't', 'e', 'r', ' ']
            + char_debug_text(self.spec_character()) + seq![' ', 'i', 's', ' ', 'n', 'o', 't', ' ', 'A', 'S', 'C', 'I', 'I']);
        text
    }
}

/// Bytes for an ASCII payload under the keyboard parity mode. MARK and SPACE keep
/// only the first byte: those modes rebuild one value for the whole payload.
pub open spec fn parity_bytes(bytes: Seq<u8>, parity: KeyboardParityMode) -> Seq<u8> {
    match parity {
        KeyboardParityMode::Even => bytes.map_values(|b: u8| even_parity_byte(b)),
        KeyboardParityMode::Mark => if bytes.len() == 0 {
            Seq::empty()
        } else {
            seq![bytes[0] | 0x80]
        },
        KeyboardParityMode::Space => if bytes.len() == 0 {
            Seq::empty()
        } else {
            seq![bytes[0] & 0x7f]
        },
    }
}

/// The characters a typed character stands for before encoding.
pub open spec fn normalized(c: char, options: KeyboardOptions) -> Seq<char> {
    if options.uppercase_only {
        char_uppercase(c)
    } else {
        seq![c]
    }
}

pub open spec fn all_ascii(chars: Seq<char>) -> bool {
    forall|i: int| 0 <= i < chars.len() ==> (#[trigger] chars[i]) as u32 <= 0x7f
}

pub open spec fn ascii_bytes(chars: Seq<char>) -> Seq<u8> {
    chars.map_values(|c: char| c as u8)
}

pub open spec fn character_encoding(c: char, options: KeyboardOptions) -> Result<
    Seq<u8>,
    KeyboardEncodingError,
> {
    let n = normalized(c, options);
    if all_ascii(n) {
        Ok(parity_bytes(ascii_bytes(n), options.parity))
    } else {
        Err(KeyboardEncodingError { character: c })
    }
}

/// Characters encoded one after another; the first refused character decides the error.
pub open spec fn text_encoding(chars: Seq<char>, options: KeyboardOptions) -> Result<
    Seq<u8>,
    KeyboardEncodingError,
>
    decreases chars.len(),
{
    if chars.len() == 0 {
        Ok(Seq::empty())
    } else {
        match text_encoding(chars.drop_last(), options) {
            Err(e) => Err(e),
            Ok(prefix) => match character_encoding(chars.last(), options) {
                Err(e) => Err(e),
                Ok(bytes) => Ok(prefix + bytes),
            },
        }
    }
}

/// `char::to_ascii_uppercase`, as a code point.
pub open spec fn ascii_upper_code(c: char) -> u32 {
    if 'a' <= c <= 'z' {
        (c as u32 - 32) as u32
    } else {
        c as u32
    }
}

pub open spec fn input_encoding(input: KeyboardInput, options: KeyboardOptions) -> Result<
    Seq<u8>,
    KeyboardEncodingError,
> {
    match input {
        KeyboardInput::Text(text) => text_encoding(text@, options),
        KeyboardInput::Return => character_encoding('\r', options),
        KeyboardInput::Backspace => character_encoding('\x08', options),
        KeyboardInput::Tab => character_encoding('\t', options),
        KeyboardInput::Control(c) => {
            let upper = ascii_upper_code(c);
            if 0x40 <= upper <= 0x5f {
                Ok(parity_bytes(seq![(upper as u8) & 0x1f], options.parity))
            } else {
                Ok(Seq::empty())
            }
        },
    }
}

/// Ctrl with a character of the control block `@`, `A`..`Z`, `[`, `\\`, `]`, `^`, `_`
/// (letters in either case) sends the one control code 0x00..0x1f at the same place,
/// under the parity mode; Ctrl with any other character sends nothing.
pub proof fn lemma_control_codes(c: char, options: KeyboardOptions)
    ensures
        0x40 <= c as u32 <= 0x5f ==> input_encoding(KeyboardInput::Control(c), options) == Ok::<
            Seq<u8>,
            KeyboardEncodingError,
        >(parity_bytes(seq![(c as u32 - 0x40) as u8], options.parity)),
        0x61 <= c as u32 <= 0x7a ==> input_encoding(KeyboardInput::Control(c), options) == Ok::<
            Seq<u8>,
            KeyboardEncodingError,
        >(parity_bytes(seq![(c as u32 - 0x60) as u8], options.parity)),
        0x40 <= c as u32 <= 0x5f && options.parity == KeyboardParityMode::Space ==> input_encoding(
            KeyboardInput::Control(c),
            options,
        ) == Ok::<Seq<u8>, KeyboardEncodingError>(seq![(c as u32 - 0x40) as u8]),
        (c as u32) < 0x40 || (0x60 <= c as u32 && !(0x61 <= c as u32 <= 0x7a)) ==> input_encoding(
            KeyboardInput::Control(c),
            options,
        ) == Ok::<Seq<u8>, KeyboardEncodingError>(Seq::empty()),
{
    let u = ascii_upper_code(c);
    if 0x40 <= c as u32 <= 0x5f {
        assert(u == c as u32);
        let v = u as u8;
        assert(v & 0x1f == v - 0x40) by (bit_vector)
            requires
                0x40 <= v <= 0x5f,
        ;
        let w = (v & 0x1f) as u8;
        assert(w & 0x7f == w) by (bit_vector)
            requires
                w < 0x20,
        ;
    }
    if 0x61 <= c as u32 <= 0x7a {
        assert(u == c as u32 - 32);
        let v = u as u8;
        assert(v & 0x1f == v - 0x40) by (bit_vector)
            requires
                0x40 <= v <= 0x5f,
        ;
    }
}

fn encode_bytes(bytes: &[u8], parity: KeyboardParityMode) -> (encoded: Vec<u8>)
    ensures
        encoded@ == parity_bytes(bytes@, parity),
{
    match parity {
        KeyboardParityMode::Even => encode_even_parity(bytes),
        KeyboardParityMode::Mark => {
            let mut out: Vec<u8> = Vec::new();
            if bytes.len() > 0 {
                out.push(bytes[0] | 0x80);
            }
            assert(out@ =~= parity_bytes(bytes@, parity));
            out
        },
        KeyboardParityMode::Space => {
            let mut out: Vec<u8> = Vec::new();
            if bytes.len() > 0 {
                out.push(bytes[0] & 0x7f);
            }
            assert(out@ =~= parity_bytes(bytes@, parity));
            out
        },
    }
}

fn encode_character(character: char, options: KeyboardOptions) -> (result: Result<
    Vec<u8>,
    KeyboardEncodingError,
>)
    ensures
        match result {
            Ok(bytes) => character_encoding(character, options) == Ok::<
                Seq<u8>,
                KeyboardEncodingError,
            >(bytes@),
            Err(e) => character_encoding(character, options) == Err::<
                Seq<u8>,
                KeyboardEncodingError,
            >(e),
        },
{
    let chars: Vec<char> = if options.uppercase_only {
        uppercase_mapping(character)
    } else {
        let mut single: Vec<char> = Vec::new();
        single.push(character);
        single
    };
    assert(chars@ =~= normalized(character, options));
    encode_normalized(character, &chars, options.parity)
}

/// Encode the characters `character` stands for once normalized (after the uppercase
/// mapping, where that applies): refused unless every one is ASCII, otherwise their
/// bytes under the parity mode.
pub fn encode_normalized(character: char, chars: &Vec<char>, parity: KeyboardParityMode) -> (result:
    Result<Vec<u8>, KeyboardEncodingError>)
    ensures
        match result {
            Ok(bytes) => all_ascii(chars@) && bytes@ == parity_bytes(ascii_bytes(chars@), parity),
            Err(e) => !all_ascii(chars@) && e == (KeyboardEncodingError { character }),
        },
{
    let mut bytes: Vec<u8> = Vec::new();
    let mut i: usize = 0;
    while i < chars.len()
        invariant
            i <= chars@.len(),
            all_ascii(chars@.take(i as int)),
            bytes@ == ascii_bytes(chars@.take(i as int)),
        decreases chars@.len() - i,
    {
        let c = chars[i];
        if (c as u32) > 0x7f {
            assert(!all_ascii(chars@));
            return Err(KeyboardEncodingError { character });
        }
        bytes.push(c as u8);
        assert(chars@.take(i + 1) =~= chars@.take(i as int).push(c));
        assert(bytes@ =~= ascii_bytes(chars@.take(i + 1)));
        i += 1;
    }
    assert(chars@.take(chars@.len() as int) =~= chars@);
    Ok(encode_bytes(bytes.as_slice(), parity))
}

fn encode_text(text: &str, options: KeyboardOptions) -> (result: Result<Vec<u8>, KeyboardEncodingError>)
    ensures
        match result {
            Ok(bytes) => text_encoding(text@, options) == Ok::<Seq<u8>, KeyboardEncodingError>(
                bytes@,
            ),
            Err(e) => text_encoding(text@, options) == Err::<Seq<u8>, KeyboardEncodingError>(e),
        },
{
    let n = text.unicode_len();
    let mut bytes: Vec<u8> = Vec::new();
    let mut i: usize = 0;
    while i < n
        invariant
            n == text@.len(),
            i <= n,
            text_encoding(text@.take(i as int), options) == Ok::<Seq<u8>, KeyboardEncodingError>(
                bytes@,
            ),
        decreases n - i,
    {
        let c = text.get_char(i);
        proof {
            assert(text@.take(i + 1).drop_last() =~= text@.take(i as int));
            assert(text@.take(i + 1).last() == c);
        }
        let encoded = encode_character(c, options);
        match encoded {
            Ok(more) => {
                let mut more = more;
                bytes.append(&mut more);
            },
            Err(e) => {
                proof {
                    lemma_text_encoding_error_persists(text@, (i + 1) as int, options);
                    assert(text@.take(n as int) =~= text@);
                }
                return Err(e);
            },
        }
        i += 1;
    }
    assert(text@.take(n as int) =~= text@);
    Ok(bytes)
}

/// Once a prefix is refused, every longer prefix is refused with the same error.
proof fn lemma_text_encoding_error_persists(chars: Seq<char>, k: int, options: KeyboardOptions)
    requires
        0 <= k <= chars.len(),
        text_encoding(chars.take(k), options) is Err,
    ensures
        text_encoding(chars, options) == text_encoding(chars.take(k), options),
    decreases chars.len() - k,
{
    if k < chars.len() {
        assert(chars.take(k + 1).drop_last() =~= chars.take(k));
        lemma_text_encoding_error_persists(chars, k + 1, options);
    } else {
        assert(chars.take(k) =~= chars);
    }
}

/// Encode one keyboard input into the bytes the keyboard sends.
pub fn encode_input(input: &KeyboardInput, options: KeyboardOptions) -> (result: Result<
    Vec<u8>,
    KeyboardEncodingError,
>)
    ensures
        match result {
            Ok(bytes) => input_encoding(*input, options) == Ok::<Seq<u8>, KeyboardEncodingError>(
                bytes@,
            ),
            Err(e) => input_encoding(*input, options) == Err::<Seq<u8>, KeyboardEncodingError>(e),
        },
{
    match input {
        KeyboardInput::Text(text) => encode_text(text.as_str(), options),
        KeyboardInput::Return => encode_character('\r', options),
        KeyboardInput::Backspace => encode_character('\x08', options),
        KeyboardInput::Tab => encode_character('\t', options),
        KeyboardInput::Control(character) => {
            let c = *character;
            let upper: u32 = if 'a' <= c && c <= 'z' {
                (c as u32) - 32
            } else {
                c as u32
            };
            if 0x40 <= upper && upper <= 0x5f {
                let mut code: Vec<u8> = Vec::new();
                code.push((upper as u8) & 0x1f);
                Ok(encode_bytes(code.as_slice(), options.parity))
            } else {
                Ok(Vec::new())
            }
        },
    }
}

} // verus!
