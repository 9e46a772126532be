//! The messages to a client as bytes: one JSON object per message, in its
//! compact form, with the members in the order of the schema. The status
//! message can be read back; the reader takes the written form and nothing
//! else.

use vstd::prelude::*;
use vstd::utf8::{encode_utf8, valid_utf8, valid_utf8_concat};
use crate::bytes::{lemma_ascii_bytes, lemma_first_byte, lemma_strip_differs};
use crate::bytes::{lemma_strip_joined, lemma_strip_joins_back, lemma_utf8_length};
use crate::bytes::{put_text, strip, text_at};
use crate::decimal::{decimal, parse_decimal, put_decimal, read_decimal};
use crate::decimal::{lemma_decimal_is_text, lemma_decimal_length};
use crate::decimal::{lemma_parse_decimal_canonical, lemma_parse_decimal_written};
use crate::protocol::{optional_message, ColorName, OperationMode, RgbColor};
use crate::protocol::{ServerMessageView, WsServerMessage};

verus! {

/// The word that names a mode.
pub open spec fn mode_word(mode: OperationMode) -> Seq<char> {
    match mode {
        OperationMode::Auto => "auto"@,
        OperationMode::Manual => "manual"@,
    }
}

spec fn parse_color(input: Seq<u8>) -> Option<(ColorName, Seq<u8>)> {
    if strip(input, encode_utf8("Rot"@)) is Some {
        Some((ColorName::Red, strip(input, encode_utf8("Rot"@))->0))
    } else if strip(input, encode_utf8("Grün"@)) is Some {
        Some((ColorName::Green, strip(input, encode_utf8("Grün"@))->0))
    } else if strip(input, encode_utf8("Blau"@)) is Some {
        Some((ColorName::Blue, strip(input, encode_utf8("Blau"@))->0))
    } else if strip(input, encode_utf8("Unbekannt"@)) is Some {
        Some((ColorName::Unknown, strip(input, encode_utf8("Unbekannt"@))->0))
    } else {
        None
    }
}

spec fn parse_mode(input: Seq<u8>) -> Option<(OperationMode, Seq<u8>)> {
    if strip(input, encode_utf8("auto"@)) is Some {
        Some((OperationMode::Auto, strip(input, encode_utf8("auto"@))->0))
    } else if strip(input, encode_utf8("manual"@)) is Some {
        Some((OperationMode::Manual, strip(input, encode_utf8("manual"@))->0))
    } else {
        None
    }
}

/// What the words of the format are as bytes, as far as telling them apart
/// takes.
proof fn lemma_marks()
    ensures
        encode_utf8("auto"@).len() == 4,
        encode_utf8("manual"@).len() == 6,
        encode_utf8("auto"@)[0] == 97,
        encode_utf8("manual"@)[0] == 109,
        encode_utf8("Rot"@).len() > 0,
        encode_utf8("Grün"@).len() > 0,
        encode_utf8("Blau"@).len() > 0,
        encode_utf8("Unbekannt"@).len() == 9,
        encode_utf8("Rot"@)[0] == 82,
        encode_utf8("Grün"@)[0] == 71,
        encode_utf8("Blau"@)[0] == 66,
        encode_utf8("Unbekannt"@)[0] == 85,
{
    reveal_strlit("auto");
    reveal_strlit("manual");
    reveal_strlit("Rot");
    reveal_strlit("Grün");
    reveal_strlit("Blau");
    reveal_strlit("Unbekannt");
    lemma_ascii_bytes("auto"@);
    lemma_ascii_bytes("manual"@);
    lemma_first_byte("Rot"@);
    lemma_first_byte("Grün"@);
    lemma_first_byte("Blau"@);
    lemma_ascii_bytes("Unbekannt"@);
}

fn read_color(input: &[u8], pos: usize) -> (found: Option<(ColorName, usize)>)
    requires
        pos <= input@.len(),
    ensures
        match found {
            Some((color, end)) => end <= input@.len() && parse_color(input@.skip(pos as int))
                == Some((color, input@.skip(end as int))),
            None => parse_color(input@.skip(pos as int)) is None,
        },
{
    if let Some(end) = text_at(input, pos, "Rot") {
        Some((ColorName::Red, end))
    } else if let Some(end) = text_at(input, pos, "Grün") {
        Some((ColorName::Green, end))
    } else if let Some(end) = text_at(input, pos, "Blau") {
        Some((ColorName::Blue, end))
    } else if let Some(end) = text_at(input, pos, "Unbekannt") {
        Some((ColorName::Unknown, end))
    } else {
        None
    }
}

fn read_mode(input: &[u8], pos: usize) -> (found: Option<(OperationMode, usize)>)
    requires
        pos <= input@.len(),
    ensures
        match found {
            Some((mode, end)) => end <= input@.len() && parse_mode(input@.skip(pos as int))
                == Some((mode, input@.skip(end as int))),
            None => parse_mode(input@.skip(pos as int)) is None,
        },
{
    if let Some(end) = text_at(input, pos, "auto") {
        Some((OperationMode::Auto, end))
    } else if let Some(end) = text_at(input, pos, "manual") {
        Some((OperationMode::Manual, end))
    } else {
        None
    }
}

/// Joining is associative: three pieces joined from the left are the same
/// as joined from the right.
proof fn lemma_join3(a: Seq<u8>, b: Seq<u8>, c: Seq<u8>)
    ensures
        (a + b) + c == a + (b + c),
{
    assert((a + b) + c =~= a + (b + c));
}

/// The end of a status message from its mode on: `auto"}`.
pub open spec fn status_from_mode(mode: OperationMode) -> Seq<u8> {
    encode_utf8(mode_word(mode)) + encode_utf8("\"}"@)
}

/// A status message from its time on: `123,"mode":"auto"}`.
pub open spec fn status_from_time(timestamp_ms: u64, mode: OperationMode) -> Seq<u8> {
    decimal(timestamp_ms as nat) + (encode_utf8(",\"mode\":\""@) + status_from_mode(mode))
}

/// A status message from its blue channel on.
pub open spec fn status_from_blue(b: u8, timestamp_ms: u64, mode: OperationMode) -> Seq<u8> {
    decimal(b as nat) + (encode_utf8("},\"timestamp_ms\":"@) + status_from_time(timestamp_ms, mode))
}

/// A status message from its green channel on.
pub open spec fn status_from_green(g: u8, b: u8, timestamp_ms: u64, mode: OperationMode) -> Seq<
    u8,
> {
    decimal(g as nat) + (encode_utf8(",\"b\":"@) + status_from_blue(b, timestamp_ms, mode))
}

/// A status message from its red channel on.
pub open spec fn status_from_red(rgb: RgbColor, timestamp_ms: u64, mode: OperationMode) -> Seq<u8> {
    decimal(rgb.r as nat) + (encode_utf8(",\"g\":"@) + status_from_green(
        rgb.g,
        rgb.b,
        timestamp_ms,
        mode,
    ))
}

/// A status message from the name of its colour on.
pub open spec fn status_from_color(
    color: ColorName,
    rgb: RgbColor,
    timestamp_ms: u64,
    mode: OperationMode,
) -> Seq<u8> {
    encode_utf8(color.label()) + (encode_utf8("\",\"rgb\":{\"r\":"@) + status_from_red(
        rgb,
        timestamp_ms,
        mode,
    ))
}

/// A status message as bytes:
/// `{"type":"status","color":"Rot","rgb":{"r":10,"g":0,"b":0},"timestamp_ms":5,"mode":"auto"}`.
pub open spec fn status_json(
    color: ColorName,
    rgb: RgbColor,
    timestamp_ms: u64,
    mode: OperationMode,
) -> Seq<u8> {
    encode_utf8("{\"type\":\"status\",\"color\":\""@) + status_from_color(
        color,
        rgb,
        timestamp_ms,
        mode,
    )
}

/// The upper-case hexadecimal digit for a value below sixteen.
pub open spec fn hex_digit(value: u8) -> u8 {
    if value <= 9 {
        (48 + value) as u8
    } else {
        (55 + value) as u8
    }
}

/// One byte of a text as it stands inside a JSON string: the quote, the
/// backslash and the control characters are escaped, every other byte
/// stands for itself.
pub open spec fn escaped_byte(byte: u8) -> Seq<u8> {
    if byte == 34 {
        seq![92u8, 34u8]
    } else if byte == 92 {
        seq![92u8, 92u8]
    } else if byte == 8 {
        seq![92u8, 98u8]
    } else if byte == 9 {
        seq![92u8, 116u8]
    } else if byte == 10 {
        seq![92u8, 110u8]
    } else if byte == 12 {
        seq![92u8, 102u8]
    } else if byte == 13 {
        seq![92u8, 114u8]
    } else if byte < 32 {
        seq![92u8, 117u8, 48u8, 48u8, hex_digit(byte / 16), hex_digit(byte % 16)]
    } else {
        seq![byte]
    }
}

/// A text as it stands inside a JSON string.
pub open spec fn escaped(text: Seq<u8>) -> Seq<u8>
    decreases text.len(),
{
    if text.len() == 0 {
        Seq::empty()
    } else {
        escaped(text.drop_last()) + escaped_byte(text.last())
    }
}

/// An error message as bytes: `{"type":"error","message":"JSON parse error"}`.
pub open spec fn error_json(message: Seq<char>) -> Seq<u8> {
    encode_utf8("{\"type\":\"error\",\"message\":\""@) + (escaped(encode_utf8(message))
        + encode_utf8("\"}"@))
}

/// A message to a client as bytes.
pub open spec fn server_message_json(msg: ServerMessageView) -> Seq<u8> {
    match msg {
        ServerMessageView::Status { color, rgb, timestamp_ms, mode } => status_json(
            color,
            rgb,
            timestamp_ms,
            mode,
        ),
        ServerMessageView::Error { message } => error_json(message),
    }
}

/// The status message that the bytes are the written form of, if they are
/// that of any.
pub open spec fn decoded_status(input: Seq<u8>) -> Option<ServerMessageView> {
    if exists|color: ColorName, rgb: RgbColor, timestamp_ms: u64, mode: OperationMode|
        status_json(color, rgb, timestamp_ms, mode) == input {
        let (color, rgb, timestamp_ms, mode) = choose|
            color: ColorName,
            rgb: RgbColor,
            timestamp_ms: u64,
            mode: OperationMode,
        | status_json(color, rgb, timestamp_ms, mode) == input;
        Some(ServerMessageView::Status { color, rgb, timestamp_ms, mode })
    } else {
        None
    }
}

spec fn parse_from_mode(input: Seq<u8>) -> Option<OperationMode> {
    match parse_mode(input) {
        Some((mode, rest)) => if rest == encode_utf8("\"}"@) {
            Some(mode)
        } else {
            None
        },
        None => None,
    }
}

spec fn parse_from_time(input: Seq<u8>) -> Option<(u64, OperationMode)> {
    match parse_decimal(input, u64::MAX as nat) {
        Some((value, keyed)) => match strip(keyed, encode_utf8(",\"mode\":\""@)) {
            Some(rest) => match parse_from_mode(rest) {
                Some(mode) => Some((value as u64, mode)),
                None => None,
            },
            None => None,
        },
        None => None,
    }
}

spec fn parse_from_blue(input: Seq<u8>) -> Option<(u8, u64, OperationMode)> {
    match parse_decimal(input, u8::MAX as nat) {
        Some((value, keyed)) => match strip(keyed, encode_utf8("},\"timestamp_ms\":"@)) {
            Some(rest) => match parse_from_time(rest) {
                Some((timestamp_ms, mode)) => Some((value as u8, timestamp_ms, mode)),
                None => None,
            },
            None => None,
        },
        None => None,
    }
}

spec fn parse_from_green(input: Seq<u8>) -> Option<(u8, u8, u64, OperationMode)> {
    match parse_decimal(input, u8::MAX as nat) {
        Some((value, keyed)) => match strip(keyed, encode_utf8(",\"b\":"@)) {
            Some(rest) => match parse_from_blue(rest) {
                Some((b, timestamp_ms, mode)) => Some((value as u8, b, timestamp_ms, mode)),
                None => None,
            },
            None => None,
        },
        None => None,
    }
}

spec fn parse_from_red(input: Seq<u8>) -> Option<(RgbColor, u64, OperationMode)> {
    match parse_decimal(input, u8::MAX as nat) {
        Some((value, keyed)) => match strip(keyed, encode_utf8(",\"g\":"@)) {
            Some(rest) => match parse_from_green(rest) {
                Some((g, b, timestamp_ms, mode)) => Some(
                    (RgbColor { r: value as u8, g, b }, timestamp_ms, mode),
                ),
                None => None,
            },
            None => None,
        },
        None => None,
    }
}

spec fn parse_from_color(input: Seq<u8>) -> Option<(ColorName, RgbColor, u64, OperationMode)> {
    match parse_color(input) {
        Some((color, keyed)) => match strip(keyed, encode_utf8("\",\"rgb\":{\"r\":"@)) {
            Some(rest) => match parse_from_red(rest) {
                Some((rgb, timestamp_ms, mode)) => Some((color, rgb, timestamp_ms, mode)),
                None => None,
            },
            None => None,
        },
        None => None,
    }
}

spec fn parse_status(input: Seq<u8>) -> Option<(ColorName, RgbColor, u64, OperationMode)> {
    match strip(input, encode_utf8("{\"type\":\"status\",\"color\":\""@)) {
        Some(rest) => parse_from_color(rest),
        None => None,
    }
}

/// The bytes with which the keys of a status message begin: none is a
/// digit, so that a number ends where its key begins.
proof fn lemma_status_marks()
    ensures
        encode_utf8("\"}"@).len() == 2,
        encode_utf8("\"}"@)[0] == 34,
        encode_utf8(",\"mode\":\""@).len() == 9,
        encode_utf8(",\"mode\":\""@)[0] == 44,
        encode_utf8("},\"timestamp_ms\":"@).len() == 17,
        encode_utf8("},\"timestamp_ms\":"@)[0] == 125,
        encode_utf8(",\"b\":"@).len() == 5,
        encode_utf8(",\"b\":"@)[0] == 44,
        encode_utf8(",\"g\":"@).len() == 5,
        encode_utf8(",\"g\":"@)[0] == 44,
        encode_utf8("\",\"rgb\":{\"r\":"@).len() == 13,
        encode_utf8("\",\"rgb\":{\"r\":"@)[0] == 34,
{
    reveal_strlit("\"}");
    reveal_strlit(",\"mode\":\"");
    reveal_strlit("},\"timestamp_ms\":");
    reveal_strlit(",\"b\":");
    reveal_strlit(",\"g\":");
    reveal_strlit("\",\"rgb\":{\"r\":");
    lemma_ascii_bytes("\"}"@);
    lemma_ascii_bytes(",\"mode\":\""@);
    lemma_ascii_bytes("},\"timestamp_ms\":"@);
    lemma_ascii_bytes(",\"b\":"@);
    lemma_ascii_bytes(",\"g\":"@);
    lemma_ascii_bytes("\",\"rgb\":{\"r\":"@);
}

proof fn lemma_from_mode_written(mode: OperationMode)
    ensures
        parse_from_mode(status_from_mode(mode)) == Some(mode),
{
    lemma_marks();
    let end = encode_utf8("\"}"@);
    let text = status_from_mode(mode);
    lemma_strip_joined(encode_utf8(mode_word(mode)), end);
    if mode == OperationMode::Manual {
        lemma_strip_differs(text, encode_utf8("manual"@), encode_utf8("auto"@), 0);
    }
}

proof fn lemma_from_time_written(timestamp_ms: u64, mode: OperationMode)
    ensures
        parse_from_time(status_from_time(timestamp_ms, mode)) == Some((timestamp_ms, mode)),
{
    lemma_status_marks();
    let key = encode_utf8(",\"mode\":\""@);
    let keyed = key + status_from_mode(mode);
    assert(keyed[0] == key[0]);
    lemma_parse_decimal_written(timestamp_ms as nat, keyed, u64::MAX as nat);
    lemma_strip_joined(key, status_from_mode(mode));
    lemma_from_mode_written(mode);
}

proof fn lemma_from_blue_written(b: u8, timestamp_ms: u64, mode: OperationMode)
    ensures
        parse_from_blue(status_from_blue(b, timestamp_ms, mode)) == Some((b, timestamp_ms, mode)),
{
    lemma_status_marks();
    let key = encode_utf8("},\"timestamp_ms\":"@);
    let keyed = key + status_from_time(timestamp_ms, mode);
    assert(keyed[0] == key[0]);
    lemma_parse_decimal_written(b as nat, keyed, u8::MAX as nat);
    lemma_strip_joined(key, status_from_time(timestamp_ms, mode));
    lemma_from_time_written(timestamp_ms, mode);
}

proof fn lemma_from_green_written(g: u8, b: u8, timestamp_ms: u64, mode: OperationMode)
    ensures
        parse_from_green(status_from_green(g, b, timestamp_ms, mode)) == Some(
            (g, b, timestamp_ms, mode),
        ),
{
    lemma_status_marks();
    let key = encode_utf8(",\"b\":"@);
    let keyed = key + status_from_blue(b, timestamp_ms, mode);
    assert(keyed[0] == key[0]);
    lemma_parse_decimal_written(g as nat, keyed, u8::MAX as nat);
    lemma_strip_joined(key, status_from_blue(b, timestamp_ms, mode));
    lemma_from_blue_written(b, timestamp_ms, mode);
}

proof fn lemma_from_red_written(rgb: RgbColor, timestamp_ms: u64, mode: OperationMode)
    ensures
        parse_from_red(status_from_red(rgb, timestamp_ms, mode)) == Some((rgb, timestamp_ms, mode)),
{
    lemma_status_marks();
    let key = encode_utf8(",\"g\":"@);
    let keyed = key + status_from_green(rgb.g, rgb.b, timestamp_ms, mode);
    assert(keyed[0] == key[0]);
    lemma_parse_decimal_written(rgb.r as nat, keyed, u8::MAX as nat);
    lemma_strip_joined(key, status_from_green(rgb.g, rgb.b, timestamp_ms, mode));
    lemma_from_green_written(rgb.g, rgb.b, timestamp_ms, mode);
}

proof fn lemma_from_color_written(
    color: ColorName,
    rgb: RgbColor,
    timestamp_ms: u64,
    mode: OperationMode,
)
    ensures
        parse_from_color(status_from_color(color, rgb, timestamp_ms, mode)) == Some(
            (color, rgb, timestamp_ms, mode),
        ),
{
    lemma_marks();
    let key = encode_utf8("\",\"rgb\":{\"r\":"@);
    let keyed = key + status_from_red(rgb, timestamp_ms, mode);
    let text = status_from_color(color, rgb, timestamp_ms, mode);
    lemma_strip_joined(encode_utf8(color.label()), keyed);
    match color {
        ColorName::Red => {},
        ColorName::Green => {
            lemma_strip_differs(text, encode_utf8("Grün"@), encode_utf8("Rot"@), 0);
        },
        ColorName::Blue => {
            lemma_strip_differs(text, encode_utf8("Blau"@), encode_utf8("Rot"@), 0);
            lemma_strip_differs(text, encode_utf8("Blau"@), encode_utf8("Grün"@), 0);
        },
        ColorName::Unknown => {
            lemma_strip_differs(text, encode_utf8("Unbekannt"@), encode_utf8("Rot"@), 0);
            lemma_strip_differs(text, encode_utf8("Unbekannt"@), encode_utf8("Grün"@), 0);
            lemma_strip_differs(text, encode_utf8("Unbekannt"@), encode_utf8("Blau"@), 0);
        },
    }
    assert(parse_color(text) == Some((color, keyed)));
    lemma_strip_joined(key, status_from_red(rgb, timestamp_ms, mode));
    lemma_from_red_written(rgb, timestamp_ms, mode);
}

proof fn lemma_parse_status_written(
    color: ColorName,
    rgb: RgbColor,
    timestamp_ms: u64,
    mode: OperationMode,
)
    ensures
        parse_status(status_json(color, rgb, timestamp_ms, mode)) == Some(
            (color, rgb, timestamp_ms, mode),
        ),
{
    lemma_strip_joined(
        encode_utf8("{\"type\":\"status\",\"color\":\""@),
        status_from_color(color, rgb, timestamp_ms, mode),
    );
    lemma_from_color_written(color, rgb, timestamp_ms, mode);
}

proof fn lemma_from_mode_canonical(input: Seq<u8>)
    requires
        parse_from_mode(input) is Some,
    ensures
        input == status_from_mode(parse_from_mode(input)->0),
{
    lemma_strip_joins_back(input, encode_utf8(mode_word(parse_from_mode(input)->0)));
}

proof fn lemma_from_time_canonical(input: Seq<u8>)
    requires
        parse_from_time(input) is Some,
    ensures
        input == status_from_time((parse_from_time(input)->0).0, (parse_from_time(input)->0).1),
{
    lemma_parse_decimal_canonical(input, u64::MAX as nat);
    let keyed = (parse_decimal(input, u64::MAX as nat)->0).1;
    lemma_strip_joins_back(keyed, encode_utf8(",\"mode\":\""@));
    lemma_from_mode_canonical(strip(keyed, encode_utf8(",\"mode\":\""@))->0);
}

proof fn lemma_from_blue_canonical(input: Seq<u8>)
    requires
        parse_from_blue(input) is Some,
    ensures
        input == status_from_blue(
            (parse_from_blue(input)->0).0,
            (parse_from_blue(input)->0).1,
            (parse_from_blue(input)->0).2,
        ),
{
    lemma_parse_decimal_canonical(input, u8::MAX as nat);
    let keyed = (parse_decimal(input, u8::MAX as nat)->0).1;
    lemma_strip_joins_back(keyed, encode_utf8("},\"timestamp_ms\":"@));
    lemma_from_time_canonical(strip(keyed, encode_utf8("},\"timestamp_ms\":"@))->0);
}

proof fn lemma_from_green_canonical(input: Seq<u8>)
    requires
        parse_from_green(input) is Some,
    ensures
        input == status_from_green(
            (parse_from_green(input)->0).0,
            (parse_from_green(input)->0).1,
            (parse_from_green(input)->0).2,
            (parse_from_green(input)->0).3,
        ),
{
    lemma_parse_decimal_canonical(input, u8::MAX as nat);
    let keyed = (parse_decimal(input, u8::MAX as nat)->0).1;
    lemma_strip_joins_back(keyed, encode_utf8(",\"b\":"@));
    lemma_from_blue_canonical(strip(keyed, encode_utf8(",\"b\":"@))->0);
}

proof fn lemma_from_red_canonical(input: Seq<u8>)
    requires
        parse_from_red(input) is Some,
    ensures
        input == status_from_red(
            (parse_from_red(input)->0).0,
            (parse_from_red(input)->0).1,
            (parse_from_red(input)->0).2,
        ),
{
    lemma_parse_decimal_canonical(input, u8::MAX as nat);
    let keyed = (parse_decimal(input, u8::MAX as nat)->0).1;
    lemma_strip_joins_back(keyed, encode_utf8(",\"g\":"@));
    lemma_from_green_canonical(strip(keyed, encode_utf8(",\"g\":"@))->0);
}

proof fn lemma_from_color_canonical(input: Seq<u8>)
    requires
        parse_from_color(input) is Some,
    ensures
        input == status_from_color(
            (parse_from_color(input)->0).0,
            (parse_from_color(input)->0).1,
            (parse_from_color(input)->0).2,
            (parse_from_color(input)->0).3,
        ),
{
    let color = (parse_color(input)->0).0;
    let keyed = (parse_color(input)->0).1;
    lemma_strip_joins_back(input, encode_utf8(color.label()));
    lemma_strip_joins_back(keyed, encode_utf8("\",\"rgb\":{\"r\":"@));
    lemma_from_red_canonical(strip(keyed, encode_utf8("\",\"rgb\":{\"r\":"@))->0);
}

proof fn lemma_parse_status_decodes(input: Seq<u8>)
    ensures
        decoded_status(input) == match parse_status(input) {
            Some((color, rgb, timestamp_ms, mode)) => Some(
                ServerMessageView::Status { color, rgb, timestamp_ms, mode },
            ),
            None => None,
        },
{
    if parse_status(input) is Some {
        let open = encode_utf8("{\"type\":\"status\",\"color\":\""@);
        lemma_strip_joins_back(input, open);
        lemma_from_color_canonical(strip(input, open)->0);
        let (color, rgb, timestamp_ms, mode) = parse_status(input)->0;
        assert(status_json(color, rgb, timestamp_ms, mode) == input);
        let (c2, rgb2, t2, m2) = choose|
            color: ColorName,
            rgb: RgbColor,
            timestamp_ms: u64,
            mode: OperationMode,
        | status_json(color, rgb, timestamp_ms, mode) == input;
        lemma_parse_status_written(c2, rgb2, t2, m2);
    } else {
        assert forall|color: ColorName, rgb: RgbColor, timestamp_ms: u64, mode: OperationMode|
            status_json(color, rgb, timestamp_ms, mode) != input by {
            lemma_parse_status_written(color, rgb, timestamp_ms, mode);
        }
    }
}

/// A status message that was written is read back as it was: the name of
/// the colour, its three channels, the time and the mode all come back
/// unchanged. No two status messages are written alike.
pub proof fn lemma_status_round_trip(
    color: ColorName,
    rgb: RgbColor,
    timestamp_ms: u64,
    mode: OperationMode,
)
    ensures
        decoded_status(status_json(color, rgb, timestamp_ms, mode)) == Some(
            ServerMessageView::Status { color, rgb, timestamp_ms, mode },
        ),
        forall|c2: ColorName, rgb2: RgbColor, t2: u64, m2: OperationMode|
            status_json(c2, rgb2, t2, m2) == status_json(color, rgb, timestamp_ms, mode) ==> c2
                == color && rgb2 == rgb && t2 == timestamp_ms && m2 == mode,
{
    lemma_parse_status_written(color, rgb, timestamp_ms, mode);
    lemma_parse_status_decodes(status_json(color, rgb, timestamp_ms, mode));
    assert forall|c2: ColorName, rgb2: RgbColor, t2: u64, m2: OperationMode|
        status_json(c2, rgb2, t2, m2) == status_json(color, rgb, timestamp_ms, mode) implies c2
        == color && rgb2 == rgb && t2 == timestamp_ms && m2 == mode by {
        lemma_parse_status_written(c2, rgb2, t2, m2);
    }
}

/// The most bytes that a status message takes.
pub const STATUS_MAX_LEN: usize = 128;

/// A status message is short: whatever it tells, it fits in
/// `STATUS_MAX_LEN` bytes.
pub proof fn lemma_status_is_short(
    color: ColorName,
    rgb: RgbColor,
    timestamp_ms: u64,
    mode: OperationMode,
)
    ensures
        status_json(color, rgb, timestamp_ms, mode).len() <= STATUS_MAX_LEN,
{
    lemma_marks();
    lemma_status_marks();
    reveal_strlit("{\"type\":\"status\",\"color\":\"");
    lemma_ascii_bytes("{\"type\":\"status\",\"color\":\""@);
    reveal_strlit("Rot");
    reveal_strlit("Grün");
    reveal_strlit("Blau");
    lemma_utf8_length(color.label());
    assert(encode_utf8(color.label()).len() <= 16);
    lemma_decimal_length(rgb.r as nat);
    lemma_decimal_length(rgb.g as nat);
    lemma_decimal_length(rgb.b as nat);
    lemma_decimal_length(timestamp_ms as nat);
    assert(status_from_mode(mode).len() <= 8);
    assert(status_from_time(timestamp_ms, mode).len() <= 37);
    assert(status_from_blue(rgb.b, timestamp_ms, mode).len() <= 57);
    assert(status_from_green(rgb.g, rgb.b, timestamp_ms, mode).len() <= 65);
    assert(status_from_red(rgb, timestamp_ms, mode).len() <= 73);
    assert(status_from_color(color, rgb, timestamp_ms, mode).len() <= 102);
}

/// A status message is text: its bytes are the UTF-8 form of a string, so
/// that it can be sent as one.
pub proof fn lemma_status_is_text(
    color: ColorName,
    rgb: RgbColor,
    timestamp_ms: u64,
    mode: OperationMode,
)
    ensures
        valid_utf8(status_json(color, rgb, timestamp_ms, mode)),
{
    broadcast use vstd::utf8::encode_utf8_valid_utf8;
    lemma_decimal_is_text(rgb.r as nat);
    lemma_decimal_is_text(rgb.g as nat);
    lemma_decimal_is_text(rgb.b as nat);
    lemma_decimal_is_text(timestamp_ms as nat);
    let from_mode = status_from_mode(mode);
    valid_utf8_concat(encode_utf8(mode_word(mode)), encode_utf8("\"}"@));
    valid_utf8_concat(encode_utf8(",\"mode\":\""@), from_mode);
    let from_time = status_from_time(timestamp_ms, mode);
    valid_utf8_concat(decimal(timestamp_ms as nat), encode_utf8(",\"mode\":\""@) + from_mode);
    valid_utf8_concat(encode_utf8("},\"timestamp_ms\":"@), from_time);
    let from_blue = status_from_blue(rgb.b, timestamp_ms, mode);
    valid_utf8_concat(decimal(rgb.b as nat), encode_utf8("},\"timestamp_ms\":"@) + from_time);
    valid_utf8_concat(encode_utf8(",\"b\":"@), from_blue);
    let from_green = status_from_green(rgb.g, rgb.b, timestamp_ms, mode);
    valid_utf8_concat(decimal(rgb.g as nat), encode_utf8(",\"b\":"@) + from_blue);
    valid_utf8_concat(encode_utf8(",\"g\":"@), from_green);
    let from_red = status_from_red(rgb, timestamp_ms, mode);
    valid_utf8_concat(decimal(rgb.r as nat), encode_utf8(",\"g\":"@) + from_green);
    valid_utf8_concat(encode_utf8("\",\"rgb\":{\"r\":"@), from_red);
    let from_color = status_from_color(color, rgb, timestamp_ms, mode);
    valid_utf8_concat(encode_utf8(color.label()), encode_utf8("\",\"rgb\":{\"r\":"@) + from_red);
    valid_utf8_concat(encode_utf8("{\"type\":\"status\",\"color\":\""@), from_color);
}

fn put_status_from_time(out: &mut Vec<u8>, timestamp_ms: u64, mode: OperationMode)
    ensures
        final(out)@ == old(out)@ + status_from_time(timestamp_ms, mode),
{
    let ghost start = out@;
    put_decimal(out, timestamp_ms);
    put_text(out, ",\"mode\":\"");
    match mode {
        OperationMode::Auto => put_text(out, "auto"),
        OperationMode::Manual => put_text(out, "manual"),
    }
    put_text(out, "\"}");
    proof {
        let number = decimal(timestamp_ms as nat);
        let key = encode_utf8(",\"mode\":\""@);
        let word = encode_utf8(mode_word(mode));
        let end = encode_utf8("\"}"@);
        lemma_join3(start + number + key, word, end);
        lemma_join3(start + number, key, word + end);
        lemma_join3(start, number, key + (word + end));
    }
}

fn put_status_from_red(out: &mut Vec<u8>, rgb: RgbColor, timestamp_ms: u64, mode: OperationMode)
    ensures
        final(out)@ == old(out)@ + status_from_red(rgb, timestamp_ms, mode),
{
    let ghost start = out@;
    put_decimal(out, rgb.r as u64);
    put_text(out, ",\"g\":");
    put_decimal(out, rgb.g as u64);
    put_text(out, ",\"b\":");
    put_decimal(out, rgb.b as u64);
    put_text(out, "},\"timestamp_ms\":");
    put_status_from_time(out, timestamp_ms, mode);
    proof {
        let r = decimal(rgb.r as nat);
        let g_key = encode_utf8(",\"g\":"@);
        let g = decimal(rgb.g as nat);
        let b_key = encode_utf8(",\"b\":"@);
        let b = decimal(rgb.b as nat);
        let t_key = encode_utf8("},\"timestamp_ms\":"@);
        let tail = status_from_time(timestamp_ms, mode);
        lemma_join3(start + r + g_key + g + b_key + b, t_key, tail);
        lemma_join3(start + r + g_key + g + b_key, b, t_key + tail);
        lemma_join3(start + r + g_key + g, b_key, b + (t_key + tail));
        lemma_join3(start + r + g_key, g, b_key + (b + (t_key + tail)));
        lemma_join3(start + r, g_key, g + (b_key + (b + (t_key + tail))));
        lemma_join3(start, r, g_key + (g + (b_key + (b + (t_key + tail)))));
    }
}

fn put_escaped(out: &mut Vec<u8>, text: &[u8])
    ensures
        final(out)@ == old(out)@ + escaped(text@),
{
    let ghost start = out@;
    let n: usize = text.len();
    let mut i: usize = 0;
    proof {
        assert(out@ =~= start + escaped(text@.take(0)));
    }
    while i < n
        invariant
            i <= n,
            n == text@.len(),
            out@ == start + escaped(text@.take(i as int)),
        decreases n - i,
    {
        let byte: u8 = text[i];
        let ghost before = out@;
        if byte == 34 {
            out.push(92);
            out.push(34);
        } else if byte == 92 {
            out.push(92);
            out.push(92);
        } else if byte == 8 {
            out.push(92);
            out.push(98);
        } else if byte == 9 {
            out.push(92);
            out.push(116);
        } else if byte == 10 {
            out.push(92);
            out.push(110);
        } else if byte == 12 {
            out.push(92);
            out.push(102);
        } else if byte == 13 {
            out.push(92);
            out.push(114);
        } else if byte < 32 {
            let high: u8 = byte / 16;
            let low: u8 = byte % 16;
            out.push(92);
            out.push(117);
            out.push(48);
            out.push(48);
            out.push(if high <= 9 { 48 + high } else { 55 + high });
            out.push(if low <= 9 { 48 + low } else { 55 + low });
        } else {
            out.push(byte);
        }
        proof {
            assert(out@ =~= before + escaped_byte(byte));
            let longer = text@.take(i + 1);
            assert(longer.drop_last() =~= text@.take(i as int));
            assert(longer.last() == byte);
            lemma_join3(start, escaped(text@.take(i as int)), escaped_byte(byte));
        }
        i = i + 1;
    }
    proof {
        assert(text@.take(n as int) =~= text@);
    }
}

/// Writes a message to a client.
pub fn encode_server_message(msg: &WsServerMessage) -> (out: Vec<u8>)
    ensures
        out@ == server_message_json(msg@),
{
    let mut out: Vec<u8> = Vec::new();
    match msg {
        WsServerMessage::Status { color, rgb, timestamp_ms, mode } => {
            put_text(&mut out, "{\"type\":\"status\",\"color\":\"");
            put_text(&mut out, color.as_str());
            put_text(&mut out, "\",\"rgb\":{\"r\":");
            put_status_from_red(&mut out, *rgb, *timestamp_ms, *mode);
            proof {
                let open = encode_utf8("{\"type\":\"status\",\"color\":\""@);
                let name = encode_utf8(color.label());
                let key = encode_utf8("\",\"rgb\":{\"r\":"@);
                let tail = status_from_red(*rgb, *timestamp_ms, *mode);
                assert(Seq::<u8>::empty() + open =~= open);
                lemma_join3(open + name, key, tail);
                lemma_join3(open, name, key + tail);
            }
        },
        WsServerMessage::Error { message } => {
            put_text(&mut out, "{\"type\":\"error\",\"message\":\"");
            put_escaped(&mut out, message.as_bytes());
            put_text(&mut out, "\"}");
            proof {
                let open = encode_utf8("{\"type\":\"error\",\"message\":\""@);
                let text = escaped(encode_utf8(message@));
                let end = encode_utf8("\"}"@);
                assert(Seq::<u8>::empty() + open =~= open);
                lemma_join3(open, text, end);
            }
        },
    }
    out
}

fn read_from_mode(input: &[u8], pos: usize) -> (found: Option<OperationMode>)
    requires
        pos <= input@.len(),
    ensures
        found == parse_from_mode(input@.skip(pos as int)),
{
    let (mode, end) = match read_mode(input, pos) {
        Some(found) => found,
        None => { return None; },
    };
    match text_at(input, end, "\"}") {
        Some(stop) => {
            if stop == input.len() {
                proof {
                    lemma_status_marks();
                    assert(input@.skip(end as int) =~= encode_utf8("\"}"@));
                }
                Some(mode)
            } else {
                proof {
                    lemma_status_marks();
                    assert(input@.skip(end as int).len() != 2);
                }
                None
            }
        },
        None => {
            proof {
                let tail = input@.skip(end as int);
                if tail == encode_utf8("\"}"@) {
                    assert(tail.subrange(0, tail.len() as int) =~= tail);
                }
            }
            None
        },
    }
}

fn read_from_time(input: &[u8], pos: usize) -> (found: Option<(u64, OperationMode)>)
    requires
        pos <= input@.len(),
    ensures
        found == parse_from_time(input@.skip(pos as int)),
{
    let (value, keyed) = match read_decimal(input, pos, u64::MAX) {
        Some(found) => found,
        None => { return None; },
    };
    let rest = match text_at(input, keyed, ",\"mode\":\"") {
        Some(end) => end,
        None => { return None; },
    };
    match read_from_mode(input, rest) {
        Some(mode) => Some((value, mode)),
        None => None,
    }
}

fn read_from_blue(input: &[u8], pos: usize) -> (found: Option<(u8, u64, OperationMode)>)
    requires
        pos <= input@.len(),
    ensures
        found == parse_from_blue(input@.skip(pos as int)),
{
    let (value, keyed) = match read_decimal(input, pos, 255) {
        Some(found) => found,
        None => { return None; },
    };
    let rest = match text_at(input, keyed, "},\"timestamp_ms\":") {
        Some(end) => end,
        None => { return None; },
    };
    match read_from_time(input, rest) {
        Some((timestamp_ms, mode)) => Some((value as u8, timestamp_ms, mode)),
        None => None,
    }
}

fn read_from_green(input: &[u8], pos: usize) -> (found: Option<(u8, u8, u64, OperationMode)>)
    requires
        pos <= input@.len(),
    ensures
        found == parse_from_green(input@.skip(pos as int)),
{
    let (value, keyed) = match read_decimal(input, pos, 255) {
        Some(found) => found,
        None => { return None; },
    };
    let rest = match text_at(input, keyed, ",\"b\":") {
        Some(end) => end,
        None => { return None; },
    };
    match read_from_blue(input, rest) {
        Some((b, timestamp_ms, mode)) => Some((value as u8, b, timestamp_ms, mode)),
        None => None,
    }
}

fn read_from_red(input: &[u8], pos: usize) -> (found: Option<(RgbColor, u64, OperationMode)>)
    requires
        pos <= input@.len(),
    ensures
        found == parse_from_red(input@.skip(pos as int)),
{
    let (value, keyed) = match read_decimal(input, pos, 255) {
        Some(found) => found,
        None => { return None; },
    };
    let rest = match text_at(input, keyed, ",\"g\":") {
        Some(end) => end,
        None => { return None; },
    };
    match read_from_green(input, rest) {
        Some((g, b, timestamp_ms, mode)) => Some(
            (RgbColor { r: value as u8, g, b }, timestamp_ms, mode),
        ),
        None => None,
    }
}

/// Reads a status message. It is `Some` exactly for bytes that are a
/// status message as `encode_server_message` writes it, and then it is that
/// message; any other input is refused.
pub fn decode_status(input: &[u8]) -> (msg: Option<WsServerMessage>)
    ensures
        optional_message(msg) == decoded_status(input@),
{
    proof {
        lemma_parse_status_decodes(input@);
        assert(input@.skip(0) =~= input@);
    }
    let named = match text_at(input, 0, "{\"type\":\"status\",\"color\":\"") {
        Some(end) => end,
        None => { return None; },
    };
    let (color, keyed) = match read_color(input, named) {
        Some(found) => found,
        None => { return None; },
    };
    let rest = match text_at(input, keyed, "\",\"rgb\":{\"r\":") {
        Some(end) => end,
        None => { return None; },
    };
    match read_from_red(input, rest) {
        Some((rgb, timestamp_ms, mode)) => Some(
            WsServerMessage::Status { color, rgb, timestamp_ms, mode },
        ),
        None => None,
    }
}

} // verus!
