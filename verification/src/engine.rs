//! The timestamp engine: strict parsing of `YYYY-MM-DDTHH:MM` strings,
//! derivation of epoch seconds under a fixed UTC offset, and composition
//! of the output token `<t:EPOCH:STYLE>`.

use vstd::prelude::*;

use crate::calendar::{
    days_in_month_exec, epoch_from_wall, wall_to_epoch, WallClock, MAX_OFFSET_SECS,
};
use crate::decimal::{
    dec_int, digit_char, digit_str, digit_val, is_digit, lemma_dec_digits_shape,
    lemma_digit_char_val, lemma_four_digit_decompose, lemma_two_digit_decompose, push_dec_i64,
};
use crate::style::{style_char_spec, TimeFormatStyle};

verus! {

/// The single kind of error the engine raises: the datetime string does
/// not match the `YYYY-MM-DDTHH:MM` pattern or names no calendar value.
#[derive(Clone, Copy, Debug, PartialEq, Eq, Structural)]
pub struct ParseError;

/// The fixed input pattern: sixteen characters, four year digits and
/// two digits for each other field, with `-`, `-`, `T`, `:` between them.
pub open spec fn is_datetime_string(s: Seq<char>) -> bool {
    &&& s.len() == 16
    &&& is_digit(s[0]) && is_digit(s[1]) && is_digit(s[2]) && is_digit(s[3])
    &&& s[4] == '-'
    &&& is_digit(s[5]) && is_digit(s[6])
    &&& s[7] == '-'
    &&& is_digit(s[8]) && is_digit(s[9])
    &&& s[10] == 'T'
    &&& is_digit(s[11]) && is_digit(s[12])
    &&& s[13] == ':'
    &&& is_digit(s[14]) && is_digit(s[15])
}

/// The wall-clock value a well-shaped input string spells out.
pub open spec fn wall_of_string(s: Seq<char>) -> WallClock {
    WallClock {
        year: (digit_val(s[0]) * 1000 + digit_val(s[1]) * 100 + digit_val(s[2]) * 10 + digit_val(
            s[3],
        )) as u16,
        month: (digit_val(s[5]) * 10 + digit_val(s[6])) as u8,
        day: (digit_val(s[8]) * 10 + digit_val(s[9])) as u8,
        hour: (digit_val(s[11]) * 10 + digit_val(s[12])) as u8,
        minute: (digit_val(s[14]) * 10 + digit_val(s[15])) as u8,
    }
}

/// What parsing an input string yields: the spelled-out wall-clock value
/// when the string matches the pattern and that value exists in the
/// calendar, and nothing otherwise.
pub open spec fn parse_spec(s: Seq<char>) -> Option<WallClock> {
    if is_datetime_string(s) && wall_of_string(s).valid() {
        Some(wall_of_string(s))
    } else {
        None
    }
}

/// The numeric value of a digit character, or nothing.
fn char_digit(c: char) -> (r: Option<u8>)
    ensures
        r is Some <==> is_digit(c),
        r matches Some(d) ==> d as int == digit_val(c) && d <= 9,
{
    let v = c as u32;
    if 48 <= v && v <= 57 {
        Some((v - 48) as u8)
    } else {
        None
    }
}

/// Reads the digit at position `i` of `s`.
fn read_digit(s: &str, i: usize) -> (r: Result<u8, ParseError>)
    requires
        i < s@.len(),
    ensures
        r matches Ok(d) ==> is_digit(s@[i as int]) && d as int == digit_val(s@[i as int]) && d
            <= 9,
        r is Err <==> !is_digit(s@[i as int]),
{
    match char_digit(s.get_char(i)) {
        Some(d) => Ok(d),
        None => Err(ParseError),
    }
}

/// Parses an input string strictly against the `YYYY-MM-DDTHH:MM` pattern
/// and checks that the fields name a calendar value: exactly the inputs
/// `parse_spec` accepts yield a value, every other string an error.
pub fn parse_input(input: &str) -> (r: Result<WallClock, ParseError>)
    ensures
        r matches Ok(w) ==> parse_spec(input@) == Some(w),
        r is Err <==> parse_spec(input@) is None,
{
    if input.unicode_len() != 16 {
        return Err(ParseError);
    }
    let d0 = match read_digit(input, 0) {
        Ok(d) => d,
        Err(e) => {
            return Err(e);
        },
    };
    let d1 = match read_digit(input, 1) {
        Ok(d) => d,
        Err(e) => {
            return Err(e);
        },
    };
    let d2 = match read_digit(input, 2) {
        Ok(d) => d,
        Err(e) => {
            return Err(e);
        },
    };
    let d3 = match read_digit(input, 3) {
        Ok(d) => d,
        Err(e) => {
            return Err(e);
        },
    };
    if input.get_char(4) != '-' {
        return Err(ParseError);
    }
    let d5 = match read_digit(input, 5) {
        Ok(d) => d,
        Err(e) => {
            return Err(e);
        },
    };
    let d6 = match read_digit(input, 6) {
        Ok(d) => d,
        Err(e) => {
            return Err(e);
        },
    };
    if input.get_char(7) != '-' {
        return Err(ParseError);
    }
    let d8 = match read_digit(input, 8) {
        Ok(d) => d,
        Err(e) => {
            return Err(e);
        },
    };
    let d9 = match read_digit(input, 9) {
        Ok(d) => d,
        Err(e) => {
            return Err(e);
        },
    };
    if input.get_char(10) != 'T' {
        return Err(ParseError);
    }
    let d11 = match read_digit(input, 11) {
        Ok(d) => d,
        Err(e) => {
            return Err(e);
        },
    };
    let d12 = match read_digit(input, 12) {
        Ok(d) => d,
        Err(e) => {
            return Err(e);
        },
    };
    if input.get_char(13) != ':' {
        return Err(ParseError);
    }
    let d14 = match read_digit(input, 14) {
        Ok(d) => d,
        Err(e) => {
            return Err(e);
        },
    };
    let d15 = match read_digit(input, 15) {
        Ok(d) => d,
        Err(e) => {
            return Err(e);
        },
    };
    let year: u16 = d0 as u16 * 1000 + d1 as u16 * 100 + d2 as u16 * 10 + d3 as u16;
    let month: u8 = d5 * 10 + d6;
    let day: u8 = d8 * 10 + d9;
    let hour: u8 = d11 * 10 + d12;
    let minute: u8 = d14 * 10 + d15;
    let w = WallClock { year, month, day, hour, minute };
    proof {
        assert(w == wall_of_string(input@));
    }
    if month < 1 || month > 12 {
        return Err(ParseError);
    }
    if day < 1 || day > days_in_month_exec(year, month) {
        return Err(ParseError);
    }
    if hour > 23 {
        return Err(ParseError);
    }
    if minute > 59 {
        return Err(ParseError);
    }
    Ok(w)
}

/// Parses `input` and derives the epoch seconds of the wall-clock value it
/// spells out, read `offset_secs` seconds east of UTC. Exactly the inputs
/// `parse_spec` accepts succeed; the count may be negative for values
/// before 1970. A failure is terminal for the invocation: no substitute
/// value is produced.
pub fn derive_epoch_seconds(input: &str, offset_secs: i32) -> (r: Result<i64, ParseError>)
    requires
        -MAX_OFFSET_SECS < offset_secs < MAX_OFFSET_SECS,
    ensures
        parse_spec(input@) matches Some(w) ==> r matches Ok(e) && e as int == wall_to_epoch(
            w,
            offset_secs as int,
        ),
        parse_spec(input@) is None <==> r is Err,
{
    match parse_input(input) {
        Ok(w) => Ok(epoch_from_wall(&w, offset_secs)),
        Err(e) => Err(e),
    }
}

/// The output token: `<t:` then the signed decimal epoch count, then `:`,
/// the style's character and `>`.
pub open spec fn token_spec(epoch: int, style: TimeFormatStyle) -> Seq<char> {
    seq!['<', 't', ':'] + dec_int(epoch) + seq![':'] + seq![style_char_spec(style)] + seq!['>']
}

/// The one-character string of a style's token character.
fn style_str(style: TimeFormatStyle) -> (s: &'static str)
    ensures
        s@ == seq![style_char_spec(style)],
{
    let s: &'static str = match style {
        TimeFormatStyle::ShortDate => "d",
        TimeFormatStyle::WrittenDate => "D",
        TimeFormatStyle::WrittenDateTime => "f",
        TimeFormatStyle::TimeOnly => "t",
        TimeFormatStyle::TimeSeconds => "T",
        TimeFormatStyle::Relative => "R",
        TimeFormatStyle::FullDateTime => "F",
    };
    proof {
        reveal_strlit("d");
        reveal_strlit("D");
        reveal_strlit("f");
        reveal_strlit("t");
        reveal_strlit("T");
        reveal_strlit("R");
        reveal_strlit("F");
        assert(s@ =~= seq![style_char_spec(style)]);
    }
    s
}

/// Composes the output token for an epoch count and a style. Pure and
/// total: every `i64` and every style yields a token; no rounding or
/// locale rendering happens here.
pub fn format_token(epoch_seconds: i64, style: TimeFormatStyle) -> (s: String)
    ensures
        s@ == token_spec(epoch_seconds as int, style),
{
    let mut out = String::from_str("<t:");
    push_dec_i64(&mut out, epoch_seconds);
    out.append(":");
    out.append(style_str(style));
    out.append(">");
    proof {
        reveal_strlit("<t:");
        reveal_strlit(":");
        reveal_strlit(">");
        assert(out@ =~= token_spec(epoch_seconds as int, style));
    }
    out
}

/// A decimal integer literal, optionally signed: what may stand between
/// `<t:` and the style suffix of a token.
pub open spec fn is_int_literal(s: Seq<char>) -> bool {
    if s.len() > 0 && s[0] == '-' {
        s.len() >= 2 && forall|i: int| 1 <= i < s.len() ==> is_digit(s[i])
    } else {
        s.len() >= 1 && forall|i: int| 0 <= i < s.len() ==> is_digit(s[i])
    }
}

/// One of the seven token characters.
pub open spec fn is_style_char(c: char) -> bool {
    c == 'd' || c == 'D' || c == 'f' || c == 'F' || c == 't' || c == 'T' || c == 'R'
}

/// The token grammar: `<t:` then a signed decimal integer, then `:`, one
/// style character, and `>`.
pub open spec fn matches_token_grammar(s: Seq<char>) -> bool {
    &&& s.len() >= 6
    &&& s[0] == '<' && s[1] == 't' && s[2] == ':'
    &&& is_int_literal(s.subrange(3, s.len() - 3))
    &&& s[s.len() - 3] == ':'
    &&& is_style_char(s[s.len() - 2])
    &&& s[s.len() - 1] == '>'
}

/// Every epoch count and every style compose to a token that matches the
/// token grammar.
pub proof fn lemma_token_matches_grammar(epoch: int, style: TimeFormatStyle)
    ensures
        matches_token_grammar(token_spec(epoch, style)),
{
    let s = token_spec(epoch, style);
    if epoch < 0 {
        lemma_dec_digits_shape((-epoch) as nat);
    } else {
        lemma_dec_digits_shape(epoch as nat);
    }
    assert(s.subrange(3, s.len() - 3) =~= dec_int(epoch));
}

/// Formatting a valid wall-clock value back to the input pattern and
/// parsing it again yields the same value, and the epoch count it then
/// derives is the start of the minute that held the formatted instant:
/// local second count `local` truncates to its minute and shifts by the
/// offset. Minute precision: the seconds within the minute are dropped,
/// never rounded up.
pub proof fn lemma_minute_round_trip(w: WallClock, off: int, local: int)
    requires
        w.valid(),
        wall_to_epoch(w, 0) <= local < wall_to_epoch(w, 0) + 60,
        wall_to_epoch(w, 0) % 60 == 0,
    ensures
        parse_spec(string_of_wall(w)) == Some(w),
        wall_to_epoch(w, off) == local - (local % 60) - off,
{
    lemma_format_parse_round_trip(w);
    let e = wall_to_epoch(w, 0);
    vstd::arithmetic::div_mod::lemma_mod_add_multiples_vanish(local - e, 60);
    assert((local - e) % 60 == local - e) by {
        vstd::arithmetic::div_mod::lemma_small_mod((local - e) as nat, 60);
    }
}

/// The canonical rendering of a wall-clock value in the input pattern,
/// each field zero-padded to its width.
pub open spec fn string_of_wall(w: WallClock) -> Seq<char> {
    seq![
        digit_char((w.year as nat / 1000) % 10),
        digit_char((w.year as nat / 100) % 10),
        digit_char((w.year as nat / 10) % 10),
        digit_char(w.year as nat % 10),
        '-',
        digit_char((w.month as nat / 10) % 10),
        digit_char(w.month as nat % 10),
        '-',
        digit_char((w.day as nat / 10) % 10),
        digit_char(w.day as nat % 10),
        'T',
        digit_char((w.hour as nat / 10) % 10),
        digit_char(w.hour as nat % 10),
        ':',
        digit_char((w.minute as nat / 10) % 10),
        digit_char(w.minute as nat % 10),
    ]
}

/// Renders a wall-clock value in the input pattern, each field zero-padded
/// to its width.
pub fn format_wall(w: &WallClock) -> (s: String)
    requires
        w.valid(),
    ensures
        s@ == string_of_wall(*w),
{
    let mut out = String::new();
    out.append(digit_str(((w.year / 1000) % 10) as u64));
    out.append(digit_str(((w.year / 100) % 10) as u64));
    out.append(digit_str(((w.year / 10) % 10) as u64));
    out.append(digit_str((w.year % 10) as u64));
    out.append("-");
    out.append(digit_str(((w.month / 10) % 10) as u64));
    out.append(digit_str((w.month % 10) as u64));
    out.append("-");
    out.append(digit_str(((w.day / 10) % 10) as u64));
    out.append(digit_str((w.day % 10) as u64));
    out.append("T");
    out.append(digit_str(((w.hour / 10) % 10) as u64));
    out.append(digit_str((w.hour % 10) as u64));
    out.append(":");
    out.append(digit_str(((w.minute / 10) % 10) as u64));
    out.append(digit_str((w.minute % 10) as u64));
    proof {
        reveal_strlit("-");
        reveal_strlit("T");
        reveal_strlit(":");
        assert(out@ =~= string_of_wall(*w));
    }
    out
}

/// Parsing undoes formatting: the canonical rendering of a valid
/// wall-clock value matches the input pattern and spells out that value.
pub proof fn lemma_format_parse_round_trip(w: WallClock)
    requires
        w.valid(),
    ensures
        parse_spec(string_of_wall(w)) == Some(w),
{
    let s = string_of_wall(w);
    assert forall|d: nat| d <= 9 implies is_digit(#[trigger] digit_char(d)) && digit_val(
        digit_char(d),
    ) == d by {
        lemma_digit_char_val(d);
    }
    lemma_four_digit_decompose(w.year as int);
    lemma_two_digit_decompose(w.month as int);
    lemma_two_digit_decompose(w.day as int);
    lemma_two_digit_decompose(w.hour as int);
    lemma_two_digit_decompose(w.minute as int);
    assert(wall_of_string(s) == w);
}

/// The engine's result entity: the latest successfully derived epoch
/// count, paired with the currently selected style. It has no identity
/// beyond "latest value"; a failed derivation leaves it as it was.
#[derive(Clone, Copy, Debug, PartialEq, Eq, Structural)]
pub struct DerivedTimestamp {
    pub epoch_seconds: i64,
    pub style: TimeFormatStyle,
}

/// Reacts to an edit of the datetime field: re-derives the epoch count
/// from the new string under the given offset. On success the held count
/// is replaced and the style kept; on failure the error is surfaced and
/// the held value left exactly as it was, never cleared or zeroed.
pub fn on_time_changed(cur: &mut DerivedTimestamp, input: &str, offset_secs: i32) -> (r: Result<
    (),
    ParseError,
>)
    requires
        -MAX_OFFSET_SECS < offset_secs < MAX_OFFSET_SECS,
    ensures
        parse_spec(input@) matches Some(w) ==> r is Ok && final(cur).style == old(cur).style
            && final(cur).epoch_seconds as int == wall_to_epoch(w, offset_secs as int),
        parse_spec(input@) is None ==> r is Err && *final(cur) == *old(cur),
{
    match derive_epoch_seconds(input, offset_secs) {
        Ok(e) => {
            cur.epoch_seconds = e;
            Ok(())
        },
        Err(e) => Err(e),
    }
}

/// Reacts to an edit of the style selector: resolves the new selector
/// (unknown selectors fall back to `FullDateTime`) and keeps the held
/// epoch count.
pub fn on_style_changed(cur: &mut DerivedTimestamp, selector: &str)
    ensures
        final(cur).style == crate::style::resolve_style_spec(selector@),
        final(cur).epoch_seconds == old(cur).epoch_seconds,
{
    cur.style = crate::style::resolve_style(selector);
}

/// The token the held result currently displays as.
pub fn render_token(cur: &DerivedTimestamp) -> (s: String)
    ensures
        s@ == token_spec(cur.epoch_seconds as int, cur.style),
{
    format_token(cur.epoch_seconds, cur.style)
}

} // verus!
