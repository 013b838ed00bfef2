//! The texts that the dashboard shows.

use vstd::prelude::*;
use vstd::utf8::*;

verus! {

/// The ten decimal digits.
pub open spec fn digits() -> Seq<char> {
    seq!['0', '1', '2', '3', '4', '5', '6', '7', '8', '9']
}

/// A number in decimal notation, without leading zeros.
pub open spec fn decimal(n: nat) -> Seq<char>
    decreases n,
{
    if n < 10 {
        seq![digits()[n as int]]
    } else {
        decimal(n / 10).push(digits()[(n % 10) as int])
    }
}

/// The number that a text of decimal digits stands for.
pub open spec fn decimal_value(text: Seq<char>) -> int
    decreases text.len(),
{
    if text.len() == 0 {
        0
    } else {
        decimal_value(text.drop_last()) * 10 + digits().index_of(text.last())
    }
}

/// A number can be read back from its decimal notation.
pub proof fn decimal_can_be_read_back(n: nat)
    ensures
        decimal_value(decimal(n)) == n,
    decreases n,
{
    let last = (n % 10) as int;
    assert(digits().index_of(digits()[last]) == last) by {
        let found = digits().index_of(digits()[last]);
        assert(digits()[last] == digits()[found]);
    }
    assert(decimal(n).last() == digits()[last]);
    if n < 10 {
        assert(decimal(n).drop_last() =~= Seq::<char>::empty());
        assert(decimal_value(Seq::<char>::empty()) == 0);
    } else {
        assert(decimal(n).drop_last() =~= decimal(n / 10));
        decimal_can_be_read_back(n / 10);
    }
}

/// A number of sixty-four bits has at most twenty digits.
pub proof fn decimal_is_short(n: nat)
    requires
        n <= u64::MAX,
    ensures
        1 <= decimal(n).len() <= 20,
{
    reveal_with_fuel(decimal, 21);
}

/// A digit as a text.
fn digit(n: u64) -> (text: &'static str)
    requires
        n < 10,
    ensures
        text@ == seq![digits()[n as int]],
{
    proof {
        reveal_strlit("0");
        reveal_strlit("1");
        reveal_strlit("2");
        reveal_strlit("3");
        reveal_strlit("4");
        reveal_strlit("5");
        reveal_strlit("6");
        reveal_strlit("7");
        reveal_strlit("8");
        reveal_strlit("9");
    }
    match n {
        0 => "0",
        1 => "1",
        2 => "2",
        3 => "3",
        4 => "4",
        5 => "5",
        6 => "6",
        7 => "7",
        8 => "8",
        _ => "9",
    }
}

/// Appends a number in decimal notation.
pub fn append_decimal(text: &mut String, n: u64)
    ensures
        final(text)@ == old(text)@ + decimal(n as nat),
    decreases n,
{
    if n >= 10 {
        append_decimal(text, n / 10);
    }
    text.append(digit(n % 10));
}

/// Texts one after the other, with a line break between each two.
pub open spec fn joined(texts: Seq<Seq<char>>) -> Seq<char>
    decreases texts.len(),
{
    if texts.len() == 0 {
        Seq::empty()
    } else if texts.len() == 1 {
        texts[0]
    } else {
        joined(texts.drop_last()).push('\n') + texts.last()
    }
}

/// Lines of at most `limit` characters make a text of so many characters at most.
pub proof fn joined_is_bounded(texts: Seq<Seq<char>>, limit: nat)
    requires
        forall|i: int| 0 <= i < texts.len() ==> (#[trigger] texts[i]).len() <= limit,
    ensures
        joined(texts).len() <= texts.len() * (limit + 1),
    decreases texts.len(),
{
    if texts.len() > 1 {
        joined_is_bounded(texts.drop_last(), limit);
        assert(texts.len() * (limit + 1) == (texts.len() - 1) * (limit + 1) + (limit + 1))
            by (nonlinear_arith);
    } else if texts.len() == 1 {
        assert(texts.len() * (limit + 1) == limit + 1) by (nonlinear_arith)
            requires
                texts.len() == 1,
        ;
    }
}

/// Puts lines one below the other.
pub fn join_lines(lines: &Vec<&str>) -> (text: String)
    ensures
        text@ == joined(lines@.map_values(|line: &str| line@)),
{
    let ghost texts = lines@.map_values(|line: &str| line@);
    let mut text = String::new();
    proof {
        reveal_strlit("\n");
        assert(texts.take(0) =~= Seq::<Seq<char>>::empty());
    }
    for i in 0..lines.len()
        invariant
            texts == lines@.map_values(|line: &str| line@),
            text@ == joined(texts.take(i as int)),
    {
        proof {
            reveal_strlit("\n");
            assert(texts.take(i + 1).drop_last() =~= texts.take(i as int));
        }
        let ghost before = text@;
        if i > 0 {
            text.append("\n");
            assert(text@ =~= before.push('\n'));
        }
        text.append(lines[i]);
        assert(text@ =~= joined(texts.take(i + 1)));
    }
    assert(texts.take(lines@.len() as int) =~= texts);
    text
}

/// How many bytes of a session's id are shown at most.
pub const SHORT_ID_BYTES: usize = 8;

/// How many bytes of `id` are shown.
pub open spec fn short_id_len(id: Seq<char>) -> int {
    if encode_utf8(id).len() < SHORT_ID_BYTES {
        encode_utf8(id).len() as int
    } else {
        SHORT_ID_BYTES as int
    }
}

/// Whether the bytes of `id` that are shown are whole characters.
pub open spec fn has_short_id(id: Seq<char>) -> bool {
    is_char_boundary(encode_utf8(id), short_id_len(id))
}

/// The beginning of `id` that is shown: the characters of its first bytes.
pub open spec fn short_id_text(id: Seq<char>) -> Seq<char> {
    decode_utf8(encode_utf8(id).take(short_id_len(id)))
}

/// The beginning of a session's id, or nothing where it would end inside a character.
pub fn short_id(id: &str) -> (short: Option<&str>)
    ensures
        match short {
            Some(text) => has_short_id(id@) && text@ == short_id_text(id@),
            None => !has_short_id(id@),
        },
{
    let len: usize = id.as_bytes().len();
    let end: usize = if len < SHORT_ID_BYTES {
        len
    } else {
        SHORT_ID_BYTES
    };
    if id.is_char_boundary(end) {
        let (text, _) = id.split_at(end);
        proof {
            encode_utf8_decode_utf8(text@);
            assert(encode_utf8(id@).subrange(0, end as int) == encode_utf8(id@).take(end as int));
        }
        Some(text)
    } else {
        None
    }
}

/// What is shown of an id is the id's beginning.
pub proof fn short_id_is_a_prefix(id: Seq<char>)
    requires
        has_short_id(id),
    ensures
        short_id_text(id).is_prefix_of(id),
{
    let bytes = encode_utf8(id);
    let end = short_id_len(id);
    encode_utf8_valid_utf8(id);
    decode_utf8_split(bytes, end);
    encode_utf8_decode_utf8(id);
    assert(bytes.take(end) =~= bytes.subrange(0, end));
}

/// An id of ASCII characters can always be shown, by its first eight characters.
pub proof fn ascii_id_is_shown_by_its_first_characters(id: Seq<char>)
    requires
        is_ascii_chars(id),
    ensures
        has_short_id(id),
        short_id_text(id) == id.take(
            if id.len() < SHORT_ID_BYTES {
                id.len() as int
            } else {
                SHORT_ID_BYTES as int
            },
        ),
{
    let bytes = encode_utf8(id);
    let end = short_id_len(id);
    is_ascii_chars_encode_utf8(id);
    encode_utf8_valid_utf8(id);
    let head = id.take(end);
    is_ascii_chars_encode_utf8(head);
    encode_utf8_decode_utf8(head);
    assert(encode_utf8(head) =~= bytes.take(end));
    is_char_boundary_start_end_of_seq(bytes);
    if end < bytes.len() {
        is_char_boundary_iff_is_leading_byte(bytes, end);
    }
}

/// Up to how many characters a line may have to be drawn at any width.
///
/// The drawing code counts the columns of a line in sixteen bits, and no character takes more
/// than three columns.
pub const LINE_LIMIT: usize = 21_845;

/// How many characters at the end of `text` follow its last line break.
pub open spec fn last_line_len(text: Seq<char>) -> nat
    decreases text.len(),
{
    if text.len() == 0 || text.last() == '\n' {
        0
    } else {
        1 + last_line_len(text.drop_last())
    }
}

/// Whether no line of `text` is longer than [`LINE_LIMIT`].
pub open spec fn has_short_lines(text: Seq<char>) -> bool {
    forall|n: int| 0 <= n <= text.len() ==> #[trigger] last_line_len(text.take(n)) <= LINE_LIMIT
}

proof fn last_line_is_bounded(text: Seq<char>)
    ensures
        last_line_len(text) <= text.len(),
    decreases text.len(),
{
    if text.len() > 0 {
        last_line_is_bounded(text.drop_last());
    }
}

/// A short text has short lines.
pub proof fn short_text_has_short_lines(text: Seq<char>)
    requires
        text.len() <= LINE_LIMIT,
    ensures
        has_short_lines(text),
{
    assert forall|n: int| 0 <= n <= text.len() implies #[trigger] last_line_len(text.take(n))
        <= LINE_LIMIT by {
        last_line_is_bounded(text.take(n));
    }
}

/// Tells whether no line of a text is longer than [`LINE_LIMIT`].
pub fn short_lines(text: &str) -> (short: bool)
    ensures
        short == has_short_lines(text@),
{
    let mut len: usize = 0;
    assert(text@.take(0) =~= Seq::<char>::empty());
    for c in chars: text.chars()
        invariant
            len == last_line_len(text@.take(chars.index())),
            chars.seq() == text@,
            len <= LINE_LIMIT,
            forall|n: int|
                0 <= n <= chars.index() ==> #[trigger] last_line_len(text@.take(n)) <= LINE_LIMIT,
    {
        let ghost seen = chars.index();
        assert(text@.take(seen + 1).drop_last() =~= text@.take(seen));
        if c == '\n' {
            len = 0;
        } else {
            len = len + 1;
        }
        assert(len == last_line_len(text@.take(seen + 1)));
        if len > LINE_LIMIT {
            return false;
        }
    }
    assert(text@.take(text@.len() as int) =~= text@);
    true
}

/// Whether a character never shares a grapheme cluster with another one of this kind: ASCII,
/// the letters of Latin, Greek, Cyrillic, Armenian, Hebrew, Arabic, Thai and Georgian, dashes
/// and quotes, box drawing, and the letters and signs of Chinese, Japanese and Korean, all but
/// those that combine with others. None of them takes more than two columns.
pub open spec fn stands_alone(c: char) -> bool {
    let n = c as u32;
    ||| n <= 0x7f
    ||| 0xb0 <= n <= 0x2ff
    ||| 0x370 <= n <= 0x482
    ||| 0x48a <= n <= 0x58f
    ||| 0x5d0 <= n <= 0x5f4
    ||| 0x620 <= n <= 0x64a
    ||| 0xe01 <= n <= 0xe30
    ||| 0x10a0 <= n <= 0x10ff
    ||| 0x1e00 <= n <= 0x1fff
    ||| 0x2010 <= n <= 0x2027
    ||| 0x2500 <= n <= 0x259f
    ||| 0x3001 <= n <= 0x3029
    ||| 0x3041 <= n <= 0x3096
    ||| 0x30a0 <= n <= 0x30ff
    ||| 0x3400 <= n <= 0x9fff
    ||| 0xac00 <= n <= 0xd7a3
    ||| 0xff01 <= n <= 0xff9d
}

/// Whether a character is a symbol that begins a grapheme cluster, unless a character before it
/// holds on to it.
pub open spec fn is_symbol(c: char) -> bool {
    let n = c as u32;
    ||| 0x2100 <= n <= 0x2bff
    ||| 0x1f300 <= n <= 0x1f3fa
    ||| 0x1f400 <= n <= 0x1faff
}

/// Whether a character lets go of a symbol behind it: another symbol, one that stands alone, a
/// sign that tells how a symbol is presented, or a skin tone.
pub open spec fn lets_go(c: char) -> bool {
    ||| stands_alone(c)
    ||| is_symbol(c)
    ||| 0xfe0e <= c as u32 <= 0xfe0f
    ||| 0x1f3fb <= c as u32 <= 0x1f3ff
}

/// Tells whether a character never shares a grapheme cluster with another one of this kind.
fn check_alone(c: char) -> (alone: bool)
    ensures
        alone == stands_alone(c),
{
    let n: u32 = c as u32;
    n <= 0x7f || (0xb0 <= n && n <= 0x2ff) || (0x370 <= n && n <= 0x482)
        || (0x48a <= n && n <= 0x58f) || (0x5d0 <= n && n <= 0x5f4) || (0x620 <= n && n <= 0x64a)
        || (0xe01 <= n && n <= 0xe30) || (0x10a0 <= n && n <= 0x10ff)
        || (0x1e00 <= n && n <= 0x1fff) || (0x2010 <= n && n <= 0x2027)
        || (0x2500 <= n && n <= 0x259f) || (0x3001 <= n && n <= 0x3029)
        || (0x3041 <= n && n <= 0x3096) || (0x30a0 <= n && n <= 0x30ff)
        || (0x3400 <= n && n <= 0x9fff) || (0xac00 <= n && n <= 0xd7a3)
        || (0xff01 <= n && n <= 0xff9d)
}

/// Tells whether a character is a symbol.
fn check_symbol(c: char) -> (symbol: bool)
    ensures
        symbol == is_symbol(c),
{
    let n: u32 = c as u32;
    (0x2100 <= n && n <= 0x2bff) || (0x1f300 <= n && n <= 0x1f3fa) || (0x1f400 <= n && n <= 0x1faff)
}

/// Tells whether a character lets go of a symbol behind it.
fn check_letting_go(c: char) -> (free: bool)
    ensures
        free == lets_go(c),
{
    let n: u32 = c as u32;
    check_alone(c) || check_symbol(c) || (0xfe0e <= n && n <= 0xfe0f) || (0x1f3fb <= n && n
        <= 0x1f3ff)
}

/// How many characters at the end of `text` may belong to one grapheme cluster, without one that
/// stands alone.
pub open spec fn run_len(text: Seq<char>) -> nat
    decreases text.len(),
{
    if text.len() == 0 || stands_alone(text.last()) {
        0
    } else if is_symbol(text.last()) && text.len() > 1 && lets_go(text[text.len() - 2]) {
        1
    } else {
        1 + run_len(text.drop_last())
    }
}

/// Whether no run of characters that may belong to one grapheme cluster, and of which none
/// stands alone, is longer than `limit` in `text`.
///
/// A cluster holds at most one character that stands alone, so it is made up of that one and of
/// a run on either side.
pub open spec fn has_short_runs(text: Seq<char>, limit: int) -> bool {
    forall|n: int| 0 <= n <= text.len() ==> #[trigger] run_len(text.take(n)) <= limit
}

/// A text of characters that stand alone has no runs at all.
pub proof fn plain_text_has_no_runs(text: Seq<char>)
    requires
        forall|i: int| 0 <= i < text.len() ==> stands_alone(#[trigger] text[i]),
    ensures
        has_short_runs(text, 0),
{
    assert forall|n: int| 0 <= n <= text.len() implies #[trigger] run_len(text.take(n)) <= 0 by {
        if n > 0 {
            assert(text.take(n).last() == text[n - 1]);
        }
    }
}

/// Tells whether no run of characters that may belong to one grapheme cluster, and of which none
/// stands alone, is longer than `limit` in a text.
pub fn short_runs(text: &str, limit: usize) -> (short: bool)
    ensures
        short == has_short_runs(text@, limit as int),
{
    let mut len: usize = 0;
    let mut free = false;
    assert(text@.take(0) =~= Seq::<char>::empty());
    for c in chars: text.chars()
        invariant
            len == run_len(text@.take(chars.index())),
            free == (chars.index() > 0 && lets_go(text@[chars.index() - 1])),
            chars.seq() == text@,
            len <= limit,
            forall|n: int|
                0 <= n <= chars.index() ==> #[trigger] run_len(text@.take(n)) <= limit,
    {
        let ghost seen = chars.index();
        assert(text@.take(seen + 1).drop_last() =~= text@.take(seen));
        if check_alone(c) {
            len = 0;
        } else {
            if free && check_symbol(c) {
                len = 0;
            }
            if len == limit {
                assert(run_len(text@.take(seen + 1)) == limit + 1);
                return false;
            }
            len = len + 1;
        }
        assert(len == run_len(text@.take(seen + 1)));
        free = check_letting_go(c);
    }
    assert(text@.take(text@.len() as int) =~= text@);
    true
}

} // verus!
