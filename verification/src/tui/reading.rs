//! Reading back what the dashboard shows: numbers, rows, and what is between them.

use vstd::prelude::*;
use vstd::utf8::*;

use crate::tui::text::{
    append_decimal, ascii_id_is_shown_by_its_first_characters, decimal, digits, has_short_id,
    has_short_lines, has_short_runs, is_symbol, join_lines, joined, last_line_len, run_len,
    short_id, short_id_is_a_prefix, short_id_text, stands_alone,
};

verus! {

/// Whether a character is a decimal digit.
pub open spec fn is_digit(c: char) -> bool {
    '0' as int <= c as int <= '9' as int
}

/// The number that digits stand for, by their place among the characters.
pub open spec fn number_read(text: Seq<char>) -> int
    decreases text.len(),
{
    if text.len() == 0 {
        0
    } else {
        10 * number_read(text.drop_last()) + (text.last() as int - '0' as int)
    }
}

/// Whether `text` is how `n` is written: digits only, that stand for it, the first of them no
/// needless zero.
pub open spec fn writes(text: Seq<char>, n: int) -> bool {
    &&& text.len() > 0
    &&& forall|i: int| 0 <= i < text.len() ==> is_digit(#[trigger] text[i])
    &&& number_read(text) == n
    &&& text.len() > 1 ==> text[0] != '0'
}

/// A number is written with digits only, that stand for it, and without needless zeros.
pub proof fn numbers_are_written_out(n: nat)
    ensures
        writes(decimal(n), n as int),
    decreases n,
{
    let text = decimal(n);
    let last = (n % 10) as int;
    assert(is_digit(digits()[last]));
    assert(digits()[last] as int - '0' as int == last);
    if n < 10 {
        assert(text.drop_last() =~= Seq::<char>::empty());
        assert(number_read(Seq::<char>::empty()) == 0);
    } else {
        numbers_are_written_out(n / 10);
        let above = decimal(n / 10);
        assert(text.drop_last() =~= above);
        assert(text[0] == above[0]);
        if above.len() == 1 {
            assert(above.drop_last() =~= Seq::<char>::empty());
            assert(number_read(Seq::<char>::empty()) == 0);
            assert(number_read(above) == above[0] as int - '0' as int);
        }
    }
}

proof fn numbers_grow_with_their_digits(text: Seq<char>)
    requires
        forall|i: int| 0 <= i < text.len() ==> is_digit(#[trigger] text[i]),
    ensures
        number_read(text) >= 0,
        text.len() > 0 && text[0] != '0' ==> number_read(text) > 0,
    decreases text.len(),
{
    if text.len() > 0 {
        let above = text.drop_last();
        assert forall|i: int| 0 <= i < above.len() implies is_digit(#[trigger] above[i]) by {
            assert(above[i] == text[i]);
        }
        numbers_grow_with_their_digits(above);
        if above.len() > 0 {
            assert(above[0] == text[0]);
        }
    }
}

/// There is one way only to write a number.
pub proof fn numbers_have_one_notation(a: Seq<char>, b: Seq<char>, n: int)
    requires
        writes(a, n),
        writes(b, n),
    ensures
        a == b,
    decreases a.len(),
{
    let above_a = a.drop_last();
    let above_b = b.drop_last();
    assert(is_digit(a[a.len() - 1]) && is_digit(b[b.len() - 1]));
    assert forall|i: int| 0 <= i < above_a.len() implies is_digit(#[trigger] above_a[i]) by {
        assert(above_a[i] == a[i]);
    }
    assert forall|i: int| 0 <= i < above_b.len() implies is_digit(#[trigger] above_b[i]) by {
        assert(above_b[i] == b[i]);
    }
    numbers_grow_with_their_digits(above_a);
    numbers_grow_with_their_digits(above_b);
    assert(number_read(above_a) == number_read(above_b));
    assert(a.last() == b.last());
    if above_a.len() > 0 {
        assert(above_a[0] == a[0]);
    }
    if above_b.len() > 0 {
        assert(above_b[0] == b[0]);
    }
    if above_a.len() > 0 && above_b.len() > 0 {
        numbers_have_one_notation(above_a, above_b, number_read(above_a));
    } else {
        assert(number_read(Seq::<char>::empty()) == 0);
        assert(above_a.len() == 0 ==> above_a =~= Seq::empty());
        assert(above_b.len() == 0 ==> above_b =~= Seq::empty());
    }
    assert(a =~= above_a.push(a.last()));
    assert(b =~= above_b.push(b.last()));
}

/// Different numbers are written differently.
pub proof fn numbers_are_told_apart(a: nat, b: nat)
    ensures
        decimal(a) == decimal(b) ==> a == b,
{
    numbers_are_written_out(a);
    numbers_are_written_out(b);
}

/// What stands behind the same beginning, or before the same end, is the same.
pub proof fn equal_texts_have_equal_rests(p: Seq<char>, x: Seq<char>, y: Seq<char>)
    ensures
        p + x == p + y ==> x == y,
        x + p == y + p ==> x == y,
{
    if p + x == p + y {
        assert(x =~= (p + x).skip(p.len() as int));
        assert(y =~= (p + y).skip(p.len() as int));
    }
    if x + p == y + p {
        assert((x + p).len() == (y + p).len());
        assert(x =~= (x + p).take(x.len() as int));
        assert(y =~= (y + p).take(y.len() as int));
    }
}

/// Digits that are followed by something else are found again.
pub proof fn digits_end_where_others_begin(a: Seq<char>, x: Seq<char>, b: Seq<char>, y: Seq<char>)
    requires
        forall|i: int| 0 <= i < a.len() ==> is_digit(#[trigger] a[i]),
        forall|i: int| 0 <= i < b.len() ==> is_digit(#[trigger] b[i]),
        x.len() > 0 && !is_digit(x[0]),
        y.len() > 0 && !is_digit(y[0]),
        a + x == b + y,
    ensures
        a == b,
        x == y,
{
    let text = a + x;
    if a.len() < b.len() {
        assert(text[a.len() as int] == x[0]);
        assert(text[a.len() as int] == b[a.len() as int]);
    }
    if b.len() < a.len() {
        assert(text[b.len() as int] == y[0]);
        assert(text[b.len() as int] == a[b.len() as int]);
    }
    assert(a =~= text.take(a.len() as int));
    assert(b =~= text.take(a.len() as int));
    assert(x =~= text.skip(a.len() as int));
    assert(y =~= text.skip(a.len() as int));
}

/// Digits that follow something else are found again.
pub proof fn digits_begin_where_others_end(x: Seq<char>, a: Seq<char>, y: Seq<char>, b: Seq<char>)
    requires
        forall|i: int| 0 <= i < a.len() ==> is_digit(#[trigger] a[i]),
        forall|i: int| 0 <= i < b.len() ==> is_digit(#[trigger] b[i]),
        x.len() > 0 && !is_digit(x.last()),
        y.len() > 0 && !is_digit(y.last()),
        x + a == y + b,
    ensures
        a == b,
        x == y,
{
    let text = x + a;
    assert(x.len() + a.len() == (x + a).len());
    assert(y.len() + b.len() == (y + b).len());
    if x.len() < y.len() {
        assert(text[y.len() - 1] == y.last());
        assert(text[y.len() - 1] == a[y.len() - 1 - x.len()]);
    }
    if y.len() < x.len() {
        assert(text[x.len() - 1] == x.last());
        let at = x.len() - y.len() - 1;
        assert(0 <= at < b.len());
        assert((y + b)[y.len() + at] == b[at]);
    }
    assert(x =~= text.take(x.len() as int));
    assert(y =~= text.take(x.len() as int));
    assert(a =~= text.skip(x.len() as int));
    assert(b =~= text.skip(x.len() as int));
}

/// The rows that a text has on the screen: it begins a new one behind every line break.
pub open spec fn rows(text: Seq<char>) -> Seq<Seq<char>>
    decreases text.len(),
{
    if text.len() == 0 {
        seq![Seq::empty()]
    } else {
        let above = rows(text.drop_last());
        if text.last() == '\n' {
            above.push(Seq::empty())
        } else {
            above.drop_last().push(above.last().push(text.last()))
        }
    }
}

proof fn rows_go_on(text: Seq<char>, more: Seq<char>)
    requires
        !more.contains('\n'),
    ensures
        rows(text).len() > 0,
        rows(text + more) == rows(text).drop_last().push(rows(text).last() + more),
    decreases text.len() + more.len(),
{
    if more.len() == 0 {
        assert(text + more =~= text);
        if text.len() > 0 {
            assert(!Seq::<char>::empty().contains('\n'));
            rows_go_on(text.drop_last(), Seq::empty());
        }
        assert(rows(text).last() + more =~= rows(text).last());
        assert(rows(text) =~= rows(text).drop_last().push(rows(text).last()));
    } else {
        let fewer = more.drop_last();
        assert forall|i: int| 0 <= i < fewer.len() implies fewer[i] != '\n' by {
            assert(more[i] == fewer[i]);
            assert(more.contains(more[i]));
        }
        assert(!fewer.contains('\n'));
        assert(more.contains(more[more.len() - 1]));
        rows_go_on(text, fewer);
        assert((text + more).drop_last() =~= text + fewer);
        assert((rows(text).last() + fewer).push(more.last()) =~= rows(text).last() + more);
        assert(rows(text + fewer).drop_last() =~= rows(text).drop_last());
        assert(rows(text + more) =~= rows(text).drop_last().push(rows(text).last() + more));
    }
}

/// Lines that were put one below the other are found again, each in a row of its own: all of
/// them, in order, and as they were.
pub proof fn joined_lines_are_rows(texts: Seq<Seq<char>>)
    requires
        texts.len() > 0,
        forall|i: int| 0 <= i < texts.len() ==> !(#[trigger] texts[i]).contains('\n'),
    ensures
        rows(joined(texts)) == texts,
    decreases texts.len(),
{
    assert(!texts[texts.len() - 1].contains('\n'));
    if texts.len() == 1 {
        let none = Seq::<char>::empty();
        rows_go_on(none, texts[0]);
        assert(none + texts[0] =~= texts[0]);
        assert(rows(none).last() + texts[0] =~= texts[0]);
        assert(rows(joined(texts)) =~= texts);
    } else {
        let above = texts.drop_last();
        assert forall|i: int| 0 <= i < above.len() implies !(#[trigger] above[i]).contains(
            '\n',
        ) by {
            assert(above[i] == texts[i]);
        }
        joined_lines_are_rows(above);
        let broken = joined(above).push('\n');
        assert(broken.drop_last() =~= joined(above));
        assert(rows(broken) == above.push(Seq::empty()));
        rows_go_on(broken, texts.last());
        assert(Seq::<char>::empty() + texts.last() =~= texts.last());
        assert(rows(broken).drop_last() =~= above);
        assert(rows(joined(texts)) =~= texts);
    }
}

/// Whatever the lines say: one line is shown as it is, and what is below other lines follows
/// them behind one line break.
pub proof fn lines_are_put_below_each_other(
    line: Seq<char>,
    above: Seq<Seq<char>>,
    below: Seq<Seq<char>>,
)
    requires
        above.len() > 0,
        below.len() > 0,
    ensures
        joined(seq![line]) == line,
        joined(above + below) == joined(above) + seq!['\n'] + joined(below),
    decreases below.len(),
{
    let all = above + below;
    let last = below.last();
    assert(all.last() == last);
    if below.len() == 1 {
        assert(all.drop_last() =~= above);
        assert(joined(above).push('\n') + last =~= joined(above) + seq!['\n'] + joined(below));
    } else {
        let fewer = below.drop_last();
        assert(all.drop_last() =~= above + fewer);
        lines_are_put_below_each_other(line, above, fewer);
        assert(joined(above + fewer).push('\n') + last =~= joined(above) + seq!['\n'] + (joined(
            fewer,
        ).push('\n') + last));
    }
}

/// Of an id its beginning is shown, as far as eight bytes go, and all of it where it has no
/// more than that.
pub proof fn eight_bytes_of_an_id_are_shown(id: Seq<char>)
    requires
        has_short_id(id),
    ensures
        short_id_text(id).is_prefix_of(id),
        encode_utf8(id).len() >= 8 ==> encode_utf8(short_id_text(id)).len() == 8,
        encode_utf8(id).len() <= 8 ==> short_id_text(id) == id,
{
    let bytes = encode_utf8(id);
    short_id_is_a_prefix(id);
    encode_utf8_valid_utf8(id);
    let end: int = if bytes.len() < 8 {
        bytes.len() as int
    } else {
        8
    };
    valid_utf8_split(bytes, end);
    assert(bytes.take(end) =~= bytes.subrange(0, end));
    decode_utf8_encode_utf8(bytes.take(end));
    if bytes.len() <= 8 {
        assert(bytes.take(end) =~= bytes);
        encode_utf8_decode_utf8(id);
    }
}

/// An id of at most eight bytes can be shown.
pub proof fn short_ids_can_be_shown(id: Seq<char>)
    requires
        encode_utf8(id).len() <= 8,
    ensures
        has_short_id(id),
{
    encode_utf8_valid_utf8(id);
    is_char_boundary_start_end_of_seq(encode_utf8(id));
}

proof fn whole_characters_end_at_boundaries(chars: Seq<char>, n: int)
    requires
        0 <= n <= chars.len(),
    ensures
        encode_utf8(chars.take(n)).is_prefix_of(encode_utf8(chars)),
        is_char_boundary(encode_utf8(chars), encode_utf8(chars.take(n)).len() as int),
    decreases n,
{
    let bytes = encode_utf8(chars);
    let head = chars.take(n);
    encode_utf8_valid_utf8(chars);
    if n == 0 {
        assert(head =~= Seq::empty());
    } else {
        let rest = chars.drop_first();
        whole_characters_end_at_boundaries(rest, n - 1);
        assert(head.drop_first() =~= rest.take(n - 1));
        assert(head[0] == chars[0]);
        encode_utf8_first_scalar(chars);
        assert(pop_first_scalar(bytes) =~= encode_utf8(rest));
        let first = encode_scalar(chars[0] as u32);
        assert(encode_utf8(head) == first + encode_utf8(rest.take(n - 1)));
        assert(encode_utf8(head) =~= bytes.take(encode_utf8(head).len() as int));
    }
}

/// Where the first eight bytes of an id are whole characters, these are what is shown of it,
/// whichever characters they are; a shorter id is shown as it is.
pub proof fn an_id_is_shown_by_its_first_eight_bytes(id: Seq<char>, n: int)
    requires
        0 <= n <= id.len(),
        encode_utf8(id.take(n)).len() == 8 || (n == id.len() && encode_utf8(id).len() < 8),
    ensures
        has_short_id(id),
        short_id_text(id) == id.take(n),
{
    let bytes = encode_utf8(id);
    let head = encode_utf8(id.take(n));
    assert(id.take(id.len() as int) =~= id);
    whole_characters_end_at_boundaries(id, n);
    assert(bytes.take(head.len() as int) =~= head);
    encode_utf8_decode_utf8(id.take(n));
}

proof fn line_tail_has_no_break(text: Seq<char>)
    ensures
        last_line_len(text) <= text.len(),
        forall|i: int|
            text.len() - last_line_len(text) <= i < text.len() ==> #[trigger] text[i] != '\n',
    decreases text.len(),
{
    if text.len() > 0 && text.last() != '\n' {
        line_tail_has_no_break(text.drop_last());
        assert forall|i: int| text.len() - last_line_len(text) <= i < text.len() implies #[trigger]
            text[i] != '\n' by {
            if i < text.len() - 1 {
                assert(text.drop_last()[i] == text[i]);
            }
        }
    }
}

/// The lines of a text are short where no more than so many characters follow one another
/// without a line break.
pub proof fn texts_without_long_lines_have_short_lines(text: Seq<char>)
    requires
        forall|from: int, to: int|
            0 <= from <= to <= text.len() && !(#[trigger] text.subrange(from, to)).contains('\n')
                ==> to - from <= 21_845,
    ensures
        has_short_lines(text),
{
    assert forall|n: int| 0 <= n <= text.len() implies #[trigger] last_line_len(text.take(n))
        <= 21_845 by {
        let head = text.take(n);
        line_tail_has_no_break(head);
        let from = n - last_line_len(head);
        let line = text.subrange(from, n);
        assert forall|i: int| 0 <= i < line.len() implies line[i] != '\n' by {
            assert(head[from + i] == line[i]);
        }
        assert(!line.contains('\n'));
    }
}

proof fn line_tail_reaches_back_to_the_break(text: Seq<char>, from: int)
    requires
        0 <= from <= text.len(),
        forall|i: int| from <= i < text.len() ==> #[trigger] text[i] != '\n',
    ensures
        last_line_len(text) >= text.len() - from,
    decreases text.len(),
{
    if from < text.len() {
        let head = text.drop_last();
        assert(text[text.len() - 1] != '\n');
        assert forall|i: int| from <= i < head.len() implies #[trigger] head[i] != '\n' by {
            assert(head[i] == text[i]);
        }
        line_tail_reaches_back_to_the_break(head, from);
    }
}

/// In a text with short lines no more than so many characters follow one another without a line
/// break.
pub proof fn short_lines_are_not_long(text: Seq<char>, from: int, to: int)
    requires
        has_short_lines(text),
        0 <= from <= to <= text.len(),
        !text.subrange(from, to).contains('\n'),
    ensures
        to - from <= 21_845,
{
    let head = text.take(to);
    assert forall|i: int| from <= i < head.len() implies #[trigger] head[i] != '\n' by {
        assert(text.subrange(from, to)[i - from] == head[i]);
        assert(text.subrange(from, to).contains(text.subrange(from, to)[i - from]));
    }
    line_tail_reaches_back_to_the_break(head, from);
}

proof fn runs_reach_back(text: Seq<char>, from: int)
    requires
        0 <= from <= text.len(),
        forall|i: int|
            from <= i < text.len() ==> !stands_alone(#[trigger] text[i]) && !is_symbol(text[i]),
    ensures
        run_len(text) >= text.len() - from,
    decreases text.len(),
{
    if from < text.len() {
        let head = text.drop_last();
        assert(!stands_alone(text[text.len() - 1]) && !is_symbol(text[text.len() - 1]));
        assert forall|i: int| from <= i < head.len() implies !stands_alone(#[trigger] head[i])
            && !is_symbol(head[i]) by {
            assert(head[i] == text[i]);
        }
        runs_reach_back(head, from);
    }
}

/// In a text with short runs no more than so many characters follow one another that neither
/// stand alone nor are symbols.
pub proof fn short_runs_are_not_long(text: Seq<char>, limit: int, from: int, to: int)
    requires
        has_short_runs(text, limit),
        0 <= from <= to <= text.len(),
        forall|i: int|
            from <= i < to ==> !stands_alone(#[trigger] text[i]) && !is_symbol(text[i]),
    ensures
        to - from <= limit,
{
    let head = text.take(to);
    assert forall|i: int| from <= i < head.len() implies !stands_alone(#[trigger] head[i])
        && !is_symbol(head[i]) by {
        assert(head[i] == text[i]);
    }
    runs_reach_back(head, from);
    assert(run_len(text.take(to)) <= limit);
}

/// A text of ASCII characters has no runs of others.
pub proof fn ascii_texts_have_no_runs(text: Seq<char>)
    requires
        forall|i: int| 0 <= i < text.len() ==> (#[trigger] text[i]) as u32 <= 127,
    ensures
        has_short_runs(text, 0),
{
    assert forall|n: int| 0 <= n <= text.len() implies #[trigger] run_len(text.take(n)) <= 0 by {
        if n > 0 {
            assert(text.take(n).last() == text[n - 1]);
        }
    }
}

/// A number that is appended to a text is written behind it, and the text before it stays.
pub proof fn numbers_are_written_behind(text: &mut String, n: u64, written: Seq<char>)
    requires
        call_ensures(append_decimal, (text, n), ()),
        writes(written, n as int),
    ensures
        final(text)@ == old(text)@ + written,
{
    numbers_are_written_out(n as nat);
    numbers_have_one_notation(written, decimal(n as nat), n as int);
}

/// Lines that are put below each other are the rows of the text that comes of it.
pub proof fn lines_become_rows(lines: &Vec<&str>, text: String, i: int)
    requires
        call_ensures(join_lines, (lines,), text),
        lines@.len() > 0,
        forall|j: int| 0 <= j < lines@.len() ==> !(#[trigger] lines@[j])@.contains('\n'),
        0 <= i < lines@.len(),
    ensures
        rows(text@).len() == lines@.len(),
        rows(text@)[i] == lines@[i]@,
{
    let texts = lines@.map_values(|line: &str| line@);
    assert forall|j: int| 0 <= j < texts.len() implies !(#[trigger] texts[j]).contains('\n') by {
        assert(texts[j] == lines@[j]@);
    }
    joined_lines_are_rows(texts);
}

/// What is shown of an id is its beginning, eight bytes of it or all; an id in ASCII can always
/// be shown.
pub proof fn ids_are_shortened(id: &str, short: Option<&str>)
    requires
        call_ensures(short_id, (id,), short),
    ensures
        short matches Some(text) ==> {
            &&& text@.is_prefix_of(id@)
            &&& encode_utf8(id@).len() >= 8 ==> encode_utf8(text@).len() == 8
            &&& encode_utf8(id@).len() <= 8 ==> text@ == id@
        },
        is_ascii_chars(id@) ==> short is Some,
        encode_utf8(id@).len() <= 8 ==> short is Some,
        forall|n: int|
            0 <= n <= id@.len() && encode_utf8(#[trigger] id@.take(n)).len() == 8
                ==> short is Some,
{
    if short is Some {
        eight_bytes_of_an_id_are_shown(id@);
    }
    if is_ascii_chars(id@) {
        ascii_id_is_shown_by_its_first_characters(id@);
    }
    if encode_utf8(id@).len() <= 8 {
        short_ids_can_be_shown(id@);
    }
    assert forall|n: int|
        0 <= n <= id@.len() && encode_utf8(#[trigger] id@.take(n)).len() == 8 implies short
        is Some by {
        an_id_is_shown_by_its_first_eight_bytes(id@, n);
    }
}

} // verus!
