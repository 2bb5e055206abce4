//! Text operations shared by the rest of the library, stated over sequences of characters.

use vstd::prelude::*;

verus! {

/// The characters with the Unicode property `White_Space`.
pub open spec fn is_white_space(c: char) -> bool {
    ||| '\u{9}' <= c <= '\u{d}'
    ||| c == '\u{20}'
    ||| c == '\u{85}'
    ||| c == '\u{a0}'
    ||| c == '\u{1680}'
    ||| '\u{2000}' <= c <= '\u{200a}'
    ||| c == '\u{2028}'
    ||| c == '\u{2029}'
    ||| c == '\u{202f}'
    ||| c == '\u{205f}'
    ||| c == '\u{3000}'
}

/// `s` without its leading white space.
pub open spec fn trimmed_start(s: Seq<char>) -> Seq<char>
    decreases s.len(),
{
    if s.len() > 0 && is_white_space(s[0]) {
        trimmed_start(s.drop_first())
    } else {
        s
    }
}

/// `s` without its trailing white space.
pub open spec fn trimmed_end(s: Seq<char>) -> Seq<char>
    decreases s.len(),
{
    if s.len() > 0 && is_white_space(s.last()) {
        trimmed_end(s.drop_last())
    } else {
        s
    }
}

/// `s` without its leading and trailing white space.
pub open spec fn trimmed(s: Seq<char>) -> Seq<char> {
    trimmed_end(trimmed_start(s))
}

/// Standard library's `str::trim`: the text without leading and trailing white space, where
/// white space is what the Unicode property `White_Space` says.
pub assume_specification[ str::trim ](s: &str) -> (res: &str)
    ensures
        res@ == trimmed(s@),
;

/// Standard library's `String::from`, of a string slice: an owned copy of the same text.
pub assume_specification<'a>[ <String as From<&'a str>>::from ](s: &str) -> (res: String)
    ensures
        res@ == s@,
;

/// Whether two texts hold the same characters.
pub fn same_text(a: &str, b: &str) -> (res: bool)
    ensures
        res == (a@ == b@),
{
    a.to_owned() == b.to_owned()
}

/// Whether `text` starts with `prefix`.
pub fn has_prefix(text: &str, prefix: &str) -> (res: bool)
    ensures
        res == prefix@.is_prefix_of(text@),
{
    let n: usize = prefix.unicode_len();
    if text.unicode_len() < n {
        return false;
    }
    let head = text.substring_char(0, n);
    same_text(head, prefix)
}

/// `s` with every leading occurrence of `prefix` taken off.
pub open spec fn strip_leading(s: Seq<char>, prefix: Seq<char>) -> Seq<char>
    decreases s.len(),
{
    if prefix.len() > 0 && prefix.is_prefix_of(s) {
        strip_leading(s.skip(prefix.len() as int), prefix)
    } else {
        s
    }
}

/// Takes every leading occurrence of `prefix` off `text`.
pub fn strip_all_leading<'a>(text: &'a str, prefix: &str) -> (res: &'a str)
    ensures
        res@ == strip_leading(text@, prefix@),
{
    let n: usize = prefix.unicode_len();
    let mut rest: &'a str = text;
    if n == 0 {
        return rest;
    }
    while has_prefix(rest, prefix)
        invariant
            n == prefix@.len(),
            n > 0,
            strip_leading(rest@, prefix@) == strip_leading(text@, prefix@),
        decreases rest@.len(),
    {
        let len: usize = rest.unicode_len();
        let next = rest.substring_char(n, len);
        assert(next@ == rest@.skip(n as int));
        rest = next;
    }
    rest
}

/// The decimal digit with value `d`.
pub open spec fn digit(d: nat) -> char {
    (48 + d) as char
}

/// `n` written in decimal, without leading zeros.
pub open spec fn decimal(n: nat) -> Seq<char>
    decreases n,
{
    if n < 10 {
        seq![digit(n)]
    } else {
        decimal(n / 10).push(digit(n % 10))
    }
}

fn digit_text(d: u64) -> (res: &'static str)
    requires
        d < 10,
    ensures
        res@ == seq![digit(d as nat)],
{
    proof {
        reveal_strlit("0");
        reveal_strlit("1");
        reveal_strlit("2");
        reveal_strlit("3");
        reveal_strlit("4");
        reveal_strlit("5");
        reveal_strlit("6");
        reveal_strlit("7");
        reveal_strlit("8");
        reveal_strlit("9");
    }
    match d {
        0 => "0",
        1 => "1",
        2 => "2",
        3 => "3",
        4 => "4",
        5 => "5",
        6 => "6",
        7 => "7",
        8 => "8",
        _ => "9",
    }
}

/// Writes `n` in decimal.
pub fn decimal_text(n: u64) -> (res: String)
    ensures
        res@ == decimal(n as nat),
    decreases n,
{
    if n < 10 {
        digit_text(n).to_owned()
    } else {
        let mut res = decimal_text(n / 10);
        res.append(digit_text(n % 10));
        proof {
            assert(res@ =~= decimal((n / 10) as nat).push(digit((n % 10) as nat)));
        }
        res
    }
}

/// Whether `c` is one of the ten decimal digits.
pub open spec fn is_digit(c: char) -> bool {
    '0' <= c <= '9'
}

/// The number that a sequence of decimal digits stands for.
pub open spec fn digits_value(s: Seq<char>) -> nat
    decreases s.len(),
{
    if s.len() == 0 {
        0
    } else {
        digits_value(s.drop_last()) * 10 + (s.last() as nat - 48) as nat
    }
}

/// The number that `s` spells where it is made of digits only and fits in 64 bits.
pub open spec fn digits_number(s: Seq<char>) -> Option<u64> {
    if s.len() > 0 && (forall|i: int| 0 <= i < s.len() ==> is_digit(#[trigger] s[i]))
        && digits_value(s) <= u64::MAX {
        Some(digits_value(s) as u64)
    } else {
        None
    }
}

/// The unsigned number that `s` spells: an optional `+`, then digits only, within 64 bits.
pub open spec fn parsed_u64(s: Seq<char>) -> Option<u64> {
    if s.len() > 0 && s[0] == '+' {
        digits_number(s.drop_first())
    } else {
        digits_number(s)
    }
}

proof fn lemma_digits_value_grows(s: Seq<char>, k: int)
    requires
        0 <= k <= s.len(),
    ensures
        digits_value(s.take(k)) <= digits_value(s),
    decreases s.len() - k,
{
    if k < s.len() {
        lemma_digits_value_grows(s, k + 1);
        assert(s.take(k + 1).drop_last() =~= s.take(k));
    } else {
        assert(s.take(k) =~= s);
    }
}

/// Reads an unsigned decimal number with an optional leading `+`.
pub fn parse_u64(text: &str) -> (res: Option<u64>)
    ensures
        res == parsed_u64(text@),
{
    let len: usize = text.unicode_len();
    if len == 0 {
        return None;
    }
    let digits = if text.get_char(0) == '+' {
        text.substring_char(1, len)
    } else {
        text
    };
    assert(parsed_u64(text@) == digits_number(digits@)) by {
        if text@[0] == '+' {
            assert(digits@ =~= text@.drop_first());
        }
    }
    let count: usize = digits.unicode_len();
    if count == 0 {
        return None;
    }
    let mut value: u64 = 0;
    let mut i: usize = 0;
    while i < count
        invariant
            i <= count,
            count == digits@.len(),
            count > 0,
            value == digits_value(digits@.take(i as int)),
            forall|j: int| 0 <= j < i ==> is_digit(#[trigger] digits@[j]),
            parsed_u64(text@) == digits_number(digits@),
        decreases count - i,
    {
        let c = digits.get_char(i);
        if !('0' <= c && c <= '9') {
            assert(!is_digit(digits@[i as int]));
            return None;
        }
        let d: u64 = c as u64 - 48;
        proof {
            assert(digits@.take(i + 1).drop_last() =~= digits@.take(i as int));
            lemma_digits_value_grows(digits@, i + 1);
        }
        if value > (u64::MAX - d) / 10 {
            return None;
        }
        value = value * 10 + d;
        i = i + 1;
    }
    assert(digits@.take(count as int) =~= digits@);
    Some(value)
}

/// How many characters stand before the first `sep` in `s`: all of them where it has none.
pub open spec fn head_len(s: Seq<char>, sep: char) -> nat
    decreases s.len(),
{
    if s.len() == 0 || s[0] == sep {
        0
    } else {
        1 + head_len(s.drop_first(), sep)
    }
}

/// The `k`-th of the pieces that the occurrences of `sep` divide `s` into.
pub open spec fn piece(s: Seq<char>, sep: char, k: nat) -> Option<Seq<char>>
    decreases k,
{
    let n = head_len(s, sep);
    if k == 0 {
        Some(s.take(n as int))
    } else if n < s.len() {
        piece(s.skip(n as int + 1), sep, (k - 1) as nat)
    } else {
        None
    }
}

/// A count of characters other than `sep`, with `sep` or the end behind them, is the length of the
/// head.
pub proof fn lemma_head_len(s: Seq<char>, sep: char, n: nat)
    requires
        n <= s.len(),
        forall|i: int| 0 <= i < n ==> s[i] != sep,
        n < s.len() ==> s[n as int] == sep,
    ensures
        head_len(s, sep) == n,
    decreases s.len(),
{
    if n > 0 {
        let t = s.drop_first();
        assert forall|i: int| 0 <= i < n - 1 implies t[i] != sep by {
            assert(t[i] == s[i + 1]);
        }
        lemma_head_len(t, sep, (n - 1) as nat);
    }
}

/// Divides `text` at the first `sep`: what stands before it and, where there is one, what
/// follows it.
pub fn split_at_first<'a>(text: &'a str, sep: char) -> (res: (&'a str, Option<&'a str>))
    ensures
        head_len(text@, sep) <= text@.len(),
        res.0@ == text@.take(head_len(text@, sep) as int),
        res.1 is Some <==> head_len(text@, sep) < text@.len(),
        res.1 matches Some(rest) ==> rest@ == text@.skip(head_len(text@, sep) as int + 1),
{
    let len: usize = text.unicode_len();
    let mut n: usize = 0;
    while n < len && text.get_char(n) != sep
        invariant
            n <= len,
            len == text@.len(),
            forall|i: int| 0 <= i < n ==> text@[i] != sep,
        decreases len - n,
    {
        n = n + 1;
    }
    proof {
        lemma_head_len(text@, sep, n as nat);
    }
    let head = text.substring_char(0, n);
    assert(head@ =~= text@.take(n as int));
    if n < len {
        let rest = text.substring_char(n + 1, len);
        assert(rest@ =~= text@.skip(n as int + 1));
        (head, Some(rest))
    } else {
        (head, None)
    }
}

/// The first line of `s` that holds more than white space, without the white space around it.
///
/// Lines end at line feeds; a carriage return before one is white space like any other.
pub open spec fn first_nonblank_line(s: Seq<char>) -> Option<Seq<char>>
    decreases s.len(),
{
    let n = head_len(s, '\n');
    let line = trimmed(s.take(n as int));
    if line.len() > 0 {
        Some(line)
    } else if n < s.len() {
        first_nonblank_line(s.skip(n as int + 1))
    } else {
        None
    }
}

/// Finds the first line of `text` that holds more than white space.
pub fn first_printed_line(text: &str) -> (res: Option<String>)
    ensures
        res is Some <==> first_nonblank_line(text@) is Some,
        res matches Some(line) ==> Some(line@) == first_nonblank_line(text@),
{
    let mut left: &str = text;
    loop
        invariant
            first_nonblank_line(left@) == first_nonblank_line(text@),
        decreases left@.len(),
    {
        let (head, rest) = split_at_first(left, '\n');
        let line = head.trim();
        if !line.is_empty() {
            return Some(line.to_owned());
        }
        match rest {
            Some(rest) => left = rest,
            None => return None,
        }
    }
}

/// Stripping a prefix leaves none of it at the front: what is left is an end of the text that does
/// not start with the prefix, and stripping it again changes nothing.
pub proof fn law_stripping_is_thorough(s: Seq<char>, prefix: Seq<char>)
    requires
        prefix.len() > 0,
    ensures
        !prefix.is_prefix_of(strip_leading(s, prefix)),
        strip_leading(s, prefix).is_suffix_of(s),
        strip_leading(strip_leading(s, prefix), prefix) == strip_leading(s, prefix),
        !prefix.is_prefix_of(s) ==> strip_leading(s, prefix) == s,
    decreases s.len(),
{
    if prefix.is_prefix_of(s) {
        let rest = s.skip(prefix.len() as int);
        law_stripping_is_thorough(rest, prefix);
        let end = strip_leading(rest, prefix);
        assert(end =~= s.subrange(s.len() - end.len(), s.len() as int));
    } else {
        assert(s =~= s.subrange(0, s.len() as int));
    }
}

/// Writing a number and reading it back gives the number.
pub proof fn law_decimal_reads_back(n: u64)
    ensures
        parsed_u64(decimal(n as nat)) == Some(n),
{
    lemma_decimal_is_digits(n as nat);
    assert(is_digit(decimal(n as nat)[0]));
}

/// A number in decimal is made of digits, at least one of them, that stand for the number.
pub proof fn lemma_decimal_is_digits(n: nat)
    ensures
        decimal(n).len() > 0,
        forall|i: int| 0 <= i < decimal(n).len() ==> is_digit(#[trigger] decimal(n)[i]),
        digits_value(decimal(n)) == n,
    decreases n,
{
    reveal_with_fuel(digits_value, 2);
    if n < 10 {
        assert(seq![digit(n)].drop_last() =~= Seq::empty());
    } else {
        lemma_decimal_is_digits(n / 10);
        assert(decimal(n).drop_last() =~= decimal(n / 10));
    }
}

/// A text is divided at its separators: what stands before the first one is the first piece, and
/// the pieces behind it are those of what follows. Without a separator the text is its one piece.
pub proof fn law_pieces(head: Seq<char>, sep: char, rest: Seq<char>, k: nat)
    requires
        !head.contains(sep),
    ensures
        piece(head, sep, 0) == Some(head),
        piece(head, sep, k + 1) is None,
        piece(head + seq![sep] + rest, sep, 0) == Some(head),
        piece(head + seq![sep] + rest, sep, k + 1) == piece(rest, sep, k),
{
    let s = head + seq![sep] + rest;
    assert(forall|i: int| 0 <= i < head.len() ==> head.contains(#[trigger] head[i]));
    lemma_head_len(head, sep, head.len());
    assert(head.take(head.len() as int) =~= head);
    assert(forall|i: int| 0 <= i < head.len() ==> s[i] == head[i]);
    lemma_head_len(s, sep, head.len());
    assert(s.take(head.len() as int) =~= head);
    assert(s.skip(head.len() as int + 1) =~= rest);
}

/// Dividing a text and putting it together again gives the text, and what stands before the
/// separator holds none.
pub proof fn law_division_loses_nothing(
    text: &str,
    sep: char,
    head: &str,
    rest: Option<&str>,
)
    requires
        call_ensures(split_at_first, (text, sep), (head, rest)),
    ensures
        !head@.contains(sep),
        rest is None ==> head@ == text@,
        rest matches Some(rest) ==> text@ == head@ + seq![sep] + rest@,
        rest is Some <==> text@.contains(sep),
{
    lemma_head_is_free(text@, sep);
    let n = head_len(text@, sep);
    if n < text@.len() {
        assert(text@ =~= text@.take(n as int) + seq![sep] + text@.skip(n as int + 1));
        assert(text@[n as int] == sep);
    } else {
        assert(text@.take(n as int) =~= text@);
    }
}

proof fn lemma_head_is_free(s: Seq<char>, sep: char)
    ensures
        head_len(s, sep) <= s.len(),
        !s.take(head_len(s, sep) as int).contains(sep),
        head_len(s, sep) < s.len() ==> s[head_len(s, sep) as int] == sep,
    decreases s.len(),
{
    if s.len() > 0 && s[0] != sep {
        let t = s.drop_first();
        lemma_head_is_free(t, sep);
        let n = head_len(t, sep);
        let h = s.take(n as int + 1);
        if h.contains(sep) {
            let i = choose|i: int| 0 <= i < h.len() && h[i] == sep;
            assert(i > 0);
            assert(t.take(n as int)[i - 1] == sep);
        }
    }
}

/// `n` copies of `s`, one behind the other.
pub open spec fn repeated(s: Seq<char>, n: nat) -> Seq<char>
    decreases n,
{
    if n == 0 {
        Seq::empty()
    } else {
        s + repeated(s, (n - 1) as nat)
    }
}

/// Stripping takes off as many copies of the prefix as stand in front, and nothing else.
pub proof fn law_stripping_takes_off_copies_only(
    prefix: &str,
    n: nat,
    rest: Seq<char>,
    text: &str,
    res: &str,
)
    requires
        prefix@.len() > 0,
        !prefix@.is_prefix_of(rest),
        text@ == repeated(prefix@, n) + rest,
        call_ensures(strip_all_leading, (text, prefix), res),
    ensures
        res@ == rest,
{
    lemma_strip_repeated(prefix@, n, rest);
}

/// The same of the sequences of characters.
pub proof fn lemma_strip_repeated(prefix: Seq<char>, n: nat, rest: Seq<char>)
    requires
        prefix.len() > 0,
        !prefix.is_prefix_of(rest),
    ensures
        strip_leading(repeated(prefix, n) + rest, prefix) == rest,
    decreases n,
{
    if n > 0 {
        let tail = repeated(prefix, (n - 1) as nat) + rest;
        lemma_strip_repeated(prefix, (n - 1) as nat, rest);
        let s = repeated(prefix, n) + rest;
        assert(s =~= prefix + tail);
        assert(s.skip(prefix.len() as int) =~= tail);
        assert(prefix =~= s.subrange(0, prefix.len() as int));
    } else {
        assert(repeated(prefix, 0) + rest =~= rest);
    }
}

/// Decimal notation: one digit for a number below ten, and for any other the notation of its tens
/// with the digit of its ones behind.
pub proof fn law_decimal_notation(tens: nat, ones: nat)
    requires
        ones < 10,
    ensures
        decimal(ones) == seq![(48 + ones) as char],
        tens > 0 ==> decimal(10 * tens + ones) == decimal(tens).push((48 + ones) as char),
{
    if tens > 0 {
        assert((10 * tens + ones) / 10 == tens);
        assert((10 * tens + ones) % 10 == ones);
    }
}

/// Writing a number, with or without a plus in front, and reading it gives the number.
pub proof fn law_written_numbers_are_read(n: u64, written: String, text: &str, read: Option<u64>)
    requires
        call_ensures(decimal_text, (n,), written),
        text@ == written@ || text@ == seq!['+'] + written@,
        call_ensures(parse_u64, (text,), read),
    ensures
        written@ == decimal(n as nat),
        read == Some(n),
{
    law_decimal_reads_back(n);
    lemma_decimal_is_digits(n as nat);
    assert(is_digit(decimal(n as nat)[0]));
    assert((seq!['+'] + decimal(n as nat)).drop_first() =~= decimal(n as nat));
}

/// Reading goes digit by digit: behind digits that spell a number, a further digit makes it ten
/// times as large and adds its own value, up to what 64 bits hold. Anything but a digit spoils the
/// number, but for one plus in front, and without a digit there is none.
pub proof fn law_numbers_are_read_digit_by_digit(digits: Seq<char>, last: char)
    requires
        digits.len() > 0,
        forall|i: int| 0 <= i < digits.len() ==> '0' <= #[trigger] digits[i] <= '9',
    ensures
        parsed_u64(Seq::empty()) is None,
        parsed_u64(seq!['+']) is None,
        parsed_u64(seq!['+'] + digits) == parsed_u64(digits),
        '0' <= last <= '9' ==> parsed_u64(seq![last]) == Some((last as u64 - 48) as u64),
        '0' <= last <= '9' ==> parsed_u64(digits.push(last)) == (match parsed_u64(digits) {
            Some(n) => if n * 10 + (last as u64 - 48) <= u64::MAX {
                Some((n * 10 + (last as u64 - 48)) as u64)
            } else {
                None
            },
            None => None,
        }),
{
    let more = digits.push(last);
    assert(is_digit(digits[0]));
    assert((seq!['+'] + digits).drop_first() =~= digits);
    assert(seq!['+'].drop_first() =~= Seq::empty());
    reveal_with_fuel(digits_value, 2);
    assert(seq![last].drop_last() =~= Seq::empty());
    if '0' <= last <= '9' {
        assert(more.drop_last() =~= digits);
        assert(more[0] == digits[0]);
        assert(is_digit(seq![last][0]));
        assert forall|i: int| 0 <= i < more.len() implies is_digit(#[trigger] more[i]) by {
            if i < digits.len() {
                assert(more[i] == digits[i]);
            }
        }
        assert(forall|i: int| 0 <= i < digits.len() ==> is_digit(#[trigger] digits[i]));
        assert(digits_value(more) == digits_value(digits) * 10 + (last as nat - 48));
        assert(digits_number(more) == parsed_u64(more));
        assert(digits_number(digits) == parsed_u64(digits));
    }
}

/// A text with a character that is no digit is no number, but for one plus in front.
pub proof fn law_other_characters_spoil_a_number(text: &str, i: int, read: Option<u64>)
    requires
        0 <= i < text@.len(),
        !('0' <= text@[i] <= '9'),
        i > 0 || text@[0] != '+',
        call_ensures(parse_u64, (text,), read),
    ensures
        read is None,
{
    if text@[0] == '+' {
        assert(text@.drop_first()[i - 1] == text@[i]);
        assert(!is_digit(text@.drop_first()[i - 1]));
    } else {
        assert(!is_digit(text@[i]));
    }
}

/// Whether `s` is made of white space.
pub open spec fn is_blank(s: Seq<char>) -> bool {
    forall|i: int| 0 <= i < s.len() ==> is_white_space(#[trigger] s[i])
}

/// Trimming takes white space off both ends and leaves what stands between.
pub proof fn law_trimming_takes_off_white_space(before: Seq<char>, core: Seq<char>, after: Seq<char>)
    requires
        is_blank(before),
        is_blank(after),
        core.len() > 0 ==> !is_white_space(core[0]) && !is_white_space(core.last()),
    ensures
        trimmed(before + core + after) == core,
{
    let s = before + core + after;
    assert(before + core + after =~= before + (core + after));
    if core.len() > 0 {
        lemma_trimmed_start(before, core + after);
        lemma_trimmed_end(core, after);
    } else {
        assert(s =~= (before + after) + Seq::empty());
        assert(is_blank(before + after));
        lemma_trimmed_start(before + after, Seq::empty());
        assert(core =~= Seq::empty());
    }
}

proof fn lemma_trimmed_start(before: Seq<char>, rest: Seq<char>)
    requires
        is_blank(before),
        rest.len() > 0 ==> !is_white_space(rest[0]),
    ensures
        trimmed_start(before + rest) == rest,
    decreases before.len(),
{
    if before.len() > 0 {
        assert((before + rest).drop_first() =~= before.drop_first() + rest);
        assert(is_white_space(before[0]));
        assert forall|i: int| 0 <= i < before.drop_first().len() implies is_white_space(
            #[trigger] before.drop_first()[i],
        ) by {
            assert(before.drop_first()[i] == before[i + 1]);
        }
        lemma_trimmed_start(before.drop_first(), rest);
    } else {
        assert(before + rest =~= rest);
    }
}

proof fn lemma_trimmed_end(core: Seq<char>, after: Seq<char>)
    requires
        is_blank(after),
        core.len() > 0,
        !is_white_space(core.last()),
    ensures
        trimmed_end(core + after) == core,
    decreases after.len(),
{
    if after.len() > 0 {
        assert((core + after).drop_last() =~= core + after.drop_last());
        assert(is_white_space(after[after.len() - 1]));
        assert(forall|i: int|
            0 <= i < after.drop_last().len() ==> #[trigger] after.drop_last()[i] == after[i]);
        lemma_trimmed_end(core, after.drop_last());
    } else {
        assert(core + after =~= core);
    }
}

/// The first line that is not blank is found behind any number of blank lines, without the white
/// space around it, and whatever follows it makes no difference. Blank text has none.
pub proof fn law_first_line_is_found_behind_blank_ones(
    blank: Seq<char>,
    before: Seq<char>,
    core: Seq<char>,
    after: Seq<char>,
    rest: Seq<char>,
    text: &str,
    res: Option<String>,
)
    requires
        is_blank(blank) && (blank.len() > 0 ==> blank.last() == '\n'),
        is_blank(before) && !before.contains('\n'),
        is_blank(after) && !after.contains('\n'),
        core.len() > 0 && !core.contains('\n'),
        !is_white_space(core[0]) && !is_white_space(core.last()),
        call_ensures(first_printed_line, (text,), res),
    ensures
        text@ == blank + before + core + after ==> (res matches Some(line) && line@ == core),
        text@ == blank + before + core + after + seq!['\n'] + rest ==> (res matches Some(line)
            && line@ == core),
        is_blank(text@) ==> res is None,
{
    lemma_first_line_of(blank, before, core, after, rest);
    if is_blank(text@) {
        lemma_blank_has_no_line(text@);
    }
}

/// The same of the sequences of characters.
pub proof fn lemma_first_line_of(
    blank: Seq<char>,
    before: Seq<char>,
    core: Seq<char>,
    after: Seq<char>,
    rest: Seq<char>,
)
    requires
        is_blank(blank) && (blank.len() > 0 ==> blank.last() == '\n'),
        is_blank(before) && !before.contains('\n'),
        is_blank(after) && !after.contains('\n'),
        core.len() > 0 && !core.contains('\n'),
        !is_white_space(core[0]) && !is_white_space(core.last()),
    ensures
        first_nonblank_line(blank + before + core + after) == Some(core),
        first_nonblank_line(blank + before + core + after + seq!['\n'] + rest) == Some(core),
{
    let line = before + core + after;
    law_trimming_takes_off_white_space(before, core, after);
    assert(!line.contains('\n')) by {
        if line.contains('\n') {
            let i = choose|i: int| 0 <= i < line.len() && line[i] == '\n';
            if i < before.len() {
                assert(before[i] == '\n');
            } else if i < before.len() + core.len() {
                assert(core[i - before.len()] == '\n');
            } else {
                assert(after[i - before.len() - core.len()] == '\n');
            }
        }
    }
    lemma_first_line(blank, line, Seq::empty(), core);
    lemma_first_line(blank, line, seq!['\n'] + rest, core);
    assert(blank + before + core + after =~= blank + line + Seq::empty());
    assert(blank + before + core + after + seq!['\n'] + rest =~= blank + line + (seq!['\n']
        + rest));
}

proof fn lemma_first_line(blank: Seq<char>, line: Seq<char>, rest: Seq<char>, core: Seq<char>)
    requires
        is_blank(blank) && (blank.len() > 0 ==> blank.last() == '\n'),
        !line.contains('\n'),
        trimmed(line) == core,
        core.len() > 0,
        rest.len() > 0 ==> rest[0] == '\n',
    ensures
        first_nonblank_line(blank + line + rest) == Some(core),
    decreases blank.len(),
{
    let s = blank + line + rest;
    lemma_head_is_free(s, '\n');
    let n = head_len(s, '\n');
    if blank.len() == 0 {
        assert(forall|i: int| 0 <= i < line.len() ==> line.contains(#[trigger] line[i]));
        assert(forall|i: int| 0 <= i < line.len() ==> s[i] == line[i]);
        lemma_head_len(s, '\n', line.len());
        assert(s.take(line.len() as int) =~= line);
    } else {
        let k = blank.len() - 1;
        assert(s[k] == '\n');
        if n > k {
            assert(s.take(n as int)[k] == '\n');
        }
        let head = s.take(n as int);
        assert forall|i: int| 0 <= i < head.len() implies is_white_space(#[trigger] head[i]) by {
            assert(head[i] == blank[i]);
        }
        lemma_blank_trims_to_nothing(head);
        let left = blank.skip(n as int + 1);
        assert(s.skip(n as int + 1) =~= left + line + rest);
        assert forall|i: int| 0 <= i < left.len() implies is_white_space(#[trigger] left[i]) by {
            assert(left[i] == blank[i + n + 1]);
        }
        lemma_first_line(left, line, rest, core);
    }
}

proof fn lemma_blank_trims_to_nothing(s: Seq<char>)
    requires
        is_blank(s),
    ensures
        trimmed(s).len() == 0,
{
    assert(s =~= s + Seq::empty());
    lemma_trimmed_start(s, Seq::empty());
}

/// Blank text has no line that is not blank.
pub proof fn lemma_blank_has_no_line(s: Seq<char>)
    requires
        is_blank(s),
    ensures
        first_nonblank_line(s) is None,
    decreases s.len(),
{
    lemma_head_is_free(s, '\n');
    let n = head_len(s, '\n');
    let head = s.take(n as int);
    assert forall|i: int| 0 <= i < head.len() implies is_white_space(#[trigger] head[i]) by {
        assert(head[i] == s[i]);
    }
    lemma_blank_trims_to_nothing(head);
    if n < s.len() {
        let left = s.skip(n as int + 1);
        assert forall|i: int| 0 <= i < left.len() implies is_white_space(#[trigger] left[i]) by {
            assert(left[i] == s[i + n + 1]);
        }
        lemma_blank_has_no_line(left);
    }
}

} // verus!
