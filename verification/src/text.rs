//! Character-level facts and operations the rest of the library builds its text from.
use vstd::prelude::*;
use vstd::string::*;

verus! {

/// Whether `prefix` opens `text`.
pub open spec fn has_prefix(text: Seq<char>, prefix: Seq<char>) -> bool {
    prefix.len() <= text.len() && text.subrange(0, prefix.len() as int) == prefix
}

/// The characters of a string slice, one by one.
pub fn chars_of(text: &str) -> (chars: Vec<char>)
    ensures
        chars@ == text@,
{
    let mut chars: Vec<char> = Vec::new();
    for c in it: text.chars()
        invariant
            chars@ == it.seq().take(it.index() as int),
    {
        chars.push(c);
    }
    chars
}

/// Whether `text` starts with `prefix`.
pub fn starts_with(text: &str, prefix: &str) -> (found: bool)
    ensures
        found == has_prefix(text@, prefix@),
{
    let t = chars_of(text);
    let p = chars_of(prefix);
    if p.len() > t.len() {
        return false;
    }
    let mut i: usize = 0;
    while i < p.len()
        invariant
            p@ == prefix@,
            t@ == text@,
            p.len() <= t.len(),
            i <= p.len(),
            forall|j: int| 0 <= j < i ==> t@[j] == p@[j],
        decreases p.len() - i,
    {
        if t[i] != p[i] {
            assert(text@.subrange(0, prefix@.len() as int)[i as int] != prefix@[i as int]);
            return false;
        }
        i += 1;
    }
    assert(text@.subrange(0, prefix@.len() as int) =~= prefix@);
    true
}

/// An ASCII capital letter.
pub open spec fn is_upper(c: char) -> bool {
    'A' <= c && c <= 'Z'
}

/// An ASCII small letter.
pub open spec fn is_lower(c: char) -> bool {
    'a' <= c && c <= 'z'
}

/// An ASCII decimal digit.
pub open spec fn is_digit(c: char) -> bool {
    '0' <= c && c <= '9'
}

/// An ASCII letter or digit.
pub open spec fn is_alphanumeric(c: char) -> bool {
    is_upper(c) || is_lower(c) || is_digit(c)
}

/// A character with the Unicode `White_Space` property, which is what `char::is_whitespace`
/// and `str::trim` go by.
pub open spec fn is_white(c: char) -> bool {
    ||| '\u{9}' <= c && c <= '\u{d}'
    ||| c == ' '
    ||| c == '\u{85}'
    ||| c == '\u{a0}'
    ||| c == '\u{1680}'
    ||| '\u{2000}' <= c && c <= '\u{200a}'
    ||| c == '\u{2028}'
    ||| c == '\u{2029}'
    ||| c == '\u{202f}'
    ||| c == '\u{205f}'
    ||| c == '\u{3000}'
}

/// Text that trims down to nothing: every character of it is white space.
pub open spec fn is_blank(text: Seq<char>) -> bool {
    forall|i: int| 0 <= i < text.len() ==> is_white(#[trigger] text[i])
}

/// Whether one character is white space.
pub fn white(c: char) -> (found: bool)
    ensures
        found == is_white(c),
{
    ('\u{9}' <= c && c <= '\u{d}') || c == ' ' || c == '\u{85}' || c == '\u{a0}' || c == '\u{1680}'
        || ('\u{2000}' <= c && c <= '\u{200a}') || c == '\u{2028}' || c == '\u{2029}' || c == '\u{202f}'
        || c == '\u{205f}' || c == '\u{3000}'
}

/// Whether a string trims down to nothing.
pub fn blank(text: &str) -> (found: bool)
    ensures
        found == is_blank(text@),
{
    let chars = chars_of(text);
    let mut i: usize = 0;
    while i < chars.len()
        invariant
            chars@ == text@,
            i <= chars.len(),
            forall|j: int| 0 <= j < i ==> is_white(#[trigger] chars@[j]),
        decreases chars.len() - i,
    {
        if !white(chars[i]) {
            return false;
        }
        i += 1;
    }
    true
}

/// The decimal digit for a value below ten.
pub open spec fn digit(d: int) -> char {
    seq!['0', '1', '2', '3', '4', '5', '6', '7', '8', '9'][d]
}

/// A count written in decimal, without leading zeros.
pub open spec fn decimal(n: nat) -> Seq<char>
    decreases n,
{
    if n < 10 {
        seq![digit(n as int)]
    } else {
        decimal(n / 10).push(digit((n % 10) as int))
    }
}

/// A signed integer written in decimal, with a minus sign before a negative one.
pub open spec fn signed_decimal(n: int) -> Seq<char> {
    if n < 0 {
        seq!['-'] + decimal((-n) as nat)
    } else {
        decimal(n as nat)
    }
}

/// Writes an exit code in decimal.
pub fn signed_decimal_text(n: i32) -> (text: String)
    ensures
        text@ == signed_decimal(n as int),
{
    let wide: i64 = n as i64;
    if wide < 0 {
        let magnitude: usize = (0 - wide) as usize;
        let mut text = String::new();
        text.append("-");
        proof {
            reveal_strlit("-");
        }
        text.append(decimal_text(magnitude).as_str());
        text
    } else {
        decimal_text(wide as usize)
    }
}

/// Writes a count in decimal.
pub fn decimal_text(n: usize) -> (text: String)
    ensures
        text@ == decimal(n as nat),
    decreases n,
{
    let digits = "0123456789";
    proof {
        reveal_strlit("0123456789");
        assert(digits@ =~= seq!['0', '1', '2', '3', '4', '5', '6', '7', '8', '9']);
    }
    if n < 10 {
        let one = digits.substring_char(n, n + 1);
        assert(one@ =~= seq![digit(n as int)]);
        one.to_owned()
    } else {
        let mut text = decimal_text(n / 10);
        let d = n % 10;
        let one = digits.substring_char(d, d + 1);
        assert(one@ =~= seq![digit(d as int)]);
        text.append(one);
        text
    }
}

/// Adds a copy of `text` to the end of a list of strings.
pub fn push_text(list: &mut Vec<String>, text: &str)
    ensures
        texts(final(list)@) == texts(old(list)@).push(text@),
{
    let ghost before = texts(list@);
    list.push(text.to_owned());
    assert(texts(list@) =~= before.push(text@));
}

/// A new string holding `first` followed by `second`.
pub fn concat(first: &str, second: &str) -> (text: String)
    ensures
        text@ == first@ + second@,
{
    let mut text = first.to_owned();
    text.append(second);
    text
}

/// The text without the white space at its end.
pub open spec fn trimmed_end(text: Seq<char>) -> Seq<char>
    decreases text.len(),
{
    if text.len() > 0 && is_white(text.last()) {
        trimmed_end(text.drop_last())
    } else {
        text
    }
}

/// The text without the white space at its start.
pub open spec fn trimmed_start(text: Seq<char>) -> Seq<char>
    decreases text.len(),
{
    if text.len() > 0 && is_white(text[0]) {
        trimmed_start(text.drop_first())
    } else {
        text
    }
}

/// The text without white space at either end.
pub open spec fn trimmed(text: Seq<char>) -> Seq<char> {
    trimmed_start(trimmed_end(text))
}

/// A line with the carriage return of a `\r\n` ending taken off.
pub open spec fn without_return(line: Seq<char>) -> Seq<char> {
    if line.len() > 0 && line.last() == '\r' {
        line.drop_last()
    } else {
        line
    }
}

/// The lines finished so far and the text of the line still open, after some characters.
pub open spec fn line_scan(text: Seq<char>) -> (Seq<Seq<char>>, Seq<char>)
    decreases text.len(),
{
    if text.len() == 0 {
        (Seq::empty(), Seq::empty())
    } else {
        let (done, open) = line_scan(text.drop_last());
        if text.last() == '\n' {
            (done.push(without_return(open)), Seq::empty())
        } else {
            (done, open.push(text.last()))
        }
    }
}

/// The lines of a text, as `str::lines` splits it: at each `\n`, with the `\r` of a `\r\n`
/// ending dropped, and without an empty line after a final line ending.
pub open spec fn lines_of(text: Seq<char>) -> Seq<Seq<char>> {
    let (done, open) = line_scan(text);
    if open.len() > 0 { done.push(open) } else { done }
}

/// The part of a string between two character positions.
fn slice(text: &str, from: usize, to: usize) -> (part: String)
    requires
        from <= to <= text@.len(),
    ensures
        part@ == text@.subrange(from as int, to as int),
{
    text.substring_char(from, to).to_owned()
}

/// The lines of a string.
pub fn lines(text: &str) -> (found: Vec<String>)
    ensures
        texts(found@) == lines_of(text@),
{
    let chars = chars_of(text);
    let mut found: Vec<String> = Vec::new();
    let mut start: usize = 0;
    let mut i: usize = 0;
    while i < chars.len()
        invariant
            chars@ == text@,
            start <= i <= chars.len(),
            line_scan(text@.take(i as int)) == (texts(found@), text@.subrange(start as int, i as int)),
        decreases chars.len() - i,
    {
        assert(text@.take(i + 1).drop_last() =~= text@.take(i as int));
        if chars[i] == '\n' {
            let end = if i > start && chars[i - 1] == '\r' { i - 1 } else { i };
            let ghost before = texts(found@);
            found.push(slice(text, start, end));
            assert(without_return(text@.subrange(start as int, i as int)) =~= text@.subrange(start as int, end as int));
            assert(texts(found@) =~= before.push(text@.subrange(start as int, end as int)));
            start = i + 1;
            assert(text@.subrange(start as int, i + 1) =~= Seq::<char>::empty());
        } else {
            assert(text@.subrange(start as int, i + 1) =~= text@.subrange(start as int, i as int).push(text@[i as int]));
        }
        i += 1;
    }
    assert(text@.take(chars.len() as int) =~= text@);
    if start < chars.len() {
        let ghost before = texts(found@);
        found.push(slice(text, start, chars.len()));
        assert(texts(found@) =~= before.push(text@.subrange(start as int, chars.len() as int)));
    }
    found
}

/// A string without white space at either end.
pub fn trim(text: &str) -> (result: String)
    ensures
        result@ == trimmed(text@),
{
    let end = trim_end(text);
    let chars = chars_of(end.as_str());
    let mut k: usize = 0;
    assert(end@.subrange(0, chars.len() as int) =~= end@);
    while k < chars.len() && white(chars[k])
        invariant
            chars@ == end@,
            k <= chars.len(),
            trimmed_start(end@.subrange(k as int, chars.len() as int)) == trimmed_start(end@),
        decreases chars.len() - k,
    {
        assert(end@.subrange(k as int, chars.len() as int).drop_first() =~= end@.subrange(k + 1, chars.len() as int));
        k += 1;
    }
    slice(end.as_str(), k, chars.len())
}

/// A string without the white space at its end.
pub fn trim_end(text: &str) -> (result: String)
    ensures
        result@ == trimmed_end(text@),
{
    let chars = chars_of(text);
    let mut k: usize = chars.len();
    assert(text@.take(k as int) =~= text@);
    while k > 0 && white(chars[k - 1])
        invariant
            chars@ == text@,
            k <= chars.len(),
            trimmed_end(text@.take(k as int)) == trimmed_end(text@),
        decreases k,
    {
        assert(text@.take(k as int).drop_last() =~= text@.take(k - 1));
        k -= 1;
    }
    assert(text@.take(k as int) =~= text@.subrange(0, k as int));
    slice(text, 0, k)
}

/// Whether two strings hold the same text.
pub fn same(left: &str, right: &str) -> (equal: bool)
    ensures
        equal == (left@ == right@),
{
    let l = chars_of(left);
    let r = chars_of(right);
    if l.len() != r.len() {
        return false;
    }
    let mut i: usize = 0;
    while i < l.len()
        invariant
            l@ == left@,
            r@ == right@,
            l.len() == r.len(),
            i <= l.len(),
            forall|j: int| 0 <= j < i ==> l@[j] == r@[j],
        decreases l.len() - i,
    {
        if l[i] != r[i] {
            return false;
        }
        i += 1;
    }
    assert(left@ =~= right@);
    true
}

/// `text` with every `from` written as `to`.
pub open spec fn replaced(text: Seq<char>, from: char, to: Seq<char>) -> Seq<char>
    decreases text.len(),
{
    if text.len() == 0 {
        Seq::empty()
    } else {
        replaced(text.drop_last(), from, to) + if text.last() == from { to } else { seq![text.last()] }
    }
}

/// Writes every `from` in `text` as `to`.
pub fn replace_char(text: &str, from: char, to: &str) -> (result: String)
    ensures
        result@ == replaced(text@, from, to@),
{
    let chars = chars_of(text);
    let mut result = String::new();
    let mut i: usize = 0;
    while i < chars.len()
        invariant
            chars@ == text@,
            i <= chars.len(),
            result@ == replaced(text@.take(i as int), from, to@),
        decreases chars.len() - i,
    {
        assert(text@.take(i + 1).drop_last() =~= text@.take(i as int));
        if chars[i] == from {
            result.append(to);
        } else {
            let one = text.substring_char(i, i + 1);
            assert(one@ =~= seq![text@[i as int]]);
            result.append(one);
        }
        i += 1;
    }
    assert(text@.take(chars.len() as int) =~= text@);
    result
}

/// The pieces of `list`, with `separator` between each two neighbours.
pub open spec fn seq_join(list: Seq<Seq<char>>, separator: Seq<char>) -> Seq<char>
    decreases list.len(),
{
    if list.len() == 0 {
        Seq::empty()
    } else if list.len() == 1 {
        list[0]
    } else {
        seq_join(list.drop_last(), separator) + separator + list.last()
    }
}

/// Joining a list with one more text at its end adds the separator and the text.
pub proof fn lemma_join_push(list: Seq<Seq<char>>, last: Seq<char>, separator: Seq<char>)
    ensures
        seq_join(list.push(last), separator) == if list.len() == 0 {
            last
        } else {
            seq_join(list, separator) + separator + last
        },
{
    assert(list.push(last).drop_last() =~= list);
}

/// Joining a list with one more text at its start puts the text and a separator before the rest.
pub proof fn lemma_join_first(first: Seq<char>, rest: Seq<Seq<char>>, separator: Seq<char>)
    ensures
        seq_join(seq![first] + rest, separator) == if rest.len() == 0 {
            first
        } else {
            first + separator + seq_join(rest, separator)
        },
    decreases rest.len(),
{
    if rest.len() == 0 {
        assert(seq![first] + rest =~= seq![first]);
    } else {
        let shorter = rest.drop_last();
        lemma_join_first(first, shorter, separator);
        assert(seq![first] + rest =~= (seq![first] + shorter).push(rest.last()));
        lemma_join_push(seq![first] + shorter, rest.last(), separator);
        assert(rest =~= shorter.push(rest.last()));
        lemma_join_push(shorter, rest.last(), separator);
        if shorter.len() == 0 {
        } else {
            assert(first + separator + seq_join(shorter, separator) + separator + rest.last() =~= first + separator
                + (seq_join(shorter, separator) + separator + rest.last()));
        }
    }
}

/// The text of every string in a list.
pub open spec fn texts(list: Seq<String>) -> Seq<Seq<char>> {
    list.map_values(|s: String| s@)
}

/// Joins strings with a separator between each two neighbours.
pub fn join(list: &Vec<String>, separator: &str) -> (joined: String)
    ensures
        joined@ == seq_join(texts(list@), separator@),
{
    let mut joined = String::new();
    let ghost all = texts(list@);
    let mut i: usize = 0;
    while i < list.len()
        invariant
            i <= list.len(),
            all == texts(list@),
            joined@ == seq_join(all.take(i as int), separator@),
        decreases list.len() - i,
    {
        assert(all.take(i + 1).drop_last() =~= all.take(i as int));
        if i != 0 {
            joined.append(separator);
        }
        joined.append(list[i].as_str());
        i += 1;
    }
    assert(all.take(list.len() as int) =~= all);
    joined
}

/// A new string holding `first`, a space, and `second`.
pub fn spaced(first: &str, second: &str) -> (text: String)
    ensures
        text@ == first@ + seq![' '] + second@,
{
    let mut text = first.to_owned();
    let space = " ";
    proof {
        reveal_strlit(" ");
    }
    text.append(space);
    text.append(second);
    text
}

} // verus!
