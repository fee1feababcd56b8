//! Text primitives shared by the rest of the library.
//!
//! Strings are reasoned about through their view, a `Seq<char>`. The functions
//! here are either proved against a short mathematical statement of what they
//! compute, or, in one case, hand a value to the standard library under a
//! stated contract.
use vstd::prelude::*;
use vstd::string::*;

verus! {

/// The views of a sequence of strings.
pub open spec fn texts(items: Seq<String>) -> Seq<Seq<char>> {
    items.map_values(|s: String| s@)
}

/// `parts` with `sep` between each two neighbours.
pub open spec fn joined(parts: Seq<Seq<char>>, sep: Seq<char>) -> Seq<char>
    decreases parts.len(),
{
    if parts.len() == 0 {
        Seq::empty()
    } else if parts.len() == 1 {
        parts[0]
    } else {
        joined(parts.drop_last(), sep) + sep + parts.last()
    }
}

/// Whether `needle` stands in `hay` at offset `at`.
pub open spec fn occurs_at(hay: Seq<char>, at: int, needle: Seq<char>) -> bool {
    0 <= at && at + needle.len() <= hay.len() && hay.subrange(at, at + needle.len()) == needle
}

/// `s` with every occurrence of `from` replaced by `to`, scanning from the
/// left and never looking back into text already replaced. An empty `from`
/// leaves `s` unchanged.
pub open spec fn replaced(s: Seq<char>, from: Seq<char>, to: Seq<char>) -> Seq<char>
    decreases s.len(),
{
    if from.len() == 0 || s.len() < from.len() {
        s
    } else if occurs_at(s, 0, from) {
        to + replaced(s.skip(from.len() as int), from, to)
    } else {
        seq![s[0]] + replaced(s.skip(1), from, to)
    }
}

/// Builds a `String` out of its characters with `String::from_iter`: the
/// result holds exactly the characters of `chars`, in order.
#[verifier::external_body]
pub(crate) fn from_chars(chars: &Vec<char>) -> (s: String)
    ensures
        s@ == chars@,
{
    String::from_iter(chars.iter())
}

/// The characters of `s`.
pub fn to_chars(s: &str) -> (chars: Vec<char>)
    ensures
        chars@ == s@,
{
    let mut chars: Vec<char> = Vec::new();
    for c in it: s.chars()
        invariant
            chars@ == s@.take(it.index() as int),
            it.seq() == s@,
    {
        chars.push(c);
    }
    chars
}

/// Equality of the encodings is equality of the texts.
proof fn lemma_same_bytes_same_text(a: Seq<char>, b: Seq<char>)
    requires
        vstd::utf8::encode_utf8(a) == vstd::utf8::encode_utf8(b),
    ensures
        a == b,
{
    vstd::utf8::encode_utf8_decode_utf8(a);
    vstd::utf8::encode_utf8_decode_utf8(b);
}

/// Whether two strings hold the same text.
pub fn str_eq(a: &str, b: &str) -> (same: bool)
    ensures
        same == (a@ == b@),
{
    let x = a.as_bytes();
    let y = b.as_bytes();
    if x.len() != y.len() {
        return false;
    }
    let n = x.len();
    let mut i: usize = 0;
    while i < n
        invariant
            i <= n,
            n == x@.len(),
            n == y@.len(),
            x@ == a.spec_bytes(),
            y@ == b.spec_bytes(),
            forall|k: int| 0 <= k < i ==> x@[k] == y@[k],
        decreases n - i,
    {
        if x[i] != y[i] {
            return false;
        }
        i += 1;
    }
    proof {
        assert(x@ =~= y@);
        lemma_same_bytes_same_text(a@, b@);
    }
    true
}

/// `a` followed by `b`.
pub fn concat(a: &str, b: &str) -> (s: String)
    ensures
        s@ == a@ + b@,
{
    let mut s = String::from_str(a);
    s.append(b);
    s
}

/// `a`, `b` and `c` in a row.
pub fn concat3(a: &str, b: &str, c: &str) -> (s: String)
    ensures
        s@ == a@ + b@ + c@,
{
    let mut s = String::from_str(a);
    s.append(b);
    s.append(c);
    s
}

/// Whether `list` holds a string with the text of `item`.
pub fn contains_text(list: &Vec<String>, item: &str) -> (found: bool)
    ensures
        found == texts(list@).contains(item@),
{
    let mut i: usize = 0;
    while i < list.len()
        invariant
            i <= list.len(),
            forall|k: int| 0 <= k < i ==> texts(list@)[k] != item@,
        decreases list.len() - i,
    {
        if str_eq(list[i].as_str(), item) {
            assert(texts(list@)[i as int] == item@);
            return true;
        }
        i += 1;
    }
    false
}

/// The strings of `parts` in a row, with `sep` between each two.
pub fn join(parts: &Vec<String>, sep: &str) -> (s: String)
    ensures
        s@ == joined(texts(parts@), sep@),
{
    let mut s = String::new();
    let mut i: usize = 0;
    while i < parts.len()
        invariant
            i <= parts.len(),
            s@ == joined(texts(parts@).take(i as int), sep@),
        decreases parts.len() - i,
    {
        let ghost before = texts(parts@).take(i as int);
        let ghost after = texts(parts@).take(i + 1);
        proof {
            assert(after.drop_last() =~= before);
        }
        if i > 0 {
            s.append(sep);
        }
        s.append(parts[i].as_str());
        i += 1;
    }
    proof {
        assert(texts(parts@).take(parts.len() as int) =~= texts(parts@));
    }
    s
}

/// Whether `needle` stands in `hay` at offset `at`.
fn chars_occur_at(hay: &Vec<char>, at: usize, needle: &Vec<char>) -> (found: bool)
    ensures
        found == occurs_at(hay@, at as int, needle@),
{
    if needle.len() > hay.len() || at > hay.len() - needle.len() {
        return false;
    }
    let mut k: usize = 0;
    while k < needle.len()
        invariant
            k <= needle.len(),
            at + needle.len() <= hay.len(),
            forall|j: int| 0 <= j < k ==> hay@[at + j] == needle@[j],
        decreases needle.len() - k,
    {
        if hay[at + k] != needle[k] {
            return false;
        }
        k += 1;
    }
    assert(hay@.subrange(at as int, at + needle.len()) =~= needle@);
    true
}

/// `s` with every occurrence of `from` replaced by `to`.
pub fn replace(s: &str, from: &str, to: &str) -> (out: String)
    ensures
        out@ == replaced(s@, from@, to@),
{
    let hay = to_chars(s);
    let needle = to_chars(from);
    let with = to_chars(to);
    if needle.len() == 0 {
        return String::from_str(s);
    }
    let mut out: Vec<char> = Vec::new();
    let mut i: usize = 0;
    proof {
        assert(hay@.skip(0) =~= hay@);
    }
    while i < hay.len()
        invariant
            i <= hay.len(),
            needle.len() > 0,
            out@ + replaced(hay@.skip(i as int), needle@, with@) == replaced(
                hay@,
                needle@,
                with@,
            ),
        decreases hay.len() - i,
    {
        let ghost rest = hay@.skip(i as int);
        if chars_occur_at(&hay, i, &needle) {
            proof {
                assert(rest.subrange(0, needle.len() as int) =~= hay@.subrange(
                    i as int,
                    i + needle.len(),
                ));
                assert(rest.skip(needle.len() as int) =~= hay@.skip(i + needle.len()));
            }
            let mut k: usize = 0;
            let ghost start = out@;
            while k < with.len()
                invariant
                    k <= with.len(),
                    out@ == start + with@.take(k as int),
                decreases with.len() - k,
            {
                out.push(with[k]);
                k += 1;
            }
            i += needle.len();
        } else {
            proof {
                if rest.len() >= needle.len() {
                    assert(rest.subrange(0, needle.len() as int) =~= hay@.subrange(
                        i as int,
                        i + needle.len(),
                    ));
                }
                assert(rest.skip(1) =~= hay@.skip(i + 1));
            }
            out.push(hay[i]);
            i += 1;
        }
    }
    from_chars(&out)
}

/// The character that stands for the digit `d`.
pub open spec fn digit_char(d: int) -> char {
    if d == 0 {
        '0'
    } else if d == 1 {
        '1'
    } else if d == 2 {
        '2'
    } else if d == 3 {
        '3'
    } else if d == 4 {
        '4'
    } else if d == 5 {
        '5'
    } else if d == 6 {
        '6'
    } else if d == 7 {
        '7'
    } else if d == 8 {
        '8'
    } else {
        '9'
    }
}

/// The digit that `c` stands for, if it is one of `0` to `9`.
pub open spec fn digit_value(c: char) -> Option<int> {
    if c == '0' {
        Some(0)
    } else if c == '1' {
        Some(1)
    } else if c == '2' {
        Some(2)
    } else if c == '3' {
        Some(3)
    } else if c == '4' {
        Some(4)
    } else if c == '5' {
        Some(5)
    } else if c == '6' {
        Some(6)
    } else if c == '7' {
        Some(7)
    } else if c == '8' {
        Some(8)
    } else if c == '9' {
        Some(9)
    } else {
        None
    }
}

/// A natural number in decimal, without leading zeros.
pub open spec fn decimal(n: nat) -> Seq<char>
    decreases n,
{
    if n < 10 {
        seq![digit_char(n as int)]
    } else {
        decimal(n / 10).push(digit_char((n % 10) as int))
    }
}

/// An integer in decimal, with a minus sign before a negative one.
pub open spec fn signed_decimal(n: int) -> Seq<char> {
    if n < 0 {
        seq!['-'] + decimal((-n) as nat)
    } else {
        decimal(n as nat)
    }
}

/// The number that a row of digits stands for; `None` where the row is empty
/// or holds anything but digits.
pub open spec fn digits_value(digits: Seq<char>) -> Option<nat>
    decreases digits.len(),
{
    if digits.len() == 0 {
        None
    } else if digits.len() == 1 {
        match digit_value(digits[0]) {
            Some(d) => Some(d as nat),
            None => None,
        }
    } else {
        match (digits_value(digits.drop_last()), digit_value(digits.last())) {
            (Some(high), Some(d)) => Some((high * 10 + d) as nat),
            _ => None,
        }
    }
}

/// The unsigned 32-bit number that `s` stands for: an optional `+`, then
/// digits only, at least one, and a value that fits.
pub open spec fn parsed_u32(s: Seq<char>) -> Option<u32> {
    let digits = if s.len() > 0 && s[0] == '+' {
        s.skip(1)
    } else {
        s
    };
    match digits_value(digits) {
        Some(value) => if value <= u32::MAX {
            Some(value as u32)
        } else {
            None
        },
        None => None,
    }
}

fn digit_of(d: u64) -> (c: char)
    requires
        d < 10,
    ensures
        c == digit_char(d as int),
{
    if d == 0 {
        '0'
    } else if d == 1 {
        '1'
    } else if d == 2 {
        '2'
    } else if d == 3 {
        '3'
    } else if d == 4 {
        '4'
    } else if d == 5 {
        '5'
    } else if d == 6 {
        '6'
    } else if d == 7 {
        '7'
    } else if d == 8 {
        '8'
    } else {
        '9'
    }
}

fn value_of_digit(c: char) -> (d: Option<u64>)
    ensures
        match d {
            Some(v) => digit_value(c) == Some(v as int) && v < 10,
            None => digit_value(c) is None,
        },
{
    if c == '0' {
        Some(0)
    } else if c == '1' {
        Some(1)
    } else if c == '2' {
        Some(2)
    } else if c == '3' {
        Some(3)
    } else if c == '4' {
        Some(4)
    } else if c == '5' {
        Some(5)
    } else if c == '6' {
        Some(6)
    } else if c == '7' {
        Some(7)
    } else if c == '8' {
        Some(8)
    } else if c == '9' {
        Some(9)
    } else {
        None
    }
}

fn push_decimal(n: u64, out: &mut Vec<char>)
    ensures
        final(out)@ == old(out)@ + decimal(n as nat),
    decreases n,
{
    if n >= 10 {
        push_decimal(n / 10, out);
    }
    out.push(digit_of(n % 10));
}

/// `n` in decimal.
pub fn u32_to_string(n: u32) -> (s: String)
    ensures
        s@ == decimal(n as nat),
{
    let mut out: Vec<char> = Vec::new();
    push_decimal(n as u64, &mut out);
    from_chars(&out)
}

/// `n` in decimal, with a minus sign before a negative number.
pub fn i32_to_string(n: i32) -> (s: String)
    ensures
        s@ == signed_decimal(n as int),
{
    let mut out: Vec<char> = Vec::new();
    if n < 0 {
        out.push('-');
        let magnitude: u64 = (-(n as i64)) as u64;
        push_decimal(magnitude, &mut out);
    } else {
        push_decimal(n as u64, &mut out);
    }
    from_chars(&out)
}

/// A row that begins with something that is no number is no number.
proof fn lemma_digits_value_prefix(digits: Seq<char>, k: int)
    requires
        0 < k <= digits.len(),
        digits_value(digits.take(k)) is None,
    ensures
        digits_value(digits) is None,
    decreases digits.len() - k,
{
    if k < digits.len() {
        assert(digits.take(k + 1).drop_last() =~= digits.take(k));
        lemma_digits_value_prefix(digits, k + 1);
    } else {
        assert(digits.take(k) =~= digits);
    }
}

/// Once a prefix is worth more than `bound`, so is the whole row.
proof fn lemma_digits_value_grows(digits: Seq<char>, k: int, bound: nat)
    requires
        0 < k <= digits.len(),
        digits_value(digits.take(k)) matches Some(v) && v > bound,
    ensures
        digits_value(digits) matches Some(v) ==> v > bound,
    decreases digits.len() - k,
{
    if k < digits.len() {
        assert(digits.take(k + 1).drop_last() =~= digits.take(k));
        match digits_value(digits.take(k + 1)) {
            Some(v) => {
                lemma_digits_value_grows(digits, k + 1, bound);
            },
            None => {
                lemma_digits_value_prefix(digits, k + 1);
            },
        }
    } else {
        assert(digits.take(k) =~= digits);
    }
}

/// Reads an unsigned 32-bit number.
pub fn parse_u32(s: &str) -> (r: Option<u32>)
    ensures
        r == parsed_u32(s@),
{
    let chars = to_chars(s);
    let start: usize = if chars.len() > 0 && chars[0] == '+' {
        1
    } else {
        0
    };
    let ghost digits = chars@.skip(start as int);
    proof {
        assert(chars@.skip(0) =~= chars@);
    }
    if start == chars.len() {
        return None;
    }
    let mut value: u64 = 0;
    let mut i: usize = start;
    while i < chars.len()
        invariant
            start <= i <= chars.len(),
            start < chars.len(),
            chars@ == s@,
            digits == chars@.skip(start as int),
            start == 1 <==> (s@.len() > 0 && s@[0] == '+'),
            start == 0 || start == 1,
            value <= u32::MAX,
            i > start ==> digits_value(digits.take(i - start)) == Some(value as nat),
            i == start ==> value == 0,
        decreases chars.len() - i,
    {
        let ghost k = i - start;
        proof {
            assert(digits.take(k + 1).drop_last() =~= digits.take(k));
        }
        match value_of_digit(chars[i]) {
            Some(d) => {
                let next = value * 10 + d;
                if next > u32::MAX as u64 {
                    proof {
                        lemma_digits_value_grows(digits, k + 1, u32::MAX as nat);
                        assert(s@.skip(0) =~= s@);
                    }
                    return None;
                }
                value = next;
            },
            None => {
                proof {
                    lemma_digits_value_prefix(digits, k + 1);
                    assert(s@.skip(0) =~= s@);
                }
                return None;
            },
        }
        i += 1;
    }
    proof {
        assert(digits.take(chars.len() - start) =~= digits);
    }
    Some(value as u32)
}

/// The offset of the first `c` in `s`, or the length of `s` if it holds none.
pub open spec fn offset_of(s: Seq<char>, c: char) -> int
    decreases s.len(),
{
    if s.len() == 0 || s[0] == c {
        0
    } else {
        1 + offset_of(s.skip(1), c)
    }
}

/// `line` without one carriage return at its end.
pub open spec fn without_cr(line: Seq<char>) -> Seq<char> {
    if line.len() > 0 && line.last() == '\r' {
        line.drop_last()
    } else {
        line
    }
}

/// The lines of `s`. A line ends at a line feed, which is not part of it, nor
/// is a carriage return just before that line feed. What follows the last line
/// feed is a line too, unless it is empty.
pub open spec fn lines_of(s: Seq<char>) -> Seq<Seq<char>>
    decreases s.len(),
{
    if s.len() == 0 {
        Seq::empty()
    } else {
        let end = offset_of(s, '\n');
        if end >= s.len() {
            seq![s]
        } else {
            proof {
                lemma_offset_of(s, '\n');
            }
            seq![without_cr(s.take(end))] + lines_of(s.skip(end + 1))
        }
    }
}

/// The first `c` stands inside the text, and no `c` stands before it.
pub proof fn lemma_offset_of(s: Seq<char>, c: char)
    ensures
        0 <= offset_of(s, c) <= s.len(),
        offset_of(s, c) < s.len() ==> s[offset_of(s, c)] == c,
        forall|k: int| 0 <= k < offset_of(s, c) ==> s[k] != c,
    decreases s.len(),
{
    if s.len() > 0 && s[0] != c {
        lemma_offset_of(s.skip(1), c);
        assert forall|k: int| 0 <= k < offset_of(s, c) implies s[k] != c by {
            if k > 0 {
                assert(s[k] == s.skip(1)[k - 1]);
            }
        }
    }
}

/// The first `c` of `s` stands at `end` if a `c` stands there and none
/// before.
proof fn lemma_offset_is(s: Seq<char>, c: char, end: int)
    requires
        0 <= end <= s.len(),
        end < s.len() ==> s[end] == c,
        forall|k: int| 0 <= k < end ==> s[k] != c,
    ensures
        offset_of(s, c) == end,
    decreases s.len(),
{
    if end > 0 {
        lemma_offset_is(s.skip(1), c, end - 1);
    }
}

/// The lines of `s`.
pub fn lines(s: &str) -> (out: Vec<String>)
    ensures
        texts(out@) == lines_of(s@),
{
    let chars = to_chars(s);
    let mut out: Vec<String> = Vec::new();
    let mut start: usize = 0;
    proof {
        assert(chars@.skip(0) =~= chars@);
    }
    while start < chars.len()
        invariant
            start <= chars.len(),
            texts(out@) + lines_of(chars@.skip(start as int)) == lines_of(chars@),
        decreases chars.len() - start,
    {
        let ghost rest = chars@.skip(start as int);
        let mut end: usize = start;
        while end < chars.len() && chars[end] != '\n'
            invariant
                start <= end <= chars.len(),
                forall|k: int| start <= k < end ==> chars@[k] != '\n',
            decreases chars.len() - end,
        {
            end += 1;
        }
        proof {
            lemma_offset_is(rest, '\n', end - start);
        }
        let whole = end == chars.len();
        let stop: usize = if !whole && end > start && chars[end - 1] == '\r' {
            (end - 1) as usize
        } else {
            end
        };
        let line = copy_range(&chars, start, stop);
        out.push(line);
        proof {
            if !whole {
                assert(line@ =~= without_cr(rest.take(end - start)));
                assert(rest.skip(end - start + 1) =~= chars@.skip(end + 1));
            }
        }
        start = if whole {
            end
        } else {
            end + 1
        };
    }
    out
}

/// Whether `needle` stands somewhere in `hay`.
pub open spec fn is_substring(hay: Seq<char>, needle: Seq<char>) -> bool {
    exists|at: int| #[trigger] occurs_at(hay, at, needle)
}

/// Whether `needle` stands somewhere in `hay`.
pub fn contains(hay: &str, needle: &str) -> (found: bool)
    ensures
        found == is_substring(hay@, needle@),
{
    let text = to_chars(hay);
    let pattern = to_chars(needle);
    if pattern.len() > text.len() {
        return false;
    }
    let last = text.len() - pattern.len();
    let mut at: usize = 0;
    loop
        invariant
            at <= last,
            last == text.len() - pattern.len(),
            pattern.len() <= text.len(),
            text@ == hay@,
            pattern@ == needle@,
            forall|k: int| 0 <= k < at ==> !#[trigger] occurs_at(text@, k, pattern@),
        decreases last - at,
    {
        if chars_occur_at(&text, at, &pattern) {
            return true;
        }
        if at == last {
            return false;
        }
        at += 1;
    }
}

/// Whether `s` begins with `prefix`.
pub fn starts_with(s: &str, prefix: &str) -> (found: bool)
    ensures
        found == occurs_at(s@, 0, prefix@),
{
    let text = to_chars(s);
    let pattern = to_chars(prefix);
    chars_occur_at(&text, 0, &pattern)
}

/// The pieces of `s` between its occurrences of `sep`: one more piece than
/// there are occurrences, some of them empty perhaps.
pub open spec fn split_on(s: Seq<char>, sep: char) -> Seq<Seq<char>>
    decreases s.len(),
{
    let end = offset_of(s, sep);
    if end >= s.len() {
        seq![s]
    } else {
        proof {
            lemma_offset_of(s, sep);
        }
        seq![s.take(end)] + split_on(s.skip(end + 1), sep)
    }
}

fn copy_range(chars: &Vec<char>, from: usize, to: usize) -> (s: String)
    requires
        from <= to <= chars.len(),
    ensures
        s@ == chars@.subrange(from as int, to as int),
{
    let mut piece: Vec<char> = Vec::new();
    let mut k: usize = from;
    while k < to
        invariant
            from <= k <= to <= chars.len(),
            piece@ == chars@.subrange(from as int, k as int),
        decreases to - k,
    {
        piece.push(chars[k]);
        k += 1;
    }
    from_chars(&piece)
}

/// The pieces of `s` between its occurrences of `sep`.
pub fn split(s: &str, sep: char) -> (pieces: Vec<String>)
    ensures
        texts(pieces@) == split_on(s@, sep),
        pieces@.len() >= 1,
{
    let chars = to_chars(s);
    let mut pieces: Vec<String> = Vec::new();
    let mut start: usize = 0;
    proof {
        assert(chars@.skip(0) =~= chars@);
    }
    loop
        invariant
            start <= chars.len(),
            texts(pieces@) + split_on(chars@.skip(start as int), sep) == split_on(chars@, sep),
            chars@ == s@,
        decreases chars.len() - start,
    {
        let ghost rest = chars@.skip(start as int);
        let mut end: usize = start;
        while end < chars.len() && chars[end] != sep
            invariant
                start <= end <= chars.len(),
                forall|k: int| start <= k < end ==> chars@[k] != sep,
            decreases chars.len() - end,
        {
            end += 1;
        }
        proof {
            lemma_offset_is(rest, sep, end - start);
        }
        let piece = copy_range(&chars, start, end);
        pieces.push(piece);
        if end == chars.len() {
            return pieces;
        }
        proof {
            assert(rest.take(end - start) =~= chars@.subrange(start as int, end as int));
            assert(rest.skip(end - start + 1) =~= chars@.skip(end + 1));
        }
        start = end + 1;
    }
}

/// Whether `c` is white space: a character with the Unicode property
/// `White_Space`.
pub open spec fn is_space(c: char) -> bool {
    let code = c as u32;
    ||| 0x09 <= code <= 0x0d
    ||| code == 0x20
    ||| code == 0x85
    ||| code == 0xa0
    ||| code == 0x1680
    ||| 0x2000 <= code <= 0x200a
    ||| code == 0x2028
    ||| code == 0x2029
    ||| code == 0x202f
    ||| code == 0x205f
    ||| code == 0x3000
}

/// Whether `c` is white space.
pub fn is_whitespace(c: char) -> (space: bool)
    ensures
        space == is_space(c),
{
    let code = c as u32;
    (0x09 <= code && code <= 0x0d) || code == 0x20 || code == 0x85 || code == 0xa0 || code
        == 0x1680 || (0x2000 <= code && code <= 0x200a) || code == 0x2028 || code == 0x2029 || code
        == 0x202f || code == 0x205f || code == 0x3000
}

/// What is taken off the ends of a text: white space, or one given character.
#[derive(Debug, Clone, Copy, PartialEq, Eq, Structural)]
pub enum Strip {
    Space,
    Char(char),
}

impl Strip {
    /// Whether `c` is taken off.
    pub open spec fn takes(self, c: char) -> bool {
        match self {
            Strip::Space => is_space(c),
            Strip::Char(given) => c == given,
        }
    }

    fn test(&self, c: char) -> (taken: bool)
        ensures
            taken == self.takes(c),
    {
        match self {
            Strip::Space => is_whitespace(c),
            Strip::Char(given) => c == *given,
        }
    }
}

/// `s` without the characters that `strip` takes at its start.
pub open spec fn stripped_start(s: Seq<char>, strip: Strip) -> Seq<char>
    decreases s.len(),
{
    if s.len() > 0 && strip.takes(s[0]) {
        stripped_start(s.skip(1), strip)
    } else {
        s
    }
}

/// `s` without the characters that `strip` takes at its end.
pub open spec fn stripped_end(s: Seq<char>, strip: Strip) -> Seq<char>
    decreases s.len(),
{
    if s.len() > 0 && strip.takes(s.last()) {
        stripped_end(s.drop_last(), strip)
    } else {
        s
    }
}

/// `s` without the characters that `strip` takes at its start and at its end.
pub open spec fn stripped(s: Seq<char>, strip: Strip) -> Seq<char> {
    stripped_end(stripped_start(s, strip), strip)
}

/// `s` without white space at its start and at its end.
pub open spec fn trimmed(s: Seq<char>) -> Seq<char> {
    stripped(s, Strip::Space)
}

fn strip_chars(chars: &Vec<char>, strip: Strip) -> (s: String)
    ensures
        s@ == stripped(chars@, strip),
{
    let mut from: usize = 0;
    proof {
        assert(chars@.skip(0) =~= chars@);
    }
    while from < chars.len() && strip.test(chars[from])
        invariant
            from <= chars.len(),
            stripped_start(chars@, strip) == stripped_start(chars@.skip(from as int), strip),
        decreases chars.len() - from,
    {
        proof {
            assert(chars@.skip(from as int).skip(1) =~= chars@.skip(from + 1));
        }
        from += 1;
    }
    let mut to: usize = chars.len();
    while to > from && strip.test(chars[to - 1])
        invariant
            from <= to <= chars.len(),
            stripped(chars@, strip) == stripped_end(
                chars@.subrange(from as int, to as int),
                strip,
            ),
        decreases to - from,
    {
        proof {
            assert(chars@.subrange(from as int, to as int).drop_last() =~= chars@.subrange(
                from as int,
                to - 1,
            ));
        }
        to -= 1;
    }
    copy_range(chars, from, to)
}

/// `s` without white space at its start and at its end.
pub fn trim(s: &str) -> (out: String)
    ensures
        out@ == trimmed(s@),
{
    let chars = to_chars(s);
    strip_chars(&chars, Strip::Space)
}

/// `s` without the character `c` at its start and at its end, however often
/// it stands there.
pub fn trim_matches(s: &str, c: char) -> (out: String)
    ensures
        out@ == stripped(s@, Strip::Char(c)),
{
    let chars = to_chars(s);
    strip_chars(&chars, Strip::Char(c))
}

/// The length of the first word of `s`: the offset of its first white space,
/// or the length of `s` if it holds none.
pub open spec fn word_end(s: Seq<char>) -> int
    decreases s.len(),
{
    if s.len() == 0 || is_space(s[0]) {
        0
    } else {
        1 + word_end(s.skip(1))
    }
}

/// A word ends inside the text.
pub proof fn lemma_word_end(s: Seq<char>)
    ensures
        0 <= word_end(s) <= s.len(),
        s.len() > 0 && !is_space(s[0]) ==> word_end(s) >= 1,
    decreases s.len(),
{
    if s.len() > 0 && !is_space(s[0]) {
        lemma_word_end(s.skip(1));
    }
}

/// Taking white space off the start never makes a text longer.
pub proof fn lemma_stripped_start_len(s: Seq<char>, strip: Strip)
    ensures
        stripped_start(s, strip).len() <= s.len(),
        stripped_start(s, strip).len() > 0 ==> !strip.takes(stripped_start(s, strip)[0]),
    decreases s.len(),
{
    if s.len() > 0 && strip.takes(s[0]) {
        lemma_stripped_start_len(s.skip(1), strip);
    }
}

/// The words of `s`: its longest runs of characters that are not white space,
/// in order.
pub open spec fn words_of(s: Seq<char>) -> Seq<Seq<char>>
    decreases s.len(),
{
    let rest = stripped_start(s, Strip::Space);
    if rest.len() == 0 {
        Seq::empty()
    } else {
        proof {
            lemma_stripped_start_len(s, Strip::Space);
            lemma_word_end(rest);
        }
        let end = word_end(rest);
        seq![rest.take(end)] + words_of(rest.skip(end))
    }
}

proof fn lemma_word_end_is(s: Seq<char>, end: int)
    requires
        0 <= end <= s.len(),
        end < s.len() ==> is_space(s[end]),
        forall|k: int| 0 <= k < end ==> !is_space(s[k]),
    ensures
        word_end(s) == end,
    decreases s.len(),
{
    if end > 0 {
        lemma_word_end_is(s.skip(1), end - 1);
    }
}

/// The words of `s`.
pub fn words(s: &str) -> (out: Vec<String>)
    ensures
        texts(out@) == words_of(s@),
{
    let chars = to_chars(s);
    let mut out: Vec<String> = Vec::new();
    let mut at: usize = 0;
    proof {
        assert(chars@.skip(0) =~= chars@);
    }
    loop
        invariant
            at <= chars.len(),
            texts(out@) + words_of(chars@.skip(at as int)) == words_of(chars@),
            chars@ == s@,
        decreases chars.len() - at,
    {
        let ghost tail = chars@.skip(at as int);
        let mut from: usize = at;
        while from < chars.len() && is_whitespace(chars[from])
            invariant
                at <= from <= chars.len(),
                stripped_start(tail, Strip::Space) == stripped_start(
                    chars@.skip(from as int),
                    Strip::Space,
                ),
            decreases chars.len() - from,
        {
            proof {
                assert(chars@.skip(from as int).skip(1) =~= chars@.skip(from + 1));
            }
            from += 1;
        }
        let ghost rest = chars@.skip(from as int);
        if from == chars.len() {
            return out;
        }
        let mut to: usize = from;
        while to < chars.len() && !is_whitespace(chars[to])
            invariant
                from <= to <= chars.len(),
                forall|k: int| from <= k < to ==> !is_space(chars@[k]),
            decreases chars.len() - to,
        {
            to += 1;
        }
        proof {
            lemma_word_end_is(rest, to - from);
        }
        let word = copy_range(&chars, from, to);
        out.push(word);
        proof {
            assert(rest.take(to - from) =~= chars@.subrange(from as int, to as int));
            assert(rest.skip(to - from) =~= chars@.skip(to as int));
        }
        at = to;
    }
}

/// Whether `at` is the first offset at which `needle` stands in `hay`.
pub open spec fn is_first_occurrence(hay: Seq<char>, needle: Seq<char>, at: int) -> bool {
    occurs_at(hay, at, needle) && forall|k: int| 0 <= k < at ==> !#[trigger] occurs_at(
        hay,
        k,
        needle,
    )
}

/// The first offset at which `needle` stands in `hay`, where it stands in it
/// at all.
pub open spec fn first_occurrence(hay: Seq<char>, needle: Seq<char>) -> int {
    choose|at: int| is_first_occurrence(hay, needle, at)
}

/// There is one first occurrence at most.
pub proof fn lemma_first_occurrence(hay: Seq<char>, needle: Seq<char>, at: int)
    requires
        is_first_occurrence(hay, needle, at),
    ensures
        first_occurrence(hay, needle) == at,
        is_substring(hay, needle),
{
}

/// The first offset at which `needle` stands in `hay`.
pub fn find(hay: &Vec<char>, needle: &str) -> (at: Option<usize>)
    ensures
        match at {
            Some(k) => is_substring(hay@, needle@) && first_occurrence(hay@, needle@) == k && k
                + needle@.len() <= hay@.len(),
            None => !is_substring(hay@, needle@),
        },
{
    let pattern = to_chars(needle);
    if pattern.len() > hay.len() {
        return None;
    }
    let last = hay.len() - pattern.len();
    let mut at: usize = 0;
    loop
        invariant
            at <= last,
            last == hay.len() - pattern.len(),
            pattern.len() <= hay.len(),
            pattern@ == needle@,
            forall|k: int| 0 <= k < at ==> !#[trigger] occurs_at(hay@, k, pattern@),
        decreases last - at,
    {
        if chars_occur_at(hay, at, &pattern) {
            proof {
                lemma_first_occurrence(hay@, needle@, at as int);
            }
            return Some(at);
        }
        if at == last {
            return None;
        }
        at += 1;
    }
}

/// The offset of the first `c` in `chars`, if it holds one.
pub fn find_char(chars: &Vec<char>, c: char) -> (at: Option<usize>)
    ensures
        match at {
            Some(k) => k < chars.len() && offset_of(chars@, c) == k,
            None => offset_of(chars@, c) == chars.len(),
        },
{
    let mut k: usize = 0;
    while k < chars.len() && chars[k] != c
        invariant
            k <= chars.len(),
            forall|j: int| 0 <= j < k ==> chars@[j] != c,
        decreases chars.len() - k,
    {
        k += 1;
    }
    proof {
        lemma_offset_is(chars@, c, k as int);
    }
    if k < chars.len() {
        Some(k)
    } else {
        None
    }
}

/// Whether `at` is the offset of the last `c` in `s`.
pub open spec fn is_last_offset(s: Seq<char>, c: char, at: int) -> bool {
    0 <= at < s.len() && s[at] == c && forall|k: int| at < k < s.len() ==> s[k] != c
}

/// The offset of the last `c` in `s`, where it holds one.
pub open spec fn last_offset(s: Seq<char>, c: char) -> int {
    choose|at: int| is_last_offset(s, c, at)
}

/// There is one last `c` at most.
pub proof fn lemma_last_offset(s: Seq<char>, c: char, at: int)
    requires
        is_last_offset(s, c, at),
    ensures
        last_offset(s, c) == at,
        s.contains(c),
{
}

/// The offset of the last `c` in `chars`, if it holds one.
pub fn rfind_char(chars: &Vec<char>, c: char) -> (at: Option<usize>)
    ensures
        match at {
            Some(k) => chars@.contains(c) && last_offset(chars@, c) == k && k < chars@.len(),
            None => !chars@.contains(c),
        },
{
    let mut k: usize = chars.len();
    while k > 0 && chars[k - 1] != c
        invariant
            k <= chars.len(),
            forall|j: int| k <= j < chars.len() ==> chars@[j] != c,
        decreases k,
    {
        k -= 1;
    }
    if k > 0 {
        proof {
            lemma_last_offset(chars@, c, k - 1);
        }
        Some(k - 1)
    } else {
        None
    }
}

/// Whether `s` is a row of digits, and not empty.
pub fn is_number(s: &str) -> (all: bool)
    ensures
        all == digits_value(s@).is_some(),
{
    let chars = to_chars(s);
    if chars.len() == 0 {
        return false;
    }
    let mut i: usize = 0;
    while i < chars.len()
        invariant
            i <= chars.len(),
            chars.len() > 0,
            chars@ == s@,
            i > 0 ==> digits_value(chars@.take(i as int)) is Some,
        decreases chars.len() - i,
    {
        proof {
            assert(chars@.take(i + 1).drop_last() =~= chars@.take(i as int));
        }
        match value_of_digit(chars[i]) {
            Some(_) => {},
            None => {
                proof {
                    lemma_digits_value_prefix(chars@, i + 1);
                }
                return false;
            },
        }
        i += 1;
    }
    proof {
        assert(chars@.take(chars.len() as int) =~= chars@);
    }
    true
}

/// The characters of `chars` from `from` up to `to`, as a string.
pub fn slice(chars: &Vec<char>, from: usize, to: usize) -> (s: String)
    requires
        from <= to <= chars.len(),
    ensures
        s@ == chars@.subrange(from as int, to as int),
{
    copy_range(chars, from, to)
}

} // verus!
