//! Text: decimal numbers, searching, trimming, splitting and joining.

use vstd::prelude::*;

verus! {

broadcast use vstd::string::axiom_spec_iter;

/// The character of a decimal digit.
pub open spec fn digit(d: int) -> char {
    (48 + d) as char
}

/// The decimal digits of `n`, with no leading zero.
pub open spec fn decimal(n: nat) -> Seq<char>
    decreases n,
{
    if n < 10 {
        seq![digit(n as int)]
    } else {
        decimal(n / 10).push(digit((n % 10) as int))
    }
}

/// The number that a run of decimal digits stands for.
pub open spec fn number_of(s: Seq<char>) -> nat
    decreases s.len(),
{
    if s.len() == 0 {
        0
    } else {
        number_of(s.drop_last()) * 10 + (s.last() as nat - 48) as nat
    }
}

pub open spec fn is_digit(c: char) -> bool {
    '0' <= c <= '9'
}

pub open spec fn all_digits(s: Seq<char>) -> bool {
    forall|i: int| 0 <= i < s.len() ==> is_digit(#[trigger] s[i])
}

/// Writing a number and reading it back gives the number.
pub proof fn decimal_reads_back(n: nat)
    ensures
        decimal(n).len() > 0,
        all_digits(decimal(n)),
        number_of(decimal(n)) == n,
    decreases n,
{
    reveal_with_fuel(number_of, 2);
    if n >= 10 {
        decimal_reads_back(n / 10);
        assert(decimal(n).drop_last() == decimal(n / 10));
    } else {
        assert(decimal(n).drop_last() == Seq::<char>::empty());
    }
}

/// No two numbers share a decimal text.
pub proof fn decimal_is_injective(a: nat, b: nat)
    ensures
        decimal(a) == decimal(b) ==> a == b,
{
    decimal_reads_back(a);
    decimal_reads_back(b);
}

fn digit_text(d: u64) -> (r: String)
    requires
        d < 10,
    ensures
        r@ == seq![digit(d as int)],
{
    proof {
        reveal_strlit("0");
        reveal_strlit("1");
        reveal_strlit("2");
        reveal_strlit("3");
        reveal_strlit("4");
        reveal_strlit("5");
        reveal_strlit("6");
        reveal_strlit("7");
        reveal_strlit("8");
        reveal_strlit("9");
    }
    let s: &str = match d {
        0 => "0",
        1 => "1",
        2 => "2",
        3 => "3",
        4 => "4",
        5 => "5",
        6 => "6",
        7 => "7",
        8 => "8",
        _ => "9",
    };
    assert(s@ =~= seq![digit(d as int)]);
    s.to_owned()
}

/// The decimal text of `n`.
pub fn decimal_text(n: u64) -> (r: String)
    ensures
        r@ == decimal(n as nat),
    decreases n,
{
    if n < 10 {
        digit_text(n)
    } else {
        let head = decimal_text(n / 10);
        let last = digit_text(n % 10);
        let r = head.concat(last.as_str());
        assert(r@ =~= decimal((n / 10) as nat).push(digit((n % 10) as int)));
        r
    }
}

/// The characters of a string.
pub fn char_vec(s: &str) -> (r: Vec<char>)
    ensures
        r@ == s@,
{
    let mut out: Vec<char> = Vec::new();
    for c in it: s.chars()
        invariant
            out@ == it.seq().take(it.index() as int),
            it.seq() == s@,
    {
        out.push(c);
    }
    out
}

/// Whether two texts are the same.
pub fn same(a: &str, b: &str) -> (r: bool)
    ensures
        r == (a@ == b@),
{
    a.to_owned() == b.to_owned()
}

/// Whether `s` begins with `prefix`.
pub fn starts_with(s: &str, prefix: &str) -> (r: bool)
    ensures
        r == prefix@.is_prefix_of(s@),
{
    let n: usize = prefix.unicode_len();
    if n > s.unicode_len() {
        return false;
    }
    same(s.substring_char(0, n), prefix)
}

/// Whether `s` ends with `suffix`.
pub fn ends_with(s: &str, suffix: &str) -> (r: bool)
    ensures
        r == suffix@.is_suffix_of(s@),
{
    let n: usize = suffix.unicode_len();
    let len: usize = s.unicode_len();
    if n > len {
        return false;
    }
    same(s.substring_char(len - n, len), suffix)
}

/// `needle` occurs in `s` at position `i`.
pub open spec fn occurs_at(s: Seq<char>, needle: Seq<char>, i: int) -> bool {
    &&& 0 <= i
    &&& i + needle.len() <= s.len()
    &&& s.subrange(i, i + needle.len()) == needle
}

/// `needle` occurs somewhere in `s`.
pub open spec fn occurs(s: Seq<char>, needle: Seq<char>) -> bool {
    exists|i: int| occurs_at(s, needle, i)
}

/// Whether `needle` occurs in `s`.
pub fn contains(s: &str, needle: &str) -> (r: bool)
    ensures
        r == occurs(s@, needle@),
{
    let n: usize = needle.unicode_len();
    let len: usize = s.unicode_len();
    if n > len {
        return false;
    }
    let mut i: usize = 0;
    while i <= len - n
        invariant
            n == needle@.len(),
            len == s@.len(),
            n <= len,
            i <= len - n + 1,
            forall|j: int| 0 <= j < i ==> !#[trigger] occurs_at(s@, needle@, j),
        decreases len - i,
    {
        if same(s.substring_char(i, i + n), needle) {
            assert(occurs_at(s@, needle@, i as int));
            return true;
        }
        assert(!occurs_at(s@, needle@, i as int));
        if i == len - n {
            return false;
        }
        i = i + 1;
    }
    false
}

/// The part of `s` after the last `c`, or all of it where `c` does not occur.
pub open spec fn after_last(s: Seq<char>, c: char) -> Seq<char>
    decreases s.len(),
{
    if s.len() == 0 || s.last() == c {
        Seq::empty()
    } else {
        after_last(s.drop_last(), c).push(s.last())
    }
}

/// The part of `s` after the last `c`, or all of it where `c` does not occur.
pub fn text_after_last(s: &str, c: char) -> (r: String)
    ensures
        r@ == after_last(s@, c),
{
    let chars = char_vec(s);
    let len: usize = chars.len();
    let mut i: usize = len;
    assert(s@.take(len as int) == s@);
    while i > 0 && chars[i - 1] != c
        invariant
            i <= len,
            len == chars@.len(),
            chars@ == s@,
            after_last(s@, c) =~= after_last(s@.take(i as int), c) + s@.subrange(
                i as int,
                len as int,
            ),
        decreases i,
    {
        assert(s@.take(i as int).drop_last() == s@.take(i - 1));
        assert(s@.take(i as int).last() == s@[i - 1]);
        i = i - 1;
    }
    assert(i > 0 ==> s@.take(i as int).last() == s@[i - 1]);
    assert(after_last(s@.take(i as int), c) == Seq::<char>::empty());
    s.substring_char(i, len).to_owned()
}

/// The characters with the Unicode property White_Space.
pub open spec fn is_space(c: char) -> bool {
    ||| '\u{9}' <= c <= '\u{d}'
    ||| c == '\u{20}'
    ||| c == '\u{85}'
    ||| c == '\u{a0}'
    ||| c == '\u{1680}'
    ||| '\u{2000}' <= c <= '\u{200a}'
    ||| c == '\u{2028}'
    ||| c == '\u{2029}'
    ||| c == '\u{202f}'
    ||| c == '\u{205f}'
    ||| c == '\u{3000}'
}

fn char_is_space(c: char) -> (r: bool)
    ensures
        r == is_space(c),
{
    (c >= '\u{9}' && c <= '\u{d}') || c == '\u{20}' || c == '\u{85}' || c == '\u{a0}' || c
        == '\u{1680}' || (c >= '\u{2000}' && c <= '\u{200a}') || c == '\u{2028}' || c == '\u{2029}'
        || c == '\u{202f}' || c == '\u{205f}' || c == '\u{3000}'
}

pub open spec fn trim_end(s: Seq<char>) -> Seq<char>
    decreases s.len(),
{
    if s.len() > 0 && is_space(s.last()) {
        trim_end(s.drop_last())
    } else {
        s
    }
}

pub open spec fn trim_start(s: Seq<char>) -> Seq<char>
    decreases s.len(),
{
    if s.len() > 0 && is_space(s[0]) {
        trim_start(s.drop_first())
    } else {
        s
    }
}

/// `s` without the white space at its two ends.
pub open spec fn trim(s: Seq<char>) -> Seq<char> {
    trim_end(trim_start(s))
}

/// `s` without the white space at its two ends.
pub fn trimmed(s: &str) -> (r: String)
    ensures
        r@ == trim(s@),
{
    let chars = char_vec(s);
    let len: usize = chars.len();
    let mut from: usize = 0;
    assert(s@.subrange(0, len as int) == s@);
    while from < len && char_is_space(chars[from])
        invariant
            from <= len,
            len == chars@.len(),
            chars@ == s@,
            trim_start(s@) == trim_start(s@.subrange(from as int, len as int)),
        decreases len - from,
    {
        assert(s@.subrange(from as int, len as int).drop_first() == s@.subrange(
            from + 1,
            len as int,
        ));
        from = from + 1;
    }
    let ghost body = s@.subrange(from as int, len as int);
    assert(trim_start(s@) == body);
    let mut to: usize = len;
    while to > from && char_is_space(chars[to - 1])
        invariant
            from <= to <= len,
            len == chars@.len(),
            chars@ == s@,
            trim_end(body) == trim_end(s@.subrange(from as int, to as int)),
        decreases to,
    {
        assert(s@.subrange(from as int, to as int).drop_last() == s@.subrange(
            from as int,
            to - 1,
        ));
        to = to - 1;
    }
    s.substring_char(from, to).to_owned()
}

/// The pieces of `s` between the occurrences of `c`.
pub open spec fn split(s: Seq<char>, c: char) -> Seq<Seq<char>>
    decreases s.len(),
{
    if s.len() == 0 {
        seq![Seq::empty()]
    } else {
        let before = split(s.drop_last(), c);
        if s.last() == c {
            before.push(Seq::empty())
        } else {
            before.drop_last().push(before.last().push(s.last()))
        }
    }
}

/// Splitting always gives at least one piece.
pub proof fn split_is_never_empty(s: Seq<char>, c: char)
    ensures
        split(s, c).len() > 0,
    decreases s.len(),
{
    if s.len() > 0 {
        split_is_never_empty(s.drop_last(), c);
    }
}

/// The texts of a list of strings.
pub open spec fn views(v: Seq<String>) -> Seq<Seq<char>> {
    Seq::new(v.len(), |i: int| v[i]@)
}

/// The pieces of `s` between the occurrences of `c`.
pub fn pieces(s: &str, c: char) -> (r: Vec<String>)
    ensures
        views(r@) == split(s@, c),
{
    let chars = char_vec(s);
    let len: usize = chars.len();
    let mut out: Vec<String> = Vec::new();
    let mut from: usize = 0;
    let mut i: usize = 0;
    assert(s@.subrange(0, 0) =~= Seq::<char>::empty());
    assert(s@.take(0) =~= Seq::<char>::empty());
    assert(views(out@) =~= Seq::<Seq<char>>::empty());
    while i < len
        invariant
            from <= i <= len,
            len == chars@.len(),
            chars@ == s@,
            split(s@.take(i as int), c) =~= views(out@).push(s@.subrange(from as int, i as int)),
        decreases len - i,
    {
        assert(s@.take(i + 1).drop_last() == s@.take(i as int));
        if chars[i] == c {
            let ghost before = out@;
            let piece = s.substring_char(from, i).to_owned();
            out.push(piece);
            assert(views(out@) =~= views(before).push(piece@));
            from = i + 1;
            assert(s@.subrange(from as int, i + 1) =~= Seq::<char>::empty());
        } else {
            assert(s@.subrange(from as int, i + 1) =~= s@.subrange(from as int, i as int).push(
                s@[i as int],
            ));
        }
        i = i + 1;
    }
    let ghost before = out@;
    let piece = s.substring_char(from, len).to_owned();
    out.push(piece);
    assert(views(out@) =~= views(before).push(piece@));
    assert(s@.take(len as int) == s@);
    out
}

/// The pieces of `list` with `sep` between them.
pub open spec fn join(list: Seq<Seq<char>>, sep: Seq<char>) -> Seq<char>
    decreases list.len(),
{
    if list.len() == 0 {
        Seq::empty()
    } else if list.len() == 1 {
        list[0]
    } else {
        join(list.drop_last(), sep) + sep + list.last()
    }
}

/// The strings of `list` with `sep` between them.
pub fn joined(list: &[String], sep: &str) -> (r: String)
    ensures
        r@ == join(views(list@), sep@),
{
    let mut out = String::new();
    let mut i: usize = 0;
    while i < list.len()
        invariant
            i <= list@.len(),
            out@ == join(views(list@).take(i as int), sep@),
        decreases list@.len() - i,
    {
        assert(views(list@).take(i + 1).drop_last() == views(list@).take(i as int));
        assert(views(list@).take(i + 1).last() == list@[i as int]@);
        if i > 0 {
            out.append(sep);
            out.append(list[i].as_str());
        } else {
            out = list[i].clone();
        }
        i = i + 1;
    }
    assert(views(list@).take(list@.len() as int) == views(list@));
    out
}

/// The number that `s` denotes, where it is a decimal number of 64 bits: digits, with an
/// optional plus sign before them.
pub open spec fn parse_number(s: Seq<char>) -> Option<u64> {
    let digits = if s.len() > 0 && s[0] == '+' {
        s.drop_first()
    } else {
        s
    };
    if digits.len() > 0 && all_digits(digits) && number_of(digits) <= u64::MAX {
        Some(number_of(digits) as u64)
    } else {
        None
    }
}

proof fn number_grows(s: Seq<char>, i: int)
    requires
        0 <= i <= s.len(),
        all_digits(s),
    ensures
        number_of(s.take(i)) <= number_of(s),
    decreases s.len() - i,
{
    if i < s.len() {
        number_grows(s, i + 1);
        assert(s.take(i + 1).drop_last() == s.take(i));
    } else {
        assert(s.take(i) == s);
    }
}

/// The number that `s` denotes.
pub fn parse_u64(s: &str) -> (r: Option<u64>)
    ensures
        r == parse_number(s@),
{
    let chars = char_vec(s);
    let len: usize = chars.len();
    let from: usize = if len > 0 && chars[0] == '+' {
        1
    } else {
        0
    };
    let ghost digits = s@.subrange(from as int, len as int);
    assert(from == 1 ==> digits == s@.drop_first());
    assert(from == 0 ==> digits == s@);
    if from == len {
        return None;
    }
    let mut i: usize = from;
    let mut n: u64 = 0;
    while i < len
        invariant
            from <= i <= len,
            len == chars@.len(),
            chars@ == s@,
            digits == s@.subrange(from as int, len as int),
            all_digits(digits.take(i - from)),
            n == number_of(digits.take(i - from)),
            parse_number(s@) == (if all_digits(digits) && number_of(digits) <= u64::MAX {
                Some(number_of(digits) as u64)
            } else {
                None
            }),
        decreases len - i,
    {
        let c: char = chars[i];
        assert(digits[i - from] == c);
        assert(digits.take(i + 1 - from).drop_last() == digits.take(i - from));
        assert(digits.take(i + 1 - from).last() == c);
        if c < '0' || c > '9' {
            assert(!is_digit(digits[i - from]));
            return None;
        }
        let d: u64 = (c as u32 - 48) as u64;
        let next: Option<u64> = match n.checked_mul(10) {
            Some(m) => m.checked_add(d),
            None => None,
        };
        match next {
            Some(m) => {
                n = m;
            },
            None => {
                proof {
                    if all_digits(digits) {
                        number_grows(digits, i + 1 - from);
                    }
                }
                return None;
            },
        }
        assert forall|j: int| 0 <= j < i + 1 - from implies is_digit(
            #[trigger] digits.take(i + 1 - from)[j],
        ) by {
            if j < i - from {
                assert(digits.take(i - from)[j] == digits.take(i + 1 - from)[j]);
            }
        }
        i = i + 1;
    }
    assert(digits.take(len - from) == digits);
    Some(n)
}

/// The bytes of `s` in UTF-8 can be cut after the first `n` of them without cutting a character.
pub open spec fn cuts_at(s: Seq<char>, n: int) -> bool {
    vstd::utf8::is_char_boundary(vstd::utf8::encode_utf8(s), n)
}

/// The characters that the first `n` bytes of `s` in UTF-8 stand for.
pub open spec fn byte_prefix(s: Seq<char>, n: int) -> Seq<char> {
    vstd::utf8::decode_utf8(vstd::utf8::encode_utf8(s).subrange(0, n))
}

/// Of an ASCII text the first `n` bytes are the first `n` characters.
pub proof fn ascii_byte_prefix(s: Seq<char>, n: int)
    requires
        vstd::utf8::is_ascii_chars(s),
        0 <= n <= s.len(),
    ensures
        cuts_at(s, n),
        byte_prefix(s, n) == s.take(n),
{
    broadcast use {
        vstd::utf8::is_ascii_chars_encode_utf8,
        vstd::utf8::encode_utf8_valid_utf8,
        vstd::utf8::encode_utf8_decode_utf8,
        vstd::utf8::is_char_boundary_start_end_of_seq,
    };

    let bytes = vstd::utf8::encode_utf8(s);
    if n < s.len() {
        vstd::utf8::is_char_boundary_iff_not_is_continuation_byte(bytes, n);
    }
    let head = s.take(n);
    vstd::utf8::is_ascii_chars_encode_utf8(s);
    assert forall|i: int| 0 <= i < head.len() implies 0 <= (#[trigger] head[i] as u32) < 128 by {
        assert(head[i] == s[i]);
    }
    vstd::utf8::is_ascii_chars_encode_utf8(head);
    assert(vstd::utf8::encode_utf8(head) =~= bytes.subrange(0, n));
}

/// Whether the bytes of `s` can be cut after the first `n` of them.
pub fn can_cut(s: &str, n: usize) -> (r: bool)
    ensures
        r == cuts_at(s@, n as int),
{
    s.is_char_boundary(n)
}

/// The first `n` bytes of `s`.
pub fn first_bytes(s: &str, n: usize) -> (r: String)
    requires
        cuts_at(s@, n as int),
    ensures
        r@ == byte_prefix(s@, n as int),
{
    let (head, _tail) = s.split_at(n);
    proof {
        vstd::utf8::encode_utf8_decode_utf8(head@);
    }
    head.to_owned()
}

/// The characters that the bytes of `s` in UTF-8 stand for, without the first `n`.
pub open spec fn byte_suffix(s: Seq<char>, n: int) -> Seq<char> {
    let bytes = vstd::utf8::encode_utf8(s);
    vstd::utf8::decode_utf8(bytes.subrange(n, bytes.len() as int))
}

/// Of an ASCII text the bytes after the first `n` are the characters after the first `n`.
pub proof fn ascii_byte_suffix(s: Seq<char>, n: int)
    requires
        vstd::utf8::is_ascii_chars(s),
        0 <= n <= s.len(),
    ensures
        cuts_at(s, n),
        byte_suffix(s, n) == s.skip(n),
{
    ascii_byte_prefix(s, n);
    let bytes = vstd::utf8::encode_utf8(s);
    let tail = s.skip(n);
    vstd::utf8::is_ascii_chars_encode_utf8(s);
    assert forall|i: int| 0 <= i < tail.len() implies 0 <= (#[trigger] tail[i] as u32) < 128 by {
        assert(tail[i] == s[n + i]);
    }
    vstd::utf8::is_ascii_chars_encode_utf8(tail);
    assert(vstd::utf8::encode_utf8(tail) =~= bytes.subrange(n, bytes.len() as int));
    vstd::utf8::encode_utf8_decode_utf8(tail);
}

/// `std::string::String::from_utf8`: the text that bytes in UTF-8 stand for, where they are that.
#[verifier::external_body]
fn from_utf8(bytes: Vec<u8>) -> (r: Option<String>)
    ensures
        match r {
            Some(s) => vstd::utf8::valid_utf8(bytes@) && s@ == vstd::utf8::decode_utf8(bytes@),
            None => !vstd::utf8::valid_utf8(bytes@),
        },
{
    String::from_utf8(bytes).ok()
}

/// The text that bytes in UTF-8 stand for, where they are that.
pub fn utf8_text(bytes: &[u8]) -> (r: Option<String>)
    ensures
        match r {
            Some(s) => vstd::utf8::valid_utf8(bytes@) && s@ == vstd::utf8::decode_utf8(bytes@),
            None => !vstd::utf8::valid_utf8(bytes@),
        },
{
    let mut copy: Vec<u8> = Vec::new();
    let mut i: usize = 0;
    while i < bytes.len()
        invariant
            i <= bytes@.len(),
            copy@ =~= bytes@.take(i as int),
        decreases bytes@.len() - i,
    {
        copy.push(bytes[i]);
        i = i + 1;
    }
    assert(bytes@.take(bytes@.len() as int) == bytes@);
    from_utf8(copy)
}

/// The bytes of `s` without the first `n`.
pub fn after_bytes(s: &str, n: usize) -> (r: String)
    requires
        cuts_at(s@, n as int),
    ensures
        r@ == byte_suffix(s@, n as int),
{
    let (_head, tail) = s.split_at(n);
    proof {
        vstd::utf8::encode_utf8_decode_utf8(tail@);
    }
    tail.to_owned()
}

/// Reading a written number gives the number.
pub proof fn written_number_parses(n: u64)
    ensures
        parse_number(decimal(n as nat)) == Some(n),
{
    decimal_reads_back(n as nat);
    assert(is_digit(decimal(n as nat)[0]));
}

/// A part of a text occurs in it.
pub proof fn parts_occur(before: Seq<char>, part: Seq<char>, after: Seq<char>)
    ensures
        occurs(before + part + after, part),
{
    let whole = before + part + after;
    assert(whole.subrange(before.len() as int, before.len() as int + part.len()) =~= part);
    assert(occurs_at(whole, part, before.len() as int));
}

/// What occurs in a part of a text occurs in the text.
pub proof fn parts_of_parts_occur(
    before: Seq<char>,
    inner: Seq<char>,
    after: Seq<char>,
    part: Seq<char>,
)
    requires
        occurs(inner, part),
    ensures
        occurs(before + inner + after, part),
{
    let i = choose|i: int| occurs_at(inner, part, i);
    let whole = before + inner + after;
    let at = before.len() as int + i;
    assert(whole.subrange(at, at + part.len()) =~= inner.subrange(i, i + part.len()));
    assert(occurs_at(whole, part, at));
}

/// What occurs in something that occurs in a text occurs in the text.
pub proof fn occurring_is_transitive(whole: Seq<char>, inner: Seq<char>, part: Seq<char>)
    requires
        occurs(whole, inner),
        occurs(inner, part),
    ensures
        occurs(whole, part),
{
    let i = choose|i: int| occurs_at(whole, inner, i);
    let j = choose|j: int| occurs_at(inner, part, j);
    assert(whole.subrange(i + j, i + j + part.len()) =~= inner.subrange(j, j + part.len()));
    assert(occurs_at(whole, part, i + j));
}

/// What occurs in the beginning of a text occurs in the text.
pub proof fn beginnings_occur(before: Seq<char>, after: Seq<char>, part: Seq<char>)
    requires
        occurs(before, part),
    ensures
        occurs(before + after, part),
{
    let none = Seq::<char>::empty();
    parts_of_parts_occur(none, before, after, part);
    assert(none + before + after =~= before + after);
}

/// Five parts at the end of a text occur in it together.
pub proof fn five_last_parts_occur(
    before: Seq<char>,
    a: Seq<char>,
    b: Seq<char>,
    c: Seq<char>,
    d: Seq<char>,
    e: Seq<char>,
)
    ensures
        occurs(before + a + b + c + d + e, a + b + c + d + e),
{
    let part = a + b + c + d + e;
    let whole = before + a + b + c + d + e;
    assert(whole.subrange(before.len() as int, whole.len() as int) =~= part);
    assert(occurs_at(whole, part, before.len() as int));
}

/// Three parts at the end of a text occur in it together.
pub proof fn three_last_parts_occur(
    before: Seq<char>,
    a: Seq<char>,
    b: Seq<char>,
    c: Seq<char>,
)
    ensures
        occurs(before + a + b + c, a + b + c),
{
    let part = a + b + c;
    let whole = before + a + b + c;
    assert(whole.subrange(before.len() as int, whole.len() as int) =~= part);
    assert(occurs_at(whole, part, before.len() as int));
}

/// The pieces of a text, with the character that they were split at between them, are the text again;
/// and no piece holds that character.
pub proof fn pieces_make_the_whole(s: Seq<char>, c: char)
    ensures
        join(split(s, c), seq![c]) == s,
        forall|i: int| 0 <= i < split(s, c).len() ==> !(#[trigger] split(s, c)[i]).contains(c),
    decreases s.len(),
{
    split_is_never_empty(s, c);
    if s.len() > 0 {
        let rest = s.drop_last();
        pieces_make_the_whole(rest, c);
        split_is_never_empty(rest, c);
        let before = split(rest, c);
        let all = split(s, c);
        if s.last() == c {
            assert(all.drop_last() =~= before);
            assert(join(all, seq![c]) == join(before, seq![c]) + seq![c] + all.last());
            assert(join(all, seq![c]) =~= s);
            assert forall|i: int| 0 <= i < all.len() implies !(#[trigger] all[i]).contains(c) by {
                if i < before.len() {
                    assert(all[i] == before[i]);
                }
            }
        } else {
            let grown = before.last().push(s.last());
            assert(all == before.drop_last().push(grown));
            assert(all.drop_last() =~= before.drop_last());
            if before.len() == 1 {
                assert(join(all, seq![c]) =~= s);
            } else {
                assert(join(all, seq![c]) =~= join(before, seq![c]).push(s.last()));
                assert(join(all, seq![c]) =~= s);
            }
            assert forall|i: int| 0 <= i < all.len() implies !(#[trigger] all[i]).contains(c) by {
                if i < before.len() - 1 {
                    assert(all[i] == before[i]);
                } else {
                    assert(!before[before.len() - 1].contains(c));
                    if grown.contains(c) {
                        let k = choose|k: int| 0 <= k < grown.len() && grown[k] == c;
                        if k < grown.len() - 1 {
                            assert(before.last()[k] == c);
                        }
                    }
                }
            }
        }
    } else {
        assert(join(split(s, c), seq![c]) =~= s);
    }
}

/// What comes after the last of a character is the end of the text, holds none of it, and begins at
/// the beginning of the text or right after one.
pub proof fn what_is_after_the_last(s: Seq<char>, c: char)
    ensures
        after_last(s, c).is_suffix_of(s),
        !after_last(s, c).contains(c),
        after_last(s, c).len() < s.len() ==> s[s.len() - after_last(s, c).len() - 1] == c,
        !s.contains(c) ==> after_last(s, c) == s,
    decreases s.len(),
{
    let rest = after_last(s, c);
    if s.len() == 0 || s.last() == c {
        assert(rest =~= s.subrange(s.len() as int, s.len() as int));
        if s.len() > 0 {
            assert(s.contains(s.last()));
        } else {
            assert(rest =~= s);
        }
    } else {
        let shorter = s.drop_last();
        what_is_after_the_last(shorter, c);
        let before = after_last(shorter, c);
        assert(rest =~= s.subrange(s.len() - rest.len(), s.len() as int)) by {
            assert(before =~= shorter.subrange(
                shorter.len() - before.len(),
                shorter.len() as int,
            ));
        }
        if rest.contains(c) {
            let k = choose|k: int| 0 <= k < rest.len() && rest[k] == c;
            assert(before[k] == c);
        }
        if !s.contains(c) {
            if shorter.contains(c) {
                let k = choose|k: int| 0 <= k < shorter.len() && shorter[k] == c;
                assert(s[k] == c);
            }
            assert(rest =~= s);
        }
    }
}

proof fn trimmed_starts(s: Seq<char>)
    ensures
        exists|from: int|
            {
                &&& 0 <= from <= s.len()
                &&& trim_start(s) == #[trigger] s.skip(from)
                &&& forall|i: int| 0 <= i < from ==> is_space(#[trigger] s[i])
            },
        trim_start(s).len() > 0 ==> !is_space(trim_start(s)[0]),
    decreases s.len(),
{
    if s.len() > 0 && is_space(s[0]) {
        let rest = s.drop_first();
        trimmed_starts(rest);
        let from = choose|from: int|
            {
                &&& 0 <= from <= rest.len()
                &&& trim_start(rest) == #[trigger] rest.skip(from)
                &&& forall|i: int| 0 <= i < from ==> is_space(#[trigger] rest[i])
            };
        assert(rest.skip(from) =~= s.skip(from + 1));
        assert forall|i: int| 0 <= i < from + 1 implies is_space(#[trigger] s[i]) by {
            if i > 0 {
                assert(rest[i - 1] == s[i]);
            }
        }
    } else {
        assert(s.skip(0) =~= s);
    }
}

proof fn trimmed_ends(s: Seq<char>)
    ensures
        exists|to: int|
            {
                &&& 0 <= to <= s.len()
                &&& trim_end(s) == #[trigger] s.take(to)
                &&& forall|i: int| to <= i < s.len() ==> is_space(#[trigger] s[i])
            },
        trim_end(s).len() > 0 ==> !is_space(trim_end(s).last()),
    decreases s.len(),
{
    if s.len() > 0 && is_space(s.last()) {
        let rest = s.drop_last();
        trimmed_ends(rest);
        let to = choose|to: int|
            {
                &&& 0 <= to <= rest.len()
                &&& trim_end(rest) == #[trigger] rest.take(to)
                &&& forall|i: int| to <= i < rest.len() ==> is_space(#[trigger] rest[i])
            };
        assert(rest.take(to) =~= s.take(to));
        assert forall|i: int| to <= i < s.len() implies is_space(#[trigger] s[i]) by {
            if i < s.len() - 1 {
                assert(rest[i] == s[i]);
            }
        }
    } else {
        assert(s.take(s.len() as int) =~= s);
    }
}

/// A trimmed text is what lies between the white space at the two ends of the text, and neither
/// begins nor ends with any.
pub proof fn trimming_takes_the_space_at_the_ends(s: Seq<char>)
    ensures
        exists|from: int, to: int|
            {
                &&& 0 <= from <= to <= s.len()
                &&& trim(s) == #[trigger] s.subrange(from, to)
                &&& forall|i: int| 0 <= i < from ==> is_space(#[trigger] s[i])
                &&& forall|i: int| to <= i < s.len() ==> is_space(#[trigger] s[i])
            },
        trim(s).len() > 0 ==> !is_space(trim(s)[0]) && !is_space(trim(s).last()),
{
    trimmed_starts(s);
    let body = trim_start(s);
    let from = choose|from: int|
        {
            &&& 0 <= from <= s.len()
            &&& body == #[trigger] s.skip(from)
            &&& forall|i: int| 0 <= i < from ==> is_space(#[trigger] s[i])
        };
    trimmed_ends(body);
    let n = choose|to: int|
        {
            &&& 0 <= to <= body.len()
            &&& trim_end(body) == #[trigger] body.take(to)
            &&& forall|i: int| to <= i < body.len() ==> is_space(#[trigger] body[i])
        };
    assert(trim(s) =~= s.subrange(from, from + n));
    assert forall|i: int| from + n <= i < s.len() implies is_space(#[trigger] s[i]) by {
        assert(body[i - from] == s[i]);
    }
    if n > 0 {
        assert(trim(s)[0] == body[0]);
    }
}

} // verus!
