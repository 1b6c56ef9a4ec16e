//! Character-level text helpers shared by the parsers and formatters.
//!
//! Strings are modelled by their view, a `Seq<char>`.  The helpers here move
//! between `&str`, `String` and `Vec<char>` and provide the few textual
//! building blocks (digits, whitespace, decimal rendering) the rest of the
//! crate is specified with.
use vstd::prelude::*;
use vstd::string::*;

verus! {

/// Append the character `c` to `s`.
///
/// Calls `String::push`, which appends one character.
#[verifier::external_body]
pub(crate) fn push_char(s: &mut String, c: char)
    ensures
        final(s)@ == old(s)@.push(c),
{
    s.push(c);
}

/// Whether `c` is one of the ASCII whitespace characters of
/// `u8::is_ascii_whitespace`: space, tab, line feed, form feed, carriage return.
pub open spec fn is_ascii_ws(c: char) -> bool {
    c == ' ' || c == '\t' || c == '\n' || c == '\x0C' || c == '\r'
}

/// Whether `c` is an ASCII decimal digit.
pub open spec fn is_dec_digit(c: char) -> bool {
    '0' <= c && c <= '9'
}

/// The value of `c` as a digit in base 10 or 16, if it is one.
pub open spec fn digit_value(c: char, radix: nat) -> Option<nat> {
    if '0' <= c && c <= '9' && (c as nat) - ('0' as nat) < radix {
        Some(((c as nat) - ('0' as nat)) as nat)
    } else if radix == 16 && 'a' <= c && c <= 'f' {
        Some(((c as nat) - ('a' as nat) + 10) as nat)
    } else if radix == 16 && 'A' <= c && c <= 'F' {
        Some(((c as nat) - ('A' as nat) + 10) as nat)
    } else {
        None
    }
}

/// The character of a decimal digit `d < 10`.
pub open spec fn dec_char(d: nat) -> char {
    (('0' as nat) + d) as char
}

/// The upper-case hexadecimal character of a digit `d < 16`.
pub open spec fn hex_upper_char(d: nat) -> char {
    if d < 10 {
        (('0' as nat) + d) as char
    } else {
        (('A' as nat) + d - 10) as char
    }
}

/// The decimal rendering of `n`, without leading zeros.
pub open spec fn dec_string(n: nat) -> Seq<char>
    decreases n,
{
    if n < 10 {
        seq![dec_char(n)]
    } else {
        dec_string(n / 10).push(dec_char(n % 10))
    }
}

/// The two upper-case hexadecimal digits of a byte.
pub open spec fn hex_byte_string(b: u8) -> Seq<char> {
    seq![hex_upper_char((b / 16) as nat), hex_upper_char((b % 16) as nat)]
}

/// The characters of `s` as a vector.
pub fn chars_of(s: &str) -> (r: Vec<char>)
    ensures
        r@ == s@,
{
    let n = s.unicode_len();
    let mut r: Vec<char> = Vec::new();
    let mut i: usize = 0;
    while i < n
        invariant
            n == s@.len(),
            i <= n,
            r@ == s@.subrange(0, i as int),
        decreases n - i,
    {
        let c = s.get_char(i);
        r.push(c);
        i = i + 1;
    }
    assert(r@ =~= s@);
    r
}

/// Append all characters of `cs` to `s`.
pub fn push_chars(s: &mut String, cs: &[char])
    ensures
        final(s)@ == old(s)@ + cs@,
{
    let mut i: usize = 0;
    while i < cs.len()
        invariant
            i <= cs@.len(),
            s@ == old(s)@ + cs@.subrange(0, i as int),
        decreases cs.len() - i,
    {
        push_char(s, cs[i]);
        i = i + 1;
        assert(s@ =~= old(s)@ + cs@.subrange(0, i as int));
    }
    assert(cs@.subrange(0, cs@.len() as int) =~= cs@);
}

/// A new string holding the characters of `cs`.
pub fn string_of(cs: &[char]) -> (r: String)
    ensures
        r@ == cs@,
{
    let mut r = String::new();
    push_chars(&mut r, cs);
    assert(r@ =~= cs@);
    r
}

/// Append `t` to `s`.
pub fn push_str(s: &mut String, t: &str)
    ensures
        final(s)@ == old(s)@ + t@,
{
    s.append(t);
}

proof fn lemma_dec_string_nonempty(n: nat)
    ensures
        dec_string(n).len() >= 1,
    decreases n,
{
    if n >= 10 {
        lemma_dec_string_nonempty(n / 10);
    }
}

/// Append the decimal rendering of `n` to `s`.
pub fn push_decimal(s: &mut String, n: u64)
    ensures
        final(s)@ == old(s)@ + dec_string(n as nat),
    decreases n,
{
    if n < 10 {
        let c = digit_char(n);
        push_char(s, c);
        assert(s@ =~= old(s)@ + dec_string(n as nat));
    } else {
        push_decimal(s, n / 10);
        let c = digit_char(n % 10);
        push_char(s, c);
        assert(s@ =~= old(s)@ + dec_string(n as nat));
    }
}

/// The decimal rendering of `n`.
pub fn decimal_string(n: u64) -> (r: String)
    ensures
        r@ == dec_string(n as nat),
{
    let mut r = String::new();
    push_decimal(&mut r, n);
    assert(r@ =~= dec_string(n as nat));
    r
}

/// The character of the decimal digit `d`.
fn digit_char(d: u64) -> (c: char)
    requires
        d < 10,
    ensures
        c == dec_char(d as nat),
{
    if d == 0 { '0' }
    else if d == 1 { '1' }
    else if d == 2 { '2' }
    else if d == 3 { '3' }
    else if d == 4 { '4' }
    else if d == 5 { '5' }
    else if d == 6 { '6' }
    else if d == 7 { '7' }
    else if d == 8 { '8' }
    else { '9' }
}

/// The upper-case hexadecimal character of the digit `d`.
pub fn hex_char(d: u8) -> (c: char)
    requires
        d < 16,
    ensures
        c == hex_upper_char(d as nat),
{
    if d < 10 {
        digit_char(d as u64)
    } else if d == 10 { 'A' }
    else if d == 11 { 'B' }
    else if d == 12 { 'C' }
    else if d == 13 { 'D' }
    else if d == 14 { 'E' }
    else { 'F' }
}

/// Append the two upper-case hexadecimal digits of `b` to `s`.
pub fn push_hex_byte(s: &mut String, b: u8)
    ensures
        final(s)@ == old(s)@ + hex_byte_string(b),
{
    let hi = hex_char(b / 16);
    let lo = hex_char(b % 16);
    push_char(s, hi);
    push_char(s, lo);
    assert(s@ =~= old(s)@ + hex_byte_string(b));
}

/// Whether `a` and `b` hold the same characters.
pub fn chars_eq(a: &[char], b: &[char]) -> (r: bool)
    ensures
        r == (a@ == b@),
{
    if a.len() != b.len() {
        return false;
    }
    let mut i: usize = 0;
    while i < a.len()
        invariant
            a@.len() == b@.len(),
            i <= a@.len(),
            forall|j: int| 0 <= j < i ==> a@[j] == b@[j],
        decreases a.len() - i,
    {
        if a[i] != b[i] {
            return false;
        }
        i = i + 1;
    }
    assert(a@ =~= b@);
    true
}

/// The texts of a list of strings.
pub open spec fn texts(v: Seq<String>) -> Seq<Seq<char>> {
    v.map_values(|s: String| s@)
}

/// `parts` joined with `sep` between each two of them.
pub open spec fn join(parts: Seq<Seq<char>>, sep: Seq<char>) -> Seq<char>
    decreases parts.len(),
{
    if parts.len() == 0 {
        seq![]
    } else if parts.len() == 1 {
        parts[0]
    } else {
        join(parts.drop_last(), sep) + sep + parts.last()
    }
}

/// `parts` joined with `sep` between each two of them.
pub fn join_strings(parts: &[String], sep: &str) -> (r: String)
    ensures
        r@ == join(texts(parts@), sep@),
{
    let mut r = String::new();
    let mut i: usize = 0;
    while i < parts.len()
        invariant
            i <= parts@.len(),
            r@ == join(texts(parts@.subrange(0, i as int)), sep@),
        decreases parts.len() - i,
    {
        let ghost before = r@;
        proof {
            assert(texts(parts@.subrange(0, i + 1)).drop_last() =~= texts(
                parts@.subrange(0, i as int),
            ));
            assert(texts(parts@.subrange(0, i + 1)).last() == parts@[i as int]@);
        }
        if i > 0 {
            push_str(&mut r, sep);
        }
        push_str(&mut r, parts[i].as_str());
        proof {
            if i == 0 {
                assert(r@ =~= parts@[0]@);
            }
        }
        i = i + 1;
    }
    assert(parts@.subrange(0, parts@.len() as int) =~= parts@);
    r
}

/// Whether `s` ends with `suffix`.
pub open spec fn ends_with_seq(s: Seq<char>, suffix: Seq<char>) -> bool {
    suffix.len() <= s.len() && s.subrange(s.len() - suffix.len(), s.len() as int) == suffix
}

/// Whether `s` ends with `suffix`.
pub fn ends_with(s: &str, suffix: &str) -> (r: bool)
    ensures
        r == ends_with_seq(s@, suffix@),
{
    let a = chars_of(s);
    let b = chars_of(suffix);
    if b.len() > a.len() {
        return false;
    }
    let off: usize = a.len() - b.len();
    let mut j: usize = 0;
    while j < b.len()
        invariant
            a@ == s@,
            b@ == suffix@,
            off + b@.len() == a@.len(),
            off + b.len() == a.len(),
            j <= b@.len(),
            forall|k: int| 0 <= k < j ==> a@[off + k] == b@[k],
        decreases b.len() - j,
    {
        if a[off + j] != b[j] {
            assert(s@.subrange(off as int, s@.len() as int)[j as int] != suffix@[j as int]);
            return false;
        }
        j = j + 1;
    }
    assert(s@.subrange(off as int, s@.len() as int) =~= suffix@);
    true
}

/// The length of the run of non-whitespace characters at the start of `s`.
pub open spec fn word_len(s: Seq<char>) -> nat
    decreases s.len(),
{
    if s.len() > 0 && !is_ascii_ws(s[0]) {
        1 + word_len(s.drop_first())
    } else {
        0
    }
}

/// The number of ASCII whitespace characters at the start of `s`.
pub open spec fn ws_len(s: Seq<char>) -> nat
    decreases s.len(),
{
    if s.len() > 0 && is_ascii_ws(s[0]) {
        1 + ws_len(s.drop_first())
    } else {
        0
    }
}

/// The words of `s` separated by runs of ASCII whitespace, as
/// `str::split_ascii_whitespace` yields them: leading and trailing whitespace
/// produce no empty words.
pub open spec fn ascii_words(s: Seq<char>) -> Seq<Seq<char>>
    decreases s.len(),
{
    let t = s.skip(ws_len(s) as int);
    if t.len() == 0 {
        seq![]
    } else {
        let n = word_len(t);
        if n == 0 {
            seq![]
        } else {
            proof {
                lemma_ws_len_le(s);
                lemma_word_len_le(t);
            }
            seq![t.take(n as int)] + ascii_words(t.skip(n as int))
        }
    }
}

pub proof fn lemma_ws_len_le(s: Seq<char>)
    ensures
        ws_len(s) <= s.len(),
    decreases s.len(),
{
    if s.len() > 0 && is_ascii_ws(s[0]) {
        lemma_ws_len_le(s.drop_first());
    }
}

pub proof fn lemma_word_len_le(s: Seq<char>)
    ensures
        word_len(s) <= s.len(),
    decreases s.len(),
{
    if s.len() > 0 && !is_ascii_ws(s[0]) {
        lemma_word_len_le(s.drop_first());
    }
}

proof fn lemma_run_lens(s: Seq<char>, i: int, j: int, ws: bool)
    requires
        0 <= i <= j <= s.len(),
        forall|k: int| i <= k < j ==> is_ascii_ws(#[trigger] s[k]) == ws,
        j == s.len() || is_ascii_ws(s[j]) != ws,
    ensures
        ws ==> ws_len(s.skip(i)) == j - i,
        !ws ==> word_len(s.skip(i)) == j - i,
    decreases j - i,
{
    if i < j {
        assert(s.skip(i).drop_first() =~= s.skip(i + 1));
        lemma_run_lens(s, i + 1, j, ws);
    }
}

/// End of the run of characters of `cs` from `i` on whose whitespace-ness is `ws`.
fn run_end(cs: &[char], i: usize, ws: bool) -> (j: usize)
    requires
        i <= cs@.len(),
    ensures
        i <= j <= cs@.len(),
        ws ==> ws_len(cs@.skip(i as int)) == j - i,
        !ws ==> word_len(cs@.skip(i as int)) == j - i,
        j < cs@.len() ==> is_ascii_ws(cs@[j as int]) != ws,
{
    let mut j = i;
    while j < cs.len() && is_ws_char(cs[j]) == ws
        invariant
            i <= j <= cs@.len(),
            forall|k: int| i <= k < j ==> is_ascii_ws(#[trigger] cs@[k]) == ws,
        decreases cs.len() - j,
    {
        j = j + 1;
    }
    proof {
        lemma_run_lens(cs@, i as int, j as int, ws);
    }
    j
}

/// Whether `c` is ASCII whitespace.
pub fn is_ws_char(c: char) -> (r: bool)
    ensures
        r == is_ascii_ws(c),
{
    c == ' ' || c == '\t' || c == '\n' || c == '\x0C' || c == '\r'
}

/// The words of `cs`, split at runs of ASCII whitespace.
pub fn split_ascii_whitespace(cs: &[char]) -> (r: Vec<Vec<char>>)
    ensures
        r@.len() == ascii_words(cs@).len(),
        forall|k: int| 0 <= k < r@.len() ==> #[trigger] r@[k]@ == ascii_words(cs@)[k],
{
    let mut r: Vec<Vec<char>> = Vec::new();
    let mut i: usize = 0;
    proof {
        assert(cs@.skip(0) =~= cs@);
    }
    loop
        invariant
            i <= cs@.len(),
            ascii_words(cs@).len() == r@.len() + ascii_words(cs@.skip(i as int)).len(),
            forall|k: int| 0 <= k < r@.len() ==> #[trigger] r@[k]@ == ascii_words(cs@)[k],
            forall|k: int|
                0 <= k < ascii_words(cs@.skip(i as int)).len() ==> ascii_words(cs@)[r@.len() + k]
                    == #[trigger] ascii_words(cs@.skip(i as int))[k],
        decreases cs.len() - i,
    {
        let ghost s = cs@.skip(i as int);
        let j = run_end(cs, i, true);
        proof {
            assert(s.skip(ws_len(s) as int) =~= cs@.skip(j as int));
        }
        if j == cs.len() {
            proof {
                assert(ascii_words(s) =~= Seq::<Seq<char>>::empty());
            }
            return r;
        }
        let e = run_end(cs, j, false);
        let ghost t = cs@.skip(j as int);
        proof {
            assert(is_ascii_ws(cs@[j as int]) == false);
            assert(t[0] == cs@[j as int]);
            assert(word_len(t) >= 1);
            assert(t.take((e - j) as int) =~= cs@.subrange(j as int, e as int));
            assert(t.skip((e - j) as int) =~= cs@.skip(e as int));
            assert(ascii_words(s) =~= seq![cs@.subrange(j as int, e as int)] + ascii_words(
                cs@.skip(e as int),
            ));
        }
        let mut w: Vec<char> = Vec::new();
        let mut m = j;
        while m < e
            invariant
                j <= m <= e <= cs@.len(),
                w@ == cs@.subrange(j as int, m as int),
            decreases e - m,
        {
            w.push(cs[m]);
            m = m + 1;
            assert(w@ =~= cs@.subrange(j as int, m as int));
        }
        let ghost n0 = r@.len();
        let ghost rest = ascii_words(cs@.skip(e as int));
        proof {
            assert(ascii_words(s)[0] == w@);
            assert(ascii_words(cs@)[n0 + 0int] == ascii_words(s)[0]);
            assert forall|k: int| 0 <= k < rest.len() implies ascii_words(cs@)[n0 + 1 + k]
                == #[trigger] rest[k] by {
                assert(ascii_words(s)[1 + k] == rest[k]);
                assert(ascii_words(cs@)[n0 + (1 + k)] == ascii_words(s)[1 + k]);
            }
        }
        r.push(w);
        i = e;
    }
}

/// The number of characters of `s` before its first line feed, or its length.
pub open spec fn line_len(s: Seq<char>) -> nat
    decreases s.len(),
{
    if s.len() > 0 && s[0] != '\n' {
        1 + line_len(s.drop_first())
    } else {
        0
    }
}

/// `t` without one trailing carriage return.
pub open spec fn strip_cr(t: Seq<char>) -> Seq<char> {
    if t.len() > 0 && t.last() == '\r' {
        t.drop_last()
    } else {
        t
    }
}

pub proof fn lemma_line_len_le(s: Seq<char>)
    ensures
        line_len(s) <= s.len(),
    decreases s.len(),
{
    if s.len() > 0 && s[0] != '\n' {
        lemma_line_len_le(s.drop_first());
    }
}

/// The lines of `s` as `BufRead::lines` yields them: split at line feeds, with a
/// line feed (or carriage return and line feed) removed from the end of each
/// line; a final line feed yields no empty last line.
pub open spec fn text_lines(s: Seq<char>) -> Seq<Seq<char>>
    decreases s.len(),
{
    if s.len() == 0 {
        seq![]
    } else {
        let n = line_len(s);
        if n >= s.len() {
            seq![s]
        } else {
            proof {
                lemma_line_len_le(s);
            }
            seq![strip_cr(s.take(n as int))] + text_lines(s.skip(n + 1int))
        }
    }
}

proof fn lemma_line_len_at(s: Seq<char>, i: int, j: int)
    requires
        0 <= i <= j <= s.len(),
        forall|k: int| i <= k < j ==> #[trigger] s[k] != '\n',
        j == s.len() || s[j] == '\n',
    ensures
        line_len(s.skip(i)) == j - i,
    decreases j - i,
{
    if i < j {
        assert(s.skip(i).drop_first() =~= s.skip(i + 1));
        lemma_line_len_at(s, i + 1, j);
    }
}

/// The lines of `cs`, as `BufRead::lines` yields them.
pub fn split_lines(cs: &[char]) -> (r: Vec<Vec<char>>)
    ensures
        r@.len() == text_lines(cs@).len(),
        forall|k: int| 0 <= k < r@.len() ==> #[trigger] r@[k]@ == text_lines(cs@)[k],
{
    let mut r: Vec<Vec<char>> = Vec::new();
    let mut i: usize = 0;
    proof {
        assert(cs@.skip(0) =~= cs@);
    }
    while i < cs.len()
        invariant
            i <= cs@.len(),
            text_lines(cs@).len() == r@.len() + text_lines(cs@.skip(i as int)).len(),
            forall|k: int| 0 <= k < r@.len() ==> #[trigger] r@[k]@ == text_lines(cs@)[k],
            forall|k: int|
                0 <= k < text_lines(cs@.skip(i as int)).len() ==> text_lines(cs@)[r@.len() + k]
                    == #[trigger] text_lines(cs@.skip(i as int))[k],
        decreases cs.len() - i,
    {
        let ghost s = cs@.skip(i as int);
        let mut j = i;
        while j < cs.len() && cs[j] != '\n'
            invariant
                i <= j <= cs@.len(),
                forall|k: int| i <= k < j ==> #[trigger] cs@[k] != '\n',
            decreases cs.len() - j,
        {
            j = j + 1;
        }
        proof {
            lemma_line_len_at(cs@, i as int, j as int);
        }
        // The line without its line feed, and without a carriage return before one.
        let mut end = j;
        if j < cs.len() && j > i && cs[j - 1] == '\r' {
            end = j - 1;
        }
        let mut w: Vec<char> = Vec::new();
        let mut m = i;
        while m < end
            invariant
                i <= m <= end <= j <= cs@.len(),
                w@ == cs@.subrange(i as int, m as int),
            decreases end - m,
        {
            w.push(cs[m]);
            m = m + 1;
            assert(w@ =~= cs@.subrange(i as int, m as int));
        }
        let ghost rest = if j < cs.len() {
            text_lines(cs@.skip(j + 1))
        } else {
            Seq::<Seq<char>>::empty()
        };
        proof {
            if j < cs.len() {
                assert(s.take((j - i) as int) =~= cs@.subrange(i as int, j as int));
                assert(s.skip((j - i) + 1) =~= cs@.skip(j + 1));
                assert(strip_cr(cs@.subrange(i as int, j as int)) =~= w@);
                assert(text_lines(s) =~= seq![w@] + rest);
            } else {
                assert(s =~= w@);
                assert(text_lines(s) =~= seq![w@]);
            }
        }
        let ghost n0 = r@.len();
        proof {
            assert(text_lines(s)[0] == w@);
            assert(text_lines(cs@)[n0 + 0int] == text_lines(s)[0]);
            assert forall|k: int| 0 <= k < rest.len() implies text_lines(cs@)[n0 + 1 + k]
                == #[trigger] rest[k] by {
                assert(text_lines(s)[1 + k] == rest[k]);
                assert(text_lines(cs@)[n0 + (1 + k)] == text_lines(s)[1 + k]);
            }
        }
        r.push(w);
        if j < cs.len() {
            i = j + 1;
        } else {
            i = j;
            proof {
                assert(cs@.skip(i as int).len() == 0);
            }
        }
    }
    r
}

/// Whether `a` and `b` are the same text.
pub fn str_eq(a: &str, b: &str) -> (r: bool)
    ensures
        r == (a@ == b@),
{
    let x = chars_of(a);
    let y = chars_of(b);
    chars_eq(x.as_slice(), y.as_slice())
}

/// Whether `needle` occurs in `hay` at position `i`.
pub open spec fn occurs_at(hay: Seq<char>, needle: Seq<char>, i: int) -> bool {
    0 <= i && i + needle.len() <= hay.len() && hay.subrange(i, i + needle.len()) == needle
}

/// Whether `needle` occurs anywhere in `hay`, as `str::contains` tells.
pub open spec fn contains_seq(hay: Seq<char>, needle: Seq<char>) -> bool {
    exists|i: int| occurs_at(hay, needle, i)
}

/// Whether `needle` occurs in `hay` at position `i`.
fn matches_at(hay: &[char], needle: &[char], i: usize) -> (r: bool)
    requires
        i <= hay@.len(),
    ensures
        r == occurs_at(hay@, needle@, i as int),
{
    if needle.len() > hay.len() - i {
        return false;
    }
    let mut k: usize = 0;
    while k < needle.len()
        invariant
            k <= needle@.len(),
            i + needle@.len() <= hay@.len(),
            hay@.len() <= usize::MAX,
            forall|j: int| 0 <= j < k ==> hay@[i + j] == needle@[j],
        decreases needle.len() - k,
    {
        assert(i + k < hay@.len());
        if hay[i + k] != needle[k] {
            assert(hay@.subrange(i as int, i + needle@.len())[k as int] != needle@[k as int]);
            return false;
        }
        k = k + 1;
    }
    assert(hay@.subrange(i as int, i + needle@.len()) =~= needle@);
    true
}

/// Whether `needle` occurs in `hay`.
pub fn contains_chars(hay: &[char], needle: &[char]) -> (r: bool)
    ensures
        r == contains_seq(hay@, needle@),
{
    let mut i: usize = 0;
    while i < hay.len()
        invariant
            i <= hay@.len(),
            forall|j: int| 0 <= j < i ==> !occurs_at(hay@, needle@, j),
        decreases hay.len() - i,
    {
        if matches_at(hay, needle, i) {
            return true;
        }
        i = i + 1;
    }
    if matches_at(hay, needle, i) {
        return true;
    }
    assert forall|j: int| !occurs_at(hay@, needle@, j) by {
        if 0 <= j <= hay@.len() {
        }
    }
    false
}

/// `s` with every occurrence of the non-empty `pat` replaced by `with`, scanning
/// from the left without overlaps, as `str::replace` does.
pub open spec fn replace_all(s: Seq<char>, pat: Seq<char>, with: Seq<char>) -> Seq<char>
    decreases s.len(),
{
    if pat.len() == 0 || s.len() < pat.len() {
        s
    } else if s.take(pat.len() as int) == pat {
        with + replace_all(s.skip(pat.len() as int), pat, with)
    } else {
        seq![s[0]] + replace_all(s.drop_first(), pat, with)
    }
}

/// `s` with every occurrence of the non-empty `pat` replaced by `with`.
pub fn replace(s: &str, pat: &str, with: &str) -> (r: String)
    requires
        pat@.len() > 0,
    ensures
        r@ == replace_all(s@, pat@, with@),
{
    let cs = chars_of(s);
    let ps = chars_of(pat);
    let mut r = String::new();
    let mut i: usize = 0;
    proof {
        assert(cs@.skip(0) =~= cs@);
    }
    while i < cs.len()
        invariant
            i <= cs@.len(),
            ps@ == pat@,
            ps@.len() > 0,
            replace_all(s@, pat@, with@) == r@ + replace_all(cs@.skip(i as int), pat@, with@),
            cs@ == s@,
        decreases cs.len() - i,
    {
        let ghost t = cs@.skip(i as int);
        if matches_at(cs.as_slice(), ps.as_slice(), i) {
            proof {
                assert(t.take(pat@.len() as int) =~= cs@.subrange(i as int, i + pat@.len()));
                assert(t.skip(pat@.len() as int) =~= cs@.skip(i + pat@.len()));
            }
            let ghost r_old = r@;
            push_str(&mut r, with);
            i = i + ps.len();
            assert(r_old + (with@ + replace_all(cs@.skip(i as int), pat@, with@)) =~= r@
                + replace_all(cs@.skip(i as int), pat@, with@));
        } else {
            proof {
                if t.len() >= pat@.len() {
                    assert(t.take(pat@.len() as int) =~= cs@.subrange(i as int, i + pat@.len()));
                }
                assert(t.drop_first() =~= cs@.skip(i + 1));
                assert(t[0] == cs@[i as int]);
            }
            let ghost r_old = r@;
            push_char(&mut r, cs[i]);
            i = i + 1;
            assert(r_old + (seq![t[0]] + replace_all(cs@.skip(i as int), pat@, with@)) =~= r@
                + replace_all(cs@.skip(i as int), pat@, with@));
        }
    }
    proof {
        assert(cs@.skip(i as int).len() == 0);
        assert(r@ + Seq::<char>::empty() =~= r@);
    }
    r
}

/// `template` with `%1` replaced by `first`, then `%2` by `second`.
pub open spec fn fill_two_spec(template: Seq<char>, first: Seq<char>, second: Seq<char>) -> Seq<
    char,
> {
    replace_all(replace_all(template, "%1"@, first), "%2"@, second)
}

/// `template` with `%1` replaced by `first`, then `%2` by `second`.
pub fn fill_two(template: &str, first: &str, second: &str) -> (r: String)
    ensures
        r@ == fill_two_spec(template@, first@, second@),
{
    proof {
        reveal_strlit("%1");
        reveal_strlit("%2");
    }
    let with_first = replace(template, "%1", first);
    replace(with_first.as_str(), "%2", second)
}

/// `template` with `%s` replaced by `value`.
pub fn fill_one(template: &str, value: &str) -> (r: String)
    ensures
        r@ == replace_all(template@, "%s"@, value@),
{
    proof {
        reveal_strlit("%s");
    }
    replace(template, "%s", value)
}

/// The lower-case hexadecimal character of a digit `d < 16`.
pub open spec fn hex_lower_char(d: nat) -> char {
    if d < 10 {
        (('0' as nat) + d) as char
    } else {
        (('a' as nat) + d - 10) as char
    }
}

/// The lower-case hexadecimal digits of `n < 256`, without leading zeros.
pub open spec fn lower_hex(n: nat) -> Seq<char> {
    if n < 16 {
        seq![hex_lower_char(n)]
    } else {
        seq![hex_lower_char(n / 16), hex_lower_char(n % 16)]
    }
}

/// Whether `c` is a control character that markup escaping writes as a
/// character reference: U+0001 to U+0008, U+000B, U+000C, U+000E to U+001F,
/// U+007F to U+0084 and U+0086 to U+009F.
pub open spec fn is_escaped_control(c: char) -> bool {
    let n = c as nat;
    (1 <= n <= 8) || (11 <= n <= 12) || (14 <= n <= 31) || (127 <= n <= 132) || (134 <= n <= 159)
}

/// The markup escape of one character: the five markup characters become
/// entities, the control characters above become `&#x..;` references, and
/// every other character stays.
pub open spec fn escape_char(c: char) -> Seq<char> {
    if c == '&' {
        "&amp;"@
    } else if c == '<' {
        "&lt;"@
    } else if c == '>' {
        "&gt;"@
    } else if c == '\'' {
        "&#39;"@
    } else if c == '"' {
        "&quot;"@
    } else if is_escaped_control(c) {
        "&#x"@ + lower_hex(c as nat) + ";"@
    } else {
        seq![c]
    }
}

/// The markup escape of `s`, character by character, as GLib's
/// `g_markup_escape_text` writes it.
pub open spec fn markup_escaped(s: Seq<char>) -> Seq<char>
    decreases s.len(),
{
    if s.len() == 0 {
        Seq::empty()
    } else {
        markup_escaped(s.drop_last()) + escape_char(s.last())
    }
}

/// The lower-case hexadecimal character of the digit `d`.
fn lower_hex_char(d: u32) -> (c: char)
    requires
        d < 16,
    ensures
        c == hex_lower_char(d as nat),
{
    if d < 10 {
        digit_char(d as u64)
    } else if d == 10 { 'a' }
    else if d == 11 { 'b' }
    else if d == 12 { 'c' }
    else if d == 13 { 'd' }
    else if d == 14 { 'e' }
    else { 'f' }
}

/// Append the markup escape of `c` to `s`.
fn push_escaped_char(s: &mut String, c: char)
    ensures
        final(s)@ == old(s)@ + escape_char(c),
{
    let n = c as u32;
    if c == '&' {
        push_str(s, "&amp;");
    } else if c == '<' {
        push_str(s, "&lt;");
    } else if c == '>' {
        push_str(s, "&gt;");
    } else if c == '\'' {
        push_str(s, "&#39;");
    } else if c == '"' {
        push_str(s, "&quot;");
    } else if (1 <= n && n <= 8) || (11 <= n && n <= 12) || (14 <= n && n <= 31) || (127 <= n
        && n <= 132) || (134 <= n && n <= 159) {
        push_str(s, "&#x");
        if n < 16 {
            push_char(s, lower_hex_char(n));
        } else {
            push_char(s, lower_hex_char(n / 16));
            push_char(s, lower_hex_char(n % 16));
        }
        push_str(s, ";");
        assert(s@ =~= old(s)@ + escape_char(c));
    } else {
        push_char(s, c);
        assert(s@ =~= old(s)@ + escape_char(c));
    }
}

/// `s` escaped for markup, as GLib's `g_markup_escape_text` escapes it.
pub fn markup_escape(s: &str) -> (r: String)
    ensures
        r@ == markup_escaped(s@),
{
    let cs = chars_of(s);
    let mut r = String::new();
    let mut i: usize = 0;
    while i < cs.len()
        invariant
            cs@ == s@,
            i <= cs@.len(),
            r@ == markup_escaped(s@.subrange(0, i as int)),
        decreases cs.len() - i,
    {
        proof {
            assert(s@.subrange(0, i + 1).drop_last() =~= s@.subrange(0, i as int));
        }
        push_escaped_char(&mut r, cs[i]);
        i = i + 1;
    }
    assert(s@.subrange(0, s@.len() as int) =~= s@);
    r
}

} // verus!
