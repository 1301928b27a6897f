//! Character-level building blocks used by the display and decoding logic:
//! decimal and hexadecimal rendering, UTF-8 decoding, whitespace collapsing
//! and comparisons on character sequences.

use vstd::prelude::*;
use vstd::string::*;
use vstd::utf8::*;

verus! {

broadcast use vstd::string::group_string_axioms;

/// The character for the decimal digit `d` (`0 <= d < 10`).
pub open spec fn digit_char(d: int) -> char {
    (48 + d) as char
}

/// The decimal representation of a natural number, most significant digit first.
pub open spec fn decimal(n: nat) -> Seq<char>
    decreases n,
{
    if n < 10 {
        seq![digit_char(n as int)]
    } else {
        decimal(n / 10).push(digit_char((n % 10) as int))
    }
}

/// The decimal representation of an integer, with a leading `-` when negative.
pub open spec fn signed_decimal(i: int) -> Seq<char> {
    if i < 0 {
        seq!['-'] + decimal((-i) as nat)
    } else {
        decimal(i as nat)
    }
}

/// The lower-case hexadecimal digit for `d` (`0 <= d < 16`).
pub open spec fn hex_digit(d: int) -> char {
    if d < 10 {
        (48 + d) as char
    } else {
        (87 + d) as char
    }
}

/// A byte as two lower-case hexadecimal digits.
pub open spec fn hex_byte(b: u8) -> Seq<char> {
    seq![hex_digit(b as int / 16), hex_digit(b as int % 16)]
}

/// The number a string of decimal digits reads as.
pub open spec fn digits_value(s: Seq<char>) -> int
    decreases s.len(),
{
    if s.len() == 0 {
        0
    } else {
        digits_value(s.drop_last()) * 10 + (s.last() as int - 48)
    }
}

/// Whether `c` is one of `0`-`9`.
pub open spec fn is_decimal_digit(c: char) -> bool {
    48 <= c as int <= 57
}

/// The decimal representation of `n` is made of digits, has no leading zero
/// (but for `0` itself) and reads back as `n`.
pub proof fn lemma_decimal_reads_back(n: nat)
    ensures
        decimal(n).len() > 0,
        forall|i: int| 0 <= i < decimal(n).len() ==> is_decimal_digit(#[trigger] decimal(n)[i]),
        decimal(n).len() > 1 ==> decimal(n)[0] != '0',
        n >= 10 ==> decimal(n).len() > 1,
        digits_value(decimal(n)) == n,
    decreases n,
{
    if n < 10 {
        assert(decimal(n).drop_last() =~= Seq::<char>::empty());
        assert(digit_char(n as int) as int == 48 + n);
        assert(digits_value(Seq::<char>::empty()) == 0);
        assert(digits_value(decimal(n)) == 0 * 10 + (decimal(n).last() as int - 48));
    } else {
        lemma_decimal_reads_back(n / 10);
        let d = decimal(n / 10);
        assert(decimal(n).drop_last() =~= d);
        assert(decimal(n)[0] == d[0]);
        assert(n == (n / 10) * 10 + n % 10);
        assert(digit_char((n % 10) as int) as int == 48 + n % 10);
        assert(decimal(n).last() == digit_char((n % 10) as int));
        assert(digits_value(decimal(n)) == digits_value(d) * 10 + (decimal(n).last() as int - 48));
        if d.len() == 1 {
            assert(n / 10 < 10);
            assert(d[0] == digit_char((n / 10) as int));
            assert(digit_char((n / 10) as int) as int == 48 + n / 10);
        }
        assert forall|i: int| 0 <= i < decimal(n).len() implies is_decimal_digit(
            #[trigger] decimal(n)[i],
        ) by {
            if i < d.len() {
                assert(decimal(n)[i] == d[i]);
            }
        }
    }
}

/// The value of a lower-case hexadecimal digit.
pub open spec fn hex_value(c: char) -> int {
    if c as int <= 57 {
        c as int - 48
    } else {
        c as int - 87
    }
}

/// A byte is shown as two lower-case hexadecimal digits, high nibble first,
/// that read back as the byte.
pub proof fn lemma_hex_byte_reads_back(b: u8)
    ensures
        hex_byte(b).len() == 2,
        forall|i: int|
            0 <= i < 2 ==> (is_decimal_digit(#[trigger] hex_byte(b)[i]) || 97 <= hex_byte(b)[i] as int
                <= 102),
        hex_value(hex_byte(b)[0]) * 16 + hex_value(hex_byte(b)[1]) == b,
{
    assert(b as int == (b as int / 16) * 16 + b as int % 16);
}

/// `String::push`: appends one character.
#[verifier::external_body]
pub fn push_char(s: &mut String, c: char)
    ensures
        final(s)@ == old(s)@.push(c),
{
    s.push(c);
}

/// `String::pop`: removes the last character, if any.
#[verifier::external_body]
pub fn pop_char(s: &mut String)
    ensures
        old(s)@.len() > 0 ==> final(s)@ == old(s)@.drop_last(),
        old(s)@.len() == 0 ==> final(s)@ == old(s)@,
{
    s.pop();
}

/// Appends every character of `t` to `s`.
pub fn push_str(s: &mut String, t: &str)
    ensures
        final(s)@ == old(s)@ + t@,
{
    s.append(t);
}

/// A string holding the characters of a literal or slice.
pub fn owned(t: &str) -> (r: String)
    ensures
        r@ == t@,
{
    t.to_string()
}

fn digit(d: u64) -> (c: char)
    requires
        d < 10,
    ensures
        c == digit_char(d as int),
{
    ((d as u8) + 48) as char
}

fn hex_char(d: u8) -> (c: char)
    requires
        d < 16,
    ensures
        c == hex_digit(d as int),
{
    if d < 10 {
        (d + 48) as char
    } else {
        (d + 87) as char
    }
}

/// Appends the decimal representation of `n`.
pub fn push_decimal(s: &mut String, n: u64)
    ensures
        final(s)@ == old(s)@ + decimal(n as nat),
    decreases n,
{
    let ghost before = s@;
    if n >= 10 {
        push_decimal(s, n / 10);
    }
    push_char(s, digit(n % 10));
    assert(s@ =~= before + decimal(n as nat));
}

/// Appends the decimal representation of `i`, with a `-` sign when negative.
pub fn push_signed_decimal(s: &mut String, i: i64)
    ensures
        final(s)@ == old(s)@ + signed_decimal(i as int),
{
    let ghost before = s@;
    if i < 0 {
        push_char(s, '-');
        let m: u64 = (0i128 - (i as i128)) as u64;
        push_decimal(s, m);
        assert(s@ =~= before + signed_decimal(i as int));
    } else {
        push_decimal(s, i as u64);
    }
}

/// Appends the two lower-case hexadecimal digits of `b`.
pub fn push_hex_byte(s: &mut String, b: u8)
    ensures
        final(s)@ == old(s)@ + hex_byte(b),
{
    let ghost before = s@;
    push_char(s, hex_char(b / 16));
    push_char(s, hex_char(b % 16));
    assert(s@ =~= before + hex_byte(b));
}

/// `std::str::from_utf8`: succeeds exactly on well-formed UTF-8 and then
/// yields the decoded characters.
#[verifier::external_body]
pub fn utf8_str(bytes: &[u8]) -> (r: Option<&str>)
    ensures
        r is Some <==> valid_utf8(bytes@),
        r matches Some(s) ==> s@ == decode_utf8(bytes@),
{
    std::str::from_utf8(bytes).ok()
}

/// What `String::from_utf8_lossy` makes of a byte sequence.
pub uninterp spec fn utf8_lossy(bytes: Seq<u8>) -> Seq<char>;

/// `String::from_utf8_lossy`: decodes bytes, replacing ill-formed sequences
/// with U+FFFD. Which replacements it makes is left to the name
/// `utf8_lossy`; stated is that well-formed input decodes exactly.
#[verifier::external_body]
pub fn utf8_text_lossy(bytes: &[u8]) -> (r: String)
    ensures
        r@ == utf8_lossy(bytes@),
        valid_utf8(bytes@) ==> r@ == decode_utf8(bytes@),
{
    String::from_utf8_lossy(bytes).into_owned()
}

/// The characters of a string slice, in order.
pub fn chars_of(s: &str) -> (r: Vec<char>)
    ensures
        r@ == s@,
{
    let mut v: Vec<char> = Vec::new();
    let it0 = s.chars();
    for c in it: it0
        invariant
            it.seq() == s@,
            v@ == it.seq().take(it.index() as int),
    {
        v.push(c);
        assert(v@ =~= it.seq().take(it.index() as int + 1));
    }
    assert(v@ =~= s@);
    v
}


/// A string made of the given characters.
pub fn string_of(cs: &Vec<char>) -> (r: String)
    ensures
        r@ == cs@,
{
    let mut out = String::new();
    let mut i: usize = 0;
    while i < cs.len()
        invariant
            i <= cs.len(),
            out@ == cs@.take(i as int),
        decreases cs.len() - i,
    {
        push_char(&mut out, cs[i]);
        i = i + 1;
        assert(out@ =~= cs@.take(i as int));
    }
    assert(cs@.take(i as int) =~= cs@);
    out
}

/// The Unicode `White_Space` property, which `char::is_whitespace` reports.
pub open spec fn is_white_space(c: char) -> bool {
    let u = c as u32;
    ||| 0x09 <= u <= 0x0d
    ||| u == 0x20
    ||| u == 0x85
    ||| u == 0xa0
    ||| u == 0x1680
    ||| 0x2000 <= u <= 0x200a
    ||| u == 0x2028
    ||| u == 0x2029
    ||| u == 0x202f
    ||| u == 0x205f
    ||| u == 0x3000
}

/// `char::is_whitespace`.
pub fn is_white_space_char(c: char) -> (b: bool)
    ensures
        b == is_white_space(c),
{
    let u = c as u32;
    (0x09 <= u && u <= 0x0d) || u == 0x20 || u == 0x85 || u == 0xa0 || u == 0x1680 || (0x2000
        <= u && u <= 0x200a) || u == 0x2028 || u == 0x2029 || u == 0x202f || u == 0x205f || u
        == 0x3000
}

/// The words of `s` (maximal runs of non-whitespace) joined by single spaces,
/// continuing a scan in which a word has already been emitted (`started`) and
/// whitespace has been seen since (`pending`).
pub open spec fn collapse_from(s: Seq<char>, pending: bool, started: bool) -> Seq<char>
    decreases s.len(),
{
    if s.len() == 0 {
        seq![]
    } else if is_white_space(s[0]) {
        collapse_from(s.drop_first(), started, started)
    } else {
        (if pending {
            seq![' ', s[0]]
        } else {
            seq![s[0]]
        }) + collapse_from(s.drop_first(), false, true)
    }
}

/// `s.split_whitespace()` joined with single spaces.
pub open spec fn collapse_whitespace(s: Seq<char>) -> Seq<char> {
    collapse_from(s, false, false)
}

/// Whether a character is not whitespace.
pub open spec fn not_white_space(c: char) -> bool {
    !is_white_space(c)
}

/// Whether a text is words separated by single spaces: every whitespace
/// character is a space, none leads or ends it, and no two are adjacent.
pub open spec fn single_spaced(r: Seq<char>) -> bool {
    &&& forall|i: int| 0 <= i < r.len() ==> #[trigger] r[i] == ' ' || !is_white_space(r[i])
    &&& r.len() > 0 ==> r[0] != ' ' && r.last() != ' '
    &&& forall|i: int| 0 <= i < r.len() - 1 && #[trigger] r[i] == ' ' ==> r[i + 1] != ' '
}

proof fn lemma_collapse_from(s: Seq<char>, pending: bool, started: bool)
    requires
        pending ==> started,
    ensures
        ({
            let r = collapse_from(s, pending, started);
            &&& forall|i: int| 0 <= i < r.len() ==> #[trigger] r[i] == ' ' || !is_white_space(r[i])
            &&& !started && r.len() > 0 ==> r[0] != ' '
            &&& r.len() > 0 ==> r.last() != ' '
            &&& forall|i: int| 0 <= i < r.len() - 1 && #[trigger] r[i] == ' ' ==> r[i + 1] != ' '
            &&& r.filter(|c: char| not_white_space(c)) == s.filter(|c: char| not_white_space(c))
        }),
    decreases s.len(),
{
    reveal(Seq::filter);
    let nw = |c: char| not_white_space(c);
    if s.len() == 0 {
        assert(collapse_from(s, pending, started).filter(nw) =~= s.filter(nw));
    } else {
        let rest = s.drop_first();
        assert(s =~= seq![s[0]] + rest);
        Seq::filter_distributes_over_add(seq![s[0]], rest, nw);
        assert(seq![s[0]].drop_last() =~= Seq::<char>::empty());
        assert(Seq::<char>::empty().filter(nw) =~= Seq::<char>::empty());
        assert(seq![s[0]].last() == s[0]);
        if is_white_space(s[0]) {
            lemma_collapse_from(rest, started, started);
            assert(seq![s[0]].filter(nw) =~= Seq::<char>::empty());
            assert(s.filter(nw) =~= rest.filter(nw));
        } else {
            lemma_collapse_from(rest, false, true);
            let t = collapse_from(rest, false, true);
            let pre = if pending {
                seq![' ', s[0]]
            } else {
                seq![s[0]]
            };
            let r = pre + t;
            assert(r == collapse_from(s, pending, started));
            assert(seq![s[0]].filter(nw) =~= seq![s[0]]);
            assert(pre.filter(nw) =~= seq![s[0]]) by {
                if pending {
                    assert(pre.drop_last() =~= seq![' ']);
                    assert(seq![' '].drop_last() =~= Seq::<char>::empty());
                    assert(is_white_space(' '));
                    assert(seq![' '].filter(nw) =~= Seq::<char>::empty());
                    assert(pre.last() == s[0]);
                }
            }
            Seq::filter_distributes_over_add(pre, t, nw);
            assert forall|i: int| 0 <= i < r.len() implies #[trigger] r[i] == ' ' || !is_white_space(
                r[i],
            ) by {
                if i >= pre.len() {
                    assert(r[i] == t[i - pre.len()]);
                }
            }
            assert forall|i: int| 0 <= i < r.len() - 1 && #[trigger] r[i] == ' ' implies r[i + 1]
                != ' ' by {
                if i >= pre.len() {
                    assert(r[i] == t[i - pre.len()]);
                    assert(r[i + 1] == t[i + 1 - pre.len()]);
                } else if i == pre.len() - 1 {
                    assert(r[i] == s[0]);
                    assert(is_white_space(' '));
                }
            }
            if t.len() > 0 {
                assert(r.last() == t.last());
            }
        }
    }
}

/// Collapsing whitespace gives words separated by single spaces, and keeps
/// every other character of the text, in order.
pub proof fn lemma_collapse_whitespace(s: Seq<char>)
    ensures
        single_spaced(collapse_whitespace(s)),
        collapse_whitespace(s).filter(|c: char| not_white_space(c)) == s.filter(
            |c: char| not_white_space(c),
        ),
{
    lemma_collapse_from(s, false, false);
}

/// The scan state `(pending, started)` after reading `a`.
pub open spec fn collapse_state(a: Seq<char>, pending: bool, started: bool) -> (bool, bool)
    decreases a.len(),
{
    if a.len() == 0 {
        (pending, started)
    } else if is_white_space(a[0]) {
        collapse_state(a.drop_first(), started, started)
    } else {
        collapse_state(a.drop_first(), false, true)
    }
}

/// Whether a text has a character that is not whitespace.
pub open spec fn has_word(a: Seq<char>) -> bool {
    exists|i: int| 0 <= i < a.len() && not_white_space(#[trigger] a[i])
}

proof fn lemma_collapse_append(a: Seq<char>, b: Seq<char>, pending: bool, started: bool)
    ensures
        collapse_from(a + b, pending, started) == collapse_from(a, pending, started) + collapse_from(
            b,
            collapse_state(a, pending, started).0,
            collapse_state(a, pending, started).1,
        ),
    decreases a.len(),
{
    if a.len() == 0 {
        assert(a + b =~= b);
        assert(collapse_from(a, pending, started) =~= Seq::<char>::empty());
        assert(Seq::<char>::empty() + collapse_from(b, pending, started) =~= collapse_from(
            b,
            pending,
            started,
        ));
    } else {
        assert((a + b).drop_first() =~= a.drop_first() + b);
        assert((a + b)[0] == a[0]);
        if is_white_space(a[0]) {
            lemma_collapse_append(a.drop_first(), b, started, started);
        } else {
            lemma_collapse_append(a.drop_first(), b, false, true);
            let pre = if pending {
                seq![' ', a[0]]
            } else {
                seq![a[0]]
            };
            let st = collapse_state(a, pending, started);
            assert(pre + collapse_from(a.drop_first() + b, false, true) =~= pre + collapse_from(
                a.drop_first(),
                false,
                true,
            ) + collapse_from(b, st.0, st.1));
        }
    }
}

proof fn lemma_collapse_state_started(a: Seq<char>, pending: bool, started: bool)
    requires
        has_word(a),
    ensures
        collapse_state(a, pending, started).1,
    decreases a.len(),
{
    let i = choose|i: int| 0 <= i < a.len() && not_white_space(#[trigger] a[i]);
    if is_white_space(a[0]) {
        assert(a.drop_first()[i - 1] == a[i]);
        lemma_collapse_state_started(a.drop_first(), started, started);
    } else if has_word(a.drop_first()) {
        lemma_collapse_state_started(a.drop_first(), false, true);
    } else {
        lemma_collapse_state_keeps_started(a.drop_first(), false);
    }
}

proof fn lemma_collapse_state_keeps_started(a: Seq<char>, pending: bool)
    ensures
        collapse_state(a, pending, true).1,
    decreases a.len(),
{
    if a.len() > 0 {
        if is_white_space(a[0]) {
            lemma_collapse_state_keeps_started(a.drop_first(), true);
        } else {
            lemma_collapse_state_keeps_started(a.drop_first(), false);
        }
    }
}

proof fn lemma_collapse_after_space(b: Seq<char>)
    requires
        has_word(b),
    ensures
        collapse_from(b, true, true) == seq![' '] + collapse_from(b, false, false),
    decreases b.len(),
{
    let i = choose|i: int| 0 <= i < b.len() && not_white_space(#[trigger] b[i]);
    if is_white_space(b[0]) {
        assert(b.drop_first()[i - 1] == b[i]);
        lemma_collapse_after_space(b.drop_first());
    } else {
        assert(seq![' ', b[0]] + collapse_from(b.drop_first(), false, true) =~= seq![' '] + (seq![
            b[0],
        ] + collapse_from(b.drop_first(), false, true)));
    }
}

/// Two texts that each hold a word, joined by a space, collapse to their
/// collapsed forms joined by a single space: the words stay apart.
pub proof fn lemma_collapse_join(a: Seq<char>, b: Seq<char>)
    requires
        has_word(a),
        has_word(b),
    ensures
        collapse_whitespace(a + seq![' '] + b) == collapse_whitespace(a) + seq![' ']
            + collapse_whitespace(b),
{
    lemma_collapse_append(a, seq![' '] + b, false, false);
    assert(a + seq![' '] + b =~= a + (seq![' '] + b));
    lemma_collapse_state_started(a, false, false);
    let st = collapse_state(a, false, false);
    assert((seq![' '] + b)[0] == ' ');
    assert((seq![' '] + b).drop_first() =~= b);
    assert(is_white_space(' '));
    assert(collapse_from(seq![' '] + b, st.0, st.1) == collapse_from(b, true, true));
    lemma_collapse_after_space(b);
    assert(collapse_whitespace(a) + (seq![' '] + collapse_whitespace(b)) =~= collapse_whitespace(a)
        + seq![' '] + collapse_whitespace(b));
}

/// Splits on whitespace and joins the words with single spaces.
pub fn collapse_white_space(s: &str) -> (r: String)
    ensures
        r@ == collapse_whitespace(s@),
        single_spaced(r@),
        r@.filter(|c: char| not_white_space(c)) == s@.filter(|c: char| not_white_space(c)),
{
    proof {
        lemma_collapse_whitespace(s@);
    }
    let cs = chars_of(s);
    let mut out = String::new();
    let mut pending = false;
    let mut started = false;
    let mut i: usize = 0;
    assert(cs@.skip(0) =~= cs@);
    assert(out@ + collapse_whitespace(cs@) =~= collapse_whitespace(cs@));
    while i < cs.len()
        invariant
            i <= cs.len(),
            pending ==> started,
            out@ + collapse_from(cs@.skip(i as int), pending, started) == collapse_whitespace(
                cs@,
            ),
        decreases cs.len() - i,
    {
        let c = cs[i];
        let ghost rest = cs@.skip(i as int);
        assert(rest.drop_first() =~= cs@.skip(i + 1));
        assert(rest[0] == c);
        if is_white_space_char(c) {
            pending = started;
        } else {
            let ghost before = out@;
            if pending {
                push_char(&mut out, ' ');
            }
            push_char(&mut out, c);
            proof {
                let tail = collapse_from(cs@.skip(i + 1), false, true);
                if pending {
                    assert(out@ + tail =~= before + (seq![' ', c] + tail));
                } else {
                    assert(out@ + tail =~= before + (seq![c] + tail));
                }
            }
            pending = false;
            started = true;
        }
        i = i + 1;
    }
    assert(cs@.skip(i as int) =~= Seq::<char>::empty());
    assert(out@ + seq![] =~= out@);
    out
}

/// Whether two string slices hold the same characters.
pub fn same_text(a: &str, b: &str) -> (r: bool)
    ensures
        r == (a@ == b@),
{
    let x = chars_of(a);
    let y = chars_of(b);
    if x.len() != y.len() {
        return false;
    }
    let mut i: usize = 0;
    while i < x.len()
        invariant
            x@ == a@,
            y@ == b@,
            x.len() == y.len(),
            i <= x.len(),
            forall|k: int| 0 <= k < i ==> x@[k] == y@[k],
        decreases x.len() - i,
    {
        if x[i] != y[i] {
            return false;
        }
        i = i + 1;
    }
    assert(x@ =~= y@);
    true
}

/// Whether `f` occurs in `s` as a run of consecutive characters.
pub open spec fn contains_text(s: Seq<char>, f: Seq<char>) -> bool {
    exists|i: int| 0 <= i && i + f.len() <= s.len() && #[trigger] s.subrange(i, i + f.len()) == f
}

fn occurs_at(s: &Vec<char>, f: &Vec<char>, i: usize) -> (r: bool)
    requires
        i + f.len() <= s.len(),
    ensures
        r == (s@.subrange(i as int, i + f@.len()) == f@),
{
    let mut k: usize = 0;
    while k < f.len()
        invariant
            i + f.len() <= s.len(),
            k <= f.len(),
            forall|m: int| 0 <= m < k ==> s@[i + m] == f@[m],
        decreases f.len() - k,
    {
        if s[i + k] != f[k] {
            assert(s@.subrange(i as int, i + f@.len())[k as int] != f@[k as int]);
            return false;
        }
        k = k + 1;
    }
    assert(s@.subrange(i as int, i + f@.len()) =~= f@);
    true
}

/// `str::contains` for a string pattern.
pub fn contains_str(s: &str, f: &str) -> (r: bool)
    ensures
        r == contains_text(s@, f@),
{
    let cs = chars_of(s);
    let fs = chars_of(f);
    if fs.len() > cs.len() {
        return false;
    }
    let limit = cs.len() - fs.len();
    let mut i: usize = 0;
    loop
        invariant
            cs@ == s@,
            fs@ == f@,
            limit == cs.len() - fs.len(),
            i <= limit,
            forall|j: int| 0 <= j < i ==> #[trigger] cs@.subrange(j, j + fs@.len()) != fs@,
        decreases limit - i,
    {
        if occurs_at(&cs, &fs, i) {
            return true;
        }
        if i == limit {
            return false;
        }
        i = i + 1;
    }
}

/// Whether `s` begins with `p`.
pub open spec fn has_prefix(s: Seq<char>, p: Seq<char>) -> bool {
    p.len() <= s.len() && s.take(p.len() as int) == p
}

/// `str::starts_with` for a string pattern.
pub fn starts_with(s: &str, p: &str) -> (b: bool)
    ensures
        b == has_prefix(s@, p@),
{
    let cs = chars_of(s);
    let ps = chars_of(p);
    if ps.len() > cs.len() {
        return false;
    }
    let mut i: usize = 0;
    while i < ps.len()
        invariant
            cs@ == s@,
            ps@ == p@,
            ps.len() <= cs.len(),
            i <= ps.len(),
            forall|k: int| 0 <= k < i ==> cs@[k] == ps@[k],
        decreases ps.len() - i,
    {
        if cs[i] != ps[i] {
            assert(cs@.take(ps@.len() as int)[i as int] == cs@[i as int]);
            assert(cs@.take(ps@.len() as int) != ps@);
            return false;
        }
        i = i + 1;
    }
    assert(cs@.take(ps@.len() as int) =~= ps@);
    true
}

/// Lexicographic strict order on character sequences, comparing code points.
/// On strings this is the order of `str`'s `Ord`, since UTF-8 preserves the
/// order of code points.
pub open spec fn chars_before(a: Seq<char>, b: Seq<char>) -> bool
    decreases a.len(),
{
    if a.len() == 0 {
        b.len() > 0
    } else if b.len() == 0 {
        false
    } else if (a[0] as u32) < (b[0] as u32) {
        true
    } else if (b[0] as u32) < (a[0] as u32) {
        false
    } else {
        chars_before(a.drop_first(), b.drop_first())
    }
}

/// Whether `a` sorts strictly before `b`.
pub fn str_before(a: &str, b: &str) -> (r: bool)
    ensures
        r == chars_before(a@, b@),
{
    let x = chars_of(a);
    let y = chars_of(b);
    let mut i: usize = 0;
    assert(x@.skip(0) =~= x@ && y@.skip(0) =~= y@);
    while i < x.len() && i < y.len()
        invariant
            x@ == a@,
            y@ == b@,
            i <= x.len(),
            i <= y.len(),
            chars_before(x@, y@) == chars_before(x@.skip(i as int), y@.skip(i as int)),
        decreases x.len() - i,
    {
        let ghost xs = x@.skip(i as int);
        let ghost ys = y@.skip(i as int);
        assert(xs[0] == x@[i as int] && ys[0] == y@[i as int]);
        let cx = x[i] as u32;
        let cy = y[i] as u32;
        if cx < cy {
            return true;
        }
        if cy < cx {
            return false;
        }
        assert(xs.drop_first() =~= x@.skip(i + 1));
        assert(ys.drop_first() =~= y@.skip(i + 1));
        i = i + 1;
    }
    assert(x@.skip(i as int).len() == 0 || y@.skip(i as int).len() == 0);
    y.len() > i
}

/// `chars_before` never holds both ways.
pub proof fn lemma_chars_before_asym(a: Seq<char>, b: Seq<char>)
    requires
        chars_before(a, b),
    ensures
        !chars_before(b, a),
    decreases a.len(),
{
    if a.len() > 0 && b.len() > 0 && (a[0] as u32) == (b[0] as u32) {
        lemma_chars_before_asym(a.drop_first(), b.drop_first());
    }
}

/// If `c` does not come after `b` and `b` does not come after `a`, then `c`
/// does not come after `a`.
pub proof fn lemma_chars_before_order(a: Seq<char>, b: Seq<char>, c: Seq<char>)
    requires
        !chars_before(a, b),
        !chars_before(b, c),
    ensures
        !chars_before(a, c),
    decreases a.len(),
{
    if a.len() > 0 && b.len() > 0 && c.len() > 0 && (a[0] as u32) == (b[0] as u32) && (b[0] as u32) == (c[0] as u32) {
        lemma_chars_before_order(a.drop_first(), b.drop_first(), c.drop_first());
    }
}

/// When neither of two sequences sorts before the other, they are equal.
pub proof fn lemma_chars_before_total(a: Seq<char>, b: Seq<char>)
    requires
        !chars_before(a, b),
        !chars_before(b, a),
    ensures
        a == b,
    decreases a.len(),
{
    if a.len() > 0 && b.len() > 0 {
        lemma_chars_before_total(a.drop_first(), b.drop_first());
        vstd::utf8::char_u32_cast(a[0], a[0] as u32);
        vstd::utf8::char_u32_cast(b[0], b[0] as u32);
        assert(a =~= seq![a[0]] + a.drop_first());
        assert(b =~= seq![b[0]] + b.drop_first());
    } else {
        assert(a =~= b);
    }
}

} // verus!
