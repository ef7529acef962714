//! Text: decimal numbers, padding, and the searches that reading a packet
//! needs.

use vstd::prelude::*;

verus! {

/// The character of the decimal digit `d`.
pub open spec fn digit_char(d: nat) -> char {
    (('0' as nat) + d) as char
}

/// `n` in decimal, without leading zeros.
pub open spec fn dec(n: nat) -> Seq<char>
    decreases n,
{
    if n < 10 {
        seq![digit_char(n)]
    } else {
        dec(n / 10).push(digit_char(n % 10))
    }
}

/// `n` times the character `c`.
pub open spec fn fill(c: char, n: nat) -> Seq<char> {
    Seq::new(n, |i: int| c)
}

/// `s` behind as many `c` as it takes to reach `width` characters.
pub open spec fn pad_left(s: Seq<char>, width: nat, c: char) -> Seq<char> {
    if s.len() < width {
        fill(c, (width - s.len()) as nat) + s
    } else {
        s
    }
}

/// `s` followed by as many spaces as it takes to reach `width` characters.
pub open spec fn pad_right(s: Seq<char>, width: nat) -> Seq<char> {
    if s.len() < width {
        s + fill(' ', (width - s.len()) as nat)
    } else {
        s
    }
}

/// The text of the decimal digit `d`.
fn digit_str(d: u64) -> (s: &'static str)
    requires
        d < 10,
    ensures
        s@ == seq![digit_char(d as nat)],
{
    proof {
        reveal_strlit("0");
        reveal_strlit("1");
        reveal_strlit("2");
        reveal_strlit("3");
        reveal_strlit("4");
        reveal_strlit("5");
        reveal_strlit("6");
        reveal_strlit("7");
        reveal_strlit("8");
        reveal_strlit("9");
    }
    let s: &'static str = match d {
        0 => "0",
        1 => "1",
        2 => "2",
        3 => "3",
        4 => "4",
        5 => "5",
        6 => "6",
        7 => "7",
        8 => "8",
        _ => "9",
    };
    assert(s@ =~= seq![digit_char(d as nat)]);
    s
}

/// `n` in decimal.
pub fn decimal(n: u64) -> (s: String)
    ensures
        s@ == dec(n as nat),
    decreases n,
{
    if n < 10 {
        digit_str(n).to_string()
    } else {
        let mut s: String = decimal(n / 10);
        s.append(digit_str(n % 10));
        assert(s@ =~= dec(n as nat));
        s
    }
}

/// Behind `s`, `n` in decimal.
pub fn push_decimal(s: &mut String, n: u64)
    ensures
        final(s)@ == old(s)@ + dec(n as nat),
{
    let d: String = decimal(n);
    s.append(d.as_str());
}

/// `n` copies of the one-character text `c`.
fn repeat(c: &str, n: usize) -> (s: String)
    requires
        c@.len() == 1,
    ensures
        s@ == fill(c@[0], n as nat),
{
    let mut s: String = String::new();
    let mut i: usize = 0;
    assert(s@ =~= fill(c@[0], 0));
    while i < n
        invariant
            i <= n,
            c@.len() == 1,
            s@ == fill(c@[0], i as nat),
        decreases n - i,
    {
        s.append(c);
        i = i + 1;
        assert(s@ =~= fill(c@[0], i as nat));
    }
    s
}

/// `s` right-aligned in a field of `width` characters.
pub fn align_right(s: &str, width: usize) -> (r: String)
    ensures
        r@ == pad_left(s@, width as nat, ' '),
{
    let len: usize = s.unicode_len();
    if len < width {
        proof {
            reveal_strlit(" ");
        }
        let mut r: String = repeat(" ", width - len);
        r.append(s);
        r
    } else {
        s.to_string()
    }
}

/// `s` left-aligned in a field of `width` characters.
pub fn align_left(s: &str, width: usize) -> (r: String)
    ensures
        r@ == pad_right(s@, width as nat),
{
    let len: usize = s.unicode_len();
    let mut r: String = s.to_string();
    if len < width {
        proof {
            reveal_strlit(" ");
        }
        let blank: String = repeat(" ", width - len);
        r.append(blank.as_str());
    }
    r
}

/// `n` in decimal, filled up with zeros to `width` digits.
pub fn zero_padded(n: u64, width: usize) -> (r: String)
    ensures
        r@ == pad_left(dec(n as nat), width as nat, '0'),
{
    let d: String = decimal(n);
    let len: usize = d.as_str().unicode_len();
    if len < width {
        proof {
            reveal_strlit("0");
        }
        let mut r: String = repeat("0", width - len);
        r.append(d.as_str());
        r
    } else {
        d
    }
}

/// Whether `c` is one of the ten decimal digits.
pub open spec fn is_digit(c: char) -> bool {
    '0' <= c && c <= '9'
}

/// Whether `c` has the Unicode property `White_Space`.
pub open spec fn is_space(c: char) -> bool {
    ||| '\u{9}' <= c && c <= '\u{d}'
    ||| c == ' '
    ||| c == '\u{85}'
    ||| c == '\u{a0}'
    ||| c == '\u{1680}'
    ||| '\u{2000}' <= c && c <= '\u{200a}'
    ||| c == '\u{2028}'
    ||| c == '\u{2029}'
    ||| c == '\u{202f}'
    ||| c == '\u{205f}'
    ||| c == '\u{3000}'
}

/// How many characters at the start of `s` satisfy `p` before one does not.
pub open spec fn run_len(s: Seq<char>, p: spec_fn(char) -> bool) -> nat
    decreases s.len(),
{
    if s.len() == 0 || !p(s[0]) {
        0
    } else {
        1 + run_len(s.drop_first(), p)
    }
}

/// `s` without the white space at its start.
pub open spec fn trim_start(s: Seq<char>) -> Seq<char> {
    s.skip(run_len(s, |c: char| is_space(c)) as int)
}

/// `s` without the white space at its end.
pub open spec fn trim_end(s: Seq<char>) -> Seq<char>
    decreases s.len(),
{
    if s.len() > 0 && is_space(s.last()) {
        trim_end(s.drop_last())
    } else {
        s
    }
}

/// Whether `p` stands in `s` at position `i`.
pub open spec fn occurs_at(s: Seq<char>, p: Seq<char>, i: int) -> bool {
    0 <= i && i + p.len() <= s.len() && s.subrange(i, i + p.len()) == p
}

/// Whether `i` is the first position at which `p` stands in `s`.
pub open spec fn first_occurrence(s: Seq<char>, p: Seq<char>, i: int) -> bool {
    occurs_at(s, p, i) && forall|j: int| 0 <= j < i ==> !#[trigger] occurs_at(s, p, j)
}

/// The first position at which `p` stands in `s`.
pub open spec fn find(s: Seq<char>, p: Seq<char>) -> Option<int> {
    if exists|i: int| first_occurrence(s, p, i) {
        Some(choose|i: int| first_occurrence(s, p, i))
    } else {
        None
    }
}

/// A number of leading characters that satisfy `p`, up to the end or to one
/// that does not, is the length of the run.
pub proof fn lemma_run_len(s: Seq<char>, p: spec_fn(char) -> bool, n: nat)
    requires
        n <= s.len(),
        forall|i: int| 0 <= i < n ==> p(#[trigger] s[i]),
        n < s.len() ==> !p(s[n as int]),
    ensures
        run_len(s, p) == n,
    decreases n,
{
    if n > 0 {
        let t = s.drop_first();
        assert(p(s[0]));
        assert forall|i: int| 0 <= i < n - 1 implies p(#[trigger] t[i]) by {
            assert(t[i] == s[i + 1]);
        }
        if n < s.len() {
            assert(t[n - 1] == s[n as int]);
        }
        lemma_run_len(t, p, (n - 1) as nat);
    }
}

/// The first position found is unique.
pub proof fn lemma_find(s: Seq<char>, p: Seq<char>, i: int)
    requires
        first_occurrence(s, p, i),
    ensures
        find(s, p) == Some(i),
{
    let k = choose|k: int| first_occurrence(s, p, k);
    if k < i {
        assert(!occurs_at(s, p, k));
    } else if i < k {
        assert(!occurs_at(s, p, i));
    }
}

/// The characters of `s`.
pub fn chars_of(s: &str) -> (v: Vec<char>)
    ensures
        v@ == s@,
{
    let mut v: Vec<char> = Vec::new();
    for c in it: s.chars()
        invariant
            it.seq() == s@,
            v@ == s@.take(it.index() as int),
    {
        v.push(c);
        assert(v@ =~= s@.take(it.index() + 1));
    }
    assert(s@.take(s@.len() as int) =~= s@);
    v
}

/// The number that the decimal digits `s` stand for.
pub open spec fn decimal_value(s: Seq<char>) -> nat
    decreases s.len(),
{
    if s.len() == 0 {
        0
    } else {
        (10 * decimal_value(s.drop_last()) + (s.last() as nat - '0' as nat)) as nat
    }
}

/// Decimal notation is read back as the number it was made from.
pub proof fn law_decimal_reads_back(n: nat)
    ensures
        dec(n).len() > 0,
        forall|i: int| 0 <= i < dec(n).len() ==> is_digit(#[trigger] dec(n)[i]),
        decimal_value(dec(n)) == n,
    decreases n,
{
    if n < 10 {
        assert(dec(n).drop_last() =~= Seq::<char>::empty());
        assert(decimal_value(dec(n).drop_last()) == 0);
    } else {
        law_decimal_reads_back(n / 10);
        assert(dec(n).drop_last() =~= dec(n / 10));
    }
}

/// Decimal notation is as short as can be: it starts with no zero, but where it is
/// the zero.
pub proof fn law_decimal_has_no_leading_zero(n: nat)
    ensures
        n > 0 ==> dec(n)[0] != '0',
        n == 0 ==> dec(n) == seq!['0'],
        n < 10 <==> dec(n).len() == 1,
    decreases n,
{
    if n >= 10 {
        law_decimal_has_no_leading_zero(n / 10);
        law_decimal_reads_back(n / 10);
    }
}

/// Zeros in front do not change what digits stand for: a number filled up with
/// zeros is still read back.
pub proof fn law_zeros_in_front(n: nat, width: nat)
    ensures
        decimal_value(pad_left(dec(n), width, '0')) == n,
    decreases width,
{
    law_decimal_reads_back(n);
    let s = dec(n);
    if s.len() < width {
        lemma_zeros_in_front(s, (width - s.len()) as nat);
    }
}

/// Zeros in front of digits do not count.
proof fn lemma_zeros_in_front(s: Seq<char>, k: nat)
    ensures
        decimal_value(fill('0', k) + s) == decimal_value(s),
    decreases s.len() + k,
{
    let t = fill('0', k) + s;
    if s.len() > 0 {
        lemma_zeros_in_front(s.drop_last(), k);
        assert(t.drop_last() =~= fill('0', k) + s.drop_last());
        assert(t.last() == s.last());
    } else if k > 0 {
        lemma_zeros_in_front(s, (k - 1) as nat);
        assert(t.drop_last() =~= fill('0', (k - 1) as nat) + s);
        assert(t.last() == '0');
    } else {
        assert(t =~= s);
    }
}

/// Padding changes no text, only its length: a text in a field that is wide enough
/// is as long as the field, stands at the end or at the start of it, and the rest
/// is filled; a text that is too long is kept whole.
pub proof fn law_padding(s: Seq<char>, width: nat, c: char)
    ensures
        pad_left(s, width, c).len() == (if s.len() < width {
            width
        } else {
            s.len()
        }),
        pad_left(s, width, c).skip(pad_left(s, width, c).len() - s.len()) == s,
        forall|i: int|
            0 <= i < pad_left(s, width, c).len() - s.len() ==> #[trigger] pad_left(
                s,
                width,
                c,
            )[i] == c,
        pad_right(s, width).len() == pad_left(s, width, c).len(),
        pad_right(s, width).take(s.len() as int) == s,
        forall|i: int|
            s.len() <= i < pad_right(s, width).len() ==> #[trigger] pad_right(s, width)[i] == ' ',
{
    assert(pad_left(s, width, c).skip(pad_left(s, width, c).len() - s.len()) =~= s);
    assert(pad_right(s, width).take(s.len() as int) =~= s);
}

/// A run goes as far as it can: every character in it satisfies the condition, and
/// the one behind it, where there is one, does not.
pub proof fn law_run_is_longest(s: Seq<char>, p: spec_fn(char) -> bool)
    ensures
        run_len(s, p) <= s.len(),
        forall|i: int| 0 <= i < run_len(s, p) ==> p(#[trigger] s[i]),
        run_len(s, p) < s.len() ==> !p(s[run_len(s, p) as int]),
    decreases s.len(),
{
    if s.len() > 0 && p(s[0]) {
        let t = s.drop_first();
        law_run_is_longest(t, p);
        assert forall|i: int| 0 <= i < run_len(s, p) implies p(#[trigger] s[i]) by {
            if i > 0 {
                assert(s[i] == t[i - 1]);
            }
        }
    }
}

/// Trimming takes away white space and nothing else: what is cut off at the start
/// or at the end is all white space, and what is left does not start or end with
/// it.
pub proof fn law_trimming(s: Seq<char>)
    ensures
        trim_start(s).len() <= s.len(),
        s.skip(s.len() - trim_start(s).len()) == trim_start(s),
        forall|i: int|
            0 <= i < s.len() - trim_start(s).len() ==> is_space(#[trigger] s[i]),
        trim_start(s).len() > 0 ==> !is_space(trim_start(s)[0]),
        trim_end(s).len() <= s.len(),
        s.take(trim_end(s).len() as int) == trim_end(s),
        forall|i: int| trim_end(s).len() <= i < s.len() ==> is_space(#[trigger] s[i]),
        trim_end(s).len() > 0 ==> !is_space(trim_end(s).last()),
    decreases s.len(),
{
    law_run_is_longest(s, |c: char| is_space(c));
    if s.len() > 0 && is_space(s.last()) {
        let t = s.drop_last();
        law_trimming(t);
        assert(s.take(trim_end(s).len() as int) =~= t.take(trim_end(t).len() as int));
        assert forall|i: int| trim_end(s).len() <= i < s.len() implies is_space(
            #[trigger] s[i],
        ) by {
            if i < t.len() {
                assert(s[i] == t[i]);
            }
        }
    } else {
        assert(s.take(s.len() as int) =~= s);
    }
}

/// White space is the space, the five characters from tab to carriage return, and
/// nineteen others behind ASCII, given by their code points.
pub proof fn law_white_space(c: char)
    ensures
        is_space(c) <==> {
            let n = c as u32;
            ||| n == 32 || 9 <= n <= 13
            ||| n == 133 || n == 160 || n == 5760 || 8192 <= n <= 8202
            ||| n == 8232 || n == 8233 || n == 8239 || n == 8287 || n == 12288
        },
{
}

/// A search finds the first place, and misses none: where it gives a position, the
/// pattern stands there and nowhere before it, and where it gives none, the pattern
/// stands nowhere.
pub proof fn law_search_finds_first(s: Seq<char>, p: Seq<char>)
    ensures
        find(s, p) matches Some(i) ==> {
            &&& 0 <= i && i + p.len() <= s.len() && s.subrange(i, i + p.len()) == p
            &&& forall|j: int|
                0 <= j < i ==> #[trigger] s.subrange(j, j + p.len()) != p
        },
        find(s, p) is None ==> forall|j: int|
            0 <= j && j + p.len() <= s.len() ==> #[trigger] s.subrange(j, j + p.len()) != p,
{
    if find(s, p) is Some {
        let i = choose|i: int| first_occurrence(s, p, i);
        assert(first_occurrence(s, p, i));
        assert forall|j: int| 0 <= j < i implies #[trigger] s.subrange(j, j + p.len()) != p by {
            assert(!occurs_at(s, p, j));
        }
    } else {
        assert forall|j: int| 0 <= j && j + p.len() <= s.len() implies #[trigger] s.subrange(
            j,
            j + p.len(),
        ) != p by {
            if occurs_at(s, p, j) {
                lemma_first_exists(s, p, j);
            }
        }
    }
}

/// Where a pattern occurs, it occurs for a first time.
proof fn lemma_first_exists(s: Seq<char>, p: Seq<char>, j: int)
    requires
        occurs_at(s, p, j),
    ensures
        exists|i: int| first_occurrence(s, p, i),
    decreases j,
{
    if exists|k: int| 0 <= k < j && #[trigger] occurs_at(s, p, k) {
        let k = choose|k: int| 0 <= k < j && #[trigger] occurs_at(s, p, k);
        lemma_first_exists(s, p, k);
    } else {
        assert(first_occurrence(s, p, j));
    }
}

/// Digits stand for at least the number that the first of them stand for.
proof fn lemma_value_grows(s: Seq<char>, k: int)
    requires
        0 <= k <= s.len(),
        forall|i: int| 0 <= i < s.len() ==> is_digit(#[trigger] s[i]),
    ensures
        decimal_value(s.take(k)) <= decimal_value(s),
    decreases s.len(),
{
    if k < s.len() {
        let t = s.drop_last();
        assert forall|i: int| 0 <= i < t.len() implies is_digit(#[trigger] t[i]) by {
            assert(t[i] == s[i]);
        }
        assert(t.take(k) =~= s.take(k));
        assert(is_digit(s[s.len() - 1]));
        lemma_value_grows(t, k);
    } else {
        assert(s.take(k) =~= s);
    }
}

/// Whether `a` and `b` are the same text.
pub fn same_text(a: &str, b: &str) -> (r: bool)
    ensures
        r == (a@ == b@),
{
    let v: Vec<char> = chars_of(a);
    let p: Vec<char> = chars_of(b);
    if v.len() != p.len() {
        return false;
    }
    let r: bool = matches_at(&v, &p, 0);
    assert(v@.subrange(0, v@.len() as int) =~= v@);
    r
}

/// Whether `s` starts with `p`.
pub fn starts_with(s: &str, p: &str) -> (r: bool)
    ensures
        r == occurs_at(s@, p@, 0),
{
    matches_at(&chars_of(s), &chars_of(p), 0)
}

/// Whether `p` stands somewhere in `s`.
pub fn contains_text(s: &str, p: &str) -> (r: bool)
    ensures
        r == find(s@, p@) is Some,
{
    find_text(s, p).is_some()
}

/// Whether `p` stands in `v` at position `i`.
fn matches_at(v: &Vec<char>, p: &Vec<char>, i: usize) -> (b: bool)
    ensures
        b == occurs_at(v@, p@, i as int),
{
    if i > v.len() || p.len() > v.len() - i {
        return false;
    }
    let len: usize = v.len();
    let mut k: usize = 0;
    while k < p.len()
        invariant
            k <= p@.len(),
            i + p@.len() <= v@.len(),
            len == v@.len(),
            forall|j: int| 0 <= j < k ==> v@[i + j] == #[trigger] p@[j],
        decreases p@.len() - k,
    {
        if v[i + k] != p[k] {
            assert(v@.subrange(i as int, i + p@.len())[k as int] != p@[k as int]);
            return false;
        }
        k = k + 1;
    }
    assert(v@.subrange(i as int, i + p@.len()) =~= p@);
    true
}

/// The first position at which `pattern` stands in `s`, counted in characters.
pub fn find_text(s: &str, pattern: &str) -> (r: Option<usize>)
    ensures
        match r {
            Some(i) => find(s@, pattern@) == Some(i as int) && occurs_at(s@, pattern@, i as int),
            None => find(s@, pattern@) is None,
        },
{
    let v: Vec<char> = chars_of(s);
    let p: Vec<char> = chars_of(pattern);
    let mut i: usize = 0;
    while i < v.len()
        invariant
            v@ == s@,
            p@ == pattern@,
            i <= v@.len(),
            forall|j: int| 0 <= j < i ==> !#[trigger] occurs_at(v@, p@, j),
        decreases v@.len() - i,
    {
        if matches_at(&v, &p, i) {
            proof {
                assert(first_occurrence(v@, p@, i as int));
                lemma_find(v@, p@, i as int);
            }
            return Some(i);
        }
        i = i + 1;
    }
    if matches_at(&v, &p, i) {
        proof {
            assert(first_occurrence(v@, p@, i as int));
            lemma_find(v@, p@, i as int);
        }
        return Some(i);
    }
    assert forall|k: int| !first_occurrence(v@, p@, k) by {
        if 0 <= k <= v@.len() {
            assert(!occurs_at(v@, p@, k));
        }
    }
    None
}

/// Whether `c` has the Unicode property `White_Space`.
fn space(c: char) -> (b: bool)
    ensures
        b == is_space(c),
{
    ('\u{9}' <= c && c <= '\u{d}') || c == ' ' || c == '\u{85}' || c == '\u{a0}' || c == '\u{1680}'
        || ('\u{2000}' <= c && c <= '\u{200a}') || c == '\u{2028}' || c == '\u{2029}' || c
        == '\u{202f}' || c == '\u{205f}' || c == '\u{3000}'
}

/// `s` without the white space at its start.
pub fn without_leading_space(s: &str) -> (r: &str)
    ensures
        r@ == trim_start(s@),
{
    let v: Vec<char> = chars_of(s);
    let mut n: usize = 0;
    while n < v.len() && space(v[n])
        invariant
            n <= v@.len(),
            forall|i: int| 0 <= i < n ==> is_space(#[trigger] v@[i]),
        ensures
            n <= v@.len(),
            forall|i: int| 0 <= i < n ==> is_space(#[trigger] v@[i]),
            n < v@.len() ==> !is_space(v@[n as int]),
        decreases v@.len() - n,
    {
        n = n + 1;
    }
    proof {
        lemma_run_len(v@, |c: char| is_space(c), n as nat);
    }
    let r: &str = s.substring_char(n, v.len());
    assert(r@ =~= trim_start(s@));
    r
}

/// `s` without the white space at its end.
pub fn without_trailing_space(s: &str) -> (r: &str)
    ensures
        r@ == trim_end(s@),
{
    let v: Vec<char> = chars_of(s);
    let mut n: usize = v.len();
    assert(v@.take(n as int) =~= v@);
    while n > 0 && space(v[n - 1])
        invariant
            n <= v@.len(),
            trim_end(v@.take(n as int)) == trim_end(v@),
        ensures
            n <= v@.len(),
            trim_end(v@.take(n as int)) == trim_end(v@),
            n > 0 ==> !is_space(v@[n - 1]),
        decreases n,
    {
        assert(v@.take(n as int).drop_last() =~= v@.take(n - 1));
        n = n - 1;
    }
    let r: &str = s.substring_char(0, n);
    assert(r@ =~= v@.take(n as int));
    r
}

/// How many digits `s` starts with.
pub fn digit_run(s: &str) -> (n: usize)
    ensures
        n == run_len(s@, |c: char| is_digit(c)),
        n <= s@.len(),
        forall|i: int| 0 <= i < n ==> is_digit(#[trigger] s@[i]),
{
    let v: Vec<char> = chars_of(s);
    let mut n: usize = 0;
    while n < v.len() && '0' <= v[n] && v[n] <= '9'
        invariant
            n <= v@.len(),
            forall|i: int| 0 <= i < n ==> is_digit(#[trigger] v@[i]),
        ensures
            n <= v@.len(),
            forall|i: int| 0 <= i < n ==> is_digit(#[trigger] v@[i]),
            n < v@.len() ==> !is_digit(v@[n as int]),
        decreases v@.len() - n,
    {
        n = n + 1;
    }
    proof {
        lemma_run_len(v@, |c: char| is_digit(c), n as nat);
    }
    n
}

/// The number that the digits `s` stand for, where there is a digit and the
/// number is not too large.
pub fn parse_digits(s: &str) -> (r: Option<u64>)
    requires
        forall|i: int| 0 <= i < s@.len() ==> is_digit(#[trigger] s@[i]),
    ensures
        r == (if s@.len() == 0 || decimal_value(s@) > u64::MAX {
            None
        } else {
            Some(decimal_value(s@) as u64)
        }),
{
    let v: Vec<char> = chars_of(s);
    if v.len() == 0 {
        return None;
    }
    let mut n: u64 = 0;
    let mut i: usize = 0;
    while i < v.len()
        invariant
            v@ == s@,
            s@.len() > 0,
            i <= v@.len(),
            forall|k: int| 0 <= k < v@.len() ==> is_digit(#[trigger] v@[k]),
            n == decimal_value(v@.take(i as int)),
        decreases v@.len() - i,
    {
        assert(is_digit(v@[i as int]));
        let d: u64 = (v[i] as u32 - '0' as u32) as u64;
        let ghost next = v@.take(i + 1);
        proof {
            assert(next.drop_last() =~= v@.take(i as int));
            assert(decimal_value(next) == 10 * n + d);
            lemma_value_grows(v@, i + 1);
        }
        if n > (u64::MAX - d) / 10 {
            return None;
        }
        n = 10 * n + d;
        i = i + 1;
    }
    assert(v@.take(v@.len() as int) =~= v@);
    Some(n)
}

} // verus!
