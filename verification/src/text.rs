//! Character-level helpers: prefixes, substrings, whitespace, tokens and
//! decimal numbers.
//!
//! Every name, path and counter file that the walker looks at is text. The
//! functions here work on the characters of a string; their contracts are
//! stated over `Seq<char>`, the view of `str` and `String`.

use vstd::prelude::*;
use vstd::string::*;

verus! {

/// `pat` stands in `s` at position `i`.
pub open spec fn occurs_at(pat: Seq<char>, s: Seq<char>, i: int) -> bool {
    0 <= i && i + pat.len() <= s.len() && s.subrange(i, i + pat.len()) == pat
}

/// `s` begins with `pat`.
pub open spec fn has_prefix(s: Seq<char>, pat: Seq<char>) -> bool {
    occurs_at(pat, s, 0)
}

/// `pat` stands somewhere in `s`.
pub open spec fn has_substring(s: Seq<char>, pat: Seq<char>) -> bool {
    exists|i: int| occurs_at(pat, s, i)
}

/// `i` is the leftmost position at which `pat` stands in `s`.
pub open spec fn is_first_occurrence(pat: Seq<char>, s: Seq<char>, i: int) -> bool {
    occurs_at(pat, s, i) && forall|j: int| 0 <= j < i ==> !occurs_at(pat, s, j)
}

/// The characters with the Unicode property `White_Space`.
pub open spec fn is_whitespace(c: char) -> bool {
    let n = c as u32;
    (0x09 <= n && n <= 0x0D) || n == 0x20 || n == 0x85 || n == 0xA0 || n == 0x1680 || (0x2000 <= n
        && n <= 0x200A) || n == 0x2028 || n == 0x2029 || n == 0x202F || n == 0x205F || n == 0x3000
}

/// `s` without its leading whitespace.
pub open spec fn trim_start(s: Seq<char>) -> Seq<char>
    decreases s.len(),
{
    if s.len() > 0 && is_whitespace(s[0]) {
        trim_start(s.drop_first())
    } else {
        s
    }
}

/// `s` without its trailing whitespace.
pub open spec fn trim_end(s: Seq<char>) -> Seq<char>
    decreases s.len(),
{
    if s.len() > 0 && is_whitespace(s.last()) {
        trim_end(s.drop_last())
    } else {
        s
    }
}

/// `s` without its leading and trailing whitespace.
pub open spec fn trim(s: Seq<char>) -> Seq<char> {
    trim_end(trim_start(s))
}

/// One of the ten ASCII digits.
pub open spec fn is_digit(c: char) -> bool {
    0x30 <= c as u32 && c as u32 <= 0x39
}

/// The number that an ASCII digit stands for.
pub open spec fn digit_value(c: char) -> nat {
    (c as u32 - 0x30) as nat
}

/// Every character of `s` is an ASCII digit.
pub open spec fn all_digits(s: Seq<char>) -> bool {
    forall|i: int| 0 <= i < s.len() ==> is_digit(#[trigger] s[i])
}

/// The number that a string of digits denotes in base ten; 0 for the empty
/// string.
pub open spec fn decimal_value(s: Seq<char>) -> nat
    decreases s.len(),
{
    if s.len() == 0 {
        0
    } else {
        decimal_value(s.drop_last()) * 10 + digit_value(s.last())
    }
}

/// `s` without one leading plus sign.
pub open spec fn without_plus(s: Seq<char>) -> Seq<char> {
    if s.len() > 0 && s[0] == '+' {
        s.drop_first()
    } else {
        s
    }
}

/// The unsigned 64-bit number that `s` denotes: an optional plus sign, then
/// one or more ASCII digits whose value fits. Anything else denotes no
/// number.
pub open spec fn parse_u64(s: Seq<char>) -> Option<u64> {
    let d = without_plus(s);
    if d.len() > 0 && all_digits(d) && decimal_value(d) <= u64::MAX {
        Some(decimal_value(d) as u64)
    } else {
        None
    }
}

/// The maximal runs of non-whitespace characters of `s`, in order.
///
/// Defined from the left: a whitespace character adds nothing, a character
/// that follows a non-whitespace character extends the last run, and any
/// other character begins a new run.
pub open spec fn split_whitespace(s: Seq<char>) -> Seq<Seq<char>>
    decreases s.len(),
{
    if s.len() == 0 {
        Seq::empty()
    } else {
        let before = split_whitespace(s.drop_last());
        let c = s.last();
        if is_whitespace(c) {
            before
        } else if s.len() >= 2 && !is_whitespace(s[s.len() - 2]) {
            before.drop_last().push(before.last().push(c))
        } else {
            before.push(seq![c])
        }
    }
}

/// The pieces of `s` between line feeds, in order. There is always at least
/// one piece; `s` that ends in a line feed has an empty last piece.
pub open spec fn split_lines(s: Seq<char>) -> Seq<Seq<char>>
    decreases s.len(),
{
    if s.len() == 0 {
        seq![Seq::empty()]
    } else {
        let before = split_lines(s.drop_last());
        if s.last() == '\n' {
            before.push(Seq::empty())
        } else {
            before.drop_last().push(before.last().push(s.last()))
        }
    }
}

/// The views of a sequence of character vectors.
pub open spec fn seqs_of(v: Seq<Vec<char>>) -> Seq<Seq<char>> {
    Seq::new(v.len(), |i: int| v[i]@)
}

/// The characters of `s`, in order.
pub fn chars_of(s: &str) -> (v: Vec<char>)
    ensures
        v@ == s@,
{
    broadcast use group_string_axioms;

    let mut v: Vec<char> = Vec::new();
    for c in it: s.chars()
        invariant
            it.seq() == s@,
            v@ == s@.subrange(0, it.index()),
    {
        v.push(c);
    }
    assert(v@ == s@);
    v
}

/// Whether `c` is a whitespace character.
pub fn char_is_whitespace(c: char) -> (b: bool)
    ensures
        b == is_whitespace(c),
{
    let n: u32 = c as u32;
    (0x09 <= n && n <= 0x0D) || n == 0x20 || n == 0x85 || n == 0xA0 || n == 0x1680 || (0x2000 <= n
        && n <= 0x200A) || n == 0x2028 || n == 0x2029 || n == 0x202F || n == 0x205F || n == 0x3000
}

/// Whether `pat` stands in `s` at position `i`.
pub fn matches_at(s: &Vec<char>, pat: &Vec<char>, i: usize) -> (b: bool)
    ensures
        b == occurs_at(pat@, s@, i as int),
{
    if pat.len() > s.len() || i > s.len() - pat.len() {
        return false;
    }
    let mut k: usize = 0;
    while k < pat.len()
        invariant
            k <= pat.len(),
            i + pat.len() <= s.len(),
            forall|j: int| 0 <= j < k ==> s@[i + j] == pat@[j],
        decreases pat.len() - k,
    {
        if s[i + k] != pat[k] {
            assert(s@.subrange(i as int, i + pat.len())[k as int] != pat@[k as int]);
            return false;
        }
        k += 1;
    }
    assert(s@.subrange(i as int, i + pat.len()) =~= pat@);
    true
}

/// The leftmost position at which `pat` stands in `s`, if it stands there at
/// all.
pub fn find(s: &Vec<char>, pat: &Vec<char>) -> (r: Option<usize>)
    ensures
        match r {
            Some(i) => is_first_occurrence(pat@, s@, i as int),
            None => !has_substring(s@, pat@),
        },
{
    if pat.len() > s.len() {
        return None;
    }
    let last: usize = s.len() - pat.len();
    let mut i: usize = 0;
    loop
        invariant
            last == s.len() - pat.len(),
            i <= last,
            forall|j: int| 0 <= j < i ==> !occurs_at(pat@, s@, j),
        decreases last - i,
    {
        if matches_at(s, pat, i) {
            return Some(i);
        }
        if i == last {
            return None;
        }
        i += 1;
    }
}

/// Whether `s` begins with `pat`.
pub fn starts_with(s: &str, pat: &str) -> (b: bool)
    ensures
        b == has_prefix(s@, pat@),
{
    let sv = chars_of(s);
    let pv = chars_of(pat);
    matches_at(&sv, &pv, 0)
}

/// Whether `pat` stands somewhere in `s`.
pub fn contains(s: &str, pat: &str) -> (b: bool)
    ensures
        b == has_substring(s@, pat@),
{
    let sv = chars_of(s);
    let pv = chars_of(pat);
    find(&sv, &pv).is_some()
}

/// The bounds of `s` without its leading and trailing whitespace.
pub fn trim_bounds(s: &Vec<char>) -> (r: (usize, usize))
    ensures
        r.0 <= r.1 <= s.len(),
        s@.subrange(r.0 as int, r.1 as int) == trim(s@),
{
    let n: usize = s.len();
    let mut lo: usize = 0;
    assert(s@.subrange(0, n as int) =~= s@);
    while lo < n && char_is_whitespace(s[lo])
        invariant
            lo <= n,
            n == s.len(),
            trim_start(s@) == trim_start(s@.subrange(lo as int, n as int)),
        decreases n - lo,
    {
        assert(s@.subrange(lo as int, n as int).drop_first() =~= s@.subrange(lo + 1, n as int));
        lo += 1;
    }
    let mut hi: usize = n;
    while hi > lo && char_is_whitespace(s[hi - 1])
        invariant
            lo <= hi <= n,
            n == s.len(),
            trim_end(s@.subrange(lo as int, n as int)) == trim_end(
                s@.subrange(lo as int, hi as int),
            ),
        decreases hi - lo,
    {
        assert(s@.subrange(lo as int, hi as int).drop_last() =~= s@.subrange(
            lo as int,
            hi - 1,
        ));
        hi -= 1;
    }
    (lo, hi)
}

/// The value of a prefix of a string of digits is at most the value of the
/// whole.
pub proof fn lemma_decimal_value_prefix(s: Seq<char>, k: int)
    requires
        0 <= k <= s.len(),
    ensures
        decimal_value(s.subrange(0, k)) <= decimal_value(s),
    decreases s.len() - k,
{
    if k == s.len() {
        assert(s.subrange(0, k) =~= s);
    } else {
        lemma_decimal_value_prefix(s.drop_last(), k);
        assert(s.drop_last().subrange(0, k) =~= s.subrange(0, k));
    }
}

/// The number that the characters of `s` from `lo` up to `hi` denote.
pub fn parse_u64_between(s: &Vec<char>, lo: usize, hi: usize) -> (r: Option<u64>)
    requires
        lo <= hi <= s.len(),
    ensures
        r == parse_u64(s@.subrange(lo as int, hi as int)),
{
    let ghost whole = s@.subrange(lo as int, hi as int);
    let start: usize = if lo < hi && s[lo] == '+' {
        lo + 1
    } else {
        lo
    };
    let ghost d = s@.subrange(start as int, hi as int);
    assert(d =~= without_plus(whole));
    if start == hi {
        return None;
    }
    let mut acc: u64 = 0;
    let mut i: usize = start;
    while i < hi
        invariant
            lo <= start <= i <= hi <= s.len(),
            start < hi,
            whole == s@.subrange(lo as int, hi as int),
            d == s@.subrange(start as int, hi as int),
            d == without_plus(whole),
            all_digits(d.subrange(0, i - start)),
            acc == decimal_value(d.subrange(0, i - start)),
        decreases hi - i,
    {
        let c: char = s[i];
        let n: u32 = c as u32;
        let ghost next = d.subrange(0, i - start + 1);
        assert(next.drop_last() =~= d.subrange(0, i - start));
        assert(next.last() == c);
        if n < 0x30 || n > 0x39 {
            assert(!is_digit(d[i - start]));
            return None;
        }
        let digit: u64 = (n - 0x30) as u64;
        if acc > (u64::MAX - digit) / 10 {
            proof {
                assert(decimal_value(next) > u64::MAX);
                assert(!all_digits(d) || decimal_value(d) > u64::MAX) by {
                    lemma_decimal_value_prefix(d, i - start + 1);
                }
            }
            return None;
        }
        acc = acc * 10 + digit;
        assert forall|j: int| 0 <= j < next.len() implies is_digit(#[trigger] next[j]) by {
            if j < next.len() - 1 {
                assert(next[j] == d.subrange(0, i - start)[j]);
            }
        }
        i += 1;
    }
    assert(d.subrange(0, hi - start) =~= d);
    Some(acc)
}

/// The number that `text` denotes.
pub fn parse_decimal(text: &str) -> (r: Option<u64>)
    ensures
        r == parse_u64(text@),
{
    let v = chars_of(text);
    assert(v@.subrange(0, v@.len() as int) =~= v@);
    parse_u64_between(&v, 0, v.len())
}

/// The number that `text` denotes once the whitespace around it is set
/// aside.
pub fn parse_trimmed(text: &str) -> (r: Option<u64>)
    ensures
        r == parse_u64(trim(text@)),
{
    let v = chars_of(text);
    let (lo, hi) = trim_bounds(&v);
    parse_u64_between(&v, lo, hi)
}

/// The whitespace-separated words of `s`, in order.
pub fn words(s: &Vec<char>) -> (out: Vec<Vec<char>>)
    ensures
        seqs_of(out@) == split_whitespace(s@),
{
    let mut out: Vec<Vec<char>> = Vec::new();
    let mut cur: Vec<char> = Vec::new();
    let mut i: usize = 0;
    assert(seqs_of(out@) =~= Seq::<Seq<char>>::empty());
    while i < s.len()
        invariant
            i <= s.len(),
            cur@.len() > 0 ==> i > 0 && !is_whitespace(s@[i - 1]) && split_whitespace(
                s@.subrange(0, i as int),
            ) == seqs_of(out@).push(cur@),
            cur@.len() == 0 ==> (i == 0 || is_whitespace(s@[i - 1])) && split_whitespace(
                s@.subrange(0, i as int),
            ) == seqs_of(out@),
        decreases s.len() - i,
    {
        let c: char = s[i];
        let ghost before = s@.subrange(0, i as int);
        let ghost now = s@.subrange(0, i + 1);
        assert(now.drop_last() =~= before);
        assert(now.last() == c);
        if char_is_whitespace(c) {
            if cur.len() > 0 {
                let ghost old_out = out@;
                out.push(cur);
                assert(seqs_of(out@) =~= seqs_of(old_out).push(cur@));
                cur = Vec::new();
            }
        } else {
            let ghost old_cur = cur@;
            cur.push(c);
            proof {
                if old_cur.len() > 0 {
                    assert(now[now.len() - 2] == s@[i - 1]);
                    let b = seqs_of(out@).push(old_cur);
                    assert(b.drop_last() =~= seqs_of(out@));
                    assert(b.last() == old_cur);
                } else {
                    if i > 0 {
                        assert(now[now.len() - 2] == s@[i - 1]);
                    }
                    assert(cur@ =~= seq![c]);
                }
            }
        }
        i += 1;
    }
    assert(s@.subrange(0, i as int) =~= s@);
    if cur.len() > 0 {
        let ghost old_out = out@;
        out.push(cur);
        assert(seqs_of(out@) =~= seqs_of(old_out).push(cur@));
    }
    out
}

/// The pieces of `s` between line feeds, in order.
pub fn lines(s: &Vec<char>) -> (out: Vec<Vec<char>>)
    ensures
        seqs_of(out@) == split_lines(s@),
{
    let mut out: Vec<Vec<char>> = Vec::new();
    let mut cur: Vec<char> = Vec::new();
    let mut i: usize = 0;
    assert(seqs_of(out@).push(cur@) =~= seq![Seq::<char>::empty()]);
    while i < s.len()
        invariant
            i <= s.len(),
            split_lines(s@.subrange(0, i as int)) == seqs_of(out@).push(cur@),
        decreases s.len() - i,
    {
        let c: char = s[i];
        let ghost before = s@.subrange(0, i as int);
        let ghost now = s@.subrange(0, i + 1);
        let ghost b = seqs_of(out@).push(cur@);
        assert(now.drop_last() =~= before);
        assert(now.last() == c);
        assert(b.drop_last() =~= seqs_of(out@));
        assert(b.last() == cur@);
        if c == '\n' {
            let ghost old_out = out@;
            out.push(cur);
            assert(seqs_of(out@) =~= seqs_of(old_out).push(cur@));
            cur = Vec::new();
        } else {
            cur.push(c);
        }
        i += 1;
    }
    assert(s@.subrange(0, i as int) =~= s@);
    let ghost old_out = out@;
    out.push(cur);
    assert(seqs_of(out@) =~= seqs_of(old_out).push(cur@));
    out
}

/// `String::push` of std, which appends one character to the end of a
/// string: afterwards the string holds what it held, followed by `ch`.
pub assume_specification[ String::push ](s: &mut String, ch: char)
    ensures
        final(s)@ == old(s)@.push(ch),
;

/// The string made of `chars`, in order.
pub fn string_of(chars: &Vec<char>) -> (s: String)
    ensures
        s@ == chars@,
{
    let mut s = String::new();
    let mut i: usize = 0;
    while i < chars.len()
        invariant
            i <= chars.len(),
            s@ == chars@.subrange(0, i as int),
        decreases chars.len() - i,
    {
        s.push(chars[i]);
        assert(chars@.subrange(0, i + 1) =~= chars@.subrange(0, i as int).push(chars@[i as int]));
        i += 1;
    }
    assert(chars@.subrange(0, i as int) =~= chars@);
    s
}

/// Whether `a` and `b` hold the same characters.
pub fn same_text(a: &Vec<char>, b: &Vec<char>) -> (same: bool)
    ensures
        same == (a@ == b@),
{
    if a.len() != b.len() {
        return false;
    }
    let same = matches_at(a, b, 0);
    assert(a@.subrange(0, b@.len() as int) =~= a@);
    same
}

/// The number that a word denotes, or 0 where it denotes none.
pub open spec fn number_or_zero(word: Seq<char>) -> u64 {
    match parse_u64(word) {
        Some(n) => n,
        None => 0,
    }
}

/// The number that `word` denotes, or 0 where it denotes none.
pub fn parse_or_zero(word: &Vec<char>) -> (n: u64)
    ensures
        n == number_or_zero(word@),
{
    assert(word@.subrange(0, word@.len() as int) =~= word@);
    match parse_u64_between(word, 0, word.len()) {
        Some(n) => n,
        None => 0,
    }
}

/// No character of `s` is whitespace.
pub open spec fn no_whitespace(s: Seq<char>) -> bool {
    forall|i: int| 0 <= i < s.len() ==> !is_whitespace(#[trigger] s[i])
}

/// No character of `s` is a line feed.
pub open spec fn no_line_feed(s: Seq<char>) -> bool {
    forall|i: int| 0 <= i < s.len() ==> #[trigger] s[i] != '\n'
}

/// A run of non-whitespace characters is one word.
pub proof fn lemma_split_whitespace_word(w: Seq<char>)
    requires
        w.len() > 0,
        no_whitespace(w),
    ensures
        split_whitespace(w) == seq![w],
    decreases w.len(),
{
    let c = w.last();
    assert(!is_whitespace(w[w.len() - 1]));
    if w.len() == 1 {
        assert(split_whitespace(w.drop_last()) =~= Seq::<Seq<char>>::empty());
        assert(seq![c] =~= w);
        assert(Seq::<Seq<char>>::empty().push(w) =~= seq![w]);
    } else {
        let front = w.drop_last();
        assert forall|i: int| 0 <= i < front.len() implies !is_whitespace(#[trigger] front[i]) by {
            assert(front[i] == w[i]);
        }
        lemma_split_whitespace_word(front);
        assert(!is_whitespace(w[w.len() - 2]));
        assert(front.push(c) =~= w);
        assert(seq![front].drop_last().push(seq![front].last().push(c)) =~= seq![w]);
    }
}

/// Two runs of non-whitespace characters with one whitespace character
/// between them are two words.
pub proof fn lemma_split_whitespace_two_words(a: Seq<char>, gap: char, b: Seq<char>)
    requires
        a.len() > 0,
        no_whitespace(a),
        is_whitespace(gap),
        b.len() > 0,
        no_whitespace(b),
    ensures
        split_whitespace(a.push(gap) + b) == seq![a, b],
    decreases b.len(),
{
    let s = a.push(gap) + b;
    let c = b.last();
    assert(s.last() == c);
    assert(!is_whitespace(b[b.len() - 1]));
    assert(s.drop_last() =~= a.push(gap) + b.drop_last());
    if b.len() == 1 {
        lemma_split_whitespace_word(a);
        assert(a.push(gap) + b.drop_last() =~= a.push(gap));
        assert(a.push(gap).drop_last() =~= a);
        assert(a.push(gap).last() == gap);
        assert(split_whitespace(a.push(gap)) == seq![a]);
        assert(s[s.len() - 2] == gap);
        assert(seq![c] =~= b);
        assert(seq![a].push(b) =~= seq![a, b]);
    } else {
        let front = b.drop_last();
        assert forall|i: int| 0 <= i < front.len() implies !is_whitespace(#[trigger] front[i]) by {
            assert(front[i] == b[i]);
        }
        lemma_split_whitespace_two_words(a, gap, front);
        assert(s[s.len() - 2] == b[b.len() - 2]);
        assert(!is_whitespace(b[b.len() - 2]));
        assert(front.push(c) =~= b);
        assert(seq![a, front].drop_last().push(seq![a, front].last().push(c)) =~= seq![a, b]);
    }
}

/// Text without a line feed is one line.
pub proof fn lemma_split_lines_single(s: Seq<char>)
    requires
        no_line_feed(s),
    ensures
        split_lines(s) == seq![s],
    decreases s.len(),
{
    if s.len() == 0 {
        assert(s =~= Seq::<char>::empty());
    } else {
        let front = s.drop_last();
        assert forall|i: int| 0 <= i < front.len() implies #[trigger] front[i] != '\n' by {
            assert(front[i] == s[i]);
        }
        lemma_split_lines_single(front);
        assert(s[s.len() - 1] != '\n');
        assert(front.push(s.last()) =~= s);
        assert(seq![front].drop_last().push(seq![front].last().push(s.last())) =~= seq![s]);
    }
}

/// Text that denotes a number is not empty and holds neither whitespace nor
/// a line feed.
pub proof fn lemma_number_is_one_word(s: Seq<char>)
    requires
        parse_u64(s) is Some,
    ensures
        s.len() > 0,
        no_whitespace(s),
        no_line_feed(s),
{
    let d = without_plus(s);
    assert forall|i: int| 0 <= i < s.len() implies !is_whitespace(#[trigger] s[i]) && s[i]
        != '\n' by {
        if d.len() == s.len() {
            assert(is_digit(d[i]));
        } else if i > 0 {
            assert(is_digit(d[i - 1]));
            assert(d[i - 1] == s[i]);
        }
    }
}

} // verus!
