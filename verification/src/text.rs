//! Character sequences: searching, cutting and comparing the text that the
//! probes return and that the events carry.

use vstd::prelude::*;
use vstd::string::*;

verus! {

/// The position of the first `c` in `s`, or the length of `s` if it holds
/// none.
pub open spec fn index_of(s: Seq<char>, c: char) -> int
    decreases s.len(),
{
    if s.len() == 0 {
        0
    } else if s[0] == c {
        0
    } else {
        1 + index_of(s.drop_first(), c)
    }
}

/// `index_of` lies within the sequence, points at a `c` when it lies inside
/// it, and nothing before it is a `c`.
pub proof fn lemma_index_of_bounds(s: Seq<char>, c: char)
    ensures
        0 <= index_of(s, c) <= s.len(),
        index_of(s, c) < s.len() ==> s[index_of(s, c)] == c,
        forall|j: int| 0 <= j < index_of(s, c) ==> s[j] != c,
    decreases s.len(),
{
    if s.len() > 0 && s[0] != c {
        let t = s.drop_first();
        lemma_index_of_bounds(t, c);
        assert forall|j: int| 0 <= j < index_of(s, c) implies s[j] != c by {
            if j > 0 {
                assert(s[j] == t[j - 1]);
            }
        }
    }
}

/// A position `k` with no `c` before it, and with a `c` at it unless it is
/// the end, is `index_of`.
pub proof fn lemma_index_of_is(s: Seq<char>, c: char, k: int)
    requires
        0 <= k <= s.len(),
        forall|j: int| 0 <= j < k ==> s[j] != c,
        k < s.len() ==> s[k] == c,
    ensures
        index_of(s, c) == k,
    decreases s.len(),
{
    if s.len() > 0 && k > 0 {
        let t = s.drop_first();
        assert forall|j: int| 0 <= j < k - 1 implies t[j] != c by {
            assert(t[j] == s[j + 1]);
        }
        lemma_index_of_is(t, c, k - 1);
    }
}

/// Whether `s` holds no `c`.
pub open spec fn free_of(s: Seq<char>, c: char) -> bool {
    forall|i: int| 0 <= i < s.len() ==> s[i] != c
}

/// Where `a` holds no `c`, the first `c` of `a`, `c` and `b` put together
/// is the one in the middle.
pub proof fn lemma_index_of_joint(a: Seq<char>, c: char, b: Seq<char>)
    requires
        free_of(a, c),
    ensures
        index_of(a.push(c) + b, c) == a.len(),
        (a.push(c) + b).take(a.len() as int) == a,
        (a.push(c) + b).skip(a.len() as int + 1) == b,
{
    let s = a.push(c) + b;
    assert forall|j: int| 0 <= j < a.len() implies s[j] != c by {
        assert(s[j] == a[j]);
    }
    lemma_index_of_is(s, c, a.len() as int);
    assert(s.take(a.len() as int) =~= a);
    assert(s.skip(a.len() as int + 1) =~= b);
}

/// What holds no `c` is all before its first `c`.
pub proof fn lemma_before_first_whole(s: Seq<char>, c: char)
    requires
        free_of(s, c),
    ensures
        index_of(s, c) == s.len(),
        before_first(s, c) == s,
{
    lemma_index_of_is(s, c, s.len() as int);
    assert(s.take(s.len() as int) =~= s);
}

/// The characters of a string, one by one.
pub fn chars_of(s: &str) -> (v: Vec<char>)
    ensures
        v@ == s@,
{
    let mut v: Vec<char> = Vec::new();
    for c in it: s.chars()
        invariant
            v@ == it.seq().take(it.index()),
            it.seq() == s@,
    {
        v.push(c);
    }
    v
}

/// The first position in `lo..hi` at which `s` holds `c`, or `hi`.
pub fn find_in(s: &Vec<char>, c: char, lo: usize, hi: usize) -> (k: usize)
    requires
        lo <= hi <= s.len(),
    ensures
        lo <= k <= hi,
        k - lo == index_of(s@.subrange(lo as int, hi as int), c),
{
    let mut k: usize = lo;
    while k < hi && s[k] != c
        invariant
            lo <= k <= hi <= s.len(),
            forall|j: int| lo <= j < k ==> s[j] != c,
        decreases hi - k,
    {
        k += 1;
    }
    proof {
        lemma_index_of_is(s@.subrange(lo as int, hi as int), c, k - lo);
    }
    k
}

/// Whether `s` holds exactly `pat` in `lo..hi`.
pub fn range_is(s: &Vec<char>, lo: usize, hi: usize, pat: &Vec<char>) -> (same: bool)
    requires
        lo <= hi <= s.len(),
    ensures
        same == (s@.subrange(lo as int, hi as int) == pat@),
{
    if hi - lo != pat.len() {
        return false;
    }
    let mut i: usize = 0;
    while i < pat.len()
        invariant
            lo <= hi <= s.len(),
            hi - lo == pat.len(),
            i <= pat.len(),
            forall|j: int| 0 <= j < i ==> s[lo + j] == pat[j],
        decreases pat.len() - i,
    {
        if s[lo + i] != pat[i] {
            assert(s@.subrange(lo as int, hi as int)[i as int] != pat@[i as int]);
            return false;
        }
        i += 1;
    }
    assert(s@.subrange(lo as int, hi as int) =~= pat@);
    true
}

/// The part of `s` before its first `c`: all of `s` if it holds none.
pub open spec fn before_first(s: Seq<char>, c: char) -> Seq<char> {
    s.take(index_of(s, c))
}

/// The position of the last `c` in `s`, or -1 if it holds none.
pub open spec fn last_index_of(s: Seq<char>, c: char) -> int
    decreases s.len(),
{
    if s.len() == 0 {
        -1
    } else if s.last() == c {
        s.len() - 1
    } else {
        last_index_of(s.drop_last(), c)
    }
}

/// The part of `s` after its last `c`: all of `s` if it holds none.
pub open spec fn after_last(s: Seq<char>, c: char) -> Seq<char> {
    s.skip(last_index_of(s, c) + 1)
}

/// A position `k` with no `c` after it, and with a `c` at it unless it is
/// -1, is `last_index_of`.
pub proof fn lemma_last_index_of_is(s: Seq<char>, c: char, k: int)
    requires
        -1 <= k < s.len(),
        forall|j: int| k < j < s.len() ==> s[j] != c,
        0 <= k ==> s[k] == c,
    ensures
        last_index_of(s, c) == k,
    decreases s.len(),
{
    if s.len() > 0 && k < s.len() - 1 {
        lemma_last_index_of_is(s.drop_last(), c, k);
    }
}

/// The pieces of `s` between its `c`s, in order. There is always at least
/// one piece, and a piece may be empty.
pub open spec fn split(s: Seq<char>, c: char) -> Seq<Seq<char>>
    decreases s.len(),
{
    let k = index_of(s, c);
    if 0 <= k < s.len() {
        seq![s.take(k)] + split(s.skip(k + 1), c)
    } else {
        seq![s]
    }
}

/// The number of pieces is one more than the number of separators, so never
/// zero.
pub proof fn lemma_split_nonempty(s: Seq<char>, c: char)
    ensures
        split(s, c).len() >= 1,
    decreases s.len(),
{
    let k = index_of(s, c);
    if 0 <= k < s.len() {
        lemma_split_nonempty(s.skip(k + 1), c);
    }
}

/// A copy of the characters `lo..hi` of `s`.
pub fn slice_of(s: &str, lo: usize, hi: usize) -> (piece: String)
    requires
        lo <= hi <= s@.len(),
    ensures
        piece@ == s@.subrange(lo as int, hi as int),
{
    String::from_str(s.substring_char(lo, hi))
}

/// The part of `s` before its first `c`.
pub fn first_segment(s: &str, c: char) -> (piece: String)
    ensures
        piece@ == before_first(s@, c),
{
    let chars = chars_of(s);
    let k = find_in(&chars, c, 0, chars.len());
    assert(chars@.subrange(0, chars.len() as int) =~= s@);
    slice_of(s, 0, k)
}

/// The part of `s` after its last `c`.
pub fn last_segment(s: &str, c: char) -> (piece: String)
    ensures
        piece@ == after_last(s@, c),
{
    let chars = chars_of(s);
    let mut k: usize = chars.len();
    while k > 0 && chars[k - 1] != c
        invariant
            k <= chars.len(),
            forall|j: int| k <= j < chars.len() ==> chars[j] != c,
        decreases k,
    {
        k -= 1;
    }
    proof {
        lemma_last_index_of_is(chars@, c, k - 1);
    }
    slice_of(s, k, chars.len())
}

/// The pieces of `s` between its `c`s.
pub fn split_on(s: &str, c: char) -> (pieces: Vec<String>)
    ensures
        pieces.len() >= 1,
        pieces.deep_view() == split(s@, c),
{
    let chars = chars_of(s);
    let n = chars.len();
    let mut pieces: Vec<String> = Vec::new();
    let mut pos: usize = 0;
    proof {
        assert(s@.skip(0) =~= s@);
        assert(pieces.deep_view() + split(s@, c) =~= split(s@, c));
    }
    loop
        invariant_except_break
            split(s@, c) == pieces.deep_view() + split(s@.skip(pos as int), c),
        invariant
            pos <= n,
            n == chars.len(),
            chars@ == s@,
        ensures
            pieces.deep_view() == split(s@, c),
        decreases n - pos,
    {
        let k = find_in(&chars, c, pos, n);
        let ghost rest = s@.skip(pos as int);
        let ghost done = pieces.deep_view();
        proof {
            assert(chars@.subrange(pos as int, n as int) =~= rest);
            lemma_index_of_bounds(rest, c);
        }
        pieces.push(slice_of(s, pos, k));
        proof {
            assert(rest.take(k - pos) =~= s@.subrange(pos as int, k as int));
            assert(pieces.deep_view() =~= done.push(rest.take(k - pos)));
        }
        if k == n {
            proof {
                assert(rest.take(k - pos) =~= rest);
                assert(done.push(rest) =~= done + seq![rest]);
            }
            break;
        }
        proof {
            assert(rest.skip(k - pos + 1) =~= s@.skip(k + 1));
            assert(done + (seq![rest.take(k - pos)] + split(s@.skip(k + 1), c)) =~= done.push(
                rest.take(k - pos),
            ) + split(s@.skip(k + 1), c));
        }
        pos = k + 1;
    }
    proof {
        lemma_split_nonempty(s@, c);
    }
    pieces
}

/// The ten decimal digits, by value.
pub open spec fn digits() -> Seq<char> {
    seq!['0', '1', '2', '3', '4', '5', '6', '7', '8', '9']
}

/// Whether `c` is a decimal digit.
pub open spec fn is_digit(c: char) -> bool {
    '0' <= c <= '9'
}

/// The value of the decimal digit `c`.
pub open spec fn digit_value(c: char) -> nat {
    (c as int - '0' as int) as nat
}

/// The shortest decimal numeral of `n`.
pub open spec fn decimal(n: nat) -> Seq<char>
    decreases n,
{
    if n < 10 {
        seq![digits()[n as int]]
    } else {
        decimal(n / 10).push(digits()[(n % 10) as int])
    }
}

/// The number that a run of decimal digits stands for.
pub open spec fn digits_value(s: Seq<char>) -> nat
    decreases s.len(),
{
    if s.len() == 0 {
        0
    } else {
        digits_value(s.drop_last()) * 10 + digit_value(s.last())
    }
}

/// Whether `s` holds decimal digits only.
pub open spec fn all_digits(s: Seq<char>) -> bool {
    forall|i: int| 0 <= i < s.len() ==> is_digit(#[trigger] s[i])
}

/// A numeral without the one `+` that may lead it.
pub open spec fn unsigned_part(s: Seq<char>) -> Seq<char> {
    if s.len() > 0 && s[0] == '+' {
        s.skip(1)
    } else {
        s
    }
}

/// The count that `s` reads as: one or more decimal digits, which a single
/// `+` may lead. Anything else reads as no count.
pub open spec fn count_of(s: Seq<char>) -> Option<nat> {
    let body = unsigned_part(s);
    if body.len() > 0 && all_digits(body) {
        Some(digits_value(body))
    } else {
        None
    }
}

/// Longer runs of digits stand for numbers at least as large as their
/// prefixes do.
pub proof fn lemma_digits_value_grows(s: Seq<char>, i: int)
    requires
        0 <= i <= s.len(),
    ensures
        digits_value(s.take(i)) <= digits_value(s),
    decreases s.len(),
{
    if i < s.len() {
        let t = s.drop_last();
        lemma_digits_value_grows(t, i);
        assert(t.take(i) =~= s.take(i));
        assert(digits_value(t) <= digits_value(t) * 10) by (nonlinear_arith);
    } else {
        assert(s.take(i) =~= s);
    }
}

/// Reading the numeral of `n` gives `n` back.
pub proof fn lemma_count_of_decimal(n: nat)
    ensures
        decimal(n).len() > 0,
        all_digits(decimal(n)),
        digits_value(decimal(n)) == n,
        count_of(decimal(n)) == Some(n),
    decreases n,
{
    let d = decimal(n);
    if n < 10 {
        assert(d.drop_last() =~= Seq::<char>::empty());
        assert(digits_value(d.drop_last()) == 0);
    } else {
        lemma_count_of_decimal(n / 10);
        assert(d.drop_last() =~= decimal(n / 10));
        assert(d[0] == decimal(n / 10)[0]);
    }
    assert(is_digit(d[0]));
    assert(unsigned_part(d) == d);
}

/// The one-character text of a digit.
fn digit_text(d: usize) -> (t: &'static str)
    requires
        d < 10,
    ensures
        t@ == seq![digits()[d as int]],
{
    proof {
        reveal_strlit("0");
        reveal_strlit("1");
        reveal_strlit("2");
        reveal_strlit("3");
        reveal_strlit("4");
        reveal_strlit("5");
        reveal_strlit("6");
        reveal_strlit("7");
        reveal_strlit("8");
        reveal_strlit("9");
    }
    let t = match d {
        0 => "0",
        1 => "1",
        2 => "2",
        3 => "3",
        4 => "4",
        5 => "5",
        6 => "6",
        7 => "7",
        8 => "8",
        _ => "9",
    };
    assert(t@ =~= seq![digits()[d as int]]);
    t
}

/// Writes the decimal numeral of `n` at the end of `out`.
pub fn append_decimal(out: &mut String, n: usize)
    ensures
        final(out)@ == old(out)@ + decimal(n as nat),
    decreases n,
{
    if n >= 10 {
        append_decimal(out, n / 10);
    }
    let ghost before = out@;
    out.append(digit_text(n % 10));
    proof {
        if n >= 10 {
            assert(before + seq![digits()[(n % 10) as int]] =~= old(out)@ + decimal(n as nat));
        }
    }
}

/// The count that the characters `lo..hi` of `s` read as, if they read as
/// one that fits the machine's word.
pub fn parse_count(s: &Vec<char>, lo: usize, hi: usize) -> (count: Option<usize>)
    requires
        lo <= hi <= s.len(),
    ensures
        count == match count_of(s@.subrange(lo as int, hi as int)) {
            Some(n) if n <= usize::MAX => Some(n as usize),
            _ => None,
        },
{
    let ghost text = s@.subrange(lo as int, hi as int);
    let start: usize = if lo < hi && s[lo] == '+' {
        lo + 1
    } else {
        lo
    };
    let ghost body = unsigned_part(text);
    assert(body =~= s@.subrange(start as int, hi as int));
    if start == hi {
        return None;
    }
    let mut acc: usize = 0;
    let mut i: usize = start;
    while i < hi
        invariant
            lo <= start <= i <= hi <= s.len(),
            body == s@.subrange(start as int, hi as int),
            body == unsigned_part(s@.subrange(lo as int, hi as int)),
            all_digits(body.take(i - start)),
            acc == digits_value(body.take(i - start)),
        decreases hi - i,
    {
        let c = s[i];
        if !(c >= '0' && c <= '9') {
            assert(!is_digit(body[i - start]));
            return None;
        }
        let d: usize = (c as u32 - '0' as u32) as usize;
        proof {
            assert(body.take(i - start + 1).drop_last() =~= body.take(i - start));
            assert(body.take(i - start + 1).last() == c);
            assert(d == digit_value(c));
            lemma_digits_value_grows(body, i - start + 1);
        }
        let grown = match acc.checked_mul(10) {
            Some(tens) => tens.checked_add(d),
            None => None,
        };
        match grown {
            Some(value) => {
                acc = value;
            },
            None => {
                proof {
                    if all_digits(body) {
                        assert(digits_value(body) > usize::MAX);
                    }
                }
                return None;
            },
        }
        i += 1;
    }
    assert(body.take(i - start) =~= body);
    Some(acc)
}

} // verus!
