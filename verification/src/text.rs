//! Text utilities shared by the other modules: character vectors as the
//! executable form of a string, whitespace, trimming, and splitting into
//! lines the way `str::lines` does (a line ends at `'\n'`; a `'\r'`
//! immediately before it is dropped; the final line needs no terminator).

use vstd::prelude::*;
use vstd::string::*;

verus! {

/// A character of the Unicode `White_Space` class, the class `str::trim`
/// removes.
pub open spec fn is_ws(c: char) -> bool {
    let u = c as u32;
    u == 0x09 || u == 0x0A || u == 0x0B || u == 0x0C || u == 0x0D || u == 0x20 || u == 0x85
        || u == 0xA0 || u == 0x1680 || (0x2000 <= u && u <= 0x200A) || u == 0x2028 || u == 0x2029
        || u == 0x202F || u == 0x205F || u == 0x3000
}

/// Decides membership in the Unicode `White_Space` class.
pub fn is_whitespace_char(c: char) -> (r: bool)
    ensures
        r == is_ws(c),
{
    let u = c as u32;
    u == 0x09 || u == 0x0A || u == 0x0B || u == 0x0C || u == 0x0D || u == 0x20 || u == 0x85
        || u == 0xA0 || u == 0x1680 || (0x2000 <= u && u <= 0x200A) || u == 0x2028 || u == 0x2029
        || u == 0x202F || u == 0x205F || u == 0x3000
}

/// The characters of a string, in order.
pub fn str_to_chars(s: &str) -> (v: Vec<char>)
    ensures
        v@ == s@,
{
    let n = s.unicode_len();
    let mut v: Vec<char> = Vec::new();
    let mut i: usize = 0;
    while i < n
        invariant
            i <= n,
            n == s@.len(),
            v@ == s@.subrange(0, i as int),
        decreases n - i,
    {
        v.push(s.get_char(i));
        i += 1;
        assert(v@ =~= s@.subrange(0, i as int));
    }
    assert(v@ =~= s@);
    v
}

/// Builds the string whose characters are exactly `v`, in order.
///
/// Relies on `String`'s `FromIterator` over `char`: collecting characters
/// yields the string with those characters in that order.
#[verifier::external_body]
pub fn chars_to_string(v: &Vec<char>) -> (s: String)
    ensures
        s@ == v@,
{
    v.iter().collect()
}

/// Whether two strings hold the same characters.
pub fn str_eq(a: &str, b: &str) -> (r: bool)
    ensures
        r == (a@ == b@),
{
    let na = a.unicode_len();
    let nb = b.unicode_len();
    if na != nb {
        assert(a@.len() != b@.len());
        return false;
    }
    let mut i: usize = 0;
    while i < na
        invariant
            i <= na,
            na == a@.len(),
            na == b@.len(),
            a@.subrange(0, i as int) == b@.subrange(0, i as int),
        decreases na - i,
    {
        if a.get_char(i) != b.get_char(i) {
            assert(a@[i as int] != b@[i as int]);
            return false;
        }
        assert(a@.subrange(0, i + 1) =~= b@.subrange(0, i + 1));
        i += 1;
    }
    assert(a@.subrange(0, na as int) =~= a@);
    assert(b@.subrange(0, na as int) =~= b@);
    true
}

/// `s` without its leading whitespace.
pub open spec fn spec_trim_start(s: Seq<char>) -> Seq<char>
    decreases s.len(),
{
    if s.len() > 0 && is_ws(s[0]) {
        spec_trim_start(s.drop_first())
    } else {
        s
    }
}

/// `s` without its trailing whitespace.
pub open spec fn spec_trim_end(s: Seq<char>) -> Seq<char>
    decreases s.len(),
{
    if s.len() > 0 && is_ws(s.last()) {
        spec_trim_end(s.drop_last())
    } else {
        s
    }
}

/// `s` without leading and trailing whitespace, as `str::trim` leaves it.
pub open spec fn spec_trim(s: Seq<char>) -> Seq<char> {
    spec_trim_end(spec_trim_start(s))
}

/// Dropping leading whitespace one character at a time reaches the first
/// index that holds a non-whitespace character.
proof fn lemma_trim_start_skip(s: Seq<char>, i: int)
    requires
        0 <= i <= s.len(),
        forall|k: int| 0 <= k < i ==> is_ws(s[k]),
    ensures
        spec_trim_start(s) == spec_trim_start(s.skip(i)),
    decreases i,
{
    if i > 0 {
        assert(s.skip(0) =~= s);
        assert(s.len() > 0 && is_ws(s[0]));
        assert(s.drop_first() =~= s.skip(1));
        lemma_trim_start_skip(s.skip(1), i - 1);
        assert(s.skip(1).skip(i - 1) =~= s.skip(i));
    } else {
        assert(s.skip(0) =~= s);
    }
}

/// A sequence whose first character is not whitespace is already
/// start-trimmed; an empty one likewise.
proof fn lemma_trim_start_fixed(s: Seq<char>)
    requires
        s.len() == 0 || !is_ws(s[0]),
    ensures
        spec_trim_start(s) == s,
{
}

/// The index after the leading whitespace of `v`: every character before
/// it is whitespace, and the rest of `v` is exactly the start-trimmed
/// sequence.
pub fn trim_start_index(v: &Vec<char>) -> (i: usize)
    ensures
        i <= v@.len(),
        spec_trim_start(v@) == v@.skip(i as int),
        forall|k: int| 0 <= k < i ==> is_ws(v@[k]),
        i < v@.len() ==> !is_ws(v@[i as int]),
{
    let n = v.len();
    let mut i: usize = 0;
    while i < n && is_whitespace_char(v[i])
        invariant
            i <= n,
            n == v@.len(),
            forall|k: int| 0 <= k < i ==> is_ws(v@[k]),
        decreases n - i,
    {
        i += 1;
    }
    proof {
        lemma_trim_start_skip(v@, i as int);
        if i < v@.len() {
            assert(v@.skip(i as int)[0] == v@[i as int]);
            lemma_trim_start_fixed(v@.skip(i as int));
        } else {
            assert(v@.skip(i as int) =~= Seq::<char>::empty());
            lemma_trim_start_fixed(v@.skip(i as int));
        }
    }
    i
}

/// Dropping trailing whitespace one character at a time reaches the last
/// index that holds a non-whitespace character.
proof fn lemma_trim_end_take(s: Seq<char>, j: int)
    requires
        0 <= j <= s.len(),
        forall|k: int| j <= k < s.len() ==> is_ws(s[k]),
    ensures
        spec_trim_end(s) == spec_trim_end(s.take(j)),
    decreases s.len() - j,
{
    if j < s.len() {
        assert(is_ws(s.last()));
        assert(s.drop_last() =~= s.take(s.len() - 1));
        lemma_trim_end_take(s.take(s.len() - 1), j);
        assert(s.take(s.len() - 1).take(j) =~= s.take(j));
    } else {
        assert(s.take(j) =~= s);
    }
}

/// A sequence whose last character is not whitespace is already
/// end-trimmed; an empty one likewise.
proof fn lemma_trim_end_fixed(s: Seq<char>)
    requires
        s.len() == 0 || !is_ws(s.last()),
    ensures
        spec_trim_end(s) == s,
{
}

/// `v` without leading and trailing whitespace.
pub fn trim_chars(v: &Vec<char>) -> (t: Vec<char>)
    ensures
        t@ == spec_trim(v@),
{
    let n = v.len();
    let a = trim_start_index(v);
    let ghost start_trimmed = spec_trim_start(v@);
    let mut j: usize = n;
    while j > a && is_whitespace_char(v[j - 1])
        invariant
            a <= j <= n,
            n == v@.len(),
            forall|k: int| j <= k < n ==> is_ws(v@[k]),
        decreases j,
    {
        j -= 1;
    }
    let mut t: Vec<char> = Vec::new();
    let mut i: usize = a;
    while i < j
        invariant
            a <= i <= j <= v@.len(),
            t@ == v@.subrange(a as int, i as int),
        decreases j - i,
    {
        t.push(v[i]);
        i += 1;
        assert(t@ =~= v@.subrange(a as int, i as int));
    }
    proof {
        assert(start_trimmed == v@.skip(a as int));
        // trailing whitespace of the start-trimmed sequence begins at j - a
        assert(forall|k: int|
            j - a <= k < start_trimmed.len() ==> is_ws(#[trigger] start_trimmed[k]));
        lemma_trim_end_take(start_trimmed, j - a);
        if j > a {
            assert(start_trimmed.take(j - a)[j - a - 1] == v@[j - 1]);
            lemma_trim_end_fixed(start_trimmed.take(j - a));
        } else {
            assert(start_trimmed.take(j - a) =~= Seq::<char>::empty());
            lemma_trim_end_fixed(start_trimmed.take(j - a));
        }
        assert(start_trimmed.take(j - a) =~= v@.subrange(a as int, j as int));
    }
    t
}

/// A line's content once its terminator is gone: a final `'\r'` (left by a
/// `"\r\n"` ending) is dropped.
pub open spec fn strip_cr(l: Seq<char>) -> Seq<char> {
    if l.len() > 0 && l.last() == '\r' {
        l.drop_last()
    } else {
        l
    }
}

/// The position of the first `'\n'` in `s`, or `s.len()` if there is none.
pub open spec fn find_newline(s: Seq<char>, from: int) -> int
    decreases s.len() - from,
{
    if from < 0 || from >= s.len() {
        s.len() as int
    } else if s[from] == '\n' {
        from
    } else {
        find_newline(s, from + 1)
    }
}

/// The lines of `s`, as `str::lines` yields them: split at `'\n'`, a
/// `'\r'` right before the split dropped, the last line unterminated.
pub open spec fn spec_lines(s: Seq<char>) -> Seq<Seq<char>>
    decreases s.len(),
{
    if s.len() == 0 {
        Seq::empty()
    } else {
        let i = find_newline(s, 0);
        if 0 <= i < s.len() {
            seq![strip_cr(s.subrange(0, i))] + spec_lines(s.subrange(i + 1, s.len() as int))
        } else {
            seq![s]
        }
    }
}

/// `find_newline` is settled by the first stretch without a newline.
pub proof fn lemma_find_first_newline(s: Seq<char>, i: int)
    requires
        0 <= i <= s.len(),
        forall|k: int| 0 <= k < i ==> s[k] != '\n',
        i < s.len() ==> s[i] == '\n',
    ensures
        find_newline(s, 0) == if i < s.len() { i } else { s.len() as int },
{
    lemma_find_newline_from(s, 0, i);
}

proof fn lemma_find_newline_from(s: Seq<char>, from: int, i: int)
    requires
        0 <= from <= i <= s.len(),
        forall|k: int| from <= k < i ==> s[k] != '\n',
        i < s.len() ==> s[i] == '\n',
    ensures
        find_newline(s, from) == if i < s.len() { i } else { s.len() as int },
    decreases i - from,
{
    if from < i {
        lemma_find_newline_from(s, from + 1, i);
    }
}

/// The lines of `s`, with the terminators dropped.
pub fn split_lines(v: &Vec<char>) -> (lines: Vec<Vec<char>>)
    ensures
        lines.deep_view() == spec_lines(v@),
{
    let n = v.len();
    let mut lines: Vec<Vec<char>> = Vec::new();
    let mut cur: Vec<char> = Vec::new();
    let mut start: usize = 0;
    let mut i: usize = 0;
    proof {
        assert(v@.skip(0) =~= v@);
        assert(lines.deep_view() =~~= Seq::<Seq<char>>::empty());
        assert(Seq::<Seq<char>>::empty() + spec_lines(v@) =~= spec_lines(v@));
        assert(cur@ =~= v@.subrange(0, 0));
    }
    while i < n
        invariant
            start <= i <= n,
            n == v@.len(),
            cur@ == v@.subrange(start as int, i as int),
            forall|k: int| start <= k < i ==> v@[k] != '\n',
            lines.deep_view() + spec_lines(v@.skip(start as int)) == spec_lines(v@),
        decreases n - i,
    {
        let ghost rest = v@.skip(start as int);
        let c = v[i];
        if c == '\n' {
            if cur.len() > 0 && cur[cur.len() - 1] == '\r' {
                cur.pop();
            }
            proof {
                assert(cur@ == strip_cr(v@.subrange(start as int, i as int)));
                assert forall|k: int| 0 <= k < i - start implies rest[k] != '\n' by {
                    assert(rest[k] == v@[start + k]);
                }
                assert(rest[i - start] == '\n');
                lemma_find_first_newline(rest, i - start);
                assert(rest.subrange(0, i - start) =~= v@.subrange(start as int, i as int));
                assert(rest.subrange(
                    i - start + 1,
                    rest.len() as int,
                ) =~= v@.skip(i + 1));
                assert(spec_lines(rest) == seq![cur@] + spec_lines(v@.skip(i + 1)));
            }
            let ghost old_lines = lines.deep_view();
            let ghost curv = cur@;
            lines.push(cur);
            proof {
                assert(lines.deep_view() =~~= old_lines + seq![curv]);
                assert(old_lines + (seq![curv] + spec_lines(v@.skip(i + 1)))
                    =~= (old_lines + seq![curv]) + spec_lines(v@.skip(i + 1)));
            }
            cur = Vec::new();
            start = i + 1;
            i += 1;
            assert(cur@ =~= v@.subrange(start as int, i as int));
        } else {
            cur.push(c);
            i += 1;
            assert(cur@ =~= v@.subrange(start as int, i as int));
        }
    }
    proof {
        let rest = v@.skip(start as int);
        if start < n {
            assert forall|k: int| 0 <= k < rest.len() implies rest[k] != '\n' by {
                assert(rest[k] == v@[start + k]);
            }
            lemma_find_first_newline(rest, rest.len() as int);
            assert(spec_lines(rest) == seq![rest]);
            assert(cur@ =~= rest);
        } else {
            assert(rest =~= Seq::<char>::empty());
            assert(spec_lines(rest) == Seq::<Seq<char>>::empty());
        }
    }
    if start < n {
        let ghost old_lines = lines.deep_view();
        let ghost curv = cur@;
        lines.push(cur);
        proof {
            assert(lines.deep_view() =~~= old_lines + seq![curv]);
        }
    } else {
        proof {
            assert(lines.deep_view() + Seq::<Seq<char>>::empty() =~= lines.deep_view());
        }
    }
    lines
}

/// The character for a decimal digit value.
pub open spec fn digit_char(d: int) -> char {
    if d == 0 {
        '0'
    } else if d == 1 {
        '1'
    } else if d == 2 {
        '2'
    } else if d == 3 {
        '3'
    } else if d == 4 {
        '4'
    } else if d == 5 {
        '5'
    } else if d == 6 {
        '6'
    } else if d == 7 {
        '7'
    } else if d == 8 {
        '8'
    } else {
        '9'
    }
}

/// The decimal digits of `n`, most significant first; empty for zero.
pub open spec fn dec_digits(n: nat) -> Seq<char>
    decreases n,
{
    if n == 0 {
        Seq::empty()
    } else {
        dec_digits(n / 10).push(digit_char((n % 10) as int))
    }
}

/// The decimal rendering of `n`: its digits, or `"0"` for zero.
pub open spec fn spec_u64_dec(n: nat) -> Seq<char> {
    if n == 0 {
        seq!['0']
    } else {
        dec_digits(n)
    }
}

/// The decimal rendering of a signed number: a minus sign before the
/// magnitude when it is negative.
pub open spec fn spec_i32_dec(n: int) -> Seq<char> {
    if n < 0 {
        seq!['-'] + spec_u64_dec((-n) as nat)
    } else {
        spec_u64_dec(n as nat)
    }
}

/// Appends the decimal digits of `n` to `out`, most significant first.
fn push_dec_digits(n: u64, out: &mut Vec<char>)
    ensures
        final(out)@ == old(out)@ + dec_digits(n as nat),
    decreases n,
{
    if n == 0 {
        assert(old(out)@ + dec_digits(n as nat) =~= old(out)@);
    } else {
        push_dec_digits(n / 10, out);
        let d: u64 = n % 10;
        let c: char = if d == 0 {
            '0'
        } else if d == 1 {
            '1'
        } else if d == 2 {
            '2'
        } else if d == 3 {
            '3'
        } else if d == 4 {
            '4'
        } else if d == 5 {
            '5'
        } else if d == 6 {
            '6'
        } else if d == 7 {
            '7'
        } else if d == 8 {
            '8'
        } else {
            '9'
        };
        assert(c == digit_char((n % 10) as int));
        out.push(c);
        assert(out@ =~= old(out)@ + dec_digits(n as nat));
    }
}

/// The decimal rendering of `n`.
pub fn u64_dec_chars(n: u64) -> (v: Vec<char>)
    ensures
        v@ == spec_u64_dec(n as nat),
{
    let mut v: Vec<char> = Vec::new();
    if n == 0 {
        v.push('0');
        assert(v@ =~= seq!['0']);
    } else {
        push_dec_digits(n, &mut v);
        assert(v@ =~= dec_digits(n as nat));
    }
    v
}

/// The decimal rendering of `n`, with a minus sign when it is negative.
pub fn i32_dec_chars(n: i32) -> (v: Vec<char>)
    ensures
        v@ == spec_i32_dec(n as int),
{
    if n < 0 {
        let m: u64 = (-(n as i64)) as u64;
        let mut v: Vec<char> = Vec::new();
        v.push('-');
        push_dec_digits(m, &mut v);
        assert(m != 0);
        assert(v@ =~= seq!['-'] + spec_u64_dec(m as nat));
        v
    } else {
        u64_dec_chars(n as u64)
    }
}

} // verus!
