//! Verified building blocks for strings: equality, decimal rendering,
//! whitespace trimming and delimiter splitting.

use vstd::prelude::*;

verus! {

/// Compares two string slices character by character.
pub fn str_eq(a: &str, b: &str) -> (r: bool)
    ensures
        r == (a@ == b@),
{
    let n = a.unicode_len();
    if n != b.unicode_len() {
        return false;
    }
    let mut i: usize = 0;
    while i < n
        invariant
            i <= n,
            n == a@.len(),
            n == b@.len(),
            forall|j: int| 0 <= j < i ==> a@[j] == b@[j],
        decreases n - i,
    {
        if a.get_char(i) != b.get_char(i) {
            return false;
        }
        i = i + 1;
    }
    proof {
        assert(a@ =~= b@);
    }
    true
}

/// Relies on String::push: appends exactly the given character at the end.
#[verifier::external_body]
pub fn push_char(s: &mut String, c: char)
    ensures
        final(s)@ == old(s)@.push(c),
{
    s.push(c)
}

/// The character for one decimal digit.
pub open spec fn digit_char(d: nat) -> char {
    if d == 0 {
        '0'
    } else if d == 1 {
        '1'
    } else if d == 2 {
        '2'
    } else if d == 3 {
        '3'
    } else if d == 4 {
        '4'
    } else if d == 5 {
        '5'
    } else if d == 6 {
        '6'
    } else if d == 7 {
        '7'
    } else if d == 8 {
        '8'
    } else {
        '9'
    }
}

/// The usual decimal rendering of a natural number, without sign or padding.
pub open spec fn dec_str(n: nat) -> Seq<char>
    decreases n,
{
    if n < 10 {
        seq![digit_char(n)]
    } else {
        dec_str(n / 10) + seq![digit_char(n % 10)]
    }
}

fn digit_to_char(d: u64) -> (c: char)
    requires
        d < 10,
    ensures
        c == digit_char(d as nat),
{
    if d == 0 {
        '0'
    } else if d == 1 {
        '1'
    } else if d == 2 {
        '2'
    } else if d == 3 {
        '3'
    } else if d == 4 {
        '4'
    } else if d == 5 {
        '5'
    } else if d == 6 {
        '6'
    } else if d == 7 {
        '7'
    } else if d == 8 {
        '8'
    } else {
        '9'
    }
}

fn push_dec(n: u64, out: &mut String)
    ensures
        final(out)@ == old(out)@ + dec_str(n as nat),
    decreases n,
{
    if n < 10 {
        let c = digit_to_char(n);
        push_char(out, c);
        proof {
            assert(final(out)@ =~= old(out)@ + dec_str(n as nat));
        }
    } else {
        push_dec(n / 10, out);
        let c = digit_to_char(n % 10);
        push_char(out, c);
        proof {
            assert(final(out)@ =~= old(out)@ + dec_str(n as nat));
        }
    }
}

/// Renders a number in decimal.
pub fn u64_to_string(n: u64) -> (r: String)
    ensures
        r@ == dec_str(n as nat),
{
    let mut s = String::new();
    push_dec(n, &mut s);
    proof {
        assert(s@ =~= dec_str(n as nat));
    }
    s
}

/// Renders a port or other small number in decimal.
pub fn u16_to_string(n: u16) -> (r: String)
    ensures
        r@ == dec_str(n as nat),
{
    u64_to_string(n as u64)
}

/// Joins two strings.
pub fn concat2(a: &str, b: &str) -> (r: String)
    ensures
        r@ == a@ + b@,
{
    let mut s = a.to_owned();
    s.append(b);
    s
}

/// Joins three strings.
pub fn concat3(a: &str, b: &str, c: &str) -> (r: String)
    ensures
        r@ == a@ + b@ + c@,
{
    let mut s = a.to_owned();
    s.append(b);
    s.append(c);
    s
}

/// Joins four strings.
pub fn concat4(a: &str, b: &str, c: &str, d: &str) -> (r: String)
    ensures
        r@ == a@ + b@ + c@ + d@,
{
    let mut s = a.to_owned();
    s.append(b);
    s.append(c);
    s.append(d);
    s
}

/// The blank characters that trimming removes at either end.
pub open spec fn is_blank(c: char) -> bool {
    c == ' ' || c == '\t' || c == '\n' || c == '\r'
}

/// Index of the first non-blank character, or the length if all are blank.
pub open spec fn first_non_blank(s: Seq<char>) -> int
    decreases s.len(),
{
    if s.len() == 0 {
        0
    } else if !is_blank(s[0]) {
        0
    } else {
        1 + first_non_blank(s.skip(1))
    }
}

/// One past the index of the last non-blank character, or 0 if all are blank.
pub open spec fn end_non_blank(s: Seq<char>) -> int
    decreases s.len(),
{
    if s.len() == 0 {
        0
    } else if !is_blank(s.last()) {
        s.len() as int
    } else {
        end_non_blank(s.drop_last())
    }
}

/// The string with blank characters removed from both ends.
pub open spec fn trim_spec(s: Seq<char>) -> Seq<char> {
    if first_non_blank(s) == s.len() {
        Seq::empty()
    } else {
        s.subrange(first_non_blank(s), end_non_blank(s))
    }
}

proof fn lemma_first_non_blank(s: Seq<char>, i: int)
    requires
        0 <= i <= s.len(),
        forall|j: int| 0 <= j < i ==> is_blank(s[j]),
        i == s.len() || !is_blank(s[i]),
    ensures
        first_non_blank(s) == i,
    decreases s.len(),
{
    if s.len() == 0 {
    } else if i == 0 {
    } else {
        lemma_first_non_blank(s.skip(1), i - 1);
    }
}

proof fn lemma_end_non_blank(s: Seq<char>, b: int)
    requires
        0 <= b <= s.len(),
        forall|j: int| b <= j < s.len() ==> is_blank(s[j]),
        b == 0 || !is_blank(s[b - 1]),
    ensures
        end_non_blank(s) == b,
    decreases s.len(),
{
    if s.len() == 0 {
    } else if b == s.len() as int {
    } else {
        assert(is_blank(s.last()));
        lemma_end_non_blank(s.drop_last(), b);
    }
}

/// Removes spaces, tabs and line breaks from both ends of the string.
pub fn trim(s: &str) -> (r: String)
    ensures
        r@ == trim_spec(s@),
{
    let n = s.unicode_len();
    let mut a: usize = 0;
    while a < n && is_blank_exec(s.get_char(a))
        invariant
            a <= n,
            n == s@.len(),
            forall|j: int| 0 <= j < a ==> is_blank(s@[j]),
        decreases n - a,
    {
        a = a + 1;
    }
    proof {
        lemma_first_non_blank(s@, a as int);
    }
    if a == n {
        return String::new();
    }
    let mut b: usize = n;
    while b > a && is_blank_exec(s.get_char(b - 1))
        invariant
            a <= b <= n,
            n == s@.len(),
            a < n,
            !is_blank(s@[a as int]),
            forall|j: int| b <= j < n ==> is_blank(s@[j]),
        decreases b,
    {
        b = b - 1;
    }
    proof {
        assert(b > a);
        lemma_end_non_blank(s@, b as int);
    }
    let piece = s.substring_char(a, b);
    piece.to_owned()
}

fn is_blank_exec(c: char) -> (r: bool)
    ensures
        r == is_blank(c),
{
    c == ' ' || c == '\t' || c == '\n' || c == '\r'
}

/// The fields of the first `n` characters split at the delimiter `d`, never
/// opening a field beyond `limit` fields in all.
pub open spec fn split_state(s: Seq<char>, n: int, limit: int, d: char) -> Seq<Seq<char>>
    decreases n,
{
    if n <= 0 {
        seq![Seq::empty()]
    } else {
        let prev = split_state(s, n - 1, limit, d);
        if s[n - 1] == d && prev.len() < limit {
            prev.push(Seq::empty())
        } else {
            prev.update(prev.len() - 1, prev.last().push(s[n - 1]))
        }
    }
}

/// All fields of the string split at the delimiter.
pub open spec fn split_all(s: Seq<char>, d: char) -> Seq<Seq<char>> {
    split_state(s, s.len() as int, s.len() as int + 1, d)
}

/// The fields of the string split at the delimiter into at most `limit`
/// fields; the last field keeps any further delimiters.
pub open spec fn split_limit(s: Seq<char>, limit: int, d: char) -> Seq<Seq<char>> {
    split_state(s, s.len() as int, limit, d)
}

proof fn lemma_split_state_len(s: Seq<char>, n: int, limit: int, d: char)
    requires
        0 <= n,
    ensures
        1 <= split_state(s, n, limit, d).len() <= n + 1,
    decreases n,
{
    if n > 0 {
        lemma_split_state_len(s, n - 1, limit, d);
    }
}

fn split_impl(s: &str, d: char, limited: bool, limit: usize) -> (r: Vec<String>)
    requires
        limited ==> limit >= 1,
    ensures
        r@.map_values(|t: String| t@) == split_state(
            s@,
            s@.len() as int,
            if limited {
                limit as int
            } else {
                s@.len() as int + 1
            },
            d,
        ),
{
    let ghost lim: int = if limited {
        limit as int
    } else {
        s@.len() as int + 1
    };
    let n = s.unicode_len();
    let mut fields: Vec<String> = Vec::new();
    let mut cur = String::new();
    let mut i: usize = 0;
    while i < n
        invariant
            i <= n,
            n == s@.len(),
            lim == if limited {
                limit as int
            } else {
                s@.len() as int + 1
            },
            limited ==> limit >= 1,
            fields@.len() <= i,
            split_state(s@, i as int, lim, d) == fields@.map_values(|t: String| t@).push(cur@),
        decreases n - i,
    {
        let c = s.get_char(i);
        proof {
            assert(split_state(s@, i as int, lim, d).len() == fields@.len() + 1);
        }
        if c == d && (!limited || fields.len() < limit - 1) {
            fields.push(cur);
            cur = String::new();
            proof {
                assert(split_state(s@, i + 1 as int, lim, d) =~= fields@.map_values(
                    |t: String| t@,
                ).push(cur@));
            }
        } else {
            proof {
                if c == d {
                    assert(fields@.len() + 2 > limit && limited);
                }
            }
            push_char(&mut cur, c);
            proof {
                assert(split_state(s@, i + 1 as int, lim, d) =~= fields@.map_values(
                    |t: String| t@,
                ).push(cur@));
            }
        }
        i = i + 1;
    }
    fields.push(cur);
    proof {
        assert(fields@.map_values(|t: String| t@) =~= split_state(s@, s@.len() as int, lim, d));
    }
    fields
}

/// Splits the string at every occurrence of the delimiter.
pub fn split_char(s: &str, d: char) -> (r: Vec<String>)
    ensures
        r@.map_values(|t: String| t@) == split_all(s@, d),
{
    split_impl(s, d, false, 0)
}

/// Splits the string at the delimiter into at most `limit` fields.
pub fn splitn_char(s: &str, d: char, limit: usize) -> (r: Vec<String>)
    requires
        limit >= 1,
    ensures
        r@.map_values(|t: String| t@) == split_limit(s@, limit as int, d),
{
    split_impl(s, d, true, limit)
}

/// The string without one trailing carriage return, if it has one.
pub open spec fn strip_cr(s: Seq<char>) -> Seq<char> {
    if s.len() > 0 && s.last() == '\r' {
        s.drop_last()
    } else {
        s
    }
}

/// Removes one trailing carriage return, if the string ends in one.
pub fn strip_trailing_cr(s: &str) -> (r: String)
    ensures
        r@ == strip_cr(s@),
{
    let n = s.unicode_len();
    if n > 0 && s.get_char(n - 1) == '\r' {
        let piece = s.substring_char(0, n - 1);
        proof {
            assert(s@.subrange(0, n - 1) =~= s@.drop_last());
        }
        piece.to_owned()
    } else {
        s.to_owned()
    }
}

} // verus!

