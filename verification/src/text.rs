//! Text helpers: building strings character by character, decimal numbers
//! and the path-joining rule used for the files of the client directory.

use vstd::prelude::*;

verus! {

/// `String::push` appends one character to the end of a string.
pub assume_specification[ String::push ](s: &mut String, ch: char)
    ensures
        final(s)@ == old(s)@.push(ch),
;

/// The ASCII digit that stands for `d` (`d < 10`).
pub open spec fn digit_char(d: nat) -> char {
    (48 + d) as char
}

/// Decimal representation of a natural number, most significant digit first,
/// without leading zeros (`0` is written as `"0"`).
pub open spec fn decimal(n: nat) -> Seq<char>
    decreases n,
{
    if n < 10 {
        seq![digit_char(n)]
    } else {
        decimal(n / 10).push(digit_char(n % 10))
    }
}

/// `decimal(n)` for positive `n`, the empty sequence for zero: the digits that
/// remain to be written while a number is taken apart from its last digit.
pub open spec fn decimal_or_empty(n: nat) -> Seq<char> {
    if n == 0 { Seq::empty() } else { decimal(n) }
}

/// Writes `n` in decimal.
pub fn u64_to_decimal(n: u64) -> (s: String)
    ensures
        s@ == decimal(n as nat),
{
    // digits are collected least significant first
    let mut digits: Vec<char> = Vec::new();
    let mut rest: u64 = n;
    let first: char = (48u8 + (rest % 10) as u8) as char;
    assert(first == digit_char((n % 10) as nat));
    digits.push(first);
    rest = rest / 10;
    assert(digits@.reverse() =~= seq![first]);
    while rest > 0
        invariant
            decimal(n as nat) == decimal_or_empty(rest as nat) + digits@.reverse(),
        decreases rest,
    {
        let c: char = (48u8 + (rest % 10) as u8) as char;
        assert(c == digit_char((rest % 10) as nat));
        let ghost old_digits = digits@;
        digits.push(c);
        assert(digits@.reverse() =~= seq![c] + old_digits.reverse());
        assert(decimal(rest as nat) =~= decimal_or_empty((rest / 10) as nat) + seq![c]);
        rest = rest / 10;
    }
    assert(decimal(n as nat) =~= digits@.reverse());
    let mut s = String::new();
    let mut i: usize = digits.len();
    while i > 0
        invariant
            i <= digits.len(),
            s@ =~= digits@.subrange(i as int, digits.len() as int).reverse(),
        decreases i,
    {
        i = i - 1;
        let ghost before = s@;
        s.push(digits[i]);
        assert(digits@.subrange(i as int, digits.len() as int) =~= seq![digits@[i as int]]
            + digits@.subrange(i + 1, digits.len() as int));
        assert(s@ =~= digits@.subrange(i as int, digits.len() as int).reverse());
    }
    assert(digits@.subrange(0, digits.len() as int) =~= digits@);
    s
}

/// An ASCII decimal digit.
pub open spec fn is_digit(c: char) -> bool {
    '0' <= c && c <= '9'
}

/// Every character of `s` is an ASCII decimal digit.
pub open spec fn all_digits(s: Seq<char>) -> bool {
    forall|i: int| 0 <= i < s.len() ==> #[trigger] is_digit(s[i])
}

/// The number written by a sequence of decimal digits (0 for the empty sequence).
pub open spec fn digits_value(s: Seq<char>) -> nat
    decreases s.len(),
{
    if s.len() == 0 {
        0
    } else {
        digits_value(s.drop_last()) * 10 + ((s.last() as int - 48) as nat)
    }
}

/// The digits of a decimal number, after an optional leading `+`.
pub open spec fn unsigned_digits(s: Seq<char>) -> Seq<char> {
    if s.len() > 0 && s[0] == '+' {
        s.drop_first()
    } else {
        s
    }
}

/// What `str::parse::<u64>` gives: an optional `+`, then one or more ASCII
/// digits whose value fits in a `u64`; anything else is rejected.
pub open spec fn parse_u64_spec(s: Seq<char>) -> Option<u64> {
    let d = unsigned_digits(s);
    if d.len() > 0 && all_digits(d) && digits_value(d) <= u64::MAX {
        Some(digits_value(d) as u64)
    } else {
        None
    }
}

/// A longer run of digits never has a smaller value than its prefix.
pub proof fn lemma_digits_value_prefix(s: Seq<char>, j: int)
    requires
        0 <= j <= s.len(),
        all_digits(s),
    ensures
        digits_value(s.subrange(0, j)) <= digits_value(s),
    decreases s.len(),
{
    if j < s.len() {
        assert(s.drop_last() =~= s.subrange(0, s.len() - 1));
        assert(all_digits(s.drop_last())) by {
            assert forall|i: int| 0 <= i < s.drop_last().len() implies #[trigger] is_digit(
                s.drop_last()[i],
            ) by {
                assert(is_digit(s[i]));
            }
        }
        lemma_digits_value_prefix(s.drop_last(), j);
        assert(s.drop_last().subrange(0, j) =~= s.subrange(0, j));
    } else {
        assert(s.subrange(0, j) =~= s);
    }
}

/// Reads an unsigned decimal number as `str::parse::<u64>` does.
pub fn parse_u64(s: &str) -> (r: Option<u64>)
    ensures
        r == parse_u64_spec(s@),
{
    let len = s.unicode_len();
    let mut start: usize = 0;
    if len > 0 && s.get_char(0) == '+' {
        start = 1;
    }
    let ghost d = unsigned_digits(s@);
    assert(d =~= s@.subrange(start as int, len as int));
    if start == len {
        return None;
    }
    let mut i: usize = start;
    let mut acc: u64 = 0;
    while i < len
        invariant
            start <= i <= len,
            len == s@.len(),
            start < len,
            d == s@.subrange(start as int, len as int),
            d == unsigned_digits(s@),
            all_digits(d.subrange(0, i - start)),
            acc as nat == digits_value(d.subrange(0, i - start)),
        decreases len - i,
    {
        let c = s.get_char(i);
        if !(c >= '0' && c <= '9') {
            assert(!is_digit(d[i - start]));
            assert(!all_digits(d));
            return None;
        }
        let ghost prefix = d.subrange(0, i - start);
        let ghost next = d.subrange(0, i - start + 1);
        assert(next.drop_last() =~= prefix);
        assert(all_digits(next)) by {
            assert forall|k: int| 0 <= k < next.len() implies #[trigger] is_digit(next[k]) by {
                if k < prefix.len() {
                    assert(is_digit(prefix[k]));
                }
            }
        }
        let v: u64 = (c as u32 - 48) as u64;
        assert(next.last() == c);
        assert(digits_value(next) == digits_value(prefix) * 10 + v);
        match acc.checked_mul(10) {
            None => {
                proof {
                    if all_digits(d) {
                        lemma_digits_value_prefix(d, i - start + 1);
                    }
                }
                return None;
            },
            Some(m) => match m.checked_add(v) {
                None => {
                    proof {
                        if all_digits(d) {
                            lemma_digits_value_prefix(d, i - start + 1);
                        }
                    }
                    return None;
                },
                Some(a) => {
                    acc = a;
                },
            },
        }
        i = i + 1;
    }
    assert(d.subrange(0, d.len() as int) =~= d);
    Some(acc)
}

/// Joining a relative file name onto a directory, as `Path::join` does on
/// Unix: a `/` is put between them unless the directory is empty or already
/// ends with one.
pub open spec fn path_join(dir: Seq<char>, name: Seq<char>) -> Seq<char> {
    if dir.len() == 0 {
        name
    } else if dir.last() == '/' {
        dir + name
    } else {
        dir + seq!['/'] + name
    }
}

/// Joins `name` onto `dir` (see `path_join`).
pub fn join_path(dir: &str, name: &str) -> (p: String)
    ensures
        p@ == path_join(dir@, name@),
        dir@.len() == 0 ==> p@ == name@,
        dir@.len() > 0 && dir@.last() == '/' ==> p@ == dir@ + name@,
        dir@.len() > 0 && dir@.last() != '/' ==> p@ == dir@ + seq!['/'] + name@,
{
    let len = dir.unicode_len();
    let mut p = String::from_str(dir);
    if len > 0 && dir.get_char(len - 1) != '/' {
        p.push('/');
    }
    p.append(name);
    p
}

/// `s` with every trailing `/` removed, as `str::trim_end_matches('/')` gives.
pub open spec fn trim_trailing_slashes(s: Seq<char>) -> Seq<char>
    decreases s.len(),
{
    if s.len() > 0 && s.last() == '/' {
        trim_trailing_slashes(s.drop_last())
    } else {
        s
    }
}

/// Removes every trailing `/` from `s`.
pub fn trim_end_slashes(s: &str) -> (t: String)
    ensures
        t@ == trim_trailing_slashes(s@),
{
    let mut end = s.unicode_len();
    assert(s@.subrange(0, end as int) =~= s@);
    while end > 0 && s.get_char(end - 1) == '/'
        invariant
            end <= s@.len(),
            trim_trailing_slashes(s@) == trim_trailing_slashes(s@.subrange(0, end as int)),
        decreases end,
    {
        assert(s@.subrange(0, end as int).drop_last() =~= s@.subrange(0, end - 1));
        end = end - 1;
    }
    let t = s.substring_char(0, end);
    String::from_str(t)
}

/// The decimal text of a number consists of digits whose value is the
/// number.
pub proof fn lemma_decimal_digits(n: nat)
    ensures
        decimal(n).len() > 0,
        all_digits(decimal(n)),
        digits_value(decimal(n)) == n,
    decreases n,
{
    let d = digit_char(n % 10);
    assert((d as int) == 48 + n % 10);
    if n < 10 {
        assert(decimal(n).drop_last() =~= Seq::<char>::empty());
        assert(decimal(n).last() == d);
        assert(digits_value(decimal(n)) == digits_value(decimal(n).drop_last()) * 10 + ((d as int
            - 48) as nat));
    } else {
        lemma_decimal_digits(n / 10);
        assert(decimal(n).drop_last() =~= decimal(n / 10));
        assert(decimal(n).last() == d);
        assert(digits_value(decimal(n)) == digits_value(decimal(n / 10)) * 10 + ((d as int
            - 48) as nat));
        assert((n / 10) * 10 + n % 10 == n);
        assert forall|i: int| 0 <= i < decimal(n).len() implies #[trigger] is_digit(decimal(n)[i]) by {
            if i < decimal(n / 10).len() {
                assert(is_digit(decimal(n / 10)[i]));
            }
        }
    }
}

/// Reading back the decimal text of a `u64` gives the number.
pub proof fn lemma_parse_decimal(n: u64)
    ensures
        parse_u64_spec(decimal(n as nat)) == Some(n),
{
    lemma_decimal_digits(n as nat);
    assert(is_digit(decimal(n as nat)[0]));
    assert(unsigned_digits(decimal(n as nat)) == decimal(n as nat));
}

/// A joined path is the directory, then at most one separator, then the
/// name: it starts with the directory and ends with the name, and exactly
/// one `/` stands between them unless the directory is empty or already
/// ends with `/` (whatever the directory's first character is: relative
/// directories get the separator too).
pub proof fn lemma_path_join_shape(dir: Seq<char>, name: Seq<char>)
    ensures
        path_join(dir, name).subrange(0, dir.len() as int) == dir,
        path_join(dir, name).len() >= dir.len() + name.len(),
        path_join(dir, name).subrange(
            path_join(dir, name).len() - name.len(),
            path_join(dir, name).len() as int,
        ) == name,
        dir.len() > 0 && dir.last() != '/' ==> path_join(dir, name).len() == dir.len() + 1
            + name.len() && path_join(dir, name)[dir.len() as int] == '/',
        (dir.len() == 0 || dir.last() == '/') ==> path_join(dir, name).len() == dir.len()
            + name.len(),
{
    let p = path_join(dir, name);
    assert(p.subrange(0, dir.len() as int) =~= dir);
    assert(p.subrange(p.len() - name.len(), p.len() as int) =~= name);
}

/// The file of a non-empty directory that does not end with `/` lies inside
/// it: the path is the directory, a `/`, and the name.
pub proof fn lemma_path_join_inside(dir: Seq<char>, name: Seq<char>)
    requires
        dir.len() > 0,
        dir.last() != '/',
    ensures
        path_join(dir, name) == dir + seq!['/'] + name,
{
}

} // verus!
