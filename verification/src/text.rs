//! Verified text utilities for the form engine: whitespace trimming and
//! decimal conversion between strings and unsigned integers.

use vstd::prelude::*;

verus! {

/// Characters removed by trimming.
pub open spec fn is_space_char(c: char) -> bool {
    c == ' ' || c == '\t' || c == '\n' || c == '\r'
}

/// The sequence with leading space characters removed.
pub open spec fn trim_front(s: Seq<char>) -> Seq<char>
    decreases s.len(),
{
    if s.len() > 0 && is_space_char(s[0]) {
        trim_front(s.drop_first())
    } else {
        s
    }
}

/// The sequence with trailing space characters removed.
pub open spec fn trim_back(s: Seq<char>) -> Seq<char>
    decreases s.len(),
{
    if s.len() > 0 && is_space_char(s.last()) {
        trim_back(s.drop_last())
    } else {
        s
    }
}

/// The sequence with both leading and trailing space characters removed.
pub open spec fn trimmed(s: Seq<char>) -> Seq<char> {
    trim_back(trim_front(s))
}

proof fn lemma_trim_front_skip(s: Seq<char>, i: int)
    requires
        0 <= i <= s.len(),
        forall|k: int| 0 <= k < i ==> is_space_char(s[k]),
        i == s.len() || !is_space_char(s[i]),
    ensures
        trim_front(s) == s.subrange(i, s.len() as int),
    decreases i,
{
    if i == 0 {
        assert(s.subrange(0, s.len() as int) =~= s);
    } else {
        assert(is_space_char(s[0]));
        lemma_trim_front_skip(s.drop_first(), i - 1);
        assert(s.drop_first().subrange(i - 1, s.drop_first().len() as int) =~= s.subrange(
            i,
            s.len() as int,
        ));
    }
}

proof fn lemma_trim_back_skip(s: Seq<char>, j: int)
    requires
        0 <= j <= s.len(),
        forall|k: int| j <= k < s.len() ==> is_space_char(s[k]),
        j == 0 || !is_space_char(s[j - 1]),
    ensures
        trim_back(s) == s.subrange(0, j),
    decreases s.len() - j,
{
    if j == s.len() {
        assert(s.subrange(0, j) =~= s);
    } else {
        assert(is_space_char(s.last()));
        lemma_trim_back_skip(s.drop_last(), j);
        assert(s.drop_last().subrange(0, j) =~= s.subrange(0, j));
    }
}

/// Whether a character is a decimal digit.
pub open spec fn is_digit_char(c: char) -> bool {
    '0' <= c && c <= '9'
}

/// The numeric value of a decimal digit character.
pub open spec fn digit_val(c: char) -> int {
    c as int - '0' as int
}

/// Whether every character of the sequence is a decimal digit.
pub open spec fn all_digits(s: Seq<char>) -> bool {
    forall|i: int| 0 <= i < s.len() ==> is_digit_char(s[i])
}

/// The number denoted by a sequence of decimal digit characters,
/// most significant digit first.
pub open spec fn str_to_int(s: Seq<char>) -> int
    decreases s.len(),
{
    if s.len() == 0 {
        0
    } else {
        str_to_int(s.drop_last()) * 10 + digit_val(s.last())
    }
}

/// The decimal digit character for a value below ten.
pub open spec fn digit_char(d: int) -> char {
    if d == 0 {
        '0'
    } else if d == 1 {
        '1'
    } else if d == 2 {
        '2'
    } else if d == 3 {
        '3'
    } else if d == 4 {
        '4'
    } else if d == 5 {
        '5'
    } else if d == 6 {
        '6'
    } else if d == 7 {
        '7'
    } else if d == 8 {
        '8'
    } else {
        '9'
    }
}

/// The decimal representation of a natural number, without leading zeros
/// (a single zero digit for zero itself).
pub open spec fn dec_digits(v: nat) -> Seq<char>
    decreases v,
{
    if v < 10 {
        seq![digit_char(v as int)]
    } else {
        dec_digits(v / 10) + seq![digit_char((v % 10) as int)]
    }
}

/// Removes leading and trailing space characters.
pub fn trim_str(s: &str) -> (r: String)
    ensures
        r@ == trimmed(s@),
{
    let n = s.unicode_len();
    let mut i: usize = 0;
    while i < n && is_space(s.get_char(i))
        invariant
            0 <= i <= n,
            n == s@.len(),
            forall|k: int| 0 <= k < i ==> is_space_char(s@[k]),
        decreases n - i,
    {
        i = i + 1;
    }
    let mut j: usize = n;
    while j > i && is_space(s.get_char(j - 1))
        invariant
            i <= j <= n,
            n == s@.len(),
            forall|k: int| 0 <= k < i ==> is_space_char(s@[k]),
            i == n || !is_space_char(s@[i as int]),
            forall|k: int| j <= k < n ==> is_space_char(s@[k]),
        decreases j,
    {
        j = j - 1;
    }
    proof {
        lemma_trim_front_skip(s@, i as int);
        if j == i {
            assert(forall|k: int| i <= k < s@.len() ==> is_space_char(s@[k]));
            assert(i == s@.len() || !is_space_char(s@[i as int]));
            assert(i == s@.len());
        }
        let w = s@.subrange(i as int, s@.len() as int);
        lemma_trim_back_skip(w, j - i);
        assert(w.subrange(0, j - i) =~= s@.subrange(i as int, j as int));
    }
    let sub = s.substring_char(i, j);
    String::from_str(sub)
}

/// Whether a character is removed by trimming.
pub fn is_space(c: char) -> (r: bool)
    ensures
        r == is_space_char(c),
{
    c == ' ' || c == '\t' || c == '\n' || c == '\r'
}

proof fn lemma_str_to_int_nonneg(s: Seq<char>)
    requires
        all_digits(s),
    ensures
        str_to_int(s) >= 0,
    decreases s.len(),
{
    if s.len() > 0 {
        assert(all_digits(s.drop_last()));
        lemma_str_to_int_nonneg(s.drop_last());
    }
}

proof fn lemma_str_to_int_step(s: Seq<char>, i: int)
    requires
        0 <= i < s.len(),
    ensures
        str_to_int(s.subrange(0, i + 1)) == str_to_int(s.subrange(0, i)) * 10 + digit_val(s[i]),
{
    let p = s.subrange(0, i + 1);
    assert(p.drop_last() =~= s.subrange(0, i));
    assert(p.last() == s[i]);
}

proof fn lemma_str_to_int_prefix_bound(s: Seq<char>, i: int)
    requires
        0 <= i <= s.len(),
        all_digits(s),
    ensures
        str_to_int(s) >= str_to_int(s.subrange(0, i)),
    decreases s.len() - i,
{
    if i == s.len() {
        assert(s.subrange(0, i) =~= s);
    } else {
        lemma_str_to_int_step(s, i);
        let v = str_to_int(s.subrange(0, i));
        assert(all_digits(s.subrange(0, i))) by {
            assert(forall|k: int| 0 <= k < i ==> s.subrange(0, i)[k] == s[k]);
        }
        lemma_str_to_int_nonneg(s.subrange(0, i));
        assert(digit_val(s[i]) >= 0);
        assert(v * 10 == v + v * 9);
        assert(v * 9 >= 0) by (nonlinear_arith)
            requires
                v >= 0,
        ;
        lemma_str_to_int_prefix_bound(s, i + 1);
    }
}

/// Parses a non-empty, all-digit decimal string into a 32-bit unsigned
/// integer; anything else is rejected.
pub fn parse_u32(s: &str) -> (r: Option<u32>)
    ensures
        match r {
            Some(v) => s@.len() > 0 && all_digits(s@) && str_to_int(s@) == v as int,
            None => s@.len() == 0 || !all_digits(s@) || str_to_int(s@) > u32::MAX as int,
        },
{
    let n = s.unicode_len();
    if n == 0 {
        return None;
    }
    let mut i: usize = 0;
    while i < n
        invariant
            0 <= i <= n,
            n == s@.len(),
            forall|k: int| 0 <= k < i ==> is_digit_char(s@[k]),
        decreases n - i,
    {
        let c = s.get_char(i);
        if !(c >= '0' && c <= '9') {
            assert(!is_digit_char(s@[i as int]));
            return None;
        }
        i = i + 1;
    }
    assert(all_digits(s@));
    let mut acc: u64 = 0;
    let mut j: usize = 0;
    while j < n
        invariant
            0 <= j <= n,
            n == s@.len(),
            all_digits(s@),
            acc as int == str_to_int(s@.subrange(0, j as int)),
            acc <= u32::MAX,
        decreases n - j,
    {
        let c = s.get_char(j);
        assert(is_digit_char(s@[j as int]));
        let d: u64 = (c as u32 - '0' as u32) as u64;
        assert(d as int == digit_val(s@[j as int]));
        let next = acc * 10 + d;
        proof {
            lemma_str_to_int_step(s@, j as int);
        }
        if next > u32::MAX as u64 {
            proof {
                lemma_str_to_int_prefix_bound(s@, j as int + 1);
            }
            return None;
        }
        acc = next;
        j = j + 1;
    }
    assert(s@.subrange(0, n as int) =~= s@);
    Some(acc as u32)
}

/// The string slice holding one decimal digit character.
fn digit_str(d: u32) -> (r: &'static str)
    requires
        d < 10,
    ensures
        r@ =~= seq![digit_char(d as int)],
{
    proof {
        reveal_strlit("0");
        reveal_strlit("1");
        reveal_strlit("2");
        reveal_strlit("3");
        reveal_strlit("4");
        reveal_strlit("5");
        reveal_strlit("6");
        reveal_strlit("7");
        reveal_strlit("8");
        reveal_strlit("9");
    }
    if d == 0 {
        "0"
    } else if d == 1 {
        "1"
    } else if d == 2 {
        "2"
    } else if d == 3 {
        "3"
    } else if d == 4 {
        "4"
    } else if d == 5 {
        "5"
    } else if d == 6 {
        "6"
    } else if d == 7 {
        "7"
    } else if d == 8 {
        "8"
    } else {
        "9"
    }
}

/// Renders a 32-bit unsigned integer in decimal: a non-empty all-digit
/// string that parses back to the value.
pub fn u32_to_string(v: u32) -> (r: String)
    ensures
        r@ == dec_digits(v as nat),
        r@.len() > 0,
        all_digits(r@),
        str_to_int(r@) == v as int,
    decreases v,
{
    proof {
        lemma_dec_digits_round_trip(v as nat);
    }
    if v < 10 {
        String::from_str(digit_str(v))
    } else {
        let mut s = u32_to_string(v / 10);
        s.append(digit_str(v % 10));
        s
    }
}

/// A non-empty all-digit sequence has nothing to trim.
pub proof fn lemma_trim_all_digits(s: Seq<char>)
    requires
        s.len() > 0,
        all_digits(s),
    ensures
        trimmed(s) == s,
{
    assert(is_digit_char(s[0]) && !is_space_char(s[0]));
    assert(is_digit_char(s.last()) && !is_space_char(s.last()));
    assert(trim_front(s) == s);
    assert(trim_back(s) == s);
}

/// The decimal representation of a value parses back to that value.
pub proof fn lemma_dec_digits_round_trip(v: nat)
    ensures
        dec_digits(v).len() > 0,
        all_digits(dec_digits(v)),
        str_to_int(dec_digits(v)) == v,
    decreases v,
{
    if v < 10 {
        let s = dec_digits(v);
        assert(s.len() == 1);
        assert(s.drop_last() =~= Seq::<char>::empty());
        assert(str_to_int(Seq::<char>::empty()) == 0);
        assert(str_to_int(s) == digit_val(s[0]));
    } else {
        lemma_dec_digits_round_trip(v / 10);
        let s = dec_digits(v);
        let p = dec_digits(v / 10);
        assert(s =~= p + seq![digit_char((v % 10) as int)]);
        assert(s.drop_last() =~= p);
        assert(str_to_int(s) == str_to_int(p) * 10 + digit_val(s.last()));
        assert(digit_val(digit_char((v % 10) as int)) == v % 10);
        assert((v / 10) * 10 + v % 10 == v) by (nonlinear_arith);
        assert(forall|k: int| 0 <= k < s.len() ==> is_digit_char(s[k]));
    }
}

} // verus!
