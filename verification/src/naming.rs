//! Names of chunk files.
//!
//! A recording is stored as a run of files. The file that holds chunk `k` of
//! a recording with base name `base` is called `base_k.webm`, where `k` is
//! written in decimal without leading zeros.

use vstd::prelude::*;
use vstd::string::*;

verus! {

/// The character that stands for the decimal digit `d`.
pub open spec fn spec_digit(d: nat) -> char
    recommends
        d < 10,
{
    if d == 0 {
        '0'
    } else if d == 1 {
        '1'
    } else if d == 2 {
        '2'
    } else if d == 3 {
        '3'
    } else if d == 4 {
        '4'
    } else if d == 5 {
        '5'
    } else if d == 6 {
        '6'
    } else if d == 7 {
        '7'
    } else if d == 8 {
        '8'
    } else {
        '9'
    }
}

/// The decimal numeral of `n`, most significant digit first, without
/// leading zeros (`0` is written as the single digit `0`).
pub open spec fn spec_decimal(n: nat) -> Seq<char>
    decreases n,
{
    if n < 10 {
        seq![spec_digit(n)]
    } else {
        spec_decimal(n / 10).push(spec_digit(n % 10))
    }
}

/// What follows the sequence number in a chunk's file name.
pub open spec fn spec_extension() -> Seq<char> {
    seq!['.', 'w', 'e', 'b', 'm']
}

/// The file name of chunk `sequence` of the recording called `base`.
pub open spec fn spec_chunk_name(base: Seq<char>, sequence: nat) -> Seq<char> {
    base.push('_') + spec_decimal(sequence) + spec_extension()
}

/// The one-character string for a decimal digit.
fn digit_str(d: u32) -> (s: &'static str)
    requires
        d < 10,
    ensures
        s@ == seq![spec_digit(d as nat)],
{
    proof {
        reveal_strlit("0");
        reveal_strlit("1");
        reveal_strlit("2");
        reveal_strlit("3");
        reveal_strlit("4");
        reveal_strlit("5");
        reveal_strlit("6");
        reveal_strlit("7");
        reveal_strlit("8");
        reveal_strlit("9");
    }
    let s: &'static str = if d == 0 {
        "0"
    } else if d == 1 {
        "1"
    } else if d == 2 {
        "2"
    } else if d == 3 {
        "3"
    } else if d == 4 {
        "4"
    } else if d == 5 {
        "5"
    } else if d == 6 {
        "6"
    } else if d == 7 {
        "7"
    } else if d == 8 {
        "8"
    } else {
        "9"
    };
    assert(s@ =~= seq![spec_digit(d as nat)]);
    s
}

/// Writes `n` in decimal.
pub fn decimal_string(n: u32) -> (s: String)
    ensures
        s@ == spec_decimal(n as nat),
    decreases n,
{
    if n < 10 {
        String::from_str(digit_str(n))
    } else {
        let mut s = decimal_string(n / 10);
        s.append(digit_str(n % 10));
        assert(s@ =~= spec_decimal(n as nat));
        s
    }
}

/// Builds the file name of chunk `sequence` of the recording called `base`.
pub fn chunk_file_name(base: &str, sequence: u32) -> (name: String)
    ensures
        name@ == spec_chunk_name(base@, sequence as nat),
{
    proof {
        reveal_strlit("_");
        reveal_strlit(".webm");
    }
    let mut name = String::from_str(base);
    name.append("_");
    let digits = decimal_string(sequence);
    name.append(digits.as_str());
    name.append(".webm");
    assert(name@ =~= spec_chunk_name(base@, sequence as nat));
    name
}

/// A numeral has at least one digit, and a number of two digits or more has
/// at least two.
pub proof fn lemma_decimal_len(n: nat)
    ensures
        spec_decimal(n).len() >= 1,
        n >= 10 ==> spec_decimal(n).len() >= 2,
    decreases n,
{
    if n >= 10 {
        lemma_decimal_len(n / 10);
    }
}

/// Different numbers have different numerals.
pub proof fn lemma_decimal_injective(a: nat, b: nat)
    requires
        spec_decimal(a) == spec_decimal(b),
    ensures
        a == b,
    decreases a,
{
    lemma_decimal_len(a);
    lemma_decimal_len(b);
    if a < 10 && b < 10 {
        assert(spec_decimal(a)[0] == spec_digit(a));
        assert(spec_decimal(b)[0] == spec_digit(b));
    } else if a >= 10 && b >= 10 {
        let da = spec_decimal(a / 10);
        let db = spec_decimal(b / 10);
        assert(spec_decimal(a).drop_last() =~= da);
        assert(spec_decimal(b).drop_last() =~= db);
        assert(spec_decimal(a).last() == spec_digit(a % 10));
        assert(spec_decimal(b).last() == spec_digit(b % 10));
        lemma_decimal_injective(a / 10, b / 10);
    }
}

/// Two chunks of one recording never share a file name.
pub proof fn lemma_chunk_names_distinct(base: Seq<char>, i: nat, j: nat)
    requires
        i != j,
    ensures
        spec_chunk_name(base, i) != spec_chunk_name(base, j),
{
    let head = base.push('_');
    let di = spec_decimal(i);
    let dj = spec_decimal(j);
    let ni = spec_chunk_name(base, i);
    let nj = spec_chunk_name(base, j);
    if ni == nj {
        assert(ni.len() == head.len() + di.len() + spec_extension().len());
        assert(nj.len() == head.len() + dj.len() + spec_extension().len());
        assert(ni.subrange(head.len() as int, (head.len() + di.len()) as int) =~= di);
        assert(nj.subrange(head.len() as int, (head.len() + dj.len()) as int) =~= dj);
        lemma_decimal_injective(i, j);
    }
}

} // verus!
