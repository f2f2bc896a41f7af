//! Names of the workers and of the metrics they export. A CPU is written as
//! its decimal number padded with zeroes to at least two digits.

use vstd::prelude::*;
use vstd::string::StringExecFns;

verus! {

/// The character of a decimal digit.
pub open spec fn digit_char(d: nat) -> char
    recommends
        d < 10,
{
    seq!['0', '1', '2', '3', '4', '5', '6', '7', '8', '9'][d as int]
}

/// The decimal digits of `n`, most significant first, without leading zeroes.
pub open spec fn decimal(n: nat) -> Seq<char>
    decreases n,
{
    if n < 10 {
        seq![digit_char(n)]
    } else {
        decimal(n / 10).push(digit_char(n % 10))
    }
}

/// `n` in decimal, padded with one zero when it has a single digit.
pub open spec fn two_digits(n: nat) -> Seq<char> {
    if n < 10 {
        seq!['0'] + decimal(n)
    } else {
        decimal(n)
    }
}

/// The name of the worker bound to `cpu`, such as `jmCPU03`.
pub open spec fn worker_name_of(cpu: nat) -> Seq<char> {
    seq!['j', 'm', 'C', 'P', 'U'] + two_digits(cpu)
}

/// The gauge of the running maximum jitter of `cpu`, such as `CPU03::jitter::abs_max`.
pub open spec fn gauge_name_of(cpu: nat) -> Seq<char> {
    seq!['C', 'P', 'U'] + two_digits(cpu) + seq![':', ':', 'j', 'i', 't', 't', 'e', 'r', ':', ':', 'a', 'b', 's', '_', 'm', 'a', 'x']
}

/// The histogram of the jitter values of `cpu`, such as `CPU03::jitter`.
pub open spec fn histogram_name_of(cpu: nat) -> Seq<char> {
    seq!['C', 'P', 'U'] + two_digits(cpu) + seq![':', ':', 'j', 'i', 't', 't', 'e', 'r']
}

fn digit_str(d: usize) -> (r: &'static str)
    requires
        d < 10,
    ensures
        r@ == seq![digit_char(d as nat)],
{
    if d == 0 {
        proof { reveal_strlit("0"); }
        "0"
    } else if d == 1 {
        proof { reveal_strlit("1"); }
        "1"
    } else if d == 2 {
        proof { reveal_strlit("2"); }
        "2"
    } else if d == 3 {
        proof { reveal_strlit("3"); }
        "3"
    } else if d == 4 {
        proof { reveal_strlit("4"); }
        "4"
    } else if d == 5 {
        proof { reveal_strlit("5"); }
        "5"
    } else if d == 6 {
        proof { reveal_strlit("6"); }
        "6"
    } else if d == 7 {
        proof { reveal_strlit("7"); }
        "7"
    } else if d == 8 {
        proof { reveal_strlit("8"); }
        "8"
    } else {
        proof { reveal_strlit("9"); }
        "9"
    }
}

/// Appends the decimal digits of `n` to `s`.
fn append_decimal(s: &mut String, n: usize)
    ensures
        final(s)@ == old(s)@ + decimal(n as nat),
    decreases n,
{
    if n >= 10 {
        append_decimal(s, n / 10);
    }
    s.append(digit_str(n % 10));
    assert(final(s)@ =~= old(s)@ + decimal(n as nat));
}

/// Appends `n` to `s` padded to at least two digits.
fn append_two_digits(s: &mut String, n: usize)
    ensures
        final(s)@ == old(s)@ + two_digits(n as nat),
{
    if n < 10 {
        s.append(digit_str(0));
    }
    append_decimal(s, n);
    assert(final(s)@ =~= old(s)@ + two_digits(n as nat));
}

/// The name of the worker bound to `cpu`.
pub fn worker_name(cpu: usize) -> (r: String)
    ensures
        r@ == worker_name_of(cpu as nat),
{
    let mut s = String::from_str("jmCPU");
    proof { reveal_strlit("jmCPU"); }
    append_two_digits(&mut s, cpu);
    assert(s@ =~= worker_name_of(cpu as nat));
    s
}

/// The name of the gauge that holds the running maximum jitter of `cpu`.
pub fn gauge_name(cpu: usize) -> (r: String)
    ensures
        r@ == gauge_name_of(cpu as nat),
{
    let mut s = String::from_str("CPU");
    proof { reveal_strlit("CPU"); }
    append_two_digits(&mut s, cpu);
    s.append("::jitter::abs_max");
    proof { reveal_strlit("::jitter::abs_max"); }
    assert(s@ =~= gauge_name_of(cpu as nat));
    s
}

/// The name of the histogram that receives the jitter values of `cpu`.
pub fn histogram_name(cpu: usize) -> (r: String)
    ensures
        r@ == histogram_name_of(cpu as nat),
{
    let mut s = String::from_str("CPU");
    proof { reveal_strlit("CPU"); }
    append_two_digits(&mut s, cpu);
    s.append("::jitter");
    proof { reveal_strlit("::jitter"); }
    assert(s@ =~= histogram_name_of(cpu as nat));
    s
}

} // verus!
