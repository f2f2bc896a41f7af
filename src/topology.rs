//! Discovery of the logical CPUs of the host from the text of its processor
//! table, where each CPU has one line that starts with `processor`.

use vstd::prelude::*;

verus! {

/// The line feed byte.
pub const NEWLINE: u8 = 10;

/// The tag that opens the line of each logical CPU: `processor` in ASCII.
pub open spec fn processor_tag() -> Seq<u8> {
    seq![112u8, 114, 111, 99, 101, 115, 115, 111, 114]
}

/// A line of `data` starts at index `i`.
pub open spec fn line_starts_at(data: Seq<u8>, i: int) -> bool {
    i == 0 || data[i - 1] == NEWLINE
}

/// `prefix` stands in `data` from index `i` on.
pub open spec fn has_prefix_at(data: Seq<u8>, prefix: Seq<u8>, i: int) -> bool {
    &&& 0 <= i
    &&& i + prefix.len() <= data.len()
    &&& data.subrange(i, i + prefix.len()) == prefix
}

/// How many lines that start before index `n` of `data` open with `prefix`.
pub open spec fn lines_with_prefix(data: Seq<u8>, prefix: Seq<u8>, n: int) -> nat
    decreases n,
{
    if n <= 0 {
        0
    } else {
        lines_with_prefix(data, prefix, n - 1) + if line_starts_at(data, n - 1) && has_prefix_at(data, prefix, n - 1) {
            1nat
        } else {
            0nat
        }
    }
}

/// The number of logical CPUs that the processor table `data` lists.
pub open spec fn processor_count(data: Seq<u8>) -> nat {
    lines_with_prefix(data, processor_tag(), data.len() as int)
}

/// The identifiers of `n` logical CPUs: 0 to n - 1, ascending.
pub open spec fn cpu_range(n: nat) -> Seq<usize> {
    Seq::new(n, |i: int| i as usize)
}

proof fn lemma_lines_with_prefix_bounded(data: Seq<u8>, prefix: Seq<u8>, n: int)
    ensures
        lines_with_prefix(data, prefix, n) <= if n < 0 { 0 } else { n },
    decreases n,
{
    if n > 0 {
        lemma_lines_with_prefix_bounded(data, prefix, n - 1);
    }
}

fn has_prefix(data: &[u8], prefix: &[u8], i: usize) -> (r: bool)
    ensures
        r == has_prefix_at(data@, prefix@, i as int),
{
    if prefix.len() > data.len() || i > data.len() - prefix.len() {
        return false;
    }
    let mut j: usize = 0;
    while j < prefix.len()
        invariant
            j <= prefix.len(),
            i + prefix.len() <= data.len(),
            forall|k: int| 0 <= k < j ==> data@[i + k] == prefix@[k],
        decreases prefix.len() - j,
    {
        if data[i + j] != prefix[j] {
            assert(data@.subrange(i as int, i + prefix.len())[j as int] != prefix@[j as int]);
            return false;
        }
        j = j + 1;
    }
    assert(data@.subrange(i as int, i + prefix.len()) =~= prefix@);
    true
}

/// The number of logical CPUs that the processor table `cpuinfo` lists: the
/// lines that start with `processor`.
pub fn count_processors(cpuinfo: &[u8]) -> (r: usize)
    ensures
        r == processor_count(cpuinfo@),
{
    let tag: [u8; 9] = [112u8, 114, 111, 99, 101, 115, 115, 111, 114];
    let tag_slice: &[u8] = vstd::array::array_as_slice(&tag);
    assert(tag_slice@ =~= processor_tag());
    let mut count: usize = 0;
    let mut i: usize = 0;
    while i < cpuinfo.len()
        invariant
            i <= cpuinfo.len(),
            tag_slice@ == processor_tag(),
            count == lines_with_prefix(cpuinfo@, processor_tag(), i as int),
        decreases cpuinfo.len() - i,
    {
        let starts = i == 0 || cpuinfo[i - 1] == NEWLINE;
        if starts && has_prefix(cpuinfo, tag_slice, i) {
            proof { lemma_lines_with_prefix_bounded(cpuinfo@, processor_tag(), i as int); }
            count = count + 1;
        }
        i = i + 1;
    }
    count
}

/// The identifiers of the `n` logical CPUs of a host, ascending from 0.
pub fn cpu_ids(n: usize) -> (r: Vec<usize>)
    ensures
        r@ == cpu_range(n as nat),
{
    let mut ids: Vec<usize> = Vec::new();
    let mut i: usize = 0;
    while i < n
        invariant
            i <= n,
            ids@ == cpu_range(i as nat),
        decreases n - i,
    {
        ids.push(i);
        i = i + 1;
        assert(ids@ =~= cpu_range(i as nat));
    }
    ids
}

/// The identifiers of the logical CPUs that the processor table `cpuinfo`
/// lists, ascending from 0; none when it lists no CPU, as no host has none.
pub fn enumerate_cpus(cpuinfo: &[u8]) -> (r: Option<Vec<usize>>)
    ensures
        (r is None) == (processor_count(cpuinfo@) == 0),
        r matches Some(ids) ==> ids@ == cpu_range(processor_count(cpuinfo@)),
{
    let n = count_processors(cpuinfo);
    if n == 0 {
        None
    } else {
        Some(cpu_ids(n))
    }
}

} // verus!
