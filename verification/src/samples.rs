//! Measurement samples: `(time_ns, bytes)` pairs recorded per chunk, and the
//! byte totals over them.

use vstd::prelude::*;

use std::collections::VecDeque;

verus! {

/// The bytes that a run of samples carries, summed.
pub open spec fn sample_bytes(s: Seq<(u64, u64)>) -> nat
    decreases s.len(),
{
    if s.len() == 0 {
        0
    } else {
        sample_bytes(s.drop_last()) + s.last().1 as nat
    }
}

/// The bytes of two runs together are the bytes of each added up, and a
/// single sample carries its own bytes.
pub proof fn lemma_sample_bytes_additive(a: Seq<(u64, u64)>, b: Seq<(u64, u64)>, x: (u64, u64))
    ensures
        sample_bytes(a + b) == sample_bytes(a) + sample_bytes(b),
        sample_bytes(seq![x]) == x.1,
        sample_bytes(Seq::<(u64, u64)>::empty()) == 0,
    decreases b.len(),
{
    assert(seq![x].drop_last() =~= Seq::<(u64, u64)>::empty());
    assert(sample_bytes(Seq::<(u64, u64)>::empty()) == 0);
    assert(seq![x].last() == x);
    assert(sample_bytes(seq![x]) == x.1);
    if b.len() == 0 {
        assert(a + b =~= a);
    } else {
        lemma_sample_bytes_additive(a, b.drop_last(), x);
        assert((a + b).drop_last() =~= a + b.drop_last());
    }
}

/// A prefix of a run of samples carries no more bytes than the whole run.
pub proof fn lemma_sample_bytes_prefix(s: Seq<(u64, u64)>, i: int)
    requires
        0 <= i <= s.len(),
    ensures
        sample_bytes(s.take(i)) <= sample_bytes(s),
    decreases s.len() - i,
{
    if i < s.len() {
        lemma_sample_bytes_prefix(s, i + 1);
        assert(s.take(i + 1).drop_last() =~= s.take(i));
    } else {
        assert(s.take(i) =~= s);
    }
}

/// A copy of a run of samples.
pub fn copy_samples(v: &Vec<(u64, u64)>) -> (r: Vec<(u64, u64)>)
    ensures
        r@ == v@,
{
    let mut r: Vec<(u64, u64)> = Vec::new();
    let n = v.len();
    for i in 0..n
        invariant
            n == v.len(),
            r@ == v@.take(i as int),
    {
        r.push(v[i]);
        assert(r@ =~= v@.take(i + 1));
    }
    assert(v@.take(n as int) =~= v@);
    r
}

/// The samples of a queue, in order, as a list.
pub fn copy_queue(v: &VecDeque<(u64, u64)>) -> (r: Vec<(u64, u64)>)
    ensures
        r@ == v@,
{
    let mut r: Vec<(u64, u64)> = Vec::new();
    let n = v.len();
    for i in 0..n
        invariant
            n == v@.len(),
            r@ == v@.take(i as int),
    {
        r.push(v[i]);
        assert(r@ =~= v@.take(i + 1));
    }
    assert(v@.take(n as int) =~= v@);
    r
}

/// A copy of a list of runs of samples, one run per thread.
pub fn copy_sample_lists(v: &Vec<Vec<(u64, u64)>>) -> (r: Vec<Vec<(u64, u64)>>)
    ensures
        r.len() == v.len(),
        forall|i: int| 0 <= i < v.len() ==> #[trigger] r[i]@ == v[i]@,
{
    let mut r: Vec<Vec<(u64, u64)>> = Vec::new();
    let n = v.len();
    for i in 0..n
        invariant
            n == v.len(),
            r.len() == i,
            forall|j: int| 0 <= j < i ==> #[trigger] r[j]@ == v[j]@,
    {
        let c = copy_samples(&v[i]);
        r.push(c);
    }
    r
}

/// The bytes that a run of samples carries; the run's total must fit in a
/// `u64`.
pub fn total_bytes(v: &Vec<(u64, u64)>) -> (t: u64)
    requires
        sample_bytes(v@) <= u64::MAX,
    ensures
        t == sample_bytes(v@),
{
    let mut t: u64 = 0;
    let n = v.len();
    for i in 0..n
        invariant
            n == v.len(),
            sample_bytes(v@) <= u64::MAX,
            t == sample_bytes(v@.take(i as int)),
    {
        proof {
            assert(v@.take(i + 1).drop_last() =~= v@.take(i as int));
            lemma_sample_bytes_prefix(v@, i + 1);
        }
        t = t + v[i].1;
    }
    assert(v@.take(n as int) =~= v@);
    t
}

} // verus!
