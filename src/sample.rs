use vstd::prelude::*;

verus! {

/// What one sample measures.
#[derive(Clone, Copy, Debug, PartialEq, Eq, Structural)]
pub enum SampleKind {
    Latency,
    Download,
    Upload,
}

/// One raw measurement taken by the measurement service.
///
/// `magnitude` counts millionths of the unit the service reports: of a
/// millisecond for latency, of a megabit per second (that is, bits per second)
/// for throughput.
#[derive(Clone, Copy, Debug, PartialEq, Eq, Structural)]
pub struct Sample {
    pub kind: SampleKind,
    pub magnitude: u64,
}

/// How many magnitude units make one unit of the measurement service.
pub const MICROS_PER_UNIT: u64 = 1_000_000;

/// How many samples of `s` are of the given kind.
pub open spec fn kind_count(s: Seq<Sample>, kind: SampleKind) -> nat
    decreases s.len(),
{
    if s.len() == 0 {
        0
    } else {
        kind_count(s.drop_last(), kind) + if s.last().kind == kind {
            1nat
        } else {
            0nat
        }
    }
}

/// The sum of the magnitudes of the samples of `s` of the given kind.
pub open spec fn kind_sum(s: Seq<Sample>, kind: SampleKind) -> nat
    decreases s.len(),
{
    if s.len() == 0 {
        0
    } else {
        kind_sum(s.drop_last(), kind) + if s.last().kind == kind {
            s.last().magnitude as nat
        } else {
            0nat
        }
    }
}

/// The arithmetic mean, rounded down, of the magnitudes of the samples of `s`
/// of the given kind; `None` when `s` holds no sample of that kind.
pub open spec fn kind_mean(s: Seq<Sample>, kind: SampleKind) -> Option<nat> {
    if kind_count(s, kind) == 0 {
        None
    } else {
        Some(kind_sum(s, kind) / kind_count(s, kind))
    }
}

proof fn lemma_sum_bounded(s: Seq<Sample>, kind: SampleKind)
    ensures
        kind_sum(s, kind) <= kind_count(s, kind) * (u64::MAX as nat),
        kind_count(s, kind) <= s.len(),
    decreases s.len(),
{
    if s.len() > 0 {
        lemma_sum_bounded(s.drop_last(), kind);
    }
}

proof fn lemma_remove_one(s: Seq<Sample>, i: int, kind: SampleKind)
    requires
        0 <= i < s.len(),
    ensures
        kind_count(s, kind) == kind_count(s.remove(i), kind) + if s[i].kind == kind {
            1nat
        } else {
            0nat
        },
        kind_sum(s, kind) == kind_sum(s.remove(i), kind) + if s[i].kind == kind {
            s[i].magnitude as nat
        } else {
            0nat
        },
    decreases s.len(),
{
    if i == s.len() - 1 {
        assert(s.remove(i) == s.drop_last());
    } else {
        lemma_remove_one(s.drop_last(), i, kind);
        assert(s.remove(i).drop_last() == s.drop_last().remove(i));
        assert(s.remove(i).last() == s.last());
    }
}

pub(crate) proof fn lemma_mean_fits(s: Seq<Sample>, kind: SampleKind)
    ensures
        kind_mean(s, kind) matches Some(m) ==> m <= u64::MAX,
{
    lemma_sum_bounded(s, kind);
    let count = kind_count(s, kind);
    let sum = kind_sum(s, kind);
    if count > 0 {
        assert(sum / count <= u64::MAX) by (nonlinear_arith)
            requires
                sum <= count * (u64::MAX as nat),
                count > 0,
        ;
    }
}

/// The averages do not depend on the order of the samples: two sequences that
/// hold the same samples, each as often, have the same count, sum and mean for
/// every kind.
pub proof fn lemma_mean_ignores_order(a: Seq<Sample>, b: Seq<Sample>, kind: SampleKind)
    requires
        a.to_multiset() == b.to_multiset(),
    ensures
        kind_count(a, kind) == kind_count(b, kind),
        kind_sum(a, kind) == kind_sum(b, kind),
        kind_mean(a, kind) == kind_mean(b, kind),
    decreases a.len(),
{
    broadcast use vstd::seq_lib::group_to_multiset_ensures, vstd::multiset::group_multiset_axioms;

    if a.len() == 0 {
        vstd::seq_lib::to_multiset_len(a);
        vstd::seq_lib::to_multiset_len(b);
        assert(b == a);
    } else {
        let x = a.last();
        let rest = a.drop_last();
        assert(a == rest.push(x));
        assert(b.to_multiset().count(x) > 0);
        assert(b.contains(x));
        let i = choose|i: int| 0 <= i < b.len() && b[i] == x;
        assert(b.remove(i).to_multiset() =~= rest.to_multiset());
        lemma_mean_ignores_order(rest, b.remove(i), kind);
        lemma_remove_one(b, i, kind);
    }
}

/// The mean magnitude of the samples of one kind, rounded down; `None` when
/// there is no sample of that kind, so that an empty set never yields a value.
pub fn mean_magnitude(samples: &Vec<Sample>, kind: SampleKind) -> (r: Option<u64>)
    ensures
        r is None <==> kind_count(samples@, kind) == 0,
        r matches Some(m) ==> kind_mean(samples@, kind) == Some(m as nat),
{
    let mut count: u64 = 0;
    let mut sum: u128 = 0;
    let mut i: usize = 0;
    while i < samples.len()
        invariant
            i <= samples@.len(),
            count as nat == kind_count(samples@.take(i as int), kind),
            sum as nat == kind_sum(samples@.take(i as int), kind),
            count <= i,
            sum <= count as nat * (u64::MAX as nat),
        decreases samples@.len() - i,
    {
        let s = samples[i];
        assert(samples@.take(i + 1).drop_last() == samples@.take(i as int));
        if s.kind == kind {
            assert(sum + s.magnitude <= (count as nat + 1) * (u64::MAX as nat)) by (nonlinear_arith)
                requires
                    sum <= count as nat * (u64::MAX as nat),
                    s.magnitude <= u64::MAX,
            ;
            assert((count as nat + 1) * (u64::MAX as nat) <= u128::MAX) by (nonlinear_arith)
                requires
                    count < u64::MAX,
            ;
            count = count + 1;
            sum = sum + s.magnitude as u128;
        }
        i = i + 1;
    }
    assert(samples@.take(samples@.len() as int) == samples@);
    if count == 0 {
        None
    } else {
        let mean = sum / (count as u128);
        assert(mean <= u64::MAX) by (nonlinear_arith)
            requires
                mean == sum / (count as u128),
                sum <= count as nat * (u64::MAX as nat),
                count > 0,
        ;
        Some(mean as u64)
    }
}

} // verus!
