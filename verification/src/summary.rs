//! Head counts by kind, as the status panel lists them: the kinds in their
//! order, each with how many there are, leaving out the kinds that are absent.
use crate::people::Occupation;
use crate::ships::ShipType;
use vstd::prelude::*;

verus! {

/// How many of the first `n` items are of kind `kind`.
pub open spec fn count_kind(items: Seq<usize>, kind: usize, n: nat) -> nat
    decreases n,
{
    if n == 0 {
        0
    } else {
        count_kind(items, kind, (n - 1) as nat) + if items[n - 1] == kind {
            1nat
        } else {
            0nat
        }
    }
}

/// The kinds below `k` that occur among `items`, in order, each with its count.
pub open spec fn summary(items: Seq<usize>, k: nat) -> Seq<(usize, usize)>
    decreases k,
{
    if k == 0 {
        Seq::empty()
    } else {
        let kind = (k - 1) as usize;
        let count = count_kind(items, kind, items.len());
        if count > 0 {
            summary(items, (k - 1) as nat).push((kind, count as usize))
        } else {
            summary(items, (k - 1) as nat)
        }
    }
}

proof fn lemma_count_bound(items: Seq<usize>, kind: usize, n: nat)
    ensures
        count_kind(items, kind, n) <= n,
    decreases n,
{
    if n > 0 {
        lemma_count_bound(items, kind, (n - 1) as nat);
    }
}

/// Counts `items`, each a kind below `kinds`: returns the kinds that occur,
/// in order, each with how many items are of it, and how many items there are.
pub fn summarize(kinds: usize, items: &Vec<usize>) -> (result: (Vec<(usize, usize)>, usize))
    requires
        forall|i: int| 0 <= i < items.len() ==> #[trigger] items[i] < kinds,
    ensures
        result.0@ == summary(items@, kinds as nat),
        result.1 == items.len(),
{
    let mut counts: Vec<usize> = Vec::new();
    while counts.len() < kinds
        invariant
            counts.len() <= kinds,
            forall|k: int| 0 <= k < counts.len() ==> #[trigger] counts[k] == 0,
        decreases kinds - counts.len(),
    {
        counts.push(0);
    }
    let mut i: usize = 0;
    while i < items.len()
        invariant
            counts.len() == kinds,
            i <= items.len(),
            forall|j: int| 0 <= j < items.len() ==> #[trigger] items[j] < kinds,
            forall|k: int| 0 <= k < kinds ==> #[trigger] counts[k] == count_kind(items@, k as usize, i as nat),
        decreases items.len() - i,
    {
        let kind = items[i];
        proof {
            lemma_count_bound(items@, kind, i as nat);
        }
        let c = counts[kind];
        counts.set(kind, c + 1);
        i = i + 1;
    }
    let mut result: Vec<(usize, usize)> = Vec::new();
    let mut k: usize = 0;
    while k < kinds
        invariant
            counts.len() == kinds,
            i == items.len(),
            k <= kinds,
            forall|m: int| 0 <= m < kinds ==> #[trigger] counts[m] == count_kind(items@, m as usize, items.len() as nat),
            result@ == summary(items@, k as nat),
        decreases kinds - k,
    {
        if counts[k] > 0 {
            result.push((k, counts[k]));
        }
        k = k + 1;
    }
    (result, items.len())
}

/// The place of a kind of ship in the order Fighter, Tanker, Carrier, Miner.
pub open spec fn ship_ordinal(tag: ShipType) -> usize {
    match tag {
        ShipType::Fighter => 0usize,
        ShipType::Tanker => 1,
        ShipType::Carrier => 2,
        ShipType::Miner => 3,
    }
}

impl ShipType {
    /// The place of the kind of ship in the order Fighter, Tanker, Carrier, Miner.
    pub fn ordinal(&self) -> (ordinal: usize)
        ensures
            ordinal == ship_ordinal(*self),
    {
        match *self {
            ShipType::Fighter => 0,
            ShipType::Tanker => 1,
            ShipType::Carrier => 2,
            ShipType::Miner => 3,
        }
    }
}

impl Occupation {
    /// The place of the occupation in the order Worker, Pilot, Engineer,
    /// Marine, Government.
    pub fn ordinal(&self) -> (ordinal: usize)
        ensures
            ordinal == match *self {
                Occupation::Worker => 0usize,
                Occupation::Pilot => 1,
                Occupation::Engineer => 2,
                Occupation::Marine => 3,
                Occupation::Government => 4,
            },
    {
        match *self {
            Occupation::Worker => 0,
            Occupation::Pilot => 1,
            Occupation::Engineer => 2,
            Occupation::Marine => 3,
            Occupation::Government => 4,
        }
    }
}

/// The number of kinds of ship.
pub const SHIP_TYPES: usize = 4;

/// The number of occupations.
pub const OCCUPATIONS: usize = 5;

/// The selected ships by kind, in the order of the kinds, leaving out the
/// kinds that are not selected.
pub fn selection_info(selected: &Vec<ShipType>) -> (info: Vec<(usize, usize)>)
    ensures
        info@ == summary(selected@.map_values(|tag: ShipType| ship_ordinal(tag)), SHIP_TYPES as nat),
{
    let mut ordinals: Vec<usize> = Vec::new();
    let mut i: usize = 0;
    while i < selected.len()
        invariant
            i <= selected.len(),
            ordinals.len() == i,
            forall|j: int| 0 <= j < i ==> #[trigger] ordinals[j] == ship_ordinal(selected[j]),
        decreases selected.len() - i,
    {
        ordinals.push(selected[i].ordinal());
        i = i + 1;
    }
    proof {
        assert(ordinals@ =~= selected@.map_values(|tag: ShipType| ship_ordinal(tag)));
    }
    let (info, _total) = summarize(SHIP_TYPES, &ordinals);
    info
}

/// The sum of the counts of a summary.
pub open spec fn summary_total(entries: Seq<(usize, usize)>) -> nat
    decreases entries.len(),
{
    if entries.len() == 0 {
        0
    } else {
        summary_total(entries.drop_last()) + entries.last().1 as nat
    }
}

/// The sum of the counts of the kinds below `k`, over the first `n` items.
spec fn counted_below(items: Seq<usize>, k: nat, n: nat) -> nat
    decreases k,
{
    if k == 0 {
        0
    } else {
        counted_below(items, (k - 1) as nat, n) + count_kind(items, (k - 1) as usize, n)
    }
}

proof fn lemma_counted_step(items: Seq<usize>, k: nat, n: nat)
    requires
        0 < n <= items.len(),
        k <= usize::MAX + 1,
    ensures
        counted_below(items, k, n) == counted_below(items, k, (n - 1) as nat) + if (items[n - 1] as nat)
            < k {
            1nat
        } else {
            0nat
        },
    decreases k,
{
    if k > 0 {
        lemma_counted_step(items, (k - 1) as nat, n);
    }
}

proof fn lemma_counted_all(items: Seq<usize>, kinds: nat, n: nat)
    requires
        n <= items.len(),
        kinds <= usize::MAX + 1,
        forall|i: int| 0 <= i < items.len() ==> (#[trigger] items[i] as nat) < kinds,
    ensures
        counted_below(items, kinds, n) == n,
    decreases n,
{
    if n == 0 {
        lemma_counted_zero(items, kinds);
    } else {
        lemma_counted_step(items, kinds, n);
        lemma_counted_all(items, kinds, (n - 1) as nat);
    }
}

proof fn lemma_counted_zero(items: Seq<usize>, k: nat)
    ensures
        counted_below(items, k, 0) == 0,
    decreases k,
{
    if k > 0 {
        lemma_counted_zero(items, (k - 1) as nat);
    }
}

proof fn lemma_summary_total(items: Seq<usize>, k: nat)
    requires
        k <= usize::MAX + 1,
        items.len() <= usize::MAX,
    ensures
        summary_total(summary(items, k)) == counted_below(items, k, items.len()),
    decreases k,
{
    if k > 0 {
        lemma_summary_total(items, (k - 1) as nat);
        let kind = (k - 1) as usize;
        let count = count_kind(items, kind, items.len());
        lemma_count_bound(items, kind, items.len());
        if count > 0 {
            let s = summary(items, (k - 1) as nat).push((kind, count as usize));
            assert(summary(items, k) == s);
            assert(s.drop_last() == summary(items, (k - 1) as nat));
            assert(summary_total(s) == summary_total(s.drop_last()) + s.last().1 as nat);
        }
    }
}

/// Nobody is left out and nobody is counted twice: the counts of a summary
/// add up to the number of items.
pub proof fn law_summary_adds_up(items: Seq<usize>, kinds: usize)
    requires
        items.len() <= usize::MAX,
        forall|i: int| 0 <= i < items.len() ==> #[trigger] items[i] < kinds,
    ensures
        summary_total(summary(items, kinds as nat)) == items.len(),
{
    lemma_summary_total(items, kinds as nat);
    lemma_counted_all(items, kinds as nat, items.len());
}

/// Each kind is listed at most once, in increasing order, and only with a
/// count above zero.
pub proof fn law_summary_sorted(items: Seq<usize>, k: nat)
    requires
        k <= usize::MAX + 1,
        items.len() <= usize::MAX,
    ensures
        forall|a: int, b: int|
            0 <= a < b < summary(items, k).len() ==> summary(items, k)[a].0 < summary(items, k)[b].0,
        forall|a: int|
            0 <= a < summary(items, k).len() ==> (summary(items, k)[a].0 as nat) < k
                && summary(items, k)[a].1 > 0,
    decreases k,
{
    if k > 0 {
        law_summary_sorted(items, (k - 1) as nat);
        let kind = (k - 1) as usize;
        let count = count_kind(items, kind, items.len());
        lemma_count_bound(items, kind, items.len());
        let prev = summary(items, (k - 1) as nat);
        if count > 0 {
            assert(summary(items, k) == prev.push((kind, count as usize)));
        } else {
            assert(summary(items, k) == prev);
        }
    }
}

} // verus!
