//! Flattening of per-sample genotype fields into one key/value listing.
//!
//! Every sample column of a data line carries the same keys, so a plain
//! concatenation of the samples repeats each key once per sample. The
//! flattened listing keeps, for every key, the entry of the first sample
//! that carries it and drops all later ones.

use itertools::Itertools;
use vstd::prelude::*;

verus! {

/// A key/value entry as it appears in contracts: both sides as character
/// sequences.
pub type Entry = (Seq<char>, Seq<char>);

/// The entries of an executable pair list, as character sequences.
pub open spec fn entries(pairs: Seq<(String, String)>) -> Seq<Entry> {
    pairs.map_values(|p: (String, String)| (p.0@, p.1@))
}

/// Whether some entry of `s` carries `key`.
pub open spec fn has_key(s: Seq<Entry>, key: Seq<char>) -> bool {
    exists|i: int| 0 <= i < s.len() && (#[trigger] s[i]).0 == key
}

/// The entries of `s` whose key occurs at no earlier position, in order.
pub open spec fn first_wins(s: Seq<Entry>) -> Seq<Entry>
    decreases s.len(),
{
    if s.len() == 0 {
        Seq::empty()
    } else if has_key(s.drop_last(), s.last().0) {
        first_wins(s.drop_last())
    } else {
        first_wins(s.drop_last()).push(s.last())
    }
}

/// The concatenation of all samples, first sample first.
pub open spec fn concat_samples(samples: Seq<Seq<Entry>>) -> Seq<Entry>
    decreases samples.len(),
{
    if samples.len() == 0 {
        Seq::empty()
    } else {
        concat_samples(samples.drop_last()) + samples.last()
    }
}

/// The entries of a list of executable samples.
pub open spec fn sample_entries(samples: Seq<Vec<(String, String)>>) -> Seq<Seq<Entry>> {
    samples.map_values(|v: Vec<(String, String)>| entries(v@))
}

/// Calls `Itertools::unique_by` of itertools, keyed by the first component.
///
/// Trusted: the adaptor is documented as stable and as keeping, of items
/// with equal keys, the first one met. The contract states exactly that.
#[verifier::external_body]
fn unique_by_key(pairs: Vec<(String, String)>) -> (kept: Vec<(String, String)>)
    ensures
        entries(kept@) == first_wins(entries(pairs@)),
{
    pairs.into_iter().unique_by(|p| p.0.clone()).collect()
}

/// Appends copies of the entries of `sample` to `all`.
fn append_sample(all: &mut Vec<(String, String)>, sample: &Vec<(String, String)>)
    ensures
        entries(final(all)@) == entries(old(all)@) + entries(sample@),
{
    let ghost before = entries(all@);
    let mut i: usize = 0;
    while i < sample.len()
        invariant
            i <= sample.len(),
            entries(all@) == before + entries(sample@).take(i as int),
        decreases sample.len() - i,
    {
        let ghost grown = entries(all@);
        let key = sample[i].0.clone();
        let value = sample[i].1.clone();
        all.push((key, value));
        proof {
            let entry = entries(sample@)[i as int];
            assert(entry == (key@, value@));
            assert(entries(all@) =~= grown.push(entry));
            assert(entries(sample@).take(i + 1) =~= entries(sample@).take(i as int).push(entry));
        }
        i += 1;
        assert(entries(all@) =~= before + entries(sample@).take(i as int));
    }
    assert(entries(sample@).take(sample.len() as int) =~= entries(sample@));
}

/// Flattens the per-sample fields of one data line into one listing that
/// holds each key once, with the value of the first sample carrying it.
pub fn flatten_genotypes(samples: &Vec<Vec<(String, String)>>) -> (flat: Vec<(String, String)>)
    ensures
        entries(flat@) == first_wins(concat_samples(sample_entries(samples@))),
{
    let ghost model = sample_entries(samples@);
    let mut all: Vec<(String, String)> = Vec::new();
    let mut i: usize = 0;
    assert(entries(all@) =~= concat_samples(model.take(0)));
    while i < samples.len()
        invariant
            i <= samples.len(),
            model == sample_entries(samples@),
            entries(all@) == concat_samples(model.take(i as int)),
        decreases samples.len() - i,
    {
        append_sample(&mut all, &samples[i]);
        proof {
            let next = model.take(i + 1);
            assert(next.drop_last() =~= model.take(i as int));
            assert(next.last() == entries(samples@[i as int]@));
        }
        i += 1;
    }
    assert(model.take(samples.len() as int) =~= model);
    unique_by_key(all)
}

/// The value of the earliest entry of `s` that carries `key`.
pub open spec fn lookup(s: Seq<Entry>, key: Seq<char>) -> Option<Seq<char>>
    decreases s.len(),
{
    if s.len() == 0 {
        None
    } else {
        match lookup(s.drop_last(), key) {
            Some(value) => Some(value),
            None => if s.last().0 == key {
                Some(s.last().1)
            } else {
                None
            },
        }
    }
}

/// A key has a value exactly when some entry carries it.
pub proof fn lemma_lookup_some(s: Seq<Entry>, key: Seq<char>)
    ensures
        lookup(s, key) is Some <==> has_key(s, key),
    decreases s.len(),
{
    if s.len() > 0 {
        let init = s.drop_last();
        lemma_lookup_some(init, key);
        if has_key(init, key) {
            let i = choose|i: int| 0 <= i < init.len() && (#[trigger] init[i]).0 == key;
            assert(s[i].0 == key);
        }
        if has_key(s, key) && !has_key(init, key) {
            let i = choose|i: int| 0 <= i < s.len() && (#[trigger] s[i]).0 == key;
            if i < init.len() {
                assert(init[i].0 == key);
            }
        }
        if s.last().0 == key {
            assert(s[s.len() - 1].0 == key);
        }
    }
}

/// The flattened listing carries exactly the keys of its input.
pub proof fn lemma_first_wins_same_keys(s: Seq<Entry>, key: Seq<char>)
    ensures
        has_key(first_wins(s), key) <==> has_key(s, key),
    decreases s.len(),
{
    if s.len() > 0 {
        let init = s.drop_last();
        let kept = first_wins(init);
        lemma_first_wins_same_keys(init, key);
        lemma_first_wins_same_keys(init, s.last().0);
        if has_key(s, key) {
            let i = choose|i: int| 0 <= i < s.len() && (#[trigger] s[i]).0 == key;
            if i < init.len() {
                assert(init[i].0 == key);
                let k = choose|k: int| 0 <= k < kept.len() && (#[trigger] kept[k]).0 == key;
                assert(first_wins(s)[k].0 == key);
            } else if has_key(init, key) {
                let k = choose|k: int| 0 <= k < kept.len() && (#[trigger] kept[k]).0 == key;
                assert(first_wins(s)[k].0 == key);
            } else {
                assert(first_wins(s)[kept.len() as int].0 == key);
            }
        }
        if has_key(first_wins(s), key) {
            let k = choose|k: int| 0 <= k < first_wins(s).len() && (#[trigger] first_wins(s)[k]).0 == key;
            if k < kept.len() {
                assert(kept[k].0 == key);
                let i = choose|i: int| 0 <= i < init.len() && (#[trigger] init[i]).0 == key;
                assert(s[i].0 == key);
            } else {
                assert(s[s.len() - 1].0 == key);
            }
        }
    }
}

/// No key occurs twice in the flattened listing.
pub proof fn lemma_first_wins_distinct(s: Seq<Entry>)
    ensures
        forall|i: int, j: int|
            0 <= i < j < first_wins(s).len() ==> (#[trigger] first_wins(s)[i]).0 != (
            #[trigger] first_wins(s)[j]).0,
    decreases s.len(),
{
    if s.len() > 0 {
        let init = s.drop_last();
        let kept = first_wins(init);
        lemma_first_wins_distinct(init);
        lemma_first_wins_same_keys(init, s.last().0);
        assert forall|i: int, j: int| 0 <= i < j < first_wins(s).len() implies (
        #[trigger] first_wins(s)[i]).0 != (#[trigger] first_wins(s)[j]).0 by {
            if j == kept.len() && kept[i].0 == s.last().0 {
                assert(has_key(kept, s.last().0));
            }
        }
    }
}

/// Flattening changes no key's value: every key keeps the value of the
/// earliest entry that carried it.
pub proof fn lemma_first_wins_lookup(s: Seq<Entry>, key: Seq<char>)
    ensures
        lookup(first_wins(s), key) == lookup(s, key),
    decreases s.len(),
{
    if s.len() > 0 {
        let init = s.drop_last();
        let kept = first_wins(init);
        lemma_first_wins_lookup(init, key);
        lemma_lookup_some(init, key);
        if !has_key(init, s.last().0) {
            assert(kept.push(s.last()).drop_last() =~= kept);
        }
    }
}

} // verus!
