//! Read-only lookup tables for values that many filterbank bins share, and
//! the keys that are tabulated in advance.
//!
//! A table is filled once from a function of its key and never changes. A
//! read through it returns the stored value on a hit and calls the function
//! on a miss, so a table only saves work: it never changes a result.

use vstd::prelude::*;
use vstd::laws_eq::obeys_concrete_eq;
use crate::errors::QFactorError;

verus! {

/// A table from keys to values, filled once.
#[verifier::reject_recursive_types(K)]
pub struct LookupTable<K, V> {
    keys: Vec<K>,
    values: Vec<V>,
    contents: Ghost<Map<K, V>>,
}

impl<K, V> View for LookupTable<K, V> {
    type V = Map<K, V>;

    closed spec fn view(&self) -> Map<K, V> {
        self.contents@
    }
}

/// `f` gives at most one result for `key`.
pub open spec fn deterministic_at<K, V, F: Fn(K) -> V>(f: F, key: K) -> bool {
    forall|a: V, b: V| f.ensures((key,), a) && f.ensures((key,), b) ==> a == b
}

impl<K: Copy + PartialEq, V> LookupTable<K, V> {
    /// The table's entries agree with its map.
    pub closed spec fn wf(&self) -> bool {
        &&& self.keys@.len() == self.values@.len()
        &&& forall|i: int|
            0 <= i < self.keys@.len() ==> self.contents@.contains_key(#[trigger] self.keys@[i])
                && self.contents@[self.keys@[i]] == self.values@[i]
        &&& forall|k: K| #[trigger]
            self.contents@.contains_key(k) ==> exists|i: int|
                0 <= i < self.keys@.len() && self.keys@[i] == k
    }

    /// Every stored value is a result of `f` on its key.
    pub open spec fn tabulates<F: Fn(K) -> V>(&self, f: F) -> bool {
        forall|k: K| #[trigger] self@.contains_key(k) ==> f.ensures((k,), self@[k])
    }

    /// Returns the position of `key` among the stored keys, if it is there.
    fn position(&self, key: &K) -> (r: Option<usize>)
        requires
            self.wf(),
            obeys_concrete_eq::<K>(),
        ensures
            r matches Some(i) ==> i < self.keys@.len() && self.keys@[i as int] == *key,
            r is None ==> !self@.contains_key(*key),
    {
        let n = self.keys.len();
        let mut i: usize = 0;
        while i < n
            invariant
                obeys_concrete_eq::<K>(),
                n == self.keys@.len(),
                i <= n,
                forall|j: int| 0 <= j < i ==> self.keys@[j] != *key,
            decreases n - i,
        {
            proof {
                reveal(obeys_concrete_eq);
            }
            if self.keys[i] == *key {
                return Some(i);
            }
            i = i + 1;
        }
        None
    }

    /// Fills a table with the result of `f` on each of `keys`; a key given
    /// twice is computed once.
    pub fn tabulate<F: Fn(K) -> V>(keys: &Vec<K>, f: F) -> (r: Self)
        requires
            obeys_concrete_eq::<K>(),
            forall|i: int| 0 <= i < keys@.len() ==> f.requires((#[trigger] keys@[i],)),
        ensures
            r.wf(),
            forall|k: K| #[trigger] r@.contains_key(k) <==> keys@.contains(k),
            r.tabulates(f),
    {
        let mut table = LookupTable { keys: Vec::new(), values: Vec::new(), contents: Ghost(Map::empty()) };
        let n = keys.len();
        let mut i: usize = 0;
        while i < n
            invariant
                obeys_concrete_eq::<K>(),
                forall|j: int| 0 <= j < keys@.len() ==> f.requires((#[trigger] keys@[j],)),
                n == keys@.len(),
                i <= n,
                table.wf(),
                forall|j: int| 0 <= j < i ==> table@.contains_key(#[trigger] keys@[j]),
                forall|k: K| #[trigger]
                    table@.contains_key(k) ==> exists|j: int| 0 <= j < i && keys@[j] == k,
                table.tabulates(f),
            decreases n - i,
        {
            let key = keys[i];
            let found = table.position(&key);
            if found.is_none() {
                let value = f(key);
                let ghost old_table = table;
                table.keys.push(key);
                table.values.push(value);
                table.contents = Ghost(table.contents@.insert(key, value));
                assert forall|k: K| #[trigger] table.contents@.contains_key(k) implies exists|j: int|
                    0 <= j < table.keys@.len() && table.keys@[j] == k by {
                    if k == key {
                        assert(table.keys@[table.keys@.len() - 1] == k);
                    } else {
                        let j = choose|j: int|
                            0 <= j < old_table.keys@.len() && old_table.keys@[j] == k;
                        assert(table.keys@[j] == k);
                    }
                }
            }
            i = i + 1;
        }
        assert forall|k: K| keys@.contains(k) implies #[trigger] table@.contains_key(k) by {
            let j = choose|j: int| 0 <= j < keys@.len() && keys@[j] == k;
            assert(table@.contains_key(keys@[j]));
        }
        table
    }

    /// Returns the value stored for `key`, if any.
    pub fn get(&self, key: &K) -> (r: Option<&V>)
        requires
            self.wf(),
            obeys_concrete_eq::<K>(),
        ensures
            r matches Some(v) ==> self@.contains_key(*key) && *v == self@[*key],
            r is None ==> !self@.contains_key(*key),
    {
        match self.position(key) {
            Some(i) => Some(&self.values[i]),
            None => None,
        }
    }
}

impl<K: Copy + PartialEq, V: Clone> LookupTable<K, V> {
    /// Returns a copy of the value stored for `key`, or the result of `f` on
    /// `key` where none is stored.
    pub fn read_through<F: Fn(K) -> V>(&self, key: K, f: F) -> (r: V)
        requires
            self.wf(),
            obeys_concrete_eq::<K>(),
            f.requires((key,)),
        ensures
            self@.contains_key(key) ==> cloned(self@[key], r),
            !self@.contains_key(key) ==> f.ensures((key,), r),
    {
        match self.get(&key) {
            Some(v) => v.clone(),
            None => f(key),
        }
    }
}

/// A value that a table filled by `f` holds for `key` is the value that `f`
/// computes for `key`, wherever `f` gives one result per key: a read that hits
/// the table and one that misses it agree.
pub proof fn lemma_stored_value_agrees<K: Copy + PartialEq, V, F: Fn(K) -> V>(
    table: LookupTable<K, V>,
    f: F,
    key: K,
    computed: V,
)
    requires
        table.tabulates(f),
        table@.contains_key(key),
        deterministic_at(f, key),
        f.ensures((key,), computed),
    ensures
        table@[key] == computed,
{
}

/// Reads the value for `bins_per_octave` through `table`; on a miss, zero bins
/// per octave are refused and any other count is computed with `compute`.
pub fn read_per_octave<V: Clone, F: Fn(usize) -> V>(
    table: &LookupTable<usize, V>,
    bins_per_octave: usize,
    compute: F,
) -> (r: Result<V, QFactorError>)
    requires
        table.wf(),
        bins_per_octave > 0 ==> compute.requires((bins_per_octave,)),
    ensures
        table@.contains_key(bins_per_octave) ==> (r matches Ok(v) && cloned(
            table@[bins_per_octave],
            v,
        )),
        !table@.contains_key(bins_per_octave) && bins_per_octave > 0 ==> (r matches Ok(v)
            && compute.ensures((bins_per_octave,), v)),
        !table@.contains_key(bins_per_octave) && bins_per_octave == 0 ==> r == Err::<
            V,
            QFactorError,
        >(QFactorError::InvalidBinsPerOctave),
{
    broadcast use vstd::laws_eq::group_laws_eq;

    match table.get(&bins_per_octave) {
        Some(v) => Ok(v.clone()),
        None => {
            if bins_per_octave > 0 {
                Ok(compute(bins_per_octave))
            } else {
                Err(QFactorError::InvalidBinsPerOctave)
            }
        },
    }
}

/// The largest number of bins per octave that is tabulated in advance.
pub const MAX_TABULATED_BINS_PER_OCTAVE: usize = 12;

/// The bins-per-octave counts tabulated in advance: one to twelve.
pub open spec fn per_octave_key_seq() -> Seq<usize> {
    Seq::new(MAX_TABULATED_BINS_PER_OCTAVE as nat, |i: int| (i + 1) as usize)
}

/// The window lengths whose phase factors are tabulated in advance.
pub open spec fn tabulated_window_lengths() -> Seq<usize> {
    seq![256usize, 512usize, 1024usize, 2048usize, 4096usize]
}

/// The sample rates whose phase factors are tabulated in advance.
pub open spec fn tabulated_sample_rates() -> Seq<usize> {
    seq![16000usize, 22050usize, 44100usize, 48000usize]
}

/// Every pair of a tabulated window length and a tabulated sample rate, by
/// window length first.
pub open spec fn phase_factor_key_seq() -> Seq<(usize, usize)> {
    Seq::new(
        20,
        |i: int| (tabulated_window_lengths()[i / 4], tabulated_sample_rates()[i % 4]),
    )
}

/// Returns the bins-per-octave counts whose Q factor and frequency ratio are
/// tabulated in advance.
pub fn per_octave_keys() -> (r: Vec<usize>)
    ensures
        r@ == per_octave_key_seq(),
{
    let mut keys: Vec<usize> = Vec::with_capacity(MAX_TABULATED_BINS_PER_OCTAVE);
    let mut b: usize = 1;
    while b <= MAX_TABULATED_BINS_PER_OCTAVE
        invariant
            1 <= b <= MAX_TABULATED_BINS_PER_OCTAVE + 1,
            keys@ == Seq::new((b - 1) as nat, |i: int| (i + 1) as usize),
        decreases MAX_TABULATED_BINS_PER_OCTAVE + 1 - b,
    {
        keys.push(b);
        b = b + 1;
        assert(keys@ =~= Seq::new((b - 1) as nat, |i: int| (i + 1) as usize));
    }
    assert(keys@ =~= per_octave_key_seq());
    keys
}

/// Returns the (window length, sample rate) pairs whose phase factors are
/// tabulated in advance.
pub fn phase_factor_keys() -> (r: Vec<(usize, usize)>)
    ensures
        r@ == phase_factor_key_seq(),
{
    let lengths: [usize; 5] = [256, 512, 1024, 2048, 4096];
    let rates: [usize; 4] = [16000, 22050, 44100, 48000];
    assert(lengths@ =~= tabulated_window_lengths());
    assert(rates@ =~= tabulated_sample_rates());
    let ghost target = phase_factor_key_seq();
    let mut keys: Vec<(usize, usize)> = Vec::with_capacity(20);
    let mut w: usize = 0;
    while w < 5
        invariant
            w <= 5,
            lengths@ == tabulated_window_lengths(),
            rates@ == tabulated_sample_rates(),
            target == phase_factor_key_seq(),
            keys@ == target.subrange(0, 4 * w),
        decreases 5 - w,
    {
        let mut s: usize = 0;
        while s < 4
            invariant
                w < 5,
                s <= 4,
                lengths@ == tabulated_window_lengths(),
                rates@ == tabulated_sample_rates(),
                target == phase_factor_key_seq(),
                keys@ == target.subrange(0, 4 * w + s),
            decreases 4 - s,
        {
            keys.push((lengths[w], rates[s]));
            assert(target[4 * w + s] == (lengths@[w as int], rates@[s as int]));
            s = s + 1;
            assert(keys@ =~= target.subrange(0, 4 * w + s));
        }
        w = w + 1;
    }
    assert(keys@ =~= target);
    keys
}

} // verus!
