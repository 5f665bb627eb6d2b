//! The UTxO view: a read-only keyed lookup from canonical input keys to the
//! outputs that created them, together with the input normalizer that turns
//! wire-level input descriptors into canonical keys.

use vstd::prelude::*;

use crate::types::TxInput;
use crate::types::TxInputV;
use crate::types::TxOutput;
use crate::types::TxOutputV;

verus! {

/// The canonical form of an input key in specifications: the referenced
/// transaction digest and the output index.
pub type UTxOKey = (Seq<u8>, u32);

/// The resolved form of a standard input, used to probe the UTxO view.
#[derive(Clone, Copy, Debug)]
pub struct UTxOTxIn {
    pub tx_id: [u8; 32],
    pub index: u32,
}

impl View for UTxOTxIn {
    type V = UTxOKey;

    open spec fn view(&self) -> UTxOKey {
        (self.tx_id@, self.index)
    }
}

/// Canonical key of a standard input; nothing for the non-standard variant,
/// which this validator cannot resolve.
pub open spec fn spec_normalize(txin: TxInputV) -> Option<UTxOKey> {
    match txin {
        TxInputV::Standard { tx_id, index } => Some((tx_id, index)),
        TxInputV::Other { .. } => None,
    }
}

/// Converts a wire-level input descriptor into the canonical key the UTxO
/// view is probed with. Pure: it only distinguishes resolvable from
/// unresolvable descriptors.
pub fn to_utxo_tx_in(txin: &TxInput) -> (r: Option<UTxOTxIn>)
    ensures
        match r {
            Some(k) => spec_normalize(txin@) == Some(k@),
            None => spec_normalize(txin@) is None,
        },
{
    match txin {
        TxInput::Standard { tx_id, index } => Some(UTxOTxIn { tx_id: *tx_id, index: *index }),
        TxInput::Other { .. } => None,
    }
}

/// Decides whether two resolved keys name the same unspent output.
fn keys_match(a: &UTxOTxIn, b: &UTxOTxIn) -> (r: bool)
    ensures
        r == (a@ == b@),
{
    if a.index != b.index {
        return false;
    }
    let mut i: usize = 0;
    while i < 32
        invariant
            i <= 32,
            a.index == b.index,
            forall|j: int| 0 <= j < i ==> a.tx_id@[j] == b.tx_id@[j],
        decreases 32 - i,
    {
        if a.tx_id[i] != b.tx_id[i] {
            return false;
        }
        i = i + 1;
    }
    proof {
        assert(a.tx_id@ =~= b.tx_id@);
    }
    true
}

/// The mapping an entry sequence denotes: later entries shadow earlier ones
/// with the same key.
spec fn map_of(s: Seq<(UTxOTxIn, TxOutput)>) -> Map<UTxOKey, TxOutputV>
    decreases s.len(),
{
    if s.len() == 0 {
        Map::empty()
    } else {
        map_of(s.drop_last()).insert(s.last().0@, s.last().1@)
    }
}

proof fn lemma_map_of_match(s: Seq<(UTxOTxIn, TxOutput)>, k: UTxOKey, j: int)
    requires
        0 <= j < s.len(),
        s[j].0@ == k,
        forall|m: int| j < m < s.len() ==> s[m].0@ != k,
    ensures
        map_of(s).contains_key(k),
        map_of(s)[k] == s[j].1@,
    decreases s.len(),
{
    if j < s.len() - 1 {
        lemma_map_of_match(s.drop_last(), k, j);
    }
}

proof fn lemma_map_of_no_match(s: Seq<(UTxOTxIn, TxOutput)>, k: UTxOKey)
    requires
        forall|m: int| 0 <= m < s.len() ==> s[m].0@ != k,
    ensures
        !map_of(s).contains_key(k),
    decreases s.len(),
{
    if s.len() > 0 {
        lemma_map_of_no_match(s.drop_last(), k);
    }
}

/// The set of unspent outputs, keyed by canonical input key. Lookup is the
/// sole operation validation performs; the view is never mutated by it.
pub struct UTxOs {
    entries: Vec<(UTxOTxIn, TxOutput)>,
}

impl View for UTxOs {
    type V = Map<UTxOKey, TxOutputV>;

    closed spec fn view(&self) -> Map<UTxOKey, TxOutputV> {
        map_of(self.entries@)
    }
}

impl UTxOs {
    /// An empty view: no key resolves.
    pub fn new() -> (r: UTxOs)
        ensures
            r@ == Map::<UTxOKey, TxOutputV>::empty(),
    {
        UTxOs { entries: Vec::new() }
    }

    /// Associates the given unspent output with the given key, replacing
    /// any previous association.
    pub fn insert(&mut self, k: UTxOTxIn, v: TxOutput)
        ensures
            final(self)@ == old(self)@.insert(k@, v@),
    {
        let ghost pre = self.entries@;
        self.entries.push((k, v));
        proof {
            assert(self.entries@.drop_last() =~= pre);
        }
    }

    /// Resolves a canonical key to the output it names, or nothing when the
    /// key is absent from the view.
    pub fn lookup(&self, k: &UTxOTxIn) -> (r: Option<&TxOutput>)
        ensures
            match r {
                Some(o) => self@.contains_key(k@) && self@[k@] == o@,
                None => !self@.contains_key(k@),
            },
    {
        let mut i: usize = self.entries.len();
        while i > 0
            invariant
                i <= self.entries@.len(),
                forall|j: int| i <= j < self.entries@.len() ==> self.entries@[j].0@ != k@,
            decreases i,
    {
            i = i - 1;
            let e = &self.entries[i];
            if keys_match(&e.0, k) {
                proof {
                    lemma_map_of_match(self.entries@, k@, i as int);
                }
                return Some(&e.1);
            }
        }
        proof {
            lemma_map_of_no_match(self.entries@, k@);
        }
        None
    }
}

} // verus!
