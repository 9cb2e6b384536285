use vstd::prelude::*;
use crate::codec::entries_view;

verus! {

/// The mapping that folding `entries` in order gives: each entry sets its
/// pair's price, so a later entry for a pair replaces an earlier one.
pub open spec fn fold_rates(entries: Seq<(Seq<char>, Seq<char>)>) -> Map<Seq<char>, Seq<char>>
    decreases entries.len(),
{
    if entries.len() == 0 {
        Map::empty()
    } else {
        fold_rates(entries.drop_last()).insert(entries.last().0, entries.last().1)
    }
}

/// No two entries name the same pair.
pub open spec fn keys_unique(entries: Seq<(Seq<char>, Seq<char>)>) -> bool {
    forall|i: int, j: int| 0 <= i < j < entries.len() ==> entries[i].0 != entries[j].0
}

proof fn lemma_unique_drop_last(s: Seq<(Seq<char>, Seq<char>)>)
    requires
        keys_unique(s),
        s.len() > 0,
    ensures
        keys_unique(s.drop_last()),
        forall|i: int| 0 <= i < s.len() - 1 ==> s.drop_last()[i].0 != s.last().0,
{
    assert forall|i: int| 0 <= i < s.len() - 1 implies s.drop_last()[i].0 != s.last().0 by {
        assert(s[i].0 != s[s.len() - 1].0);
    }
}

proof fn lemma_fold_absent(s: Seq<(Seq<char>, Seq<char>)>, k: Seq<char>)
    requires
        forall|i: int| 0 <= i < s.len() ==> s[i].0 != k,
    ensures
        !fold_rates(s).contains_key(k),
    decreases s.len(),
{
    if s.len() > 0 {
        assert forall|i: int| 0 <= i < s.drop_last().len() implies s.drop_last()[i].0 != k by {
            assert(s[i].0 != k);
        }
        lemma_fold_absent(s.drop_last(), k);
    }
}

proof fn lemma_fold_at(s: Seq<(Seq<char>, Seq<char>)>, i: int)
    requires
        keys_unique(s),
        0 <= i < s.len(),
    ensures
        fold_rates(s).contains_key(s[i].0),
        fold_rates(s)[s[i].0] == s[i].1,
    decreases s.len(),
{
    if i < s.len() - 1 {
        lemma_unique_drop_last(s);
        lemma_fold_at(s.drop_last(), i);
        assert(s.drop_last()[i] == s[i]);
    }
}

proof fn lemma_fold_update(s: Seq<(Seq<char>, Seq<char>)>, i: int, v: Seq<char>)
    requires
        keys_unique(s),
        0 <= i < s.len(),
    ensures
        fold_rates(s.update(i, (s[i].0, v))) == fold_rates(s).insert(s[i].0, v),
    decreases s.len(),
{
    let k = s[i].0;
    let t = s.update(i, (k, v));
    if i == s.len() - 1 {
        assert(t.drop_last() =~= s.drop_last());
        assert(fold_rates(t) =~= fold_rates(s).insert(k, v));
    } else {
        lemma_unique_drop_last(s);
        assert(t.drop_last() =~= s.drop_last().update(i, (k, v)));
        lemma_fold_update(s.drop_last(), i, v);
        assert(s.drop_last()[i] == s[i]);
        assert(s.last().0 != k);
        assert(fold_rates(t) =~= fold_rates(s).insert(k, v));
    }
}

proof fn lemma_fold_len(s: Seq<(Seq<char>, Seq<char>)>)
    requires
        keys_unique(s),
    ensures
        fold_rates(s).dom().finite(),
        fold_rates(s).dom().len() == s.len(),
    decreases s.len(),
{
    if s.len() > 0 {
        lemma_unique_drop_last(s);
        lemma_fold_len(s.drop_last());
        lemma_fold_absent(s.drop_last(), s.last().0);
        assert(fold_rates(s).dom() =~= fold_rates(s.drop_last()).dom().insert(s.last().0));
    }
}

/// A mapping from pair to price, kept as entries with distinct pairs in the
/// order in which each pair first arrived.
pub struct AggregatedRates {
    entries: Vec<(String, String)>,
}

impl View for AggregatedRates {
    type V = Map<Seq<char>, Seq<char>>;

    closed spec fn view(&self) -> Map<Seq<char>, Seq<char>> {
        fold_rates(self.entries_spec())
    }
}

impl AggregatedRates {
    /// The entries, pairs and prices as sequences of characters.
    pub closed spec fn entries_spec(&self) -> Seq<(Seq<char>, Seq<char>)> {
        entries_view(self.entries@)
    }

    /// Well-formed: no pair is held twice.
    pub closed spec fn wf(&self) -> bool {
        keys_unique(self.entries_spec())
    }

    /// The empty mapping.
    pub fn new() -> (r: AggregatedRates)
        ensures
            r.wf(),
            r@ == Map::<Seq<char>, Seq<char>>::empty(),
    {
        let r = AggregatedRates { entries: Vec::new() };
        assert(r.entries_spec() =~= Seq::<(Seq<char>, Seq<char>)>::empty());
        r
    }

    fn find(&self, pair: &String) -> (r: Option<usize>)
        ensures
            match r {
                Some(i) => i < self.entries@.len() && self.entries_spec()[i as int].0 == pair@,
                None => forall|j: int|
                    0 <= j < self.entries_spec().len() ==> self.entries_spec()[j].0 != pair@,
            },
    {
        let mut i: usize = 0;
        while i < self.entries.len()
            invariant
                0 <= i <= self.entries@.len(),
                forall|j: int| 0 <= j < i ==> self.entries_spec()[j].0 != pair@,
            decreases self.entries@.len() - i,
        {
            if self.entries[i].0 == *pair {
                return Some(i);
            }
            i += 1;
        }
        None
    }

    /// Sets the price of `pair`, replacing the one it had.
    pub fn insert(&mut self, pair: String, price: String)
        requires
            old(self).wf(),
        ensures
            final(self).wf(),
            final(self)@ == old(self)@.insert(pair@, price@),
    {
        let ghost k = pair@;
        let ghost v = price@;
        let ghost s = self.entries_spec();
        match self.find(&pair) {
            Some(i) => {
                self.entries.set(i, (pair, price));
                proof {
                    assert(self.entries_spec() =~= s.update(i as int, (k, v)));
                    lemma_fold_update(s, i as int, v);
                }
            },
            None => {
                self.entries.push((pair, price));
                proof {
                    assert(self.entries_spec() =~= s.push((k, v)));
                    assert(self.entries_spec().drop_last() =~= s);
                }
            },
        }
    }

    /// The price held for `pair`, if any.
    pub fn price_of(&self, pair: &String) -> (r: Option<String>)
        requires
            self.wf(),
        ensures
            match r {
                Some(p) => self@.contains_key(pair@) && self@[pair@] == p@,
                None => !self@.contains_key(pair@),
            },
    {
        match self.find(pair) {
            Some(i) => {
                proof {
                    lemma_fold_at(self.entries_spec(), i as int);
                }
                Some(self.entries[i].1.clone())
            },
            None => {
                proof {
                    lemma_fold_absent(self.entries_spec(), pair@);
                }
                None
            },
        }
    }

    /// The number of pairs held.
    pub fn len(&self) -> (r: usize)
        requires
            self.wf(),
        ensures
            r == self@.dom().len(),
    {
        proof {
            lemma_fold_len(self.entries_spec());
        }
        self.entries.len()
    }

    /// The entries, one for each pair held, each with that pair's price.
    pub fn to_entries(&self) -> (r: Vec<(String, String)>)
        requires
            self.wf(),
        ensures
            keys_unique(entries_view(r@)),
            fold_rates(entries_view(r@)) == self@,
    {
        let mut r: Vec<(String, String)> = Vec::new();
        let mut i: usize = 0;
        while i < self.entries.len()
            invariant
                0 <= i <= self.entries@.len(),
                entries_view(r@) == self.entries_spec().take(i as int),
            decreases self.entries@.len() - i,
        {
            let ghost prev = r@;
            let pair = self.entries[i].0.clone();
            let price = self.entries[i].1.clone();
            r.push((pair, price));
            proof {
                assert(r@ == prev.push((pair, price)));
                assert(entries_view(r@) =~= entries_view(prev).push(self.entries_spec()[i as int]));
                assert(self.entries_spec().take(i + 1) =~= self.entries_spec().take(i as int).push(
                    self.entries_spec()[i as int],
                ));
            }
            i += 1;
        }
        assert(self.entries_spec().take(i as int) =~= self.entries_spec());
        r
    }
}

/// Folds `entries` in order into a mapping from pair to price; for a pair
/// that comes more than once the last price wins.
pub fn aggregate(entries: &Vec<(String, String)>) -> (r: AggregatedRates)
    ensures
        r.wf(),
        r@ == fold_rates(entries_view(entries@)),
{
    let ghost s = entries_view(entries@);
    let mut r = AggregatedRates::new();
    let mut i: usize = 0;
    while i < entries.len()
        invariant
            0 <= i <= entries@.len(),
            s == entries_view(entries@),
            r.wf(),
            r@ == fold_rates(s.take(i as int)),
        decreases entries@.len() - i,
    {
        let pair = entries[i].0.clone();
        let price = entries[i].1.clone();
        r.insert(pair, price);
        proof {
            assert(s.take(i + 1).drop_last() =~= s.take(i as int));
        }
        i += 1;
    }
    assert(s.take(i as int) =~= s);
    r
}

/// Two entries for different pairs give a mapping of both; two entries for
/// the same pair give a mapping of that pair alone, at the later price.
pub proof fn lemma_aggregate_two(p1: Seq<char>, v1: Seq<char>, p2: Seq<char>, v2: Seq<char>)
    ensures
        p1 != p2 ==> fold_rates(seq![(p1, v1), (p2, v2)]) == map![p1 => v1, p2 => v2],
        p1 != p2 ==> fold_rates(seq![(p1, v1), (p2, v2)]).dom().len() == 2,
        p1 == p2 ==> fold_rates(seq![(p1, v1), (p2, v2)]) == map![p1 => v2],
        p1 == p2 ==> fold_rates(seq![(p1, v1), (p2, v2)]).dom().len() == 1,
{
    let s = seq![(p1, v1), (p2, v2)];
    reveal_with_fuel(fold_rates, 3);
    assert(s.drop_last() =~= seq![(p1, v1)]);
    assert(seq![(p1, v1)].drop_last() =~= Seq::<(Seq<char>, Seq<char>)>::empty());
    if p1 != p2 {
        assert(fold_rates(s) =~= map![p1 => v1, p2 => v2]);
        assert(keys_unique(s));
        lemma_fold_len(s);
    } else {
        assert(fold_rates(s) =~= map![p1 => v2]);
        assert(fold_rates(s).dom() =~= set![p1]);
    }
}

} // verus!
