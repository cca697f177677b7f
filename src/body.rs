use crate::kv::KvPair;
use vstd::prelude::*;

verus! {

/// The mapping that a sequence of pairs gives when each is written in turn
/// over the last: a later pair with the same key replaces an earlier one.
pub open spec fn fold_pairs(pairs: Seq<KvPair>) -> Map<Seq<char>, Seq<char>>
    decreases pairs.len(),
{
    if pairs.len() == 0 {
        Map::empty()
    } else {
        fold_pairs(pairs.drop_last()).insert(pairs.last().k@, pairs.last().v@)
    }
}

/// The mapping that a list of entries stands for, read front to back.
pub open spec fn entries_map(e: Seq<(String, String)>) -> Map<Seq<char>, Seq<char>>
    decreases e.len(),
{
    if e.len() == 0 {
        Map::empty()
    } else {
        entries_map(e.drop_last()).insert(e.last().0@, e.last().1@)
    }
}

/// No key occurs twice among the entries.
pub open spec fn keys_unique(e: Seq<(String, String)>) -> bool {
    forall|i: int, j: int| 0 <= i < e.len() && 0 <= j < e.len() && i != j ==> e[i].0@ != e[j].0@
}

/// The body of a POST request: each key once, with its value.
pub struct RequestBody {
    entries: Vec<(String, String)>,
}

impl RequestBody {
    pub closed spec fn wf(&self) -> bool {
        keys_unique(self.entries@)
    }

    pub closed spec fn view(&self) -> Map<Seq<char>, Seq<char>> {
        entries_map(self.entries@)
    }

    /// A body with no entries.
    pub fn new() -> (r: RequestBody)
        ensures
            r.wf(),
            r@ == Map::<Seq<char>, Seq<char>>::empty(),
    {
        RequestBody { entries: Vec::new() }
    }

    /// The entries, each key once, in the order in which the keys first came.
    pub fn entries(&self) -> (r: &Vec<(String, String)>)
        ensures
            entries_map(r@) == self@,
            self.wf() ==> keys_unique(r@),
    {
        &self.entries
    }

    /// Sets `key` to `value`, replacing what `key` had.
    pub fn insert(&mut self, key: String, value: String)
        requires
            old(self).wf(),
        ensures
            final(self).wf(),
            final(self)@ == old(self)@.insert(key@, value@),
    {
        let n = self.entries.len();
        let mut j: usize = 0;
        while j < n
            invariant
                n == self.entries@.len(),
                j <= n,
                self.entries@ == old(self).entries@,
                keys_unique(self.entries@),
                forall|i: int| 0 <= i < j ==> self.entries@[i].0@ != key@,
            decreases n - j,
        {
            if self.entries[j].0 == key {
                proof {
                    lemma_update_entry(self.entries@, j as int, key, value);
                }
                self.entries.set(j, (key, value));
                return;
            }
            j = j + 1;
        }
        self.entries.push((key, value));
        proof {
            assert(self.entries@.drop_last() =~= old(self).entries@);
        }
    }

    /// The value of `key`, if the body has it.
    pub fn get(&self, key: &str) -> (r: Option<&String>)
        requires
            self.wf(),
        ensures
            r matches Some(v) ==> self@.contains_key(key@) && self@[key@] == v@,
            r is None ==> !self@.contains_key(key@),
    {
        let wanted = String::from_str(key);
        let n = self.entries.len();
        let mut j: usize = 0;
        while j < n
            invariant
                n == self.entries@.len(),
                j <= n,
                wanted@ == key@,
                keys_unique(self.entries@),
                forall|i: int| 0 <= i < j ==> self.entries@[i].0@ != key@,
            decreases n - j,
        {
            if self.entries[j].0 == wanted {
                proof {
                    lemma_entry_value(self.entries@, j as int);
                }
                return Some(&self.entries[j].1);
            }
            j = j + 1;
        }
        proof {
            lemma_absent_key(self.entries@, key@);
        }
        None
    }

    /// Writes the pairs in turn over an empty body.
    pub fn from_pairs(pairs: &Vec<KvPair>) -> (r: RequestBody)
        ensures
            r.wf(),
            r@ == fold_pairs(pairs@),
    {
        let mut body = RequestBody::new();
        let mut i: usize = 0;
        while i < pairs.len()
            invariant
                i <= pairs@.len(),
                body.wf(),
                body@ == fold_pairs(pairs@.subrange(0, i as int)),
            decreases pairs@.len() - i,
        {
            let p = &pairs[i];
            body.insert(p.k.clone(), p.v.clone());
            proof {
                assert(pairs@.subrange(0, i + 1).drop_last() == pairs@.subrange(0, i as int));
            }
            i = i + 1;
        }
        proof {
            assert(pairs@.subrange(0, pairs@.len() as int) == pairs@);
        }
        body
    }
}

proof fn lemma_update_entry(e: Seq<(String, String)>, j: int, key: String, value: String)
    requires
        keys_unique(e),
        0 <= j < e.len(),
        e[j].0@ == key@,
    ensures
        keys_unique(e.update(j, (key, value))),
        entries_map(e.update(j, (key, value))) == entries_map(e).insert(key@, value@),
    decreases e.len(),
{
    let u = e.update(j, (key, value));
    assert(u.drop_last() =~= if j == e.len() - 1 { e.drop_last() } else { e.drop_last().update(j, (key, value)) });
    if j == e.len() - 1 {
        assert(entries_map(u) =~= entries_map(e).insert(key@, value@));
    } else {
        lemma_update_entry(e.drop_last(), j, key, value);
        assert(e.last().0@ != key@);
        assert(entries_map(u) =~= entries_map(e).insert(key@, value@));
    }
}

proof fn lemma_entry_value(e: Seq<(String, String)>, j: int)
    requires
        keys_unique(e),
        0 <= j < e.len(),
    ensures
        entries_map(e).contains_key(e[j].0@),
        entries_map(e)[e[j].0@] == e[j].1@,
    decreases e.len(),
{
    if j < e.len() - 1 {
        lemma_entry_value(e.drop_last(), j);
        assert(e.last().0@ != e[j].0@);
    }
}

proof fn lemma_absent_key(e: Seq<(String, String)>, key: Seq<char>)
    requires
        forall|i: int| 0 <= i < e.len() ==> e[i].0@ != key,
    ensures
        !entries_map(e).contains_key(key),
    decreases e.len(),
{
    if e.len() > 0 {
        lemma_absent_key(e.drop_last(), key);
    }
}

/// A key takes the value of the last pair that names it.
pub proof fn lemma_last_write_wins(pairs: Seq<KvPair>, i: int)
    requires
        0 <= i < pairs.len(),
        forall|j: int| i < j < pairs.len() ==> pairs[j].k@ != pairs[i].k@,
    ensures
        fold_pairs(pairs).contains_key(pairs[i].k@),
        fold_pairs(pairs)[pairs[i].k@] == pairs[i].v@,
    decreases pairs.len(),
{
    if i < pairs.len() - 1 {
        lemma_last_write_wins(pairs.drop_last(), i);
    }
}

/// A key that no pair names is not in the mapping.
pub proof fn lemma_unnamed_key_absent(pairs: Seq<KvPair>, key: Seq<char>)
    requires
        forall|j: int| 0 <= j < pairs.len() ==> pairs[j].k@ != key,
    ensures
        !fold_pairs(pairs).contains_key(key),
    decreases pairs.len(),
{
    if pairs.len() > 0 {
        lemma_unnamed_key_absent(pairs.drop_last(), key);
    }
}

} // verus!
