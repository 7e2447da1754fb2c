use vstd::prelude::*;
use vstd::string::*;

verus! {

/// A key-value pair of the property mapping, as character sequences.
pub type Entry = (Seq<char>, Seq<char>);

/// No key occurs twice among the entries.
pub open spec fn unique_keys(e: Seq<Entry>) -> bool {
    forall|i: int, j: int| 0 <= i < j < e.len() ==> e[i].0 != e[j].0
}

/// The mapping that a sequence of writes produces from `m`: each pair in turn
/// sets its key, so a later pair for a key overrides an earlier one.
pub open spec fn insert_all(m: Map<Seq<char>, Seq<char>>, pairs: Seq<Entry>) -> Map<
    Seq<char>,
    Seq<char>,
>
    decreases pairs.len(),
{
    if pairs.len() == 0 {
        m
    } else {
        insert_all(m, pairs.drop_last()).insert(pairs.last().0, pairs.last().1)
    }
}

/// The mapping that a sequence of entries stands for.
pub open spec fn map_of(e: Seq<Entry>) -> Map<Seq<char>, Seq<char>> {
    insert_all(Map::empty(), e)
}

/// The character-sequence view of the stored pairs.
pub open spec fn entries_of(v: Seq<(String, String)>) -> Seq<Entry> {
    v.map_values(|p: (String, String)| (p.0@, p.1@))
}

/// The keys written by `pairs` are those of `m` and those that occur in `pairs`.
pub proof fn lemma_insert_all_domain(m: Map<Seq<char>, Seq<char>>, pairs: Seq<Entry>, k: Seq<char>)
    ensures
        insert_all(m, pairs).contains_key(k) <==> (m.contains_key(k) || exists|i: int|
            0 <= i < pairs.len() && pairs[i].0 == k),
    decreases pairs.len(),
{
    if pairs.len() > 0 {
        let init = pairs.drop_last();
        lemma_insert_all_domain(m, init, k);
        if exists|i: int| 0 <= i < pairs.len() && pairs[i].0 == k {
            let i = choose|i: int| 0 <= i < pairs.len() && pairs[i].0 == k;
            if i < pairs.len() - 1 {
                assert(init[i].0 == k);
            }
        }
        if exists|i: int| 0 <= i < init.len() && init[i].0 == k {
            let i = choose|i: int| 0 <= i < init.len() && init[i].0 == k;
            assert(pairs[i].0 == k);
        }
    }
}

/// Law: the value a key ends with is the one of the last pair that writes it.
pub proof fn lemma_later_writes_win(m: Map<Seq<char>, Seq<char>>, pairs: Seq<Entry>, i: int)
    requires
        0 <= i < pairs.len(),
        forall|j: int| i < j < pairs.len() ==> pairs[j].0 != pairs[i].0,
    ensures
        insert_all(m, pairs).contains_key(pairs[i].0),
        insert_all(m, pairs)[pairs[i].0] == pairs[i].1,
    decreases pairs.len(),
{
    if i < pairs.len() - 1 {
        let init = pairs.drop_last();
        lemma_later_writes_win(m, init, i);
    }
}

/// Law: a key that no pair writes keeps what it had before.
pub proof fn lemma_unwritten_keys_kept(m: Map<Seq<char>, Seq<char>>, pairs: Seq<Entry>, k: Seq<char>)
    requires
        forall|j: int| 0 <= j < pairs.len() ==> pairs[j].0 != k,
    ensures
        insert_all(m, pairs).contains_key(k) == m.contains_key(k),
        m.contains_key(k) ==> insert_all(m, pairs)[k] == m[k],
    decreases pairs.len(),
{
    if pairs.len() > 0 {
        let init = pairs.drop_last();
        lemma_unwritten_keys_kept(m, init, k);
    }
}

/// With unique keys, the mapping gives each entry's key that entry's value.
proof fn lemma_map_of_entry(e: Seq<Entry>, i: int)
    requires
        unique_keys(e),
        0 <= i < e.len(),
    ensures
        map_of(e).contains_key(e[i].0),
        map_of(e)[e[i].0] == e[i].1,
{
    lemma_later_writes_win(Map::empty(), e, i);
}

/// Every key of the mapping is the key of an entry.
proof fn lemma_map_of_keys(e: Seq<Entry>, k: Seq<char>)
    ensures
        map_of(e).contains_key(k) <==> exists|i: int| 0 <= i < e.len() && e[i].0 == k,
{
    lemma_insert_all_domain(Map::empty(), e, k);
}

/// The properties of an event: the subject it is attributed to, and a mapping
/// from string keys to string values.
#[derive(Debug, Clone)]
pub struct Properties {
    distinct_id: String,
    properties: Vec<(String, String)>,
}

impl Properties {
    /// The identifier of the subject of the event.
    pub closed spec fn distinct_id(&self) -> Seq<char> {
        self.distinct_id@
    }

    /// The pairs as stored, in the order in which their keys were first written.
    pub closed spec fn entries(&self) -> Seq<Entry> {
        entries_of(self.properties@)
    }

    /// The property mapping.
    pub open spec fn props(&self) -> Map<Seq<char>, Seq<char>> {
        map_of(self.entries())
    }

    /// Keys are unique among the stored pairs.
    pub open spec fn wf(&self) -> bool {
        unique_keys(self.entries())
    }

    /// The identifier of the subject of the event.
    pub fn distinct_id_str(&self) -> (r: &str)
        ensures
            r@ == self.distinct_id(),
    {
        self.distinct_id.as_str()
    }

    /// The stored pairs, in the order in which their keys were first written.
    pub fn pairs(&self) -> (r: &Vec<(String, String)>)
        ensures
            entries_of(r@) == self.entries(),
    {
        &self.properties
    }

    /// The value of `key`, if the mapping has one.
    pub fn get(&self, key: &str) -> (r: Option<String>)
        requires
            self.wf(),
        ensures
            r is None <==> !self.props().contains_key(key@),
            r is Some ==> r->Some_0@ == self.props()[key@],
    {
        let ghost e = self.entries();
        let wanted = String::from_str(key);
        let mut i: usize = 0;
        while i < self.properties.len()
            invariant
                i <= self.properties.len(),
                e == self.entries(),
                unique_keys(e),
                wanted@ == key@,
                forall|j: int| 0 <= j < i ==> e[j].0 != key@,
            decreases self.properties.len() - i,
        {
            if self.properties[i].0 == wanted {
                proof {
                    lemma_map_of_entry(e, i as int);
                }
                return Some(self.properties[i].1.clone());
            }
            i = i + 1;
        }
        proof {
            lemma_map_of_keys(e, key@);
        }
        None
    }

    /// Properties for the subject `distinct_id`, with an empty mapping.
    pub fn new(distinct_id: String) -> (r: Properties)
        ensures
            r.wf(),
            r.distinct_id() == distinct_id@,
            r.entries() == Seq::<Entry>::empty(),
            r.props() == Map::<Seq<char>, Seq<char>>::empty(),
    {
        let r = Properties { distinct_id, properties: Vec::new() };
        assert(r.entries() =~= Seq::<Entry>::empty());
        r
    }

    /// Sets `key` to `value`, overwriting any earlier value of `key`.
    pub fn insert(&mut self, key: String, value: String)
        requires
            old(self).wf(),
        ensures
            final(self).wf(),
            final(self).distinct_id() == old(self).distinct_id(),
            final(self).props() == old(self).props().insert(key@, value@),
    {
        let ghost e0 = self.entries();
        let n = self.properties.len();
        let mut i: usize = 0;
        while i < n && self.properties[i].0 != key
            invariant
                n == self.properties.len(),
                self.entries() == e0,
                i <= n,
                forall|j: int| 0 <= j < i ==> e0[j].0 != key@,
            decreases n - i,
        {
            i = i + 1;
        }
        let ghost k = key@;
        let ghost v = value@;
        if i < n {
            assert(e0[i as int].0 == k);
            self.properties.set(i, (key, value));
            let ghost e1 = self.entries();
            assert(e1 =~= e0.update(i as int, (k, v)));
            assert(unique_keys(e1)) by {
                assert forall|a: int, b: int| 0 <= a < b < e1.len() implies e1[a].0 != e1[b].0 by {
                    assert(e1[a].0 == e0[a].0);
                    assert(e1[b].0 == e0[b].0);
                }
            }
            assert(map_of(e1) =~= map_of(e0).insert(k, v)) by {
                assert forall|q: Seq<char>| #[trigger] map_of(e1).contains_key(q)
                    <==> map_of(e0).insert(k, v).contains_key(q) by {
                    lemma_map_of_keys(e1, q);
                    lemma_map_of_keys(e0, q);
                    assert(e1[i as int].0 == k);
                    if exists|j: int| 0 <= j < e0.len() && e0[j].0 == q {
                        let j = choose|j: int| 0 <= j < e0.len() && e0[j].0 == q;
                        assert(e1[j].0 == q);
                    }
                    if exists|j: int| 0 <= j < e1.len() && e1[j].0 == q {
                        let j = choose|j: int| 0 <= j < e1.len() && e1[j].0 == q;
                        assert(e0[j].0 == q);
                    }
                }
                assert forall|q: Seq<char>| #[trigger] map_of(e1).contains_key(q) implies map_of(
                    e1,
                )[q] == map_of(e0).insert(k, v)[q] by {
                    lemma_map_of_keys(e1, q);
                    let j = choose|j: int| 0 <= j < e1.len() && e1[j].0 == q;
                    lemma_map_of_entry(e1, j);
                    if j != i {
                        lemma_map_of_entry(e0, j);
                    }
                }
            }
        } else {
            self.properties.push((key, value));
            let ghost e1 = self.entries();
            assert(e1 =~= e0.push((k, v)));
            assert(e1.drop_last() =~= e0);
            assert(unique_keys(e1));
        }
    }
}

} // verus!
