use vstd::prelude::*;
use crate::properties::{Entry, Properties, insert_all, entries_of};
use crate::wire::{timestamp_json, timestamp_json_of};

verus! {

/// A point in time: whole seconds since 1970-01-01T00:00:00 UTC and the
/// nanoseconds past that second. Only instants that chrono can represent, and so
/// give a JSON form, are timestamps.
#[derive(Debug, Clone, Copy, PartialEq, Eq)]
pub struct Timestamp {
    secs: i64,
    nanos: u32,
}

impl Timestamp {
    #[verifier::type_invariant]
    spec fn representable(self) -> bool {
        timestamp_json_of(self.secs, self.nanos) is Some
    }

    /// Whole seconds since the Unix epoch.
    pub closed spec fn secs(self) -> i64 {
        self.secs
    }

    /// Nanoseconds past that second.
    pub closed spec fn nanos(self) -> u32 {
        self.nanos
    }

    /// The JSON form of the timestamp, which every timestamp has.
    pub fn to_json(&self) -> (r: String)
        ensures
            timestamp_json_of(self.secs(), self.nanos()) == Some(r@),
    {
        proof {
            use_type_invariant(self);
        }
        match timestamp_json(self.secs, self.nanos) {
            Some(text) => text,
            None => {
                proof {
                    assert(false);
                }
                String::new()
            },
        }
    }

    /// The timestamp `secs` seconds and `nanos` nanoseconds past the Unix epoch,
    /// or `None` where chrono cannot represent that instant.
    pub fn new(secs: i64, nanos: u32) -> (r: Option<Timestamp>)
        ensures
            r is Some <==> timestamp_json_of(secs, nanos) is Some,
            r is Some ==> r->Some_0.secs() == secs && r->Some_0.nanos() == nanos,
    {
        if timestamp_json(secs, nanos).is_some() {
            Some(Timestamp { secs, nanos })
        } else {
            None
        }
    }

    pub fn secs_value(&self) -> (r: i64)
        ensures
            r == self.secs(),
    {
        self.secs
    }

    pub fn nanos_value(&self) -> (r: u32)
        ensures
            r == self.nanos(),
    {
        self.nanos
    }
}

/// A capture event: a name, the properties it carries, and an optional time.
/// Without a time the ingestion service assigns its own.
#[derive(Debug, Clone)]
pub struct Event {
    event: String,
    properties: Properties,
    timestamp: Option<Timestamp>,
}

impl Event {
    /// The event name, fixed at construction.
    pub closed spec fn name(&self) -> Seq<char> {
        self.event@
    }

    /// The properties of the event.
    pub closed spec fn properties(&self) -> Properties {
        self.properties
    }

    /// The time of the event, if one was set.
    pub closed spec fn timestamp(&self) -> Option<Timestamp> {
        self.timestamp
    }

    /// The properties hold each key once.
    pub open spec fn wf(&self) -> bool {
        self.properties().wf()
    }

    /// An event named `event` for the subject `distinct_id`, with no properties
    /// and no timestamp.
    pub fn new(event: String, distinct_id: String) -> (r: Event)
        ensures
            r.wf(),
            r.name() == event@,
            r.properties().distinct_id() == distinct_id@,
            r.properties().entries() == Seq::<Entry>::empty(),
            r.properties().props() == Map::<Seq<char>, Seq<char>>::empty(),
            r.timestamp() is None,
    {
        Event { event, properties: Properties::new(distinct_id), timestamp: None }
    }

    /// Sets the property `key` to `value`, overwriting an earlier value.
    pub fn insert_prop(&mut self, key: String, value: String)
        requires
            old(self).wf(),
        ensures
            final(self).wf(),
            final(self).name() == old(self).name(),
            final(self).timestamp() == old(self).timestamp(),
            final(self).properties().distinct_id() == old(self).properties().distinct_id(),
            final(self).properties().props() == old(self).properties().props().insert(key@, value@),
    {
        self.properties.insert(key, value);
    }

    /// Applies the pairs in order; a later pair for a key overrides an earlier one
    /// and any value the key had before.
    pub fn insert_prop_many(&mut self, props: Vec<(String, String)>)
        requires
            old(self).wf(),
        ensures
            final(self).wf(),
            final(self).name() == old(self).name(),
            final(self).timestamp() == old(self).timestamp(),
            final(self).properties().distinct_id() == old(self).properties().distinct_id(),
            final(self).properties().props() == insert_all(
                old(self).properties().props(),
                entries_of(props@),
            ),
    {
        let ghost m0 = self.properties().props();
        let ghost pairs = entries_of(props@);
        let ghost start = *self;
        let mut i: usize = 0;
        while i < props.len()
            invariant
                self.wf(),
                i <= props.len(),
                pairs == entries_of(props@),
                self.name() == start.name(),
                self.timestamp() == start.timestamp(),
                self.properties().distinct_id() == start.properties().distinct_id(),
                self.properties().props() == insert_all(m0, pairs.take(i as int)),
            decreases props.len() - i,
        {
            let key = props[i].0.clone();
            let value = props[i].1.clone();
            self.properties.insert(key, value);
            assert(pairs.take(i + 1).drop_last() =~= pairs.take(i as int));
            i = i + 1;
        }
        assert(pairs.take(i as int) =~= pairs);
    }

    /// The properties of the event.
    pub fn get_properties(&self) -> (r: &Properties)
        ensures
            *r == self.properties(),
    {
        &self.properties
    }

    /// Takes the event apart into its name, properties and timestamp.
    pub fn into_parts(self) -> (r: (String, Properties, Option<Timestamp>))
        ensures
            r.0@ == self.name(),
            r.1 == self.properties(),
            r.2 == self.timestamp(),
    {
        (self.event, self.properties, self.timestamp)
    }

    /// Attaches `timestamp`, replacing any earlier one; the value is kept as given.
    pub fn set_timestamp(&mut self, timestamp: Timestamp)
        ensures
            final(self).name() == old(self).name(),
            final(self).properties() == old(self).properties(),
            final(self).timestamp() == Some(timestamp),
    {
        self.timestamp = Some(timestamp);
    }
}

/// Law: writing a key alone and then a list of pairs leaves every key that the
/// list writes with the value of its last pair, and every other key as the
/// single write and the earlier properties left it.
pub proof fn lemma_property_override(
    before: Map<Seq<char>, Seq<char>>,
    key: Seq<char>,
    value: Seq<char>,
    pairs: Seq<Entry>,
    k: Seq<char>,
)
    ensures
        ({
            let after = insert_all(before.insert(key, value), pairs);
            &&& (forall|i: int|
                0 <= i < pairs.len() && pairs[i].0 == k && (forall|j: int|
                    i < j < pairs.len() ==> pairs[j].0 != k) ==> after.contains_key(k)
                    && after[k] == pairs[i].1)
            &&& ((forall|j: int| 0 <= j < pairs.len() ==> pairs[j].0 != k) ==> after.contains_key(
                k,
            ) == before.insert(key, value).contains_key(k) && (before.insert(key, value).contains_key(k)
                ==> after[k] == before.insert(key, value)[k]))
        }),
{
    let m = before.insert(key, value);
    assert forall|i: int|
        0 <= i < pairs.len() && pairs[i].0 == k && (forall|j: int|
            i < j < pairs.len() ==> pairs[j].0 != k) implies insert_all(m, pairs).contains_key(k)
        && insert_all(m, pairs)[k] == pairs[i].1 by {
        crate::properties::lemma_later_writes_win(m, pairs, i);
    }
    if forall|j: int| 0 <= j < pairs.len() ==> pairs[j].0 != k {
        crate::properties::lemma_unwritten_keys_kept(m, pairs, k);
    }
}

} // verus!
