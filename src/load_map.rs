//! Load overrides for home automation entities: a table from entity id to the consumption
//! that the entity draws while it is on, and the rules that read and fill it.

use vstd::prelude::*;

use crate::error::ApiError;
use crate::text::same_text;

verus! {

/// A request to register an entity, with its override consumption; `-1` registers none.
pub struct EntityRequest {
    pub entity_id: String,
    pub consumption: String,
}

/// The consumption reported for an entity.
pub struct EntityState {
    pub entity_id: String,
    pub consumption: String,
}

/// The body of a call to one of the hub's services for an entity.
pub struct EntityServiceRequest {
    pub entity_id: String,
}

/// The override table. Each entity id occurs once; a later registration replaces an
/// earlier one.
pub struct LoadMap {
    entries: Vec<(String, String)>,
}

/// The table that a list of entries describes; a later entry for a key wins.
pub open spec fn entries_map(s: Seq<(String, String)>) -> Map<Seq<char>, Seq<char>>
    decreases s.len(),
{
    if s.len() == 0 {
        Map::empty()
    } else {
        entries_map(s.drop_last()).insert(s.last().0@, s.last().1@)
    }
}

pub open spec fn keys_unique(s: Seq<(String, String)>) -> bool {
    forall|i: int, j: int|
        0 <= i < s.len() && 0 <= j < s.len() && i != j ==> (#[trigger] s[i]).0@ != (
        #[trigger] s[j]).0@
}

proof fn lemma_domain(s: Seq<(String, String)>, k: Seq<char>)
    ensures
        entries_map(s).contains_key(k) <==> exists|i: int| 0 <= i < s.len() && (#[trigger] s[i]).0@ == k,
    decreases s.len(),
{
    if s.len() > 0 {
        let d = s.drop_last();
        lemma_domain(d, k);
        if entries_map(s).contains_key(k) {
            if s.last().0@ == k {
                assert(s[s.len() - 1].0@ == k);
            } else {
                let i = choose|i: int| 0 <= i < d.len() && (#[trigger] d[i]).0@ == k;
                assert(s[i] == d[i]);
            }
        }
        if exists|i: int| 0 <= i < s.len() && (#[trigger] s[i]).0@ == k {
            let i = choose|i: int| 0 <= i < s.len() && (#[trigger] s[i]).0@ == k;
            if i < s.len() - 1 {
                assert(d[i] == s[i]);
            }
        }
    }
}

proof fn lemma_value(s: Seq<(String, String)>, i: int)
    requires
        keys_unique(s),
        0 <= i < s.len(),
    ensures
        entries_map(s).contains_key(s[i].0@),
        entries_map(s)[s[i].0@] == s[i].1@,
    decreases s.len(),
{
    let d = s.drop_last();
    if i < s.len() - 1 {
        assert(d[i] == s[i]);
        assert(keys_unique(d)) by {
            assert forall|a: int, b: int|
                0 <= a < d.len() && 0 <= b < d.len() && a != b implies (#[trigger] d[a]).0@ != (
            #[trigger] d[b]).0@ by {
                assert(d[a] == s[a] && d[b] == s[b]);
            }
        }
        lemma_value(d, i);
        assert(s[s.len() - 1].0@ != s[i].0@);
    }
}

impl LoadMap {
    /// Each entity id occurs in one entry only.
    pub closed spec fn wf(&self) -> bool {
        keys_unique(self.entries@)
    }

    /// The table, from entity id to override consumption.
    pub closed spec fn view(&self) -> Map<Seq<char>, Seq<char>> {
        entries_map(self.entries@)
    }

    /// The override registered for `entity_id`, if any.
    pub fn get(&self, entity_id: &str) -> (r: Option<String>)
        requires
            self.wf(),
        ensures
            r matches Some(v) ==> self@.contains_key(entity_id@) && v@ == self@[entity_id@],
            r is None ==> !self@.contains_key(entity_id@),
    {
        let mut i: usize = 0;
        while i < self.entries.len()
            invariant
                i <= self.entries@.len(),
                keys_unique(self.entries@),
                forall|j: int| 0 <= j < i ==> (#[trigger] self.entries@[j]).0@ != entity_id@,
            decreases self.entries@.len() - i,
        {
            if same_text(self.entries[i].0.as_str(), entity_id) {
                proof {
                    lemma_value(self.entries@, i as int);
                }
                return Some(self.entries[i].1.clone());
            }
            i = i + 1;
        }
        proof {
            lemma_domain(self.entries@, entity_id@);
        }
        None
    }

    /// Registers `consumption` as the override of `entity_id`, replacing any earlier one.
    pub fn insert(&mut self, entity_id: String, consumption: String)
        requires
            old(self).wf(),
        ensures
            final(self).wf(),
            final(self)@ == old(self)@.insert(entity_id@, consumption@),
    {
        let ghost s = self.entries@;
        let mut i: usize = 0;
        while i < self.entries.len()
            invariant
                self.entries@ == s,
                s == old(self).entries@,
                i <= s.len(),
                keys_unique(s),
                forall|j: int| 0 <= j < i ==> (#[trigger] s[j]).0@ != entity_id@,
            decreases s.len() - i,
        {
            if same_text(self.entries[i].0.as_str(), entity_id.as_str()) {
                let ghost k = entity_id@;
                let ghost v = consumption@;
                let ghost t = s.update(i as int, (entity_id, consumption));
                proof {
                    assert(t[i as int].0@ == k && t[i as int].1@ == v);
                    lemma_replace(s, i as int, t);
                }
                self.entries.set(i, (entity_id, consumption));
                assert(self.entries@ == t);
                return;
            }
            i = i + 1;
        }
        proof {
            lemma_domain(s, entity_id@);
            assert(keys_unique(s.push((entity_id, consumption))));
        }
        self.entries.push((entity_id, consumption));
        assert(self.entries@.drop_last() =~= s);
    }
}

/// Replacing the entry of an existing key keeps the keys unique and replaces its value.
proof fn lemma_replace(s: Seq<(String, String)>, i: int, t: Seq<(String, String)>)
    requires
        keys_unique(s),
        0 <= i < s.len(),
        t.len() == s.len(),
        t[i].0@ == s[i].0@,
        forall|j: int| 0 <= j < s.len() && j != i ==> t[j] == s[j],
    ensures
        keys_unique(t),
        entries_map(t) == entries_map(s).insert(t[i].0@, t[i].1@),
{
    assert(keys_unique(t)) by {
        assert forall|a: int, b: int|
            0 <= a < t.len() && 0 <= b < t.len() && a != b implies (#[trigger] t[a]).0@ != (
        #[trigger] t[b]).0@ by {
            assert(s[a].0@ == t[a].0@);
            assert(s[b].0@ == t[b].0@);
        }
    }
    let m = entries_map(s).insert(t[i].0@, t[i].1@);
    assert forall|k: Seq<char>| #[trigger] entries_map(t).contains_key(k) == m.contains_key(k) by {
        lemma_domain(s, k);
        lemma_domain(t, k);
        if exists|j: int| 0 <= j < s.len() && (#[trigger] s[j]).0@ == k {
            let j = choose|j: int| 0 <= j < s.len() && (#[trigger] s[j]).0@ == k;
            assert(t[j].0@ == k);
        }
        if exists|j: int| 0 <= j < t.len() && (#[trigger] t[j]).0@ == k {
            let j = choose|j: int| 0 <= j < t.len() && (#[trigger] t[j]).0@ == k;
            assert(s[j].0@ == k);
        }
    }
    assert forall|k: Seq<char>| #[trigger] entries_map(t).contains_key(k) implies entries_map(
        t,
    )[k] == m[k] by {
        lemma_domain(t, k);
        let j = choose|j: int| 0 <= j < t.len() && (#[trigger] t[j]).0@ == k;
        lemma_value(t, j);
        if j != i {
            lemma_value(s, j);
        }
    }
    assert(entries_map(t) =~= m);
}

/// An empty override table.
pub fn init_load_map() -> (r: LoadMap)
    ensures
        r.wf(),
        r@ == Map::<Seq<char>, Seq<char>>::empty(),
{
    LoadMap { entries: Vec::new() }
}

/// Records the override of a registered entity; the consumption `-1` records none.
pub fn register_override(map: &mut LoadMap, request: EntityRequest)
    requires
        old(map).wf(),
    ensures
        final(map).wf(),
        request.consumption@ == "-1"@ ==> final(map)@ == old(map)@,
        request.consumption@ != "-1"@ ==> final(map)@ == old(map)@.insert(
            request.entity_id@,
            request.consumption@,
        ),
{
    if !same_text(request.consumption.as_str(), "-1") {
        map.insert(request.entity_id, request.consumption);
    }
}

/// The consumption to report for an entity whose hub state is `state`. An entity with an
/// override draws it while its state is `on` and nothing otherwise; any other entity
/// reports its state, which must then be a number.
pub fn entity_consumption(map: &LoadMap, entity_id: &str, state: String, state_is_number: bool) -> (r:
    Result<EntityState, ApiError>)
    requires
        map.wf(),
    ensures
        map@.contains_key(entity_id@) ==> (r matches Ok(es) && es.entity_id@ == entity_id@
            && es.consumption@ == (if state@ == "on"@ {
            map@[entity_id@]
        } else {
            "0"@
        })),
        !map@.contains_key(entity_id@) && state_is_number ==> (r matches Ok(es) && es.entity_id@
            == entity_id@ && es.consumption == state),
        !map@.contains_key(entity_id@) && !state_is_number ==> r is Err,
        r matches Err(e) ==> e is LoadMap,
{
    match map.get(entity_id) {
        Some(value) => {
            let consumption = if same_text(state.as_str(), "on") {
                value
            } else {
                String::from_str("0")
            };
            Ok(EntityState { entity_id: String::from_str(entity_id), consumption })
        },
        None => {
            if state_is_number {
                Ok(EntityState { entity_id: String::from_str(entity_id), consumption: state })
            } else {
                Err(ApiError::LoadMap(String::from_str("Device not found in load map")))
            }
        },
    }
}

} // verus!
