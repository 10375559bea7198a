//! Scene Management
//!
//! Scenes as lists of serialized entities, each with its components stored
//! as JSON values by component name.

use vstd::prelude::*;
use crate::strmap::StrMap;
use crate::text::str_equals;

verus! {

#[verifier::external_type_specification]
#[verifier::external_body]
pub struct ExJsonValue(serde_json::Value);

/// The shape of a version 4 UUID in hyphenated form: 36 characters, hyphens
/// after the 8th, 12th, 16th and 20th hex digit, and the version digit `4`.
pub open spec fn is_hyphenated_v4(s: Seq<char>) -> bool {
    &&& s.len() == 36
    &&& s[8] == '-' && s[13] == '-' && s[18] == '-' && s[23] == '-'
    &&& s[14] == '4'
}

/// `uuid::Uuid::new_v4` written out with `to_string`: a fresh random id in
/// hyphenated form. Its random hex digits are left unsaid.
#[verifier::external_body]
fn random_uuid_string() -> (s: String)
    ensures
        is_hyphenated_v4(s@),
{
    uuid::Uuid::new_v4().to_string()
}

/// Scene data that can be saved and loaded
pub struct Scene {
    pub name: String,
    pub entities: Vec<SerializedEntity>,
    pub metadata: SceneMetadata,
}

#[derive(Debug, Clone)]
pub struct SceneMetadata {
    pub version: u32,
    pub author: String,
    pub description: String,
}

pub struct SerializedEntity {
    pub id: String,
    pub name: String,
    pub active: bool,
    pub layer: i32,
    pub components: StrMap<serde_json::Value>,
}

impl Default for SceneMetadata {
    fn default() -> (m: Self)
        ensures
            m.version == 1,
            m.author@ == Seq::<char>::empty(),
            m.description@ == Seq::<char>::empty(),
    {
        SceneMetadata { version: 1, author: String::new(), description: String::new() }
    }
}

/// The ids of a list of entities.
pub open spec fn entity_ids(es: Seq<SerializedEntity>) -> Seq<Seq<char>> {
    es.map_values(|e: SerializedEntity| e.id@)
}

/// The test that an entity's id is not `id`.
pub open spec fn id_differs(id: Seq<char>) -> spec_fn(SerializedEntity) -> bool {
    |e: SerializedEntity| e.id@ != id
}

/// The entities whose id is not `id`, in their order.
pub open spec fn without_id(es: Seq<SerializedEntity>, id: Seq<char>) -> Seq<SerializedEntity> {
    es.filter(id_differs(id))
}

/// The position of the first entity with id `id`.
pub open spec fn first_with_id(es: Seq<SerializedEntity>, id: Seq<char>, i: int) -> bool {
    0 <= i < es.len() && es[i].id@ == id && forall|j: int| 0 <= j < i ==> #[trigger] es[j].id@ != id
}

impl Scene {
    pub fn new(name: &str) -> (s: Self)
        ensures
            s.name@ == name@,
            s.entities@ == Seq::<SerializedEntity>::empty(),
            s.metadata.version == 1,
            s.metadata.author@ == Seq::<char>::empty(),
            s.metadata.description@ == Seq::<char>::empty(),
    {
        Scene { name: name.to_owned(), entities: Vec::new(), metadata: SceneMetadata::default() }
    }

    pub fn add_entity(&mut self, entity: SerializedEntity)
        ensures
            final(self).entities@ == old(self).entities@.push(entity),
            final(self).name == old(self).name,
            final(self).metadata == old(self).metadata,
    {
        self.entities.push(entity);
    }

    /// Removes every entity with id `id`; the others keep their order.
    pub fn remove_entity(&mut self, id: &str)
        ensures
            final(self).entities@ == without_id(old(self).entities@, id@),
            final(self).name == old(self).name,
            final(self).metadata == old(self).metadata,
    {
        let mut taken: Vec<SerializedEntity> = Vec::new();
        std::mem::swap(&mut taken, &mut self.entities);
        let ghost start = taken@;
        let ghost total = start.len();
        let mut kept: Vec<SerializedEntity> = Vec::new();
        proof {
            assert(start.skip(0) =~= start);
            reveal_with_fuel(Seq::<SerializedEntity>::filter, 1);
            assert(kept@ =~= without_id(start.take(0), id@));
        }
        while taken.len() > 0
            invariant
                total == start.len(),
                taken@.len() <= total,
                taken@ == start.skip(total - taken@.len()),
                kept@ == without_id(start.take(total - taken@.len()), id@),
                self.name == old(self).name,
                self.metadata == old(self).metadata,
            decreases taken@.len(),
        {
            let ghost n = total - taken@.len();
            let e = taken.remove(0);
            proof {
                assert(start[n] == e);
                assert(start.take(n + 1).drop_last() =~= start.take(n));
                assert(start.take(n + 1).last() == e);
                assert(taken@ =~= start.skip(n + 1));
            }
            if !str_equals(e.id.as_str(), id) {
                kept.push(e);
            }
            proof {
                let p = id_differs(id@);
                let t = start.take(n + 1);
                assert(p(e) == (e.id@ != id@));
                assert(t.len() > 0);
                reveal_with_fuel(Seq::<SerializedEntity>::filter, 1);
                assert(t.filter(p) == (if p(t.last()) {
                    t.drop_last().filter(p).push(t.last())
                } else {
                    t.drop_last().filter(p)
                }));
                assert(kept@ =~= without_id(start.take(n + 1), id@));
            }
        }
        proof {
            assert(start.take(total as int) =~= start);
        }
        self.entities = kept;
    }

    fn find(&self, id: &str) -> (r: Option<usize>)
        ensures
            match r {
                Some(i) => first_with_id(self.entities@, id@, i as int),
                None => forall|j: int| 0 <= j < self.entities@.len() ==> #[trigger] self.entities@[j].id@ != id@,
            },
    {
        let mut i: usize = 0;
        while i < self.entities.len()
            invariant
                i <= self.entities@.len(),
                forall|j: int| 0 <= j < i ==> #[trigger] self.entities@[j].id@ != id@,
            decreases self.entities@.len() - i,
        {
            if str_equals(self.entities[i].id.as_str(), id) {
                return Some(i);
            }
            i = i + 1;
        }
        None
    }

    /// The first entity with id `id`.
    pub fn get_entity(&self, id: &str) -> (r: Option<&SerializedEntity>)
        ensures
            match r {
                Some(e) => exists|i: int| first_with_id(self.entities@, id@, i) && self.entities@[i] == *e,
                None => forall|j: int| 0 <= j < self.entities@.len() ==> #[trigger] self.entities@[j].id@ != id@,
            },
    {
        match self.find(id) {
            Some(i) => Some(&self.entities[i]),
            None => None,
        }
    }

    /// The first entity with id `id`, to edit in place.
    pub fn get_entity_mut(&mut self, id: &str) -> (r: Option<&mut SerializedEntity>)
        ensures
            final(self).name == old(self).name,
            final(self).metadata == old(self).metadata,
            match r {
                Some(e) => exists|i: int|
                    {
                        &&& first_with_id(old(self).entities@, id@, i)
                        &&& old(self).entities@[i] == *e
                        &&& final(self).entities@ == old(self).entities@.update(i, *final(e))
                    },
                None => {
                    &&& forall|j: int| 0 <= j < old(self).entities@.len() ==> #[trigger] old(self).entities@[j].id@ != id@
                    &&& final(self).entities@ == old(self).entities@
                },
            },
    {
        match self.find(id) {
            Some(i) => Some(&mut self.entities[i]),
            None => None,
        }
    }

    /// The position of the first entity with id `id`, to edit it in place.
    pub fn entity_index(&self, id: &str) -> (r: Option<usize>)
        ensures
            match r {
                Some(i) => first_with_id(self.entities@, id@, i as int),
                None => forall|j: int| 0 <= j < self.entities@.len() ==> #[trigger] self.entities@[j].id@ != id@,
            },
    {
        self.find(id)
    }
}

impl SerializedEntity {
    /// A new active entity on layer 0, with a fresh random id and no components.
    pub fn new(name: &str) -> (e: Self)
        ensures
            is_hyphenated_v4(e.id@),
            e.name@ == name@,
            e.active,
            e.layer == 0,
            e.components@ == Map::<Seq<char>, serde_json::Value>::empty(),
    {
        SerializedEntity {
            id: random_uuid_string(),
            name: name.to_owned(),
            active: true,
            layer: 0,
            components: StrMap::new(),
        }
    }

    /// Stores `value` as the component called `component`.
    pub fn set_component(&mut self, component: &str, value: serde_json::Value)
        ensures
            final(self).components@ == old(self).components@.insert(component@, value),
            final(self).id == old(self).id,
            final(self).name == old(self).name,
            final(self).active == old(self).active,
            final(self).layer == old(self).layer,
    {
        self.components.insert(component.to_owned(), value);
    }
}

/// Law (removal is exact): after removing an id no entity has it, and every
/// entity with another id is still there, in the same order.
pub proof fn law_remove_entity(es: Seq<SerializedEntity>, id: Seq<char>)
    ensures
        forall|j: int| 0 <= j < without_id(es, id).len() ==> #[trigger] without_id(es, id)[j].id@ != id,
        forall|j: int|
            0 <= j < es.len() && #[trigger] es[j].id@ != id ==> without_id(es, id).contains(es[j]),
{
    assert forall|j: int| 0 <= j < without_id(es, id).len() implies #[trigger] without_id(es, id)[j].id@ != id by {
        es.lemma_filter_pred(id_differs(id), j);
    }
    assert forall|j: int| 0 <= j < es.len() && #[trigger] es[j].id@ != id implies without_id(es, id).contains(es[j]) by {
        es.lemma_filter_contains(id_differs(id), j);
    }
}

} // verus!
