//! Entity Component System (ECS)
//!
//! Provides a simple and efficient way to manage game entities and their
//! components. Components live in a `hecs` world; this module keeps the
//! bookkeeping around it: the serializable id of each entity, the reverse
//! lookup, and the names given to entities.

use vstd::prelude::*;
use std::collections::HashMap;
use hecs::World as HecsWorld;
use crate::strmap::StrMap;

verus! {

broadcast use vstd::std_specs::hash::group_hash_axioms;

#[verifier::external_type_specification]
#[verifier::external_body]
pub struct ExHecsWorld(HecsWorld);

#[verifier::external_type_specification]
#[verifier::external_body]
pub struct ExHecsEntity(hecs::Entity);

#[verifier::external_type_specification]
#[verifier::external_body]
pub struct ExHecsEntityBuilder(hecs::EntityBuilder);

#[verifier::external_type_specification]
#[verifier::external_body]
pub struct ExUuid(uuid::Uuid);

/// The 64-bit pattern of a `hecs` entity (`Entity::to_bits`).
pub uninterp spec fn entity_bits(e: hecs::Entity) -> u64;

/// The smallest bit pattern of a live entity: its generation, in the upper
/// 32 bits, is never zero.
pub open spec fn min_entity_bits() -> u64 {
    0x1_0000_0000
}

/// The entities alive in a `hecs` world, as entity bits (`Entity::to_bits`):
/// those that `World::contains` reports.
pub uninterp spec fn live_entities(w: HecsWorld) -> Set<u64>;

/// `hecs::World::new`: an empty component store.
#[verifier::external_body]
fn ecs_new() -> (w: HecsWorld)
    ensures
        live_entities(w) == Set::<u64>::empty(),
{
    HecsWorld::new()
}

/// `hecs::EntityBuilder::new` followed by `add_bundle`: the components of
/// `components`, gathered one per type. The builder keeps the last component
/// of a type that the bundle holds twice (a plain `World::spawn` panics on
/// such a bundle).
#[verifier::external_body]
fn bundle_builder<C: hecs::DynamicBundle>(components: C) -> hecs::EntityBuilder {
    let mut builder = hecs::EntityBuilder::new();
    builder.add_bundle(components);
    builder
}

/// `hecs::World::spawn` of the built bundle (`EntityBuilder::build`): stores
/// the builder's components under a new entity, which it returns: one that
/// was not alive before (a fresh index, or a freed index with its generation
/// moved on). hecs panics once it has handed out 2^32 entity indices; that
/// bound on the store's history is left unsaid.
#[verifier::external_body]
fn ecs_spawn(ecs: &mut HecsWorld, builder: &mut hecs::EntityBuilder) -> (e: hecs::Entity)
    ensures
        !live_entities(*old(ecs)).contains(entity_bits(e)),
        live_entities(*final(ecs)) == live_entities(*old(ecs)).insert(entity_bits(e)),
{
    ecs.spawn(builder.build())
}

/// `hecs::World::despawn`: destroys an entity and its components; false, and
/// nothing changes, when the entity was not alive.
#[verifier::external_body]
fn ecs_despawn(ecs: &mut HecsWorld, entity: hecs::Entity) -> (r: bool)
    ensures
        r == live_entities(*old(ecs)).contains(entity_bits(entity)),
        live_entities(*final(ecs)) == live_entities(*old(ecs)).remove(entity_bits(entity)),
{
    ecs.despawn(entity).is_ok()
}

/// `hecs::World::query_one_mut::<&T>`: a shared reference to component `T`
/// of an entity, with the borrow checked statically (no run-time borrow
/// flags); `None` when the entity is not alive or lacks the component. No
/// entity is created or destroyed.
#[verifier::external_body]
fn ecs_get<'a, T: hecs::Component>(ecs: &'a mut HecsWorld, entity: hecs::Entity) -> (r: Option<&'a T>)
    ensures
        r is Some ==> live_entities(*old(ecs)).contains(entity_bits(entity)),
        live_entities(*final(ecs)) == live_entities(*old(ecs)),
{
    ecs.query_one_mut::<&T>(entity).ok()
}

/// `hecs::World::query_one_mut::<&mut T>`: a unique reference to component
/// `T` of an entity, with the borrow checked statically; `None` when the
/// entity is not alive or lacks the component. Changing the component creates
/// or destroys no entity.
#[verifier::external_body]
fn ecs_get_mut<'a, T: hecs::Component>(ecs: &'a mut HecsWorld, entity: hecs::Entity) -> (r: Option<&'a mut T>)
    ensures
        r is Some ==> live_entities(*old(ecs)).contains(entity_bits(entity)),
        live_entities(*final(ecs)) == live_entities(*old(ecs)),
{
    ecs.query_one_mut::<&mut T>(entity).ok()
}

/// `hecs::World::insert_one`: adds (or replaces) a component; false when the
/// entity is not alive. No entity is created or destroyed.
#[verifier::external_body]
fn ecs_insert_one<T: hecs::Component>(ecs: &mut HecsWorld, entity: hecs::Entity, component: T) -> (r: bool)
    ensures
        r == live_entities(*old(ecs)).contains(entity_bits(entity)),
        live_entities(*final(ecs)) == live_entities(*old(ecs)),
{
    ecs.insert_one(entity, component).is_ok()
}

/// `hecs::World::remove_one`: takes component `T` off an entity, if it is
/// alive and has one. No entity is created or destroyed.
#[verifier::external_body]
fn ecs_remove_one<T: hecs::Component>(ecs: &mut HecsWorld, entity: hecs::Entity) -> (r: Option<T>)
    ensures
        r is Some ==> live_entities(*old(ecs)).contains(entity_bits(entity)),
        live_entities(*final(ecs)) == live_entities(*old(ecs)),
{
    ecs.remove_one::<T>(entity).ok()
}

/// `hecs::World::clear`: despawns every entity.
#[verifier::external_body]
fn ecs_clear(ecs: &mut HecsWorld)
    ensures
        live_entities(*final(ecs)) == Set::<u64>::empty(),
{
    ecs.clear()
}

/// `hecs::Entity::to_bits`: the generation in the upper 32 bits (never zero)
/// and the index in the lower 32 bits.
#[verifier::external_body]
fn entity_to_bits(e: hecs::Entity) -> (bits: u64)
    ensures
        bits == entity_bits(e),
        bits >= min_entity_bits(),
{
    e.to_bits().get()
}

/// `hecs::Entity::from_bits`: the entity whose `to_bits` is `bits`, or `None`
/// when the upper 32 bits are zero.
#[verifier::external_body]
fn entity_from_bits(bits: u64) -> (e: Option<hecs::Entity>)
    ensures
        e is Some <==> bits >= min_entity_bits(),
        e matches Some(ent) ==> entity_bits(ent) == bits,
{
    hecs::Entity::from_bits(bits)
}

/// The 128 bits of a UUID, most significant byte first (`Uuid::as_u128`).
pub uninterp spec fn uuid_value(u: uuid::Uuid) -> u128;

/// The bits of a version 4 (random) UUID: version nibble 4, RFC 4122 variant.
pub open spec fn is_v4_bits(bits: u128) -> bool {
    (bits >> 76u128) & 0xfu128 == 4 && (bits >> 62u128) & 0x3u128 == 2
}

/// `uuid::Uuid::new_v4` read as a `u128` (`Uuid::as_u128`): random bits with
/// the version and variant fields of a version 4 UUID set; the other bits are
/// left unsaid, as they come from a random number generator.
#[verifier::external_body]
fn random_uuid_bits() -> (bits: u128)
    ensures
        is_v4_bits(bits),
{
    uuid::Uuid::new_v4().as_u128()
}

/// `uuid::Uuid::as_u128`: the 128 bits of a UUID.
#[verifier::external_body]
fn uuid_bits(u: &uuid::Uuid) -> (bits: u128)
    ensures
        bits == uuid_value(*u),
{
    u.as_u128()
}

/// `uuid::Uuid::from_u128`: the UUID with the given 128 bits, which
/// `as_u128` reads back.
#[verifier::external_body]
fn uuid_from_bits(bits: u128) -> (u: uuid::Uuid)
    ensures
        uuid_value(u) == bits,
{
    uuid::Uuid::from_u128(bits)
}

/// A unique identifier for entities that can be serialized: the 128 bits of a UUID.
#[derive(Debug, Clone, Copy, PartialEq, Eq, Hash, Structural)]
pub struct EntityId {
    bits: u128,
}

impl EntityId {
    /// The 128 bits of the id.
    pub closed spec fn id(&self) -> u128 {
        self.bits
    }

    /// A new random id (a version 4 UUID).
    pub fn new() -> (id: Self)
        ensures
            is_v4_bits(id.id()),
    {
        EntityId { bits: random_uuid_bits() }
    }

    /// The id made of the bits of `uuid`.
    pub fn from_uuid(uuid: uuid::Uuid) -> (id: Self)
        ensures
            id.id() == uuid_value(uuid),
    {
        EntityId { bits: uuid_bits(&uuid) }
    }

    /// The id as a UUID.
    pub fn uuid(&self) -> (u: uuid::Uuid)
        ensures
            uuid_value(u) == self.id(),
    {
        uuid_from_bits(self.bits)
    }
}

impl Default for EntityId {
    fn default() -> (id: Self)
        ensures
            is_v4_bits(id.id()),
    {
        Self::new()
    }
}

/// Game world containing all entities and systems
pub struct World {
    /// The underlying ECS world
    pub ecs: HecsWorld,
    /// Mapping from serializable IDs to ECS entities (as entity bits)
    id_map: HashMap<u128, u64>,
    /// Reverse mapping for lookups
    entity_to_id: HashMap<u64, u128>,
    /// Named entities for easy access
    named_entities: StrMap<EntityId>,
}

impl World {
    /// The entities, as entity bits by id.
    pub closed spec fn entities(&self) -> Map<u128, u64> {
        self.id_map@
    }

    /// The ids, by entity bits.
    pub closed spec fn entity_ids(&self) -> Map<u64, u128> {
        self.entity_to_id@
    }

    /// The named entities.
    pub closed spec fn names(&self) -> Map<Seq<char>, EntityId> {
        self.named_entities@
    }

    /// Every recorded entity has valid bits and is alive in the store, and no
    /// two ids record the same entity.
    pub closed spec fn wf(&self) -> bool {
        &&& forall|id: u128| #[trigger] self.id_map@.contains_key(id) ==> {
            &&& self.id_map@[id] >= min_entity_bits()
            &&& live_entities(self.ecs).contains(self.id_map@[id])
        }
        &&& forall|a: u128, b: u128|
            #[trigger] self.id_map@.contains_key(a) && #[trigger] self.id_map@.contains_key(b) && a != b
                ==> self.id_map@[a] != self.id_map@[b]
    }

    /// Create a new empty world
    pub fn new() -> (w: Self)
        ensures
            w.wf(),
            w.entities() == Map::<u128, u64>::empty(),
            w.entity_ids() == Map::<u64, u128>::empty(),
            w.names() == Map::<Seq<char>, EntityId>::empty(),
    {
        World { ecs: ecs_new(), id_map: HashMap::new(), entity_to_id: HashMap::new(), named_entities: StrMap::new() }
    }

    /// Spawn a new entity with components; it gets a fresh random id.
    pub fn spawn<C: hecs::DynamicBundle>(&mut self, components: C) -> (id: EntityId)
        requires
            old(self).wf(),
        ensures
            final(self).wf(),
            final(self).entities().contains_key(id.id()),
            final(self).entities() == old(self).entities().insert(id.id(), final(self).entities()[id.id()]),
            final(self).entity_ids() == old(self).entity_ids().insert(
                final(self).entities()[id.id()],
                id.id(),
            ),
            final(self).names() == old(self).names(),
    {
        let mut builder = bundle_builder(components);
        let entity = ecs_spawn(&mut self.ecs, &mut builder);
        let bits = entity_to_bits(entity);
        let id = EntityId::new();
        self.id_map.insert(id.bits, bits);
        self.entity_to_id.insert(bits, id.bits);
        id
    }

    /// Spawn a named entity
    pub fn spawn_named<C: hecs::DynamicBundle>(&mut self, name: &str, components: C) -> (id: EntityId)
        requires
            old(self).wf(),
        ensures
            final(self).wf(),
            final(self).entities().contains_key(id.id()),
            final(self).entities() == old(self).entities().insert(id.id(), final(self).entities()[id.id()]),
            final(self).entity_ids() == old(self).entity_ids().insert(
                final(self).entities()[id.id()],
                id.id(),
            ),
            final(self).names() == old(self).names().insert(name@, id),
    {
        let id = self.spawn(components);
        self.named_entities.insert(name.to_owned(), id);
        id
    }

    /// Get entity by its ID
    pub fn get_entity(&self, id: EntityId) -> (e: Option<hecs::Entity>)
        requires
            self.wf(),
        ensures
            match e {
                Some(ent) => self.entities().contains_key(id.id()) && entity_bits(ent) == self.entities()[id.id()],
                None => !self.entities().contains_key(id.id()),
            },
    {
        match self.id_map.get(&id.bits) {
            Some(bits) => entity_from_bits(*bits),
            None => None,
        }
    }

    /// Get entity by name
    pub fn get_named(&self, name: &str) -> (r: Option<EntityId>)
        ensures
            match r {
                Some(id) => self.names().contains_key(name@) && self.names()[name@] == id,
                None => !self.names().contains_key(name@),
            },
    {
        match self.named_entities.get(name) {
            Some(id) => Some(*id),
            None => None,
        }
    }

    /// Get the ID for an entity
    pub fn get_id(&self, entity: hecs::Entity) -> (r: Option<EntityId>)
        ensures
            match r {
                Some(id) => self.entity_ids().contains_key(entity_bits(entity)) && self.entity_ids()[entity_bits(
                    entity,
                )] == id.id(),
                None => !self.entity_ids().contains_key(entity_bits(entity)),
            },
    {
        let bits = entity_to_bits(entity);
        match self.entity_to_id.get(&bits) {
            Some(b) => Some(EntityId { bits: *b }),
            None => None,
        }
    }

    /// Despawn an entity: its id, its reverse entry and every name given to it
    /// go; the components go with the entity.
    pub fn despawn(&mut self, id: EntityId) -> (r: bool)
        requires
            old(self).wf(),
        ensures
            final(self).wf(),
            !old(self).entities().contains_key(id.id()) ==> !r && final(self).entities() == old(
                self,
            ).entities() && final(self).entity_ids() == old(self).entity_ids() && final(self).names()
                == old(self).names(),
            old(self).entities().contains_key(id.id()) ==> {
                &&& r
                &&& final(self).entities() == old(self).entities().remove(id.id())
                &&& final(self).entity_ids() == old(self).entity_ids().remove(
                    old(self).entities()[id.id()],
                )
                &&& final(self).names() == names_without(old(self).names(), id)
            },
    {
        match self.id_map.remove(&id.bits) {
            Some(bits) => {
                self.entity_to_id.remove(&bits);
                // Remove from named entities if present
                self.forget_names_of(id);
                match entity_from_bits(bits) {
                    Some(entity) => {
                        let r = ecs_despawn(&mut self.ecs, entity);
                        proof {
                            assert forall|k: u128| #[trigger] self.id_map@.contains_key(k) implies {
                                &&& self.id_map@[k] >= min_entity_bits()
                                &&& live_entities(self.ecs).contains(self.id_map@[k])
                            } by {
                                assert(old(self).id_map@.contains_key(k) && old(self).id_map@.contains_key(id.bits));
                                assert(k != id.bits);
                            }
                        }
                        r
                    },
                    None => false,
                }
            },
            None => {
                proof {
                    assert(self.id_map@ =~= old(self).id_map@);
                }
                false
            },
        }
    }

    /// Removes every name that refers to `id`.
    fn forget_names_of(&mut self, id: EntityId)
        ensures
            final(self).names() == names_without(old(self).names(), id),
            final(self).id_map@ == old(self).id_map@,
            final(self).entity_to_id@ == old(self).entity_to_id@,
            final(self).ecs == old(self).ecs,
    {
        let keys = self.named_entities.keys();
        let ghost start = self.named_entities@;
        let ghost ks = keys@.map_values(|s: String| s@);
        let mut i: usize = 0;
        proof {
            assert(start =~= names_without_first(start, ks, id, 0));
        }
        while i < keys.len()
            invariant
                i <= keys@.len(),
                ks == keys@.map_values(|s: String| s@),
                forall|j: int| 0 <= j < ks.len() ==> start.contains_key(#[trigger] ks[j]),
                forall|a: int, b: int| 0 <= a < ks.len() && 0 <= b < ks.len() && a != b ==> #[trigger] ks[a] != #[trigger] ks[b],
                self.named_entities@ == names_without_first(start, ks, id, i as int),
                self.id_map@ == old(self).id_map@,
                self.entity_to_id@ == old(self).entity_to_id@,
                self.ecs == old(self).ecs,
            decreases keys@.len() - i,
        {
            let ghost cur = self.named_entities@;
            let ghost k = ks[i as int];
            proof {
                assert(keys@[i as int]@ == k);
                assert forall|j: int| 0 <= j < i implies ks[j] != k by {}
                assert(cur.contains_key(k));
                assert(cur[k] == start[k]);
            }
            let matches = match self.named_entities.get(keys[i].as_str()) {
                Some(v) => v.bits == id.bits,
                None => false,
            };
            if matches {
                self.named_entities.remove(keys[i].as_str());
            }
            proof {
                assert(self.named_entities@ =~= names_without_first(start, ks, id, i + 1));
            }
            i = i + 1;
        }
        proof {
            assert forall|k: Seq<char>| #[trigger] start.contains_key(k) implies exists|j: int|
                0 <= j < ks.len() && ks[j] == k by {
                let j = choose|j: int| 0 <= j < keys@.len() && #[trigger] keys@[j]@ == k;
                assert(ks[j] == k);
            }
            assert(names_without_first(start, ks, id, ks.len() as int) =~= names_without(start, id));
        }
    }

    /// Get a component from an entity (the world is borrowed uniquely while the reference lives)
    pub fn get<T: hecs::Component>(&mut self, id: EntityId) -> (r: Option<&T>)
        requires
            old(self).wf(),
        ensures
            r is Some ==> old(self).entities().contains_key(id.id()),
            final(self).wf(),
            final(self).entities() == old(self).entities(),
            final(self).entity_ids() == old(self).entity_ids(),
            final(self).names() == old(self).names(),
    {
        match self.id_map.get(&id.bits) {
            Some(bits) => match entity_from_bits(*bits) {
                Some(entity) => ecs_get::<T>(&mut self.ecs, entity),
                None => None,
            },
            None => None,
        }
    }

    /// Get a mutable component from an entity
    pub fn get_mut<T: hecs::Component>(&mut self, id: EntityId) -> (r: Option<&mut T>)
        requires
            old(self).wf(),
        ensures
            r is Some ==> old(self).entities().contains_key(id.id()),
            final(self).wf(),
            final(self).entities() == old(self).entities(),
            final(self).entity_ids() == old(self).entity_ids(),
            final(self).names() == old(self).names(),
    {
        match self.id_map.get(&id.bits) {
            Some(bits) => match entity_from_bits(*bits) {
                Some(entity) => ecs_get_mut::<T>(&mut self.ecs, entity),
                None => None,
            },
            None => None,
        }
    }

    /// Add (or replace) a component of an entity: true exactly when the id is recorded
    pub fn add_component<T: hecs::Component>(&mut self, id: EntityId, component: T) -> (r: bool)
        requires
            old(self).wf(),
        ensures
            final(self).wf(),
            r == old(self).entities().contains_key(id.id()),
            final(self).entities() == old(self).entities(),
            final(self).entity_ids() == old(self).entity_ids(),
            final(self).names() == old(self).names(),
    {
        match self.id_map.get(&id.bits) {
            Some(bits) => match entity_from_bits(*bits) {
                Some(entity) => ecs_insert_one(&mut self.ecs, entity, component),
                None => false,
            },
            None => false,
        }
    }

    /// Remove a component from an entity
    pub fn remove_component<T: hecs::Component>(&mut self, id: EntityId) -> (r: Option<T>)
        requires
            old(self).wf(),
        ensures
            final(self).wf(),
            r is Some ==> old(self).entities().contains_key(id.id()),
            final(self).entities() == old(self).entities(),
            final(self).entity_ids() == old(self).entity_ids(),
            final(self).names() == old(self).names(),
    {
        match self.id_map.get(&id.bits) {
            Some(bits) => match entity_from_bits(*bits) {
                Some(entity) => ecs_remove_one::<T>(&mut self.ecs, entity),
                None => None,
            },
            None => None,
        }
    }

    /// Get the count of entities
    pub fn entity_count(&self) -> (n: usize)
        ensures
            n == self.entities().len(),
    {
        self.id_map.len()
    }

    /// Clear all entities
    pub fn clear(&mut self)
        ensures
            final(self).wf(),
            final(self).entities() == Map::<u128, u64>::empty(),
            final(self).entity_ids() == Map::<u64, u128>::empty(),
            final(self).names() == Map::<Seq<char>, EntityId>::empty(),
    {
        ecs_clear(&mut self.ecs);
        self.id_map.clear();
        self.entity_to_id.clear();
        self.named_entities.clear();
    }

    /// The ids of all entities, each once, in the order the id map walks them.
    pub fn iter_ids(&self) -> (ids: Vec<EntityId>)
        ensures
            ids@.len() == self.entities().len(),
            forall|i: int, j: int| 0 <= i < j < ids@.len() ==> ids@[i] != ids@[j],
            forall|i: int| 0 <= i < ids@.len() ==> self.entities().contains_key(#[trigger] ids@[i].id()),
            forall|k: u128| #[trigger] self.entities().contains_key(k) ==> exists|i: int|
                0 <= i < ids@.len() && ids@[i].id() == k,
    {
        let mut ids: Vec<EntityId> = Vec::new();
        for k in it: self.id_map.keys()
            invariant
                ids@.len() == it.index(),
                forall|i: int| 0 <= i < it.index() ==> #[trigger] ids@[i].id() == it.seq().unref()[i],
                it.seq().unref().to_set() == self.id_map@.dom(),
                it.seq().unref().no_duplicates(),
                it.seq().len() == self.id_map@.dom().len(),
                forall|k: u128| #[trigger] self.id_map@.contains_key(k) ==> (exists|i: int|
                    0 <= i < ids@.len() && ids@[i].id() == k) || (exists|j: int|
                    it.index() <= j < it.seq().len() && it.seq().unref()[j] == k),
        {
            let ghost s = it.seq().unref();
            let ghost n = it.index();
            let ghost before = ids@;
            ids.push(EntityId { bits: *k });
            proof {
                assert(*k == s[n]);
                assert forall|q: u128| #[trigger] self.id_map@.contains_key(q) implies (exists|i: int|
                    0 <= i < ids@.len() && ids@[i].id() == q) || (exists|j: int|
                    n + 1 <= j < s.len() && s[j] == q) by {
                    if exists|i: int| 0 <= i < n && before[i].id() == q {
                        let i = choose|i: int| 0 <= i < n && before[i].id() == q;
                        assert(ids@[i].id() == q);
                    } else {
                        let j = choose|j: int| n <= j < s.len() && s[j] == q;
                        if j == n {
                            assert(ids@[n].id() == q);
                        } else {
                            assert(n + 1 <= j < s.len() && s[j] == q);
                        }
                    }
                }
            }
        }
        proof {
            assert forall|i: int, j: int| 0 <= i < j < ids@.len() implies ids@[i] != ids@[j] by {
                assert(ids@[i].id() != ids@[j].id());
            }
        }
        ids
    }
}

/// `names` without the names that refer to `id`.
pub open spec fn names_without(names: Map<Seq<char>, EntityId>, id: EntityId) -> Map<Seq<char>, EntityId> {
    names.restrict(names.dom().filter(|k: Seq<char>| names[k] != id))
}

/// `names` without the names, among the first `n` of `keys`, that refer to `id`.
pub open spec fn names_without_first(
    names: Map<Seq<char>, EntityId>,
    keys: Seq<Seq<char>>,
    id: EntityId,
    n: int,
) -> Map<Seq<char>, EntityId> {
    names.restrict(
        names.dom().filter(|k: Seq<char>| !(names[k] == id && exists|j: int| 0 <= j < n && keys[j] == k)),
    )
}

impl Default for World {
    fn default() -> (w: Self)
        ensures
            w.wf(),
            w.entities() == Map::<u128, u64>::empty(),
            w.entity_ids() == Map::<u64, u128>::empty(),
            w.names() == Map::<Seq<char>, EntityId>::empty(),
    {
        Self::new()
    }
}

/// Common component: Name
#[derive(Debug, Clone)]
pub struct Name(pub String);

impl From<&str> for Name {
    fn from(s: &str) -> (n: Self)
        ensures
            n.0@ == s@,
    {
        Name(s.to_owned())
    }
}

impl vstd::std_specs::convert::FromSpecImpl<&str> for Name {
    open spec fn obeys_from_spec() -> bool {
        false
    }

    open spec fn from_spec(v: &str) -> Name {
        arbitrary()
    }
}

/// Common component: Tag for grouping entities
#[derive(Debug, Clone)]
pub struct Tag(pub String);

/// Common component: Active state
#[derive(Debug, Clone, Copy, PartialEq, Eq, Structural)]
pub struct Active(pub bool);

impl Active {
    pub fn enabled() -> (a: Self)
        ensures
            a.0,
    {
        Active(true)
    }

    pub fn disabled() -> (a: Self)
        ensures
            !a.0,
    {
        Active(false)
    }
}

impl Default for Active {
    fn default() -> (a: Self)
        ensures
            !a.0,
    {
        Active(false)
    }
}

/// Common component: Layer for rendering order
#[derive(Debug, Clone, Copy, PartialEq, Eq, Structural)]
pub struct Layer(pub i32);

impl Default for Layer {
    fn default() -> (l: Self)
        ensures
            l.0 == 0,
    {
        Layer(0)
    }
}

/// Law (names lead back to their entity, and go with it): after
/// `spawn_named(name, ..)` returns `id`, `get_named(name)` gives `id`; after
/// `despawn(id)` no name refers to `id` and every other name is kept.
pub proof fn law_names_follow_entities(
    before: World,
    named: World,
    after: World,
    name: Seq<char>,
    id: EntityId,
    other: Seq<char>,
)
    requires
        named.names() == before.names().insert(name, id),
        named.entities().contains_key(id.id()),
        named.entities().contains_key(id.id()) ==> after.names() == names_without(named.names(), id),
    ensures
        named.names().contains_key(name) && named.names()[name] == id,
        forall|k: Seq<char>| #[trigger] after.names().contains_key(k) ==> after.names()[k] != id,
        named.names().contains_key(other) && named.names()[other] != id ==> after.names().contains_key(other)
            && after.names()[other] == named.names()[other],
{
}

/// Law (despawning undoes a spawn): despawning the id that `spawn` just
/// returned succeeds and leaves the world's entities as they were before the
/// spawn, provided the fresh random id was not already recorded.
pub proof fn law_spawn_then_despawn(before: World, spawned: World, after: World, id: EntityId, r: bool)
    requires
        !before.entities().contains_key(id.id()),
        spawned.entities().contains_key(id.id()),
        spawned.entities() == before.entities().insert(id.id(), spawned.entities()[id.id()]),
        spawned.entities().contains_key(id.id()) ==> r && after.entities() == spawned.entities().remove(id.id()),
    ensures
        r,
        after.entities() == before.entities(),
{
    assert(after.entities() =~= before.entities());
}

} // verus!
