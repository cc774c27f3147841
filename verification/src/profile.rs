//! A profile: its bindings, one action per key, and its lighting.

use vstd::prelude::*;
use crate::types::{
    key_at, key_index, key_wire_name, lemma_key_at_total, lemma_key_index_roundtrip, Action,
    ActionModel, DeviceModel, GameId, KeyId, Lighting, KEY_COUNT,
};
use crate::text::str_eq;

verus! {

/// A map from keys to actions. Each key holds at most one action, and keys
/// are visited in declaration order.
#[derive(Debug)]
pub struct Bindings {
    slots: Vec<Option<Action>>,
}

pub open spec fn slot_model(slot: Option<Action>) -> Option<ActionModel> {
    match slot {
        Some(a) => Some(a@),
        None => None,
    }
}

impl Bindings {
    #[verifier::type_invariant]
    spec fn wf(self) -> bool {
        self.slots.len() == KEY_COUNT
    }

    /// The action bound to a key, if any.
    pub closed spec fn slot(&self, k: KeyId) -> Option<ActionModel> {
        slot_model(self.slots@[key_index(k)])
    }
}

impl View for Bindings {
    type V = Map<KeyId, ActionModel>;

    open spec fn view(&self) -> Map<KeyId, ActionModel> {
        Map::new(|k: KeyId| self.slot(k) is Some, |k: KeyId| self.slot(k)->0)
    }
}

impl Bindings {
    pub fn new() -> (b: Bindings)
        ensures b@ == Map::<KeyId, ActionModel>::empty(),
    {
        let mut slots: Vec<Option<Action>> = Vec::new();
        let mut i: usize = 0;
        while i < KEY_COUNT
            invariant i <= KEY_COUNT, slots.len() == i,
                forall|j: int| 0 <= j < i ==> #[trigger] slots@[j] is None,
            decreases KEY_COUNT - i,
        {
            slots.push(None);
            i += 1;
        }
        let b = Bindings { slots };
        assert(b@ =~= Map::<KeyId, ActionModel>::empty());
        b
    }

    pub fn get(&self, k: KeyId) -> (r: Option<&Action>)
        ensures
            r is Some == self@.contains_key(k),
            r is Some ==> r->0@ == self@[k],
    {
        proof { use_type_invariant(self); }
        match &self.slots[k.index()] {
            Some(a) => Some(a),
            None => None,
        }
    }

    pub fn contains_key(&self, k: KeyId) -> (r: bool)
        ensures r == self@.contains_key(k),
    {
        proof { use_type_invariant(self); }
        self.slots[k.index()].is_some()
    }

    /// Binds `action` to `k`, and hands back what was bound there before.
    pub fn insert(&mut self, k: KeyId, action: Action) -> (old_action: Option<Action>)
        ensures
            final(self)@ == old(self)@.insert(k, action@),
            slot_model(old_action) == if old(self)@.contains_key(k) { Some(old(self)@[k]) } else { None },
    {
        proof { use_type_invariant(&*self); }
        let ghost a = action@;
        let i = k.index();
        let mut taken = Bindings::new();
        std::mem::swap(self, &mut taken);
        let Bindings { mut slots } = taken;
        let mut prev: Option<Action> = Some(action);
        slots.set_and_swap(i, &mut prev);
        *self = Bindings { slots };
        proof {
            assert forall|j: KeyId| #[trigger] self.slot(j) == (if j == k { Some(a) } else { old(self).slot(j) }) by {
                if j != k {
                    lemma_key_index_roundtrip(j);
                    lemma_key_index_roundtrip(k);
                }
            }
            assert(self@ =~= old(self)@.insert(k, a));
        }
        prev
    }

    /// Unbinds `k`, and hands back what was bound there.
    pub fn remove(&mut self, k: KeyId) -> (old_action: Option<Action>)
        ensures
            final(self)@ == old(self)@.remove(k),
            slot_model(old_action) == if old(self)@.contains_key(k) { Some(old(self)@[k]) } else { None },
    {
        proof { use_type_invariant(&*self); }
        let i = k.index();
        let mut taken = Bindings::new();
        std::mem::swap(self, &mut taken);
        let Bindings { mut slots } = taken;
        let mut prev: Option<Action> = None;
        slots.set_and_swap(i, &mut prev);
        *self = Bindings { slots };
        proof {
            assert forall|j: KeyId| #[trigger] self.slot(j) == (if j == k { None } else { old(self).slot(j) }) by {
                if j != k {
                    lemma_key_index_roundtrip(j);
                    lemma_key_index_roundtrip(k);
                }
            }
            assert(self@ =~= old(self)@.remove(k));
        }
        prev
    }

    /// The bound keys, in declaration order.
    pub fn keys(&self) -> (r: Vec<KeyId>)
        ensures
            forall|k: KeyId| r@.contains(k) <==> self@.contains_key(k),
            forall|i: int, j: int| 0 <= i < j < r@.len() ==> key_index(r@[i]) < key_index(r@[j]),
    {
        proof { use_type_invariant(self); }
        let mut r: Vec<KeyId> = Vec::new();
        let mut i: usize = 0;
        while i < KEY_COUNT
            invariant
                i <= KEY_COUNT,
                self.slots.len() == KEY_COUNT,
                forall|k: KeyId| r@.contains(k) <==> (key_index(k) < i && self.slot(k) is Some),
                forall|a: int, b: int| 0 <= a < b < r@.len() ==> key_index(r@[a]) < key_index(r@[b]),
                forall|a: int| 0 <= a < r@.len() ==> key_index(#[trigger] r@[a]) < i,
            decreases KEY_COUNT - i,
        {
            let k = KeyId::from_index(i).unwrap();
            proof {
                lemma_key_at_total(i as int);
            }
            if self.slots[i].is_some() {
                let ghost r0 = r@;
                r.push(k);
                proof {
                    assert forall|q: KeyId| r@.contains(q) <==> (key_index(q) < i + 1 && self.slot(q) is Some) by {
                        lemma_key_index_roundtrip(q);
                        if q == k {
                            assert(r@[r@.len() - 1] == k);
                        }
                        if r@.contains(q) && q != k {
                            let w = choose|w: int| 0 <= w < r@.len() && r@[w] == q;
                            assert(w < r@.len() - 1);
                            assert(r0.contains(q)) by { assert(r0[w] == q); }
                        }
                        if key_index(q) < i && self.slot(q) is Some {
                            assert(r0.contains(q));
                            let w = choose|w: int| 0 <= w < r0.len() && r0[w] == q;
                            assert(r@[w] == q);
                        }
                    }
                }
            } else {
                proof {
                    assert forall|q: KeyId| r@.contains(q) <==> (key_index(q) < i + 1 && self.slot(q) is Some) by {
                        lemma_key_index_roundtrip(q);
                    }
                }
            }
            i += 1;
        }
        r
    }

    /// The number of bound keys.
    pub fn len(&self) -> (n: usize)
        ensures n == self@.dom().len(),
    {
        proof { use_type_invariant(self); }
        let mut n: usize = 0;
        let mut i: usize = 0;
        let ghost mut seen: Set<KeyId> = Set::empty();
        while i < KEY_COUNT
            invariant
                i <= KEY_COUNT,
                self.slots.len() == KEY_COUNT,
                seen.finite(),
                n == seen.len(),
                n <= i,
                forall|k: KeyId| seen.contains(k) <==> (key_index(k) < i && self.slot(k) is Some),
            decreases KEY_COUNT - i,
        {
            let ghost k = key_at(i as int)->0;
            proof {
                lemma_key_at_total(i as int);
            }
            if self.slots[i].is_some() {
                proof {
                    assert(!seen.contains(k));
                    seen = seen.insert(k);
                    assert forall|q: KeyId| seen.contains(q) <==> (key_index(q) < i + 1 && self.slot(q) is Some) by {
                        lemma_key_index_roundtrip(q);
                    }
                }
                n += 1;
            } else {
                proof {
                    assert forall|q: KeyId| seen.contains(q) <==> (key_index(q) < i + 1 && self.slot(q) is Some) by {
                        lemma_key_index_roundtrip(q);
                    }
                }
            }
            i += 1;
        }
        proof {
            assert forall|q: KeyId| seen.contains(q) <==> self@.dom().contains(q) by {
                lemma_key_index_roundtrip(q);
            }
            assert(seen =~= self@.dom());
        }
        n
    }

    pub fn is_empty(&self) -> (r: bool)
        ensures r == (self@.dom().len() == 0),
    {
        self.len() == 0
    }

    /// A copy with the same bindings.
    pub fn duplicate(&self) -> (r: Bindings)
        ensures r@ == self@,
    {
        self.filter_for_model(None)
    }

    /// The bindings whose key passes the model filter: the V2 has no
    /// analog stick and the Pro has no thumb pad. With no model, every
    /// binding passes.
    pub fn filter_for_model(&self, model: Option<DeviceModel>) -> (r: Bindings)
        ensures
            r@ == self@.restrict(Set::new(|k: KeyId| key_fits_model(k, model))),
    {
        proof { use_type_invariant(self); }
        let mut slots: Vec<Option<Action>> = Vec::new();
        let mut i: usize = 0;
        while i < KEY_COUNT
            invariant
                i <= KEY_COUNT,
                self.slots.len() == KEY_COUNT,
                slots.len() == i,
                forall|j: int| 0 <= j < i ==> slot_model(#[trigger] slots@[j]) == (
                    match key_at(j) {
                        Some(k) => if key_fits_model(k, model) { slot_model(self.slots@[j]) } else { None },
                        None => None,
                    }),
            decreases KEY_COUNT - i,
        {
            let k = KeyId::from_index(i).unwrap();
            proof { lemma_key_at_total(i as int); }
            let keep = match model {
                None => true,
                Some(DeviceModel::V2) => !k.is_analog(),
                Some(DeviceModel::Pro) => !k.is_thumb(),
            };
            if keep {
                match &self.slots[i] {
                    Some(a) => slots.push(Some(a.duplicate())),
                    None => slots.push(None),
                }
            } else {
                slots.push(None);
            }
            i += 1;
        }
        let r = Bindings { slots };
        proof {
            assert forall|q: KeyId| #[trigger] r.slot(q) == (if key_fits_model(q, model) { self.slot(q) } else { None }) by {
                lemma_key_index_roundtrip(q);
            }
            assert(r@ =~= self@.restrict(Set::new(|k: KeyId| key_fits_model(k, model))));
        }
        r
    }
}

/// Whether a key exists on a model: the V2 has no analog stick, the Pro has
/// no thumb pad.
pub open spec fn key_fits_model(k: KeyId, model: Option<DeviceModel>) -> bool {
    match model {
        None => true,
        Some(DeviceModel::V2) => !k.spec_is_analog(),
        Some(DeviceModel::Pro) => !k.spec_is_thumb(),
    }
}

/// A profile as the app keeps it.
#[derive(Debug)]
pub struct Profile {
    pub id: String,
    pub name: String,
    pub game: GameId,
    pub device_models: Vec<DeviceModel>,
    pub bindings: Bindings,
    pub lighting: Lighting,
    /// A step the player takes inside the game before the profile works.
    pub setup_note: Option<String>,
    /// Set when the file named a key this pad does not have.
    pub unknown_key_ids: bool,
}

/// A profile as a file spells it: bindings keyed by the key's name.
#[derive(Debug)]
pub struct ProfileFile {
    pub id: String,
    pub name: String,
    pub game: GameId,
    pub device_models: Vec<DeviceModel>,
    pub bindings: Vec<(String, Action)>,
    pub lighting: Lighting,
    pub setup_note: Option<String>,
}

impl KeyId {
    /// The key a profile file names, if the name is one of ours.
    pub fn from_binding_key(name: &str) -> (r: Option<KeyId>)
        ensures
            r == named_key(name@),
            match r {
                Some(k) => key_wire_name(k) == name@,
                None => forall|k: KeyId| key_wire_name(k) != name@,
            },
    {
        let mut i: usize = 0;
        while i < KEY_COUNT
            invariant
                i <= KEY_COUNT,
                forall|k: KeyId| key_index(k) < i ==> key_wire_name(k) != name@,
                named_key(name@) == named_key_from(name@, i as int),
            decreases KEY_COUNT - i,
        {
            let k = KeyId::from_index(i).unwrap();
            proof { lemma_key_at_total(i as int); }
            if str_eq(k.wire_name(), name) {
                return Some(k);
            }
            proof {
                assert forall|q: KeyId| key_index(q) < i + 1 implies key_wire_name(q) != name@ by {
                    lemma_key_index_roundtrip(q);
                }
            }
            i += 1;
        }
        proof {
            assert forall|q: KeyId| key_wire_name(q) != name@ by {
                lemma_key_index_roundtrip(q);
            }
        }
        None
    }
}

/// The first key, in declaration order from position `i`, whose file
/// name is `name`.
pub open spec fn named_key_from(name: Seq<char>, i: int) -> Option<KeyId>
    decreases 36 - i,
{
    if i < 0 || i >= 36 {
        None
    } else if key_wire_name(key_at(i)->0) == name {
        key_at(i)
    } else {
        named_key_from(name, i + 1)
    }
}

/// The key a binding name resolves to.
pub open spec fn named_key(name: Seq<char>) -> Option<KeyId> {
    named_key_from(name, 0)
}

impl Profile {
    /// Builds a profile from its file form. Bindings whose key name is not
    /// one of ours are dropped and flag the profile so that validation
    /// refuses it; a later binding for the same key replaces an earlier one.
    pub fn from_file(raw: ProfileFile) -> (p: Profile)
        ensures
            p.id@ == raw.id@,
            p.name@ == raw.name@,
            p.game == raw.game,
            p.device_models@ == raw.device_models@,
            p.lighting == raw.lighting,
            p.setup_note == raw.setup_note,
            p.unknown_key_ids == exists|i: int| 0 <= i < raw.bindings@.len()
                && #[trigger] named_key(raw.bindings@[i].0@) is None,
            p.bindings@ == bindings_from_names(raw.bindings@.map_values(|e: (String, Action)| (e.0@, e.1@))),
    {
        let ProfileFile { id, name, game, device_models, bindings: raw_bindings, lighting, setup_note } = raw;
        let ghost entries = raw_bindings@.map_values(|e: (String, Action)| (e.0@, e.1@));
        let mut bindings = Bindings::new();
        let mut unknown = false;
        let mut i: usize = 0;
        while i < raw_bindings.len()
            invariant
                i <= raw_bindings.len(),
                entries == raw_bindings@.map_values(|e: (String, Action)| (e.0@, e.1@)),
                bindings@ == bindings_from_names(entries.take(i as int)),
                unknown == exists|j: int| 0 <= j < i && named_key(raw_bindings@[j].0@) is None,
            decreases raw_bindings.len() - i,
        {
            let key = KeyId::from_binding_key(raw_bindings[i].0.as_str());
            proof {
                assert(entries.take(i + 1).drop_last() =~= entries.take(i as int));
                assert(entries[i as int].0 == raw_bindings@[i as int].0@);
                assert(entries.take(i + 1).last() == entries[i as int]);
            }
            match key {
                Some(k) => {
                    bindings.insert(k, raw_bindings[i].1.duplicate());
                }
                None => {
                    unknown = true;
                }
            }
            i += 1;
        }
        assert(entries.take(raw_bindings.len() as int) =~= entries);
        Profile { id, name, game, device_models, bindings, lighting, setup_note, unknown_key_ids: unknown }
    }
}

/// The map that named bindings build when read in order: names that are
/// not ours are skipped, and a later binding replaces an earlier one.
pub open spec fn bindings_from_names(entries: Seq<(Seq<char>, ActionModel)>) -> Map<KeyId, ActionModel>
    decreases entries.len(),
{
    if entries.len() == 0 {
        Map::empty()
    } else {
        let prev = bindings_from_names(entries.drop_last());
        match named_key(entries.last().0) {
            Some(k) => prev.insert(k, entries.last().1),
            None => prev,
        }
    }
}

} // verus!
