//! The voice registry: at most one live voice per note id.

use vstd::prelude::*;

verus! {

/// A map from note id to voice, generic in what a voice is. The caller owns
/// the sound device, so every voice that leaves the registry is handed back
/// for the caller to silence and release.
pub struct VoiceRegistry<V> {
    ids: Vec<String>,
    voices: Vec<V>,
    model: Ghost<Map<Seq<char>, V>>,
}

impl<V> View for VoiceRegistry<V> {
    type V = Map<Seq<char>, V>;

    closed spec fn view(&self) -> Map<Seq<char>, V> {
        self.model@
    }
}

impl<V> VoiceRegistry<V> {
    /// The registry is consistent: every id is stored once, with its voice.
    pub closed spec fn wf(&self) -> bool {
        &&& self.ids@.len() == self.voices@.len()
        &&& self.model@.dom().finite()
        &&& self.model@.dom().len() == self.ids@.len()
        &&& forall|i: int|
            0 <= i < self.ids@.len() ==> self.model@.contains_key(#[trigger] self.ids@[i]@)
                && self.model@[self.ids@[i]@] == self.voices@[i]
        &&& forall|k: Seq<char>| #[trigger]
            self.model@.contains_key(k) ==> exists|i: int|
                0 <= i < self.ids@.len() && #[trigger] self.ids@[i]@ == k
        &&& forall|i: int, j: int|
            0 <= i < j < self.ids@.len() ==> #[trigger] self.ids@[i]@ != #[trigger] self.ids@[j]@
    }

    /// A consistent registry holds finitely many ids.
    pub proof fn lemma_finite(&self)
        requires
            self.wf(),
        ensures
            self@.dom().finite(),
    {
    }

    /// An empty registry.
    pub fn new() -> (r: VoiceRegistry<V>)
        ensures
            r.wf(),
            r@ == Map::<Seq<char>, V>::empty(),
    {
        VoiceRegistry { ids: Vec::new(), voices: Vec::new(), model: Ghost(Map::empty()) }
    }

    fn find(&self, id: &String) -> (at: Option<usize>)
        requires
            self.wf(),
        ensures
            match at {
                Some(i) => i < self.ids@.len() && self.ids@[i as int]@ == id@,
                None => !self@.contains_key(id@),
            },
            at.is_some() == self@.contains_key(id@),
    {
        let mut i: usize = 0;
        while i < self.ids.len()
            invariant
                self.wf(),
                i <= self.ids@.len(),
                forall|j: int| 0 <= j < i ==> #[trigger] self.ids@[j]@ != id@,
            decreases self.ids@.len() - i,
        {
            if self.ids[i] == *id {
                assert(self.model@.contains_key(self.ids@[i as int]@));
                return Some(i);
            }
            i = i + 1;
        }
        None
    }

    /// The number of live voices.
    pub fn len(&self) -> (n: usize)
        requires
            self.wf(),
        ensures
            n == self@.dom().len(),
    {
        self.ids.len()
    }

    /// Whether a voice is registered under `id`.
    pub fn contains(&self, id: &str) -> (b: bool)
        requires
            self.wf(),
        ensures
            b == self@.contains_key(id@),
    {
        let key = id.to_owned();
        self.find(&key).is_some()
    }

    /// Registers `voice` under `id`. A voice that was registered under the
    /// same id leaves the registry and is returned.
    pub fn insert(&mut self, id: String, voice: V) -> (superseded: Option<V>)
        requires
            old(self).wf(),
        ensures
            final(self).wf(),
            final(self)@ == old(self)@.insert(id@, voice),
            superseded == if old(self)@.contains_key(id@) {
                Some(old(self)@[id@])
            } else {
                None::<V>
            },
    {
        let found = self.find(&id);
        let ghost key = id@;
        let superseded = match found {
            Some(i) => {
                let _ = self.ids.remove(i);
                let gone = self.voices.remove(i);
                Some(gone)
            },
            None => None,
        };
        proof {
            match found {
                Some(i) => {
                    assert forall|j: int| 0 <= j < self.ids@.len() implies #[trigger] self.ids@[j]@
                        != key by {
                        if j < i {
                            assert(self.ids@[j] == old(self).ids@[j]);
                        } else {
                            assert(self.ids@[j] == old(self).ids@[j + 1]);
                        }
                    }
                    assert forall|j: int| 0 <= j < self.ids@.len() implies old(self).model@.contains_key(
                        #[trigger] self.ids@[j]@,
                    ) && old(self).model@[self.ids@[j]@] == self.voices@[j] by {
                        if j < i {
                            assert(self.ids@[j] == old(self).ids@[j]);
                        } else {
                            assert(self.ids@[j] == old(self).ids@[j + 1]);
                        }
                    }
                    assert forall|a: int, b: int| 0 <= a < b < self.ids@.len() implies #[trigger]
                        self.ids@[a]@ != #[trigger] self.ids@[b]@ by {
                        let a0 = if a < i {
                            a
                        } else {
                            a + 1
                        };
                        let b0 = if b < i {
                            b
                        } else {
                            b + 1
                        };
                        assert(self.ids@[a] == old(self).ids@[a0]);
                        assert(self.ids@[b] == old(self).ids@[b0]);
                    }
                },
                None => {},
            }
        }
        let ghost before_ids = self.ids@;
        let ghost old_model = old(self).model@;
        let ghost new_model = old_model.insert(key, voice);
        self.ids.push(id);
        self.voices.push(voice);
        self.model = Ghost(new_model);
        proof {
            if old_model.contains_key(key) {
                assert(old_model.insert(key, voice).dom() =~= old_model.dom());
            }
            let last = self.ids@.len() - 1;
            assert(self.ids@[last]@ == key);
            assert forall|j: int| 0 <= j < self.ids@.len() implies self.model@.contains_key(
                #[trigger] self.ids@[j]@,
            ) && self.model@[self.ids@[j]@] == self.voices@[j] by {
                if j < last {
                    assert(self.ids@[j] == before_ids[j]);
                    assert(before_ids[j]@ != key);
                }
            }
            assert forall|k: Seq<char>| #[trigger] self.model@.contains_key(k) implies exists|j: int|
                0 <= j < self.ids@.len() && #[trigger] self.ids@[j]@ == k by {
                if k == key {
                    assert(self.ids@[last]@ == k);
                } else {
                    assert(old_model.contains_key(k));
                    let j0 = choose|j: int|
                        0 <= j < old(self).ids@.len() && #[trigger] old(self).ids@[j]@ == k;
                    match found {
                        Some(i) => {
                            let j1 = if j0 < i {
                                j0
                            } else {
                                j0 - 1
                            };
                            assert(j0 != i);
                            assert(before_ids[j1] == old(self).ids@[j0]);
                            assert(self.ids@[j1] == before_ids[j1]);
                            assert(self.ids@[j1]@ == k);
                        },
                        None => {
                            assert(self.ids@[j0] == before_ids[j0]);
                            assert(self.ids@[j0]@ == k);
                        },
                    }
                }
            }
            assert forall|a: int, b: int| 0 <= a < b < self.ids@.len() implies #[trigger]
                self.ids@[a]@ != #[trigger] self.ids@[b]@ by {
                assert(self.ids@[a] == before_ids[a]);
                if b < last {
                    assert(self.ids@[b] == before_ids[b]);
                } else {
                    assert(before_ids[a]@ != key);
                }
            }
        }
        superseded
    }

    /// Takes the voice registered under `id` out of the registry and returns
    /// it. An id that is not registered changes nothing.
    pub fn remove(&mut self, id: &str) -> (voice: Option<V>)
        requires
            old(self).wf(),
        ensures
            final(self).wf(),
            final(self)@ == old(self)@.remove(id@),
            voice == if old(self)@.contains_key(id@) {
                Some(old(self)@[id@])
            } else {
                None::<V>
            },
    {
        let key = id.to_owned();
        match self.find(&key) {
            Some(i) => {
                let _ = self.ids.remove(i);
                let gone = self.voices.remove(i);
                self.model = Ghost(old(self).model@.remove(key@));
                proof {
                    assert forall|j: int| 0 <= j < self.ids@.len() implies self.model@.contains_key(
                        #[trigger] self.ids@[j]@,
                    ) && self.model@[self.ids@[j]@] == self.voices@[j] by {
                        if j < i {
                            assert(self.ids@[j] == old(self).ids@[j]);
                        } else {
                            assert(self.ids@[j] == old(self).ids@[j + 1]);
                        }
                    }
                    assert forall|k: Seq<char>| #[trigger]
                        self.model@.contains_key(k) implies exists|j: int|
                        0 <= j < self.ids@.len() && #[trigger] self.ids@[j]@ == k by {
                        let j0 = choose|j: int|
                            0 <= j < old(self).ids@.len() && #[trigger] old(self).ids@[j]@ == k;
                        let j1 = if j0 < i {
                            j0
                        } else {
                            j0 - 1
                        };
                        assert(j0 != i);
                        assert(self.ids@[j1] == old(self).ids@[j0]);
                        assert(self.ids@[j1]@ == k);
                    }
                    assert forall|a: int, b: int| 0 <= a < b < self.ids@.len() implies #[trigger]
                        self.ids@[a]@ != #[trigger] self.ids@[b]@ by {
                        let a0 = if a < i {
                            a
                        } else {
                            a + 1
                        };
                        let b0 = if b < i {
                            b
                        } else {
                            b + 1
                        };
                        assert(self.ids@[a] == old(self).ids@[a0]);
                        assert(self.ids@[b] == old(self).ids@[b0]);
                    }
                }
                Some(gone)
            },
            None => {
                proof {
                    assert(old(self)@.remove(key@) =~= old(self)@);
                }
                None
            },
        }
    }

    /// Empties the registry and returns every voice that was in it: as many
    /// voices as there were ids, each id's voice among them, and no other.
    pub fn drain(&mut self) -> (voices: Vec<V>)
        requires
            old(self).wf(),
        ensures
            final(self).wf(),
            final(self)@ == Map::<Seq<char>, V>::empty(),
            voices@.len() == old(self)@.dom().len(),
            forall|k: Seq<char>| #[trigger]
                old(self)@.contains_key(k) ==> exists|i: int|
                    0 <= i < voices@.len() && #[trigger] voices@[i] == old(self)@[k],
            forall|i: int|
                0 <= i < voices@.len() ==> old(self)@.contains_value(#[trigger] voices@[i]),
    {
        let mut voices: Vec<V> = Vec::new();
        core::mem::swap(&mut self.voices, &mut voices);
        self.ids = Vec::new();
        self.model = Ghost(Map::empty());
        proof {
            assert forall|k: Seq<char>| #[trigger] old(self)@.contains_key(k) implies exists|i: int|
                0 <= i < voices@.len() && #[trigger] voices@[i] == old(self)@[k] by {
                let j = choose|j: int|
                    0 <= j < old(self).ids@.len() && #[trigger] old(self).ids@[j]@ == k;
                assert(voices@[j] == old(self)@[k]);
            }
            assert forall|i: int| 0 <= i < voices@.len() implies old(self)@.contains_value(
                #[trigger] voices@[i],
            ) by {
                let k = old(self).ids@[i]@;
                assert(old(self)@.dom().contains(k) && old(self)@[k] == voices@[i]);
            }
        }
        voices
    }
}

/// Registering a second voice under an id that is in use replaces the first:
/// the registry then holds the second voice under that id, exactly the ids it
/// held after the first registration, and as many of them.
pub proof fn lemma_replay_replaces<V>(
    notes: Map<Seq<char>, V>,
    id: Seq<char>,
    first: V,
    second: V,
)
    requires
        notes.dom().finite(),
    ensures
        notes.insert(id, first).insert(id, second) == notes.insert(id, second),
        notes.insert(id, first).insert(id, second).dom() == notes.insert(id, first).dom(),
        notes.insert(id, first).insert(id, second).dom().len() == notes.insert(
            id,
            first,
        ).dom().len(),
        notes.insert(id, first).insert(id, second)[id] == second,
{
    assert(notes.insert(id, first).insert(id, second) =~= notes.insert(id, second));
    assert(notes.insert(id, first).insert(id, second).dom() =~= notes.insert(id, first).dom());
}

} // verus!
