use vstd::prelude::*;
use crate::key::TilemapPipelineKey;

verus! {

/// No two entries of the sequence share a key.
pub open spec fn keys_distinct<G>(s: Seq<(u64, G)>) -> bool {
    forall|i: int, j: int|
        0 <= i < s.len() && 0 <= j < s.len() && i != j ==> #[trigger] s[i].0 != #[trigger] s[j].0
}

/// Some entry of the sequence has the given key.
pub open spec fn has_key<G>(s: Seq<(u64, G)>, k: u64) -> bool {
    exists|i: int| 0 <= i < s.len() && #[trigger] s[i].0 == k
}

/// Material bind groups, one per image handle. Entries are created lazily
/// the first time an image is referenced and are kept across frames; the
/// handle's identity is the key.
pub struct ImageBindGroups<G> {
    values: Vec<(u64, G)>,
}

impl<G> ImageBindGroups<G> {
    /// The cached entries, in the order they were created.
    pub closed spec fn entries(&self) -> Seq<(u64, G)> {
        self.values@
    }

    pub open spec fn wf(&self) -> bool {
        keys_distinct(self.entries())
    }

    /// An entry for the image exists.
    pub open spec fn contains(&self, image: u64) -> bool {
        has_key(self.entries(), image)
    }

    pub fn new() -> (r: ImageBindGroups<G>)
        ensures
            r.wf(),
            r.entries() == Seq::<(u64, G)>::empty(),
    {
        ImageBindGroups { values: Vec::new() }
    }

    /// Number of bind groups created so far.
    pub fn len(&self) -> (r: usize)
        ensures
            r == self.entries().len(),
    {
        self.values.len()
    }

    /// Position of the entry for the image, if there is one.
    pub fn find(&self, image: u64) -> (r: Option<usize>)
        requires
            self.wf(),
        ensures
            r is None <==> !self.contains(image),
            r is Some ==> r->0 < self.entries().len() && self.entries()[r->0 as int].0 == image,
    {
        let mut i: usize = 0;
        while i < self.values.len()
            invariant
                i <= self.values@.len(),
                forall|j: int| 0 <= j < i ==> self.values@[j].0 != image,
            decreases self.values@.len() - i,
        {
            if self.values[i].0 == image {
                return Some(i);
            }
            i += 1;
        }
        None
    }

    /// The bind group cached for the image.
    pub fn get(&self, image: u64) -> (r: Option<&G>)
        requires
            self.wf(),
        ensures
            r is None <==> !self.contains(image),
            r is Some ==> exists|i: int|
                0 <= i < self.entries().len() && self.entries()[i] == (image, *r->0),
    {
        match self.find(image) {
            Some(i) => Some(&self.values[i].1),
            None => None,
        }
    }

    /// The bind group at a position given by `find` or `get_or_insert_with`.
    pub fn get_at(&self, index: usize) -> (r: &G)
        requires
            index < self.entries().len(),
        ensures
            *r == self.entries()[index as int].1,
    {
        &self.values[index].1
    }

    /// Looks up the image's bind group, creating it with `create` only when
    /// the image has none yet. `create` gives `None` when the image has no
    /// GPU data; nothing is then cached and `None` is returned. Otherwise the
    /// position of the image's entry is returned.
    pub fn get_or_insert_with<F: Fn(u64) -> Option<G>>(&mut self, image: u64, create: &F) -> (r:
        Option<usize>)
        requires
            old(self).wf(),
            call_requires(*create, (image,)),
        ensures
            final(self).wf(),
            old(self).contains(image) ==> final(self).entries() == old(self).entries() && r is Some,
            r is Some ==> r->0 < final(self).entries().len() && final(self).entries()[r->0 as int].0
                == image,
            !old(self).contains(image) && r is None ==> final(self).entries() == old(self).entries()
                && call_ensures(*create, (image,), None::<G>),
            !old(self).contains(image) && r is Some ==> r->0 == old(self).entries().len()
                && final(self).entries() == old(self).entries().push(
                (image, final(self).entries()[r->0 as int].1),
            ) && call_ensures(*create, (image,), Some(final(self).entries()[r->0 as int].1)),
    {
        match self.find(image) {
            Some(i) => Some(i),
            None => {
                match create(image) {
                    Some(g) => {
                        let n = self.values.len();
                        self.values.push((image, g));
                        assert(keys_distinct(self.values@));
                        Some(n)
                    },
                    None => None,
                }
            },
        }
    }
}

/// Asking the cache twice for one image creates nothing the second time and
/// gives the same bind group: `e1` and `r1` are the entries and position
/// after the first `get_or_insert_with`, `e2` and `r2` after the second.
pub proof fn lemma_requery_same_bind_group<G>(
    e1: Seq<(u64, G)>,
    e2: Seq<(u64, G)>,
    image: u64,
    r1: usize,
    r2: usize,
)
    requires
        keys_distinct(e1),
        r1 < e1.len(),
        e1[r1 as int].0 == image,
        has_key(e1, image) ==> e2 == e1,
        r2 < e2.len(),
        e2[r2 as int].0 == image,
    ensures
        e2 == e1,
        r2 == r1,
        e2[r2 as int] == e1[r1 as int],
{
    assert(has_key(e1, image));
}

/// Cache of specialised pipeline variants. Each distinct key is specialised
/// once; its pipeline id is its position in the cache.
pub struct SpecializedPipelines {
    keys: Vec<TilemapPipelineKey>,
}

impl SpecializedPipelines {
    /// The keys specialised so far, indexed by pipeline id.
    pub closed spec fn keys(&self) -> Seq<TilemapPipelineKey> {
        self.keys@
    }

    pub open spec fn wf(&self) -> bool {
        forall|i: int, j: int|
            0 <= i < self.keys().len() && 0 <= j < self.keys().len() && i != j ==> #[trigger] self.keys()[i]
                != #[trigger] self.keys()[j]
    }

    pub fn new() -> (r: SpecializedPipelines)
        ensures
            r.wf(),
            r.keys() == Seq::<TilemapPipelineKey>::empty(),
    {
        SpecializedPipelines { keys: Vec::new() }
    }

    pub fn len(&self) -> (r: usize)
        ensures
            r == self.keys().len(),
    {
        self.keys.len()
    }

    /// The key that a pipeline id was specialised for.
    pub fn key_of(&self, id: usize) -> (r: TilemapPipelineKey)
        requires
            id < self.keys().len(),
        ensures
            r == self.keys()[id as int],
    {
        self.keys[id]
    }

    /// Pipeline id for the key: the existing one when the key was specialised
    /// before, else a new id appended for it.
    pub fn specialize(&mut self, key: TilemapPipelineKey) -> (r: usize)
        requires
            old(self).wf(),
        ensures
            final(self).wf(),
            r < final(self).keys().len(),
            final(self).keys()[r as int] == key,
            old(self).keys().contains(key) ==> final(self).keys() == old(self).keys(),
            !old(self).keys().contains(key) ==> final(self).keys() == old(self).keys().push(key),
    {
        let mut i: usize = 0;
        while i < self.keys.len()
            invariant
                i <= self.keys@.len(),
                self.keys@ == old(self).keys@,
                old(self).wf(),
                forall|j: int| 0 <= j < i ==> self.keys@[j] != key,
            decreases self.keys@.len() - i,
        {
            if self.keys[i] == key {
                return i;
            }
            i += 1;
        }
        let n = self.keys.len();
        self.keys.push(key);
        assert forall|a: int, b: int|
            0 <= a < self.keys().len() && 0 <= b < self.keys().len() && a != b implies #[trigger] self.keys()[a]
                != #[trigger] self.keys()[b] by {
            if a < n && b < n {
                assert(old(self).keys()[a] != old(self).keys()[b]);
            }
        }
        n
    }
}

} // verus!
