use vstd::prelude::*;
use std::collections::HashMap;
use crate::key::LayerId;

verus! {

broadcast use vstd::std_specs::hash::group_hash_axioms;

/// A chunk entity of the simulation world that has a transform, chunk data,
/// tilemap uniform data and a mesh. `data` carries the per-entity values
/// the render world keeps as they are (the tilemap uniform data and the
/// freshly computed mesh transform).
#[derive(Debug)]
pub struct ChunkSource<U> {
    pub entity: u64,
    pub layer_id: u16,
    /// Handle id of the chunk's material image.
    pub material: u64,
    /// Handle id of the chunk's mesh.
    pub mesh: u64,
    pub data: U,
}

/// What the render world holds of an extracted chunk entity.
#[derive(Debug)]
pub struct ExtractedTilemap<U> {
    pub layer_id: LayerId,
    pub material: u64,
    pub mesh: u64,
    pub data: U,
}

/// The render-world record of a chunk entity.
pub open spec fn extracted_of<U>(c: ChunkSource<U>) -> ExtractedTilemap<U> {
    ExtractedTilemap { layer_id: LayerId(c.layer_id), material: c.material, mesh: c.mesh, data: c.data }
}

/// The map after writing each source's record under its entity, in order:
/// entities not present are added, present ones replaced.
pub open spec fn upsert_all<U>(m: Map<u64, ExtractedTilemap<U>>, batch: Seq<ChunkSource<U>>) -> Map<
    u64,
    ExtractedTilemap<U>,
>
    decreases batch.len(),
{
    if batch.len() == 0 {
        m
    } else {
        upsert_all(m, batch.drop_last()).insert(batch.last().entity, extracted_of(batch.last()))
    }
}

/// No two sources name the same entity.
pub open spec fn distinct_entities<U>(batch: Seq<ChunkSource<U>>) -> bool {
    forall|i: int, j: int|
        0 <= i < batch.len() && 0 <= j < batch.len() && i != j ==> #[trigger] batch[i].entity
            != #[trigger] batch[j].entity
}

/// Chunk entities extracted into the render world, by entity id.
pub struct RenderTilemaps<U> {
    entities: HashMap<u64, ExtractedTilemap<U>>,
}

impl<U> RenderTilemaps<U> {
    pub closed spec fn view(&self) -> Map<u64, ExtractedTilemap<U>> {
        self.entities@
    }

    pub fn new() -> (r: RenderTilemaps<U>)
        ensures
            r.view() == Map::<u64, ExtractedTilemap<U>>::empty(),
    {
        RenderTilemaps { entities: HashMap::new() }
    }

    pub fn len(&self) -> (r: usize)
        ensures
            r == self.view().len(),
    {
        self.entities.len()
    }

    /// The record of an entity.
    pub fn get(&self, entity: u64) -> (r: Option<&ExtractedTilemap<U>>)
        ensures
            r is Some <==> self.view().contains_key(entity),
            r is Some ==> *r->0 == self.view()[entity],
    {
        self.entities.get(&entity)
    }
}

/// Copies the chunk entities into the render world: each source's
/// record is written under its entity, adding entities not yet present
/// and replacing the records of those that are.
pub fn extract_tilemaps<U>(render_tilemaps: &mut RenderTilemaps<U>, sources: Vec<ChunkSource<U>>)
    ensures
        final(render_tilemaps).view() == upsert_all(old(render_tilemaps).view(), sources@),
{
    let ghost batch = sources@;
    let mut rest = sources;
    let mut i: usize = 0;
    let n = rest.len();
    while rest.len() > 0
        invariant
            i + rest@.len() == n,
            n == batch.len(),
            rest@ == batch.subrange(i as int, n as int),
            render_tilemaps.view() == upsert_all(old(render_tilemaps).view(), batch.subrange(0, i as int)),
        decreases rest@.len(),
    {
        let c = rest.remove(0);
        assert(c == batch[i as int]);
        let ghost prev = batch.subrange(0, i as int);
        let ghost next = batch.subrange(0, i as int + 1);
        assert(next.drop_last() == prev);
        let record = ExtractedTilemap {
            layer_id: LayerId(c.layer_id),
            material: c.material,
            mesh: c.mesh,
            data: c.data,
        };
        render_tilemaps.entities.insert(c.entity, record);
        i += 1;
        assert(rest@ =~= batch.subrange(i as int, n as int));
    }
    assert(batch.subrange(0, n as int) == batch);
}

/// What extraction leaves under an entity: the source's record for an
/// entity of the batch, the earlier record for any other.
pub proof fn lemma_upsert_lookup<U>(m: Map<u64, ExtractedTilemap<U>>, batch: Seq<ChunkSource<U>>, k: u64)
    requires
        distinct_entities(batch),
    ensures
        upsert_all(m, batch).contains_key(k) <==> m.contains_key(k) || exists|i: int|
            0 <= i < batch.len() && #[trigger] batch[i].entity == k,
        forall|i: int|
            0 <= i < batch.len() && #[trigger] batch[i].entity == k ==> upsert_all(m, batch)[k]
                == extracted_of(batch[i]),
        (forall|i: int| 0 <= i < batch.len() ==> #[trigger] batch[i].entity != k) ==> upsert_all(
            m,
            batch,
        )[k] == m[k],
    decreases batch.len(),
{
    if batch.len() > 0 {
        let prev = batch.drop_last();
        assert forall|i: int, j: int|
            0 <= i < prev.len() && 0 <= j < prev.len() && i != j implies #[trigger] prev[i].entity
            != #[trigger] prev[j].entity by {
            assert(prev[i] == batch[i] && prev[j] == batch[j]);
        }
        lemma_upsert_lookup(m, prev, k);
        if batch.last().entity != k {
            if m.contains_key(k) || exists|i: int| 0 <= i < batch.len() && #[trigger] batch[i].entity == k {
                if !m.contains_key(k) {
                    let i = choose|i: int| 0 <= i < batch.len() && #[trigger] batch[i].entity == k;
                    assert(prev[i].entity == k);
                }
            }
            if exists|i: int| 0 <= i < prev.len() && #[trigger] prev[i].entity == k {
                let i = choose|i: int| 0 <= i < prev.len() && #[trigger] prev[i].entity == k;
                assert(batch[i].entity == k);
            }
            assert forall|i: int| 0 <= i < batch.len() && #[trigger] batch[i].entity == k implies upsert_all(
                m,
                batch,
            )[k] == extracted_of(batch[i]) by {
                assert(prev[i].entity == k);
            }
            if forall|i: int| 0 <= i < batch.len() ==> #[trigger] batch[i].entity != k {
                assert forall|i: int| 0 <= i < prev.len() implies #[trigger] prev[i].entity != k by {
                    assert(batch[i].entity != k);
                }
            }
        } else {
            assert(batch[batch.len() - 1].entity == k);
            assert forall|i: int| 0 <= i < batch.len() && #[trigger] batch[i].entity == k implies upsert_all(
                m,
                batch,
            )[k] == extracted_of(batch[i]) by {
                assert(i == batch.len() - 1);
            }
        }
    }
}

/// Extracting the same chunk entities twice leaves the render world as one
/// extraction does: every record, the mesh transform among its data, is the
/// same.
pub proof fn lemma_extract_idempotent<U>(m: Map<u64, ExtractedTilemap<U>>, batch: Seq<ChunkSource<U>>)
    requires
        distinct_entities(batch),
    ensures
        upsert_all(upsert_all(m, batch), batch) == upsert_all(m, batch),
{
    let once = upsert_all(m, batch);
    let twice = upsert_all(once, batch);
    assert forall|k: u64| #[trigger] twice.contains_key(k) <==> once.contains_key(k) by {
        lemma_upsert_lookup(m, batch, k);
        lemma_upsert_lookup(once, batch, k);
    }
    assert forall|k: u64| #[trigger] twice.contains_key(k) implies twice[k] == once[k] by {
        lemma_upsert_lookup(m, batch, k);
        lemma_upsert_lookup(once, batch, k);
        if exists|i: int| 0 <= i < batch.len() && #[trigger] batch[i].entity == k {
            let i = choose|i: int| 0 <= i < batch.len() && #[trigger] batch[i].entity == k;
            assert(twice[k] == extracted_of(batch[i]));
            assert(once[k] == extracted_of(batch[i]));
        }
    }
    assert(twice =~= once);
}

} // verus!
