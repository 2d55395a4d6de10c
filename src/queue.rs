use vstd::prelude::*;
use crate::cache::{has_key, keys_distinct, ImageBindGroups, SpecializedPipelines};
use crate::key::{valid_msaa_samples, LayerId, TilemapPipelineKey};

verus! {

broadcast use vstd::seq_lib::group_to_multiset_ensures;

/// An entity of the render world as seen by queueing: which of the
/// components a drawable chunk needs it carries.
#[derive(Clone, Copy, Debug)]
pub struct DrawableEntity {
    pub entity: u64,
    pub layer_id: Option<LayerId>,
    /// Handle id of the material image.
    pub image: Option<u64>,
    pub has_mesh: bool,
    pub has_mesh_uniform: bool,
}

/// A draw item of the transparent 2d phase; items are drawn in ascending
/// `sort_key` order.
#[derive(Clone, Copy, Debug, PartialEq, Eq, Structural)]
pub struct Transparent2dItem {
    pub entity: u64,
    pub draw_function: u32,
    pub pipeline: usize,
    pub sort_key: u16,
}

/// The ordered draw items queued for one view.
#[derive(Debug)]
pub struct ViewPhase {
    pub view: u64,
    pub items: Vec<Transparent2dItem>,
}

#[derive(Clone, Copy, Debug, PartialEq, Eq, Structural)]
pub enum QueueError {
    /// The multisample setting lies outside 1..=64.
    InvalidSampleCount(u32),
    /// A drawable references an image with no GPU data yet.
    MissingImage(u64),
}

/// The entity carries everything a draw needs: a layer, a material image,
/// a mesh and a mesh uniform.
pub open spec fn is_drawable(d: DrawableEntity) -> bool {
    d.layer_id is Some && d.image is Some && d.has_mesh && d.has_mesh_uniform
}

/// The draw item queued for a drawable entity.
pub open spec fn draw_item(d: DrawableEntity, draw_function: u32, pipeline: usize) -> Transparent2dItem {
    Transparent2dItem { entity: d.entity, draw_function, pipeline, sort_key: d.layer_id.unwrap().0 }
}

/// The draw items of the drawable entities, in input order.
pub open spec fn expected_items(ds: Seq<DrawableEntity>, draw_function: u32, pipeline: usize) -> Seq<
    Transparent2dItem,
>
    decreases ds.len(),
{
    if ds.len() == 0 {
        Seq::empty()
    } else {
        let rest = expected_items(ds.drop_last(), draw_function, pipeline);
        if is_drawable(ds.last()) {
            rest.push(draw_item(ds.last(), draw_function, pipeline))
        } else {
            rest
        }
    }
}

/// Number of drawable entities.
pub open spec fn count_drawable(ds: Seq<DrawableEntity>) -> nat
    decreases ds.len(),
{
    if ds.len() == 0 {
        0
    } else {
        count_drawable(ds.drop_last()) + if is_drawable(ds.last()) { 1nat } else { 0nat }
    }
}

/// Every cache entry from position `from` on was made by `create` for the
/// image of one of the first `upto` drawable entities.
pub open spec fn created_for<G, F: Fn(u64) -> Option<G>>(
    entries: Seq<(u64, G)>,
    from: int,
    ds: Seq<DrawableEntity>,
    upto: int,
    create: F,
) -> bool {
    forall|j: int|
        from <= j < entries.len() ==> (exists|i: int|
            0 <= i < upto && i < ds.len() && is_drawable(#[trigger] ds[i]) && ds[i].image == Some(
                entries[j].0,
            )) && call_ensures(create, (#[trigger] entries[j].0,), Some(entries[j].1))
}

/// Items are in ascending layer order.
pub open spec fn sorted_by_layer(s: Seq<Transparent2dItem>) -> bool {
    forall|i: int, j: int| 0 <= i < j < s.len() ==> #[trigger] s[i].sort_key <= #[trigger] s[j].sort_key
}

pub proof fn lemma_expected_len(ds: Seq<DrawableEntity>, draw_function: u32, pipeline: usize)
    ensures
        expected_items(ds, draw_function, pipeline).len() == count_drawable(ds),
    decreases ds.len(),
{
    if ds.len() > 0 {
        lemma_expected_len(ds.drop_last(), draw_function, pipeline);
    }
}

proof fn lemma_has_key_extends<G>(s: Seq<(u64, G)>, t: Seq<(u64, G)>, k: u64)
    requires
        s.len() <= t.len(),
        forall|j: int| 0 <= j < s.len() ==> t[j] == s[j],
        has_key(s, k),
    ensures
        has_key(t, k),
{
    let j = choose|j: int| 0 <= j < s.len() && #[trigger] s[j].0 == k;
    assert(t[j].0 == k);
}

/// Inserts the item after every item whose layer is not above its own, so
/// the phase stays in ascending layer order and equal layers keep the order
/// in which they were queued.
pub fn add_sorted(items: &mut Vec<Transparent2dItem>, item: Transparent2dItem)
    requires
        sorted_by_layer(old(items)@),
    ensures
        sorted_by_layer(final(items)@),
        final(items)@.to_multiset() == old(items)@.to_multiset().insert(item),
{
    let mut pos: usize = 0;
    while pos < items.len() && items[pos].sort_key <= item.sort_key
        invariant
            pos <= items@.len(),
            forall|j: int| 0 <= j < pos ==> #[trigger] items@[j].sort_key <= item.sort_key,
        decreases items@.len() - pos,
    {
        pos += 1;
    }
    let ghost before = items@;
    items.insert(pos, item);
    proof {
        before.insert_ensures(pos as int, item);
        broadcast use vstd::seq_lib::to_multiset_insert;
        assert(items@ == before.insert(pos as int, item));
        assert forall|i: int, j: int| 0 <= i < j < items@.len() implies #[trigger] items@[i].sort_key
            <= #[trigger] items@[j].sort_key by {
            if j < pos {
            } else if j == pos {
            } else if i < pos {
                assert(before[i].sort_key <= before[pos as int].sort_key);
                assert(before[i].sort_key <= before[j - 1].sort_key);
            } else if i == pos {
                assert(before[pos as int].sort_key <= before[j - 1].sort_key);
            } else {
                assert(before[i - 1].sort_key <= before[j - 1].sort_key);
            }
        }
    }
}

/// Draw items for the drawable entities of one view, in ascending layer
/// order. Each drawable's material bind group is looked up or created, and
/// the pipeline for `key` is specialised on the first drawable.
fn queue_view_items<G, F: Fn(u64) -> Option<G>>(
    drawables: &Vec<DrawableEntity>,
    key: TilemapPipelineKey,
    draw_tilemap: u32,
    pipelines: &mut SpecializedPipelines,
    image_bind_groups: &mut ImageBindGroups<G>,
    create_material: &F,
) -> (r: Result<Vec<Transparent2dItem>, QueueError>)
    requires
        old(pipelines).wf(),
        old(image_bind_groups).wf(),
        forall|img: u64| call_requires(*create_material, (img,)),
    ensures
        final(pipelines).wf(),
        final(image_bind_groups).wf(),
        old(image_bind_groups).entries().len() <= final(image_bind_groups).entries().len(),
        created_for(
            final(image_bind_groups).entries(),
            old(image_bind_groups).entries().len() as int,
            drawables@,
            drawables@.len() as int,
            *create_material,
        ),
        forall|j: int|
            0 <= j < old(image_bind_groups).entries().len() ==> final(image_bind_groups).entries()[j]
                == old(image_bind_groups).entries()[j],
        r is Ok && count_drawable(drawables@) > 0 ==> final(pipelines).keys().contains(key),
        r is Ok && count_drawable(drawables@) == 0 ==> *final(pipelines) == *old(pipelines),
        (forall|j: int|
            0 <= j < drawables@.len() && is_drawable(drawables@[j]) ==> old(image_bind_groups).contains(drawables@[j].image->0)) ==> r is Ok,
        match r {
            Ok(items) => {
                &&& sorted_by_layer(items@)
                &&& count_drawable(drawables@) == 0 ==> items@.len() == 0
                &&& forall|p: usize|
                    p < final(pipelines).keys().len() && final(pipelines).keys()[p as int] == key
                        ==> items@.to_multiset() == expected_items(
                        drawables@,
                        draw_tilemap,
                        p,
                    ).to_multiset()
                &&& forall|j: int|
                    0 <= j < drawables@.len() && is_drawable(drawables@[j]) ==> final(image_bind_groups).contains(drawables@[j].image->0)
            },
            Err(QueueError::MissingImage(img)) => {
                &&& exists|j: int|
                    0 <= j < drawables@.len() && is_drawable(drawables@[j]) && drawables@[j].image
                        == Some(img)
                &&& !old(image_bind_groups).contains(img)
                &&& call_ensures(*create_material, (img,), None::<G>)
            },
            Err(_) => false,
        },
{
    let mut items: Vec<Transparent2dItem> = Vec::new();
    let mut pipeline: Option<usize> = None;
    let mut i: usize = 0;
    while i < drawables.len()
        invariant
            i <= drawables@.len(),
            pipelines.wf(),
            image_bind_groups.wf(),
            forall|img: u64| call_requires(*create_material, (img,)),
            old(image_bind_groups).entries().len() <= image_bind_groups.entries().len(),
            created_for(
                image_bind_groups.entries(),
                old(image_bind_groups).entries().len() as int,
                drawables@,
                i as int,
                *create_material,
            ),
            forall|j: int|
                0 <= j < old(image_bind_groups).entries().len() ==> image_bind_groups.entries()[j]
                    == old(image_bind_groups).entries()[j],
            sorted_by_layer(items@),
            pipeline is None ==> count_drawable(drawables@.subrange(0, i as int)) == 0 && *pipelines
                == *old(pipelines),
            pipeline is Some ==> count_drawable(drawables@.subrange(0, i as int)) > 0,
            pipeline is Some ==> pipeline->0 < pipelines.keys().len() && pipelines.keys()[pipeline->0 as int]
                == key,
            items@.to_multiset() == expected_items(
                drawables@.subrange(0, i as int),
                draw_tilemap,
                match pipeline {
                    Some(p) => p,
                    None => 0usize,
                },
            ).to_multiset(),
            forall|j: int|
                0 <= j < i && is_drawable(drawables@[j]) ==> image_bind_groups.contains(
                    drawables@[j].image->0,
                ),
        decreases drawables@.len() - i,
    {
        let d = drawables[i];
        let ghost prev = drawables@.subrange(0, i as int);
        let ghost next = drawables@.subrange(0, i as int + 1);
        assert(next.drop_last() == prev);
        assert(next.last() == d);
        let ghost cache_before = image_bind_groups.entries();
        match (d.layer_id, d.image) {
            (Some(layer), Some(image)) => {
                if d.has_mesh && d.has_mesh_uniform {
                    match image_bind_groups.get_or_insert_with(image, create_material) {
                        Some(_) => {},
                        None => {
                            proof {
                                if old(image_bind_groups).contains(image) {
                                    lemma_has_key_extends(
                                        old(image_bind_groups).entries(),
                                        cache_before,
                                        image,
                                    );
                                }
                            }
                            return Err(QueueError::MissingImage(image));
                        },
                    }
                    let ghost old_pipe = match pipeline {
                        Some(p) => p,
                        None => 0usize,
                    };
                    let p = match pipeline {
                        Some(p) => p,
                        None => {
                            let p = pipelines.specialize(key);
                            pipeline = Some(p);
                            p
                        },
                    };
                    proof {
                        lemma_expected_len(prev, draw_tilemap, old_pipe);
                        lemma_expected_len(prev, draw_tilemap, p);
                        if old_pipe != p {
                            assert(expected_items(prev, draw_tilemap, old_pipe) =~= Seq::empty());
                            assert(expected_items(prev, draw_tilemap, p) =~= Seq::empty());
                        }
                    }
                    let item = Transparent2dItem {
                        entity: d.entity,
                        draw_function: draw_tilemap,
                        pipeline: p,
                        sort_key: layer.0,
                    };
                    add_sorted(&mut items, item);
                }
            },
            _ => {},
        }
        proof {
            let cur = image_bind_groups.entries();
            let from = old(image_bind_groups).entries().len() as int;
            assert forall|j: int| from <= j < cur.len() implies (exists|k: int|
                0 <= k < i + 1 && k < drawables@.len() && is_drawable(#[trigger] drawables@[k])
                    && drawables@[k].image == Some(cur[j].0)) && call_ensures(
                *create_material,
                (#[trigger] cur[j].0,),
                Some(cur[j].1),
            ) by {
                if j < cache_before.len() {
                    assert(cur[j] == cache_before[j]);
                    assert(from <= j < cache_before.len());
                    let k = choose|k: int|
                        0 <= k < i && k < drawables@.len() && is_drawable(#[trigger] drawables@[k])
                            && drawables@[k].image == Some(cache_before[j].0);
                    assert(0 <= k < i + 1 && is_drawable(drawables@[k]));
                } else {
                    assert(is_drawable(drawables@[i as int]));
                }
            }
            assert forall|j: int|
                0 <= j < i + 1 && is_drawable(drawables@[j]) implies image_bind_groups.contains(
                drawables@[j].image->0,
            ) by {
                if j < i {
                    lemma_has_key_extends(cache_before, image_bind_groups.entries(), drawables@[j].image->0);
                }
            }
        }
        i += 1;
    }
    assert(drawables@.subrange(0, drawables@.len() as int) == drawables@);
    proof {
        let pv = match pipeline {
            Some(p) => p,
            None => 0usize,
        };
        lemma_expected_len(drawables@, draw_tilemap, pv);
        assert forall|p: usize|
            p < pipelines.keys().len() && pipelines.keys()[p as int] == key implies items@.to_multiset()
            == expected_items(drawables@, draw_tilemap, p).to_multiset() by {
            lemma_expected_len(drawables@, draw_tilemap, p);
            if pipeline is None {
                assert(expected_items(drawables@, draw_tilemap, p) =~= Seq::empty());
                assert(expected_items(drawables@, draw_tilemap, pv) =~= Seq::empty());
            } else {
                assert(pipelines.keys()[pv as int] == key);
            }
        }
        if pipeline is Some {
            assert(pipelines.keys()[pv as int] == key);
        }
        assert(items@.len() == items@.to_multiset().len());
        assert(expected_items(drawables@, draw_tilemap, pv).len() == expected_items(
            drawables@,
            draw_tilemap,
            pv,
        ).to_multiset().len());
    }
    Ok(items)
}

/// A frame whose drawable entities reference exactly two distinct images,
/// neither with a material bind group before, creates exactly two bind
/// groups: the new entries are one for each image, each made by `create`
/// for that image. `before` and `after` are the cache entries around a
/// successful `queue_meshes` of the frame for at least one view.
pub proof fn lemma_two_images_two_bind_groups<G, F: Fn(u64) -> Option<G>>(
    before: Seq<(u64, G)>,
    after: Seq<(u64, G)>,
    drawables: Seq<DrawableEntity>,
    create: F,
    a: u64,
    b: u64,
)
    requires
        a != b,
        !has_key(before, a),
        !has_key(before, b),
        forall|i: int|
            0 <= i < drawables.len() && is_drawable(#[trigger] drawables[i]) ==> drawables[i].image
                == Some(a) || drawables[i].image == Some(b),
        exists|i: int|
            0 <= i < drawables.len() && is_drawable(#[trigger] drawables[i]) && drawables[i].image
                == Some(a),
        exists|i: int|
            0 <= i < drawables.len() && is_drawable(#[trigger] drawables[i]) && drawables[i].image
                == Some(b),
        keys_distinct(after),
        before.len() <= after.len(),
        forall|j: int| 0 <= j < before.len() ==> after[j] == before[j],
        created_for(after, before.len() as int, drawables, drawables.len() as int, create),
        forall|i: int|
            0 <= i < drawables.len() && is_drawable(#[trigger] drawables[i]) ==> has_key(
                after,
                drawables[i].image->0,
            ),
    ensures
        after.len() == before.len() + 2,
        (after[before.len() as int].0 == a && after[before.len() as int + 1].0 == b) || (after[before.len() as int].0
            == b && after[before.len() as int + 1].0 == a),
        call_ensures(create, (after[before.len() as int].0,), Some(after[before.len() as int].1)),
        call_ensures(create, (after[before.len() as int + 1].0,), Some(after[before.len() as int + 1].1)),
{
    let n = before.len() as int;
    let ia = choose|i: int|
        0 <= i < drawables.len() && is_drawable(#[trigger] drawables[i]) && drawables[i].image == Some(a);
    let ib = choose|i: int|
        0 <= i < drawables.len() && is_drawable(#[trigger] drawables[i]) && drawables[i].image == Some(b);
    assert(has_key(after, a));
    assert(has_key(after, b));
    let ka = choose|j: int| 0 <= j < after.len() && #[trigger] after[j].0 == a;
    let kb = choose|j: int| 0 <= j < after.len() && #[trigger] after[j].0 == b;
    if ka < n {
        assert(before[ka].0 == a);
    }
    if kb < n {
        assert(before[kb].0 == b);
    }
    assert forall|j: int| n <= j < after.len() implies after[j].0 == a || after[j].0 == b by {
        assert(exists|i: int|
            0 <= i < drawables.len() && i < drawables.len() && is_drawable(#[trigger] drawables[i])
                && drawables[i].image == Some(after[j].0));
        let i = choose|i: int|
            0 <= i < drawables.len() && i < drawables.len() && is_drawable(#[trigger] drawables[i])
                && drawables[i].image == Some(after[j].0);
        assert(drawables[i].image == Some(a) || drawables[i].image == Some(b));
    }
    if after.len() > n + 2 {
        let k0 = after[n].0;
        let k1 = after[n + 1].0;
        let k2 = after[n + 2].0;
        assert(k0 != k1 && k1 != k2 && k0 != k2);
    }
    assert(after.len() == n + 2);
    assert(after[n].0 == a || after[n].0 == b);
    assert(after[n + 1].0 == a || after[n + 1].0 == b);
    assert(after[n].0 != after[n + 1].0);
}

/// A copy of the items, for another view.
fn copy_items(items: &Vec<Transparent2dItem>) -> (r: Vec<Transparent2dItem>)
    ensures
        r@ == items@,
{
    let mut r: Vec<Transparent2dItem> = Vec::new();
    let mut i: usize = 0;
    while i < items.len()
        invariant
            i <= items@.len(),
            r@ == items@.subrange(0, i as int),
        decreases items@.len() - i,
    {
        r.push(items[i]);
        i += 1;
    }
    assert(items@.subrange(0, items@.len() as int) == items@);
    r
}

/// Queues the tilemap draw items of a frame.
///
/// Nothing is queued when the frame has no view uniform binding. Otherwise
/// the multisample setting selects the pipeline key, and every view gets one
/// draw item per drawable entity, ordered by ascending layer, with the
/// entity's material bind group created on first use through
/// `create_material` (which gives `None` for an image with no GPU data).
pub fn queue_meshes<G, F: Fn(u64) -> Option<G>>(
    view_binding_present: bool,
    views: &Vec<u64>,
    drawables: &Vec<DrawableEntity>,
    msaa_samples: u32,
    draw_tilemap: u32,
    pipelines: &mut SpecializedPipelines,
    image_bind_groups: &mut ImageBindGroups<G>,
    create_material: &F,
) -> (r: Result<Vec<ViewPhase>, QueueError>)
    requires
        old(pipelines).wf(),
        old(image_bind_groups).wf(),
        forall|img: u64| call_requires(*create_material, (img,)),
    ensures
        final(pipelines).wf(),
        final(image_bind_groups).wf(),
        old(image_bind_groups).entries().len() <= final(image_bind_groups).entries().len(),
        created_for(
            final(image_bind_groups).entries(),
            old(image_bind_groups).entries().len() as int,
            drawables@,
            drawables@.len() as int,
            *create_material,
        ),
        forall|j: int|
            0 <= j < old(image_bind_groups).entries().len() ==> final(image_bind_groups).entries()[j]
                == old(image_bind_groups).entries()[j],
        !view_binding_present || (valid_msaa_samples(msaa_samples) && views@.len() == 0) ==> r is Ok && r->Ok_0@.len() == 0
            && *final(pipelines) == *old(pipelines) && final(image_bind_groups).entries() == old(image_bind_groups).entries(),
        view_binding_present && !valid_msaa_samples(msaa_samples) ==> r == Err::<
            Vec<ViewPhase>,
            QueueError,
        >(QueueError::InvalidSampleCount(msaa_samples)),
        view_binding_present && valid_msaa_samples(msaa_samples) && (forall|j: int|
            0 <= j < drawables@.len() && is_drawable(drawables@[j]) ==> old(image_bind_groups).contains(
                drawables@[j].image->0)) ==> r is Ok,
        match r {
            Ok(phases) => {
                &&& view_binding_present ==> phases@.len() == views@.len()
                &&& forall|v: int| 0 <= v < phases@.len() ==> (#[trigger] phases@[v]).view == views@[v]
                    && phases@[v].items@ == phases@[0].items@
                &&& phases@.len() > 0 ==> sorted_by_layer(phases@[0].items@)
                &&& phases@.len() > 0 ==> forall|p: usize|
                    p < final(pipelines).keys().len() && #[trigger] final(pipelines).keys()[p as int]
                        == TilemapPipelineKey::from_msaa_spec(msaa_samples)
                        ==> phases@[0].items@.to_multiset() == expected_items(
                        drawables@,
                        draw_tilemap,
                        p,
                    ).to_multiset()
                &&& phases@.len() > 0 && count_drawable(drawables@) > 0 ==> final(pipelines).keys().contains(
                    TilemapPipelineKey::from_msaa_spec(msaa_samples),
                )
                &&& forall|v: int| 0 <= v < phases@.len() && count_drawable(drawables@) == 0
                    ==> (#[trigger] phases@[v]).items@.len() == 0
                &&& phases@.len() > 0 ==> forall|j: int|
                    0 <= j < drawables@.len() && is_drawable(drawables@[j]) ==> final(image_bind_groups).contains(drawables@[j].image->0)
            },
            Err(QueueError::MissingImage(img)) => {
                &&& view_binding_present && valid_msaa_samples(msaa_samples)
                &&& exists|j: int|
                    0 <= j < drawables@.len() && is_drawable(drawables@[j]) && drawables@[j].image
                        == Some(img)
                &&& !old(image_bind_groups).contains(img)
                &&& call_ensures(*create_material, (img,), None::<G>)
            },
            Err(QueueError::InvalidSampleCount(n)) => view_binding_present && n == msaa_samples
                && !valid_msaa_samples(msaa_samples),
        },
{
    let mut phases: Vec<ViewPhase> = Vec::new();
    if !view_binding_present {
        return Ok(phases);
    }
    let key = match TilemapPipelineKey::try_from_msaa_samples(msaa_samples) {
        Some(k) => k,
        None => {
            return Err(QueueError::InvalidSampleCount(msaa_samples));
        },
    };
    if views.len() == 0 {
        return Ok(phases);
    }
    let items = queue_view_items(
        drawables,
        key,
        draw_tilemap,
        pipelines,
        image_bind_groups,
        create_material,
    )?;
    let mut v: usize = 0;
    while v < views.len()
        invariant
            v <= views@.len(),
            phases@.len() == v,
            forall|w: int| 0 <= w < v ==> (#[trigger] phases@[w]).view == views@[w] && phases@[w].items@
                == items@,
        decreases views@.len() - v,
    {
        phases.push(ViewPhase { view: views[v], items: copy_items(&items) });
        v += 1;
    }
    Ok(phases)
}

} // verus!
