use vstd::prelude::*;

verus! {

/// The frame's bind group over the mesh transform uniforms.
pub struct TransformBindGroup<G> {
    pub value: G,
}

/// The frame's bind group over the tilemap uniform data.
pub struct TilemapUniformDataBindGroup<G> {
    pub value: G,
}

/// The bind group over the view uniforms, one per view.
pub struct TilemapViewBindGroup<G> {
    pub value: G,
}

/// Rebuilds the transform bind group when the frame's transform uniform
/// buffer has a binding; without one there is no bind group this frame.
pub fn queue_transform_bind_group<B, G, F: FnOnce(B) -> G>(binding: Option<B>, create: F) -> (r:
    Option<TransformBindGroup<G>>)
    requires
        forall|b: B| call_requires(create, (b,)),
    ensures
        r is Some <==> binding is Some,
        r is Some ==> call_ensures(create, (binding->0,), r->0.value),
{
    match binding {
        Some(b) => Some(TransformBindGroup { value: create(b) }),
        None => None,
    }
}

/// Rebuilds the tilemap uniform bind group when the frame's tilemap uniform
/// buffer has a binding; without one there is no bind group this frame.
pub fn queue_tilemap_bind_group<B, G, F: FnOnce(B) -> G>(binding: Option<B>, create: F) -> (r:
    Option<TilemapUniformDataBindGroup<G>>)
    requires
        forall|b: B| call_requires(create, (b,)),
    ensures
        r is Some <==> binding is Some,
        r is Some ==> call_ensures(create, (binding->0,), r->0.value),
{
    match binding {
        Some(b) => Some(TilemapUniformDataBindGroup { value: create(b) }),
        None => None,
    }
}

} // verus!
