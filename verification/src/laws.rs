//! The laws this layer guarantees, stated over the same spec-level
//! transitions that the operations' contracts use, and proved once and for
//! all inputs.

use vstd::prelude::*;
use crate::buffer::{after_buffer_from_data, after_release_buffer, read_back};
use crate::renderbuffer::after_release_renderbuffer;
use crate::device::{
    DeviceView, MAX_VERTEX_ATTRIBUTES, SlotState, after_destroy_context, ctx_alive,
};
use crate::format::TextureFormat;
use crate::texture3d::{after_texture_from_data, storage_size};
use crate::vao::after_vao_set_attrib;

verus! {

/// Law: uploading `data` as a fresh buffer and downloading it back as
/// elements of `element_size` bytes yields exactly the original bytes,
/// whenever the data holds whole elements; in particular, `n` uploaded
/// elements come back as exactly those `n` elements.
pub proof fn lemma_buffer_round_trip(d: DeviceView, c: usize, data: Seq<u8>, element_size: int)
    requires
        d.buffers.len() < 0xFFFF_FFFF,
        element_size >= 1,
        (data.len() as int) % element_size == 0,
    ensures
        read_back(
            after_buffer_from_data(d, c, data).buffers[d.buffers.len() as int].bytes,
            element_size,
        ) == data,
{
    let d2 = after_buffer_from_data(d, c, data);
    assert(d2.buffers[d.buffers.len() as int].bytes == data);
    vstd::arithmetic::div_mod::lemma_fundamental_div_mod(data.len() as int, element_size);
    vstd::arithmetic::mul::lemma_mul_is_commutative(
        (data.len() as int) / element_size,
        element_size,
    );
    assert(((data.len() as int) / element_size) * element_size == data.len());
    assert(data.take(data.len() as int) =~= data);
}

/// Law: creating a texture from `data` whose transfer format equals its
/// storage format stores exactly `data`, so a download returns it
/// unchanged; `data` holds one component per channel for every element of
/// the volume.
pub proof fn lemma_texture_round_trip(
    d: DeviceView,
    c: usize,
    dims: (usize, usize, usize),
    format: TextureFormat,
    data: Seq<u8>,
)
    requires
        d.textures.len() < 0xFFFF_FFFF,
        data.len() == storage_size(dims, format),
    ensures
        after_texture_from_data(d, c, dims, format, data, format).textures[d.textures.len() as int]
            .bytes == data,
{
}

/// Law: setting a vertex source twice with the same arguments produces
/// exactly the same device state, bindings and attribute slots alike, as
/// setting it once.
pub proof fn lemma_set_vertex_source_idempotent(
    d: DeviceView,
    c: usize,
    vh: u32,
    bh: u32,
    index: u32,
    components: u32,
)
    requires
        c < d.contexts.len(),
        1 <= vh,
        vh - 1 < d.vaos.len(),
        d.vaos[vh - 1].attribs.len() == MAX_VERTEX_ATTRIBUTES,
        index < MAX_VERTEX_ATTRIBUTES as u32,
    ensures
        after_vao_set_attrib(
            after_vao_set_attrib(d, c, vh, bh, index, components),
            c,
            vh,
            bh,
            index,
            components,
        ) == after_vao_set_attrib(d, c, vh, bh, index, components),
{
    let d1 = after_vao_set_attrib(d, c, vh, bh, index, components);
    let d2 = after_vao_set_attrib(d1, c, vh, bh, index, components);
    assert(d2.contexts =~= d1.contexts);
    assert(d2.vaos[vh - 1].attribs =~= d1.vaos[vh - 1].attribs);
    assert(d2.vaos =~~= d1.vaos);
    assert(d2 =~~= d1);
}

/// Law: when a context is destroyed before a buffer created from it is
/// released, the release makes no device call at all: the device is exactly
/// as the destruction left it, and the context reads as dead to the
/// release, as it does to every weak reference.
pub proof fn lemma_destroy_then_release(d: DeviceView, c: usize, i: int)
    requires
        c < d.contexts.len(),
        0 <= i < d.buffers.len(),
        d.buffers[i].ctx == c,
    ensures
        !ctx_alive(after_destroy_context(d, c), c),
        after_release_buffer(after_destroy_context(d, c), i) == after_destroy_context(d, c),
{
    assert(after_destroy_context(d, c).contexts[c as int].alive == false);
}

/// Law: releasing a buffer while its context is alive issues exactly one
/// delete call, for exactly that buffer: its slot alone goes to `Deleted`,
/// every other slot of every kind is untouched, and destroying the context
/// afterwards leaves the object tables exactly as the release left them.
pub proof fn lemma_release_then_destroy(d: DeviceView, c: usize, i: int)
    requires
        c < d.contexts.len(),
        0 <= i < d.buffers.len(),
        d.buffers[i].ctx == c,
        d.buffers[i].state == SlotState::Live,
        ctx_alive(d, c),
    ensures
        after_release_buffer(d, i).buffers[i].state == SlotState::Deleted,
        forall|j: int|
            0 <= j < d.buffers.len() && j != i ==> after_release_buffer(d, i).buffers[j]
                == #[trigger] d.buffers[j],
        after_release_buffer(d, i).textures == d.textures,
        after_release_buffer(d, i).renderbuffers == d.renderbuffers,
        after_release_buffer(d, i).vaos == d.vaos,
        after_release_buffer(d, i).contexts == d.contexts,
        after_destroy_context(after_release_buffer(d, i), c).buffers == after_release_buffer(
            d,
            i,
        ).buffers,
{
}

/// Law: a renderbuffer release consults the weak context reference before
/// anything else. A placeholder (handle zero) never touches the device, and
/// once the context is destroyed neither does a materialized one; while the
/// context is alive, exactly the renderbuffer's own slot goes to `Deleted`.
pub proof fn lemma_renderbuffer_release_consults_liveness(d: DeviceView, h: u32, c: usize)
    requires
        c < d.contexts.len(),
        h != 0 ==> h - 1 < d.renderbuffers.len() && d.renderbuffers[h - 1].ctx == c,
    ensures
        h == 0 ==> after_release_renderbuffer(d, h, c) == d,
        after_release_renderbuffer(after_destroy_context(d, c), h, c) == after_destroy_context(
            d,
            c,
        ),
        h != 0 && ctx_alive(d, c) ==> after_release_renderbuffer(d, h, c).renderbuffers[h - 1]
            .state == SlotState::Deleted,
        h != 0 && ctx_alive(d, c) ==> forall|j: int|
            0 <= j < d.renderbuffers.len() && j != h - 1 ==> after_release_renderbuffer(
                d,
                h,
                c,
            ).renderbuffers[j] == #[trigger] d.renderbuffers[j],
{
    assert(after_destroy_context(d, c).contexts[c as int].alive == false);
}

} // verus!
