//! The draw-submission path: composes a vertex buffer, an optional index
//! buffer, a shader program and a transform into one draw call. Every
//! submission unconditionally enables alpha blending with the fixed
//! source-over factor pair — a global policy applied to every draw, not
//! overridable per object. Each submission uploads the transform it was
//! handed before it draws, so the transform a draw runs under is exactly
//! the one of its own call.

use crate::buffer::Buffer;
use crate::context::{
    DrawMode, DrawRec, GlContext, GlState, Mat4, BLEND, ONE_MINUS_SRC_ALPHA, SRC_ALPHA,
};
use crate::shaders::{enabled_slots, installed_layout, OurShader};
use vstd::prelude::*;

verus! {

/// What one indexed submission under a shader appends to the draw log:
/// one record carrying the call's own mode, buffers, program, index data
/// and — decisively — the call's own transform.
pub open spec fn submitted(
    log: Seq<DrawRec>,
    mode: DrawMode,
    vertex_buffer: u64,
    element_buffer: u64,
    indices: Seq<u16>,
    program: u64,
    transform: Mat4,
) -> Seq<DrawRec> {
    log.push(
        DrawRec {
            mode: mode,
            indexed: true,
            first: 0,
            count: indices.len() as int,
            vertex_buffer: Some(vertex_buffer),
            element_buffer: Some(element_buffer),
            program: Some(program),
            transform: Some(transform),
            indices: indices,
        },
    )
}

/// Binds the vertex buffer, activates the shader (when one is supplied)
/// and uploads the transform, binds the index buffer, forces the global
/// blend policy, and issues an indexed draw over the full index count of
/// the device-side store — what the GPU holds, not the mirror.
pub fn draw_indices<T: Copy>(
    ctx: &mut GlContext,
    mode: DrawMode,
    vertices: &Buffer<T>,
    indices: &Buffer<u16>,
    shader: Option<&OurShader>,
    transform: &Mat4,
)
    requires
        old(ctx)@.wf(),
        vertices@.kind is Array,
        indices@.kind is IndexArray,
        old(ctx)@.live.contains(vertices@.handle),
        old(ctx)@.live.contains(indices@.handle),
        shader matches Some(s) ==> s@.wf() && old(ctx)@.live.contains(s@.program),
    ensures
        final(ctx)@.wf(),
        shader matches Some(s) ==> final(ctx)@ == (GlState {
            bound_array: Some(vertices@.handle),
            bound_elements: Some(indices@.handle),
            current_program: Some(s@.program),
            uniforms: old(ctx)@.uniforms.insert(s@.program, *transform),
            attribs: installed_layout(
                old(ctx)@.attribs,
                s@.attributes,
                s@.attributes.len() as int,
            ),
            enabled_attribs: enabled_slots(
                old(ctx)@.enabled_attribs,
                s@.attributes.len() as int,
            ),
            blend_on: true,
            blend_src: SRC_ALPHA,
            blend_dst: ONE_MINUS_SRC_ALPHA,
            draws: submitted(
                old(ctx)@.draws,
                mode,
                vertices@.handle,
                indices@.handle,
                indices@.device,
                s@.program,
                *transform,
            ),
            ..old(ctx)@
        }),
        shader is None ==> final(ctx)@ == (GlState {
            bound_array: Some(vertices@.handle),
            bound_elements: Some(indices@.handle),
            blend_on: true,
            blend_src: SRC_ALPHA,
            blend_dst: ONE_MINUS_SRC_ALPHA,
            draws: old(ctx)@.draws.push(
                DrawRec {
                    mode: mode,
                    indexed: true,
                    first: 0,
                    count: indices@.device.len() as int,
                    vertex_buffer: Some(vertices@.handle),
                    element_buffer: Some(indices@.handle),
                    program: old(ctx)@.current_program,
                    transform: old(ctx)@.current_mvp(),
                    indices: indices@.device,
                },
            ),
            ..old(ctx)@
        }),
{
    vertices.bind(ctx);
    match shader {
        Some(s) => {
            s.set_active(ctx);
            let loc = s.get_uniform_location(ctx);
            ctx.uniform_matrix_4fv(&loc, false, transform);
        },
        None => {},
    }
    indices.bind(ctx);
    ctx.enable(BLEND);
    ctx.blend_func(SRC_ALPHA, ONE_MINUS_SRC_ALPHA);
    ctx.draw_elements(mode, indices.device_contents());
    proof {
        match shader {
            Some(s) => {
                assert(ctx@ =~~= (GlState {
                    bound_array: Some(vertices@.handle),
                    bound_elements: Some(indices@.handle),
                    current_program: Some(s@.program),
                    uniforms: old(ctx)@.uniforms.insert(s@.program, *transform),
                    attribs: installed_layout(
                        old(ctx)@.attribs,
                        s@.attributes,
                        s@.attributes.len() as int,
                    ),
                    enabled_attribs: enabled_slots(
                        old(ctx)@.enabled_attribs,
                        s@.attributes.len() as int,
                    ),
                    blend_on: true,
                    blend_src: SRC_ALPHA,
                    blend_dst: ONE_MINUS_SRC_ALPHA,
                    draws: submitted(
                        old(ctx)@.draws,
                        mode,
                        vertices@.handle,
                        indices@.handle,
                        indices@.device,
                        s@.program,
                        *transform,
                    ),
                    ..old(ctx)@
                }));
            },
            None => {
                assert(ctx@ =~~= (GlState {
                    bound_array: Some(vertices@.handle),
                    bound_elements: Some(indices@.handle),
                    blend_on: true,
                    blend_src: SRC_ALPHA,
                    blend_dst: ONE_MINUS_SRC_ALPHA,
                    draws: old(ctx)@.draws.push(
                        DrawRec {
                            mode: mode,
                            indexed: true,
                            first: 0,
                            count: indices@.device.len() as int,
                            vertex_buffer: Some(vertices@.handle),
                            element_buffer: Some(indices@.handle),
                            program: old(ctx)@.current_program,
                            transform: old(ctx)@.current_mvp(),
                            indices: indices@.device,
                        },
                    ),
                    ..old(ctx)@
                }));
            },
        }
    }
}

/// The non-indexed variant: binds the vertex buffer, activates the
/// shader and uploads the transform the same way, forces the same blend
/// policy, and draws `count` sequential vertices starting at `first`.
pub fn draw_vertices<T: Copy>(
    ctx: &mut GlContext,
    mode: DrawMode,
    vertices: &Buffer<T>,
    shader: Option<&OurShader>,
    transform: &Mat4,
    first: usize,
    count: usize,
)
    requires
        old(ctx)@.wf(),
        vertices@.kind is Array,
        old(ctx)@.live.contains(vertices@.handle),
        shader matches Some(s) ==> s@.wf() && old(ctx)@.live.contains(s@.program),
    ensures
        final(ctx)@.wf(),
        shader matches Some(s) ==> final(ctx)@ == (GlState {
            bound_array: Some(vertices@.handle),
            current_program: Some(s@.program),
            uniforms: old(ctx)@.uniforms.insert(s@.program, *transform),
            attribs: installed_layout(
                old(ctx)@.attribs,
                s@.attributes,
                s@.attributes.len() as int,
            ),
            enabled_attribs: enabled_slots(
                old(ctx)@.enabled_attribs,
                s@.attributes.len() as int,
            ),
            blend_on: true,
            blend_src: SRC_ALPHA,
            blend_dst: ONE_MINUS_SRC_ALPHA,
            draws: old(ctx)@.draws.push(
                DrawRec {
                    mode: mode,
                    indexed: false,
                    first: first as int,
                    count: count as int,
                    vertex_buffer: Some(vertices@.handle),
                    element_buffer: None,
                    program: Some(s@.program),
                    transform: Some(*transform),
                    indices: Seq::empty(),
                },
            ),
            ..old(ctx)@
        }),
        shader is None ==> final(ctx)@ == (GlState {
            bound_array: Some(vertices@.handle),
            blend_on: true,
            blend_src: SRC_ALPHA,
            blend_dst: ONE_MINUS_SRC_ALPHA,
            draws: old(ctx)@.draws.push(
                DrawRec {
                    mode: mode,
                    indexed: false,
                    first: first as int,
                    count: count as int,
                    vertex_buffer: Some(vertices@.handle),
                    element_buffer: None,
                    program: old(ctx)@.current_program,
                    transform: old(ctx)@.current_mvp(),
                    indices: Seq::empty(),
                },
            ),
            ..old(ctx)@
        }),
{
    vertices.bind(ctx);
    match shader {
        Some(s) => {
            s.set_active(ctx);
            let loc = s.get_uniform_location(ctx);
            ctx.uniform_matrix_4fv(&loc, false, transform);
        },
        None => {},
    }
    ctx.enable(BLEND);
    ctx.blend_func(SRC_ALPHA, ONE_MINUS_SRC_ALPHA);
    ctx.draw_arrays(mode, first, count);
    proof {
        match shader {
            Some(s) => {
                assert(ctx@ =~~= (GlState {
                    bound_array: Some(vertices@.handle),
                    current_program: Some(s@.program),
                    uniforms: old(ctx)@.uniforms.insert(s@.program, *transform),
                    attribs: installed_layout(
                        old(ctx)@.attribs,
                        s@.attributes,
                        s@.attributes.len() as int,
                    ),
                    enabled_attribs: enabled_slots(
                        old(ctx)@.enabled_attribs,
                        s@.attributes.len() as int,
                    ),
                    blend_on: true,
                    blend_src: SRC_ALPHA,
                    blend_dst: ONE_MINUS_SRC_ALPHA,
                    draws: old(ctx)@.draws.push(
                        DrawRec {
                            mode: mode,
                            indexed: false,
                            first: first as int,
                            count: count as int,
                            vertex_buffer: Some(vertices@.handle),
                            element_buffer: None,
                            program: Some(s@.program),
                            transform: Some(*transform),
                            indices: Seq::empty(),
                        },
                    ),
                    ..old(ctx)@
                }));
            },
            None => {
                assert(ctx@ =~~= (GlState {
                    bound_array: Some(vertices@.handle),
                    blend_on: true,
                    blend_src: SRC_ALPHA,
                    blend_dst: ONE_MINUS_SRC_ALPHA,
                    draws: old(ctx)@.draws.push(
                        DrawRec {
                            mode: mode,
                            indexed: false,
                            first: first as int,
                            count: count as int,
                            vertex_buffer: Some(vertices@.handle),
                            element_buffer: None,
                            program: old(ctx)@.current_program,
                            transform: old(ctx)@.current_mvp(),
                            indices: Seq::empty(),
                        },
                    ),
                    ..old(ctx)@
                }));
            },
        }
    }
}

/// No uniform state leaks between submissions: submitting twice leaves
/// two records, the first under the first call's transform and the
/// second under the second call's; the second submission changes neither
/// the first record nor anything submitted earlier.
pub proof fn lemma_transform_per_draw(
    log: Seq<DrawRec>,
    mode1: DrawMode,
    vb1: u64,
    ib1: u64,
    ixs1: Seq<u16>,
    p1: u64,
    t1: Mat4,
    mode2: DrawMode,
    vb2: u64,
    ib2: u64,
    ixs2: Seq<u16>,
    p2: u64,
    t2: Mat4,
)
    ensures
        ({
            let once = submitted(log, mode1, vb1, ib1, ixs1, p1, t1);
            let twice = submitted(once, mode2, vb2, ib2, ixs2, p2, t2);
            &&& twice.len() == log.len() + 2
            &&& twice[log.len() as int].transform == Some(t1)
            &&& twice[log.len() as int + 1].transform == Some(t2)
            &&& twice[log.len() as int] == once[log.len() as int]
            &&& twice.subrange(0, log.len() as int) =~= log
        }),
{
    let once = submitted(log, mode1, vb1, ib1, ixs1, p1, t1);
    let twice = submitted(once, mode2, vb2, ib2, ixs2, p2, t2);
    assert(twice.subrange(0, log.len() as int) =~= log);
}

} // verus!
