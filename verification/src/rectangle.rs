//! A drawable rectangle: one quad, encoded the one fixed way the layer
//! promises — four interleaved vertex records of position.xyz, color.rgb
//! and texcoord.uv (eight scalars each), and the two-triangle index
//! winding 0,1,2,0,2,3. The scalar type is a parameter; the caller
//! supplies its embeddings of the constants zero and one, which fill the
//! z coordinate and the texture corners.

use crate::buffer::{BufState, Buffer, BufferType};
use crate::context::{DrawMode, DrawRec, GlContext, GlState, Mat4, UploadRec};
use crate::render_target::{draw_indices, submitted};
use crate::shaders::{enabled_slots, installed_layout, OurShader, ShaderState};
use vstd::prelude::*;

verus! {

/// The two corners a rectangle spans: (x1, y1) and (x2, y2).
#[derive(Clone, Copy, Debug)]
pub struct Coordinates<T> {
    pub x1: T,
    pub y1: T,
    pub x2: T,
    pub y2: T,
}

/// The 32 scalars of a quad's four vertex records, in the fixed corner
/// order (x1,y1), (x2,y1), (x2,y2), (x1,y2): each record is position
/// x,y,z then color r,g,b then texcoord u,v, with z always zero and the
/// texture corners at zero and one.
pub open spec fn quad_vertex_seq<T>(pos: Coordinates<T>, color: (T, T, T), zero: T, one: T) -> Seq<
    T,
> {
    seq![
        pos.x1, pos.y1, zero, color.0, color.1, color.2, zero, zero,
        pos.x2, pos.y1, zero, color.0, color.1, color.2, one, zero,
        pos.x2, pos.y2, zero, color.0, color.1, color.2, one, one,
        pos.x1, pos.y2, zero, color.0, color.1, color.2, zero, one,
    ]
}

/// The fixed two-triangle winding of a quad.
pub open spec fn quad_index_seq() -> Seq<u16> {
    seq![0u16, 1u16, 2u16, 0u16, 2u16, 3u16]
}

/// Builds the 32 interleaved scalars of a quad, exactly as
/// `quad_vertex_seq` lays them out.
pub fn quad_vertices<T: Copy>(pos: Coordinates<T>, color: (T, T, T), zero: T, one: T) -> (v: Vec<
    T,
>)
    ensures
        v@ == quad_vertex_seq(pos, color, zero, one),
{
    let mut v: Vec<T> = Vec::new();
    v.push(pos.x1);
    v.push(pos.y1);
    v.push(zero);
    v.push(color.0);
    v.push(color.1);
    v.push(color.2);
    v.push(zero);
    v.push(zero);
    v.push(pos.x2);
    v.push(pos.y1);
    v.push(zero);
    v.push(color.0);
    v.push(color.1);
    v.push(color.2);
    v.push(one);
    v.push(zero);
    v.push(pos.x2);
    v.push(pos.y2);
    v.push(zero);
    v.push(color.0);
    v.push(color.1);
    v.push(color.2);
    v.push(one);
    v.push(one);
    v.push(pos.x1);
    v.push(pos.y2);
    v.push(zero);
    v.push(color.0);
    v.push(color.1);
    v.push(color.2);
    v.push(zero);
    v.push(one);
    proof {
        assert(v@ =~= quad_vertex_seq(pos, color, zero, one));
    }
    v
}

/// Builds the fixed quad winding 0,1,2,0,2,3.
pub fn quad_indices() -> (v: Vec<u16>)
    ensures
        v@ == quad_index_seq(),
{
    let mut v: Vec<u16> = Vec::new();
    v.push(0);
    v.push(1);
    v.push(2);
    v.push(0);
    v.push(2);
    v.push(3);
    proof {
        assert(v@ =~= quad_index_seq());
    }
    v
}

/// The mathematical shape of a rectangle: its two buffers, its optional
/// shader, and the scalars its quad is rebuilt from.
#[verifier::ext_equal]
pub ghost struct RectState<T> {
    pub vertices: BufState<T>,
    pub indices: BufState<u16>,
    pub shader: Option<ShaderState>,
    pub color: (T, T, T),
    pub zero: T,
    pub one: T,
}

impl<T> RectState<T> {
    pub open spec fn wf(self) -> bool {
        &&& self.vertices.kind is Array
        &&& self.indices.kind is IndexArray
        &&& match self.shader {
            Some(s) => s.wf(),
            None => true,
        }
    }

    /// The handles this rectangle owns — and its shader's, if it holds
    /// one — are live in the given backend state.
    pub open spec fn live_in(self, ctx: GlState) -> bool {
        &&& ctx.live.contains(self.vertices.handle)
        &&& ctx.live.contains(self.indices.handle)
        &&& match self.shader {
            Some(s) => s.live_in(ctx),
            None => true,
        }
    }
}

/// The view of an optional owned shader.
pub open spec fn shader_view(shader: Option<OurShader>) -> Option<ShaderState> {
    match shader {
        Some(s) => Some(s@),
        None => None,
    }
}

/// A drawable rectangle owning its vertex and index buffers.
pub struct Rectangle<T> {
    vertices: Buffer<T>,
    indices: Buffer<u16>,
    shader: Option<OurShader>,
    color: (T, T, T),
    zero: T,
    one: T,
}

impl<T> View for Rectangle<T> {
    type V = RectState<T>;

    closed spec fn view(&self) -> RectState<T> {
        RectState {
            vertices: self.vertices@,
            indices: self.indices@,
            shader: match self.shader {
                Some(s) => Some(s@),
                None => None,
            },
            color: self.color,
            zero: self.zero,
            one: self.one,
        }
    }
}

impl<T: Copy> Rectangle<T> {
    /// Creates the two buffers, fills them with the quad for the given
    /// corners and color, and uploads both in full, so the device stores
    /// hold the quad from the start.
    pub fn new(ctx: &mut GlContext, pos: Coordinates<T>, color: (T, T, T), zero: T, one: T) -> (r:
        Rectangle<T>)
        requires
            old(ctx)@.wf(),
            old(ctx)@.next_handle + 2 <= u64::MAX,
        ensures
            final(ctx)@.wf(),
            r@.wf(),
            r@.live_in(final(ctx)@),
            r@.vertices.handle == old(ctx)@.next_handle,
            r@.indices.handle == old(ctx)@.next_handle + 1,
            r@.vertices.mirror == quad_vertex_seq(pos, color, zero, one),
            r@.vertices.device == quad_vertex_seq(pos, color, zero, one),
            r@.indices.mirror == quad_index_seq(),
            r@.indices.device == quad_index_seq(),
            r@.shader is None,
            r@.color == color,
            r@.zero == zero,
            r@.one == one,
            final(ctx)@ == (GlState {
                next_handle: (old(ctx)@.next_handle + 2) as u64,
                live: old(ctx)@.live.insert(r@.vertices.handle).insert(r@.indices.handle),
                bound_array: Some(r@.vertices.handle),
                bound_elements: Some(r@.indices.handle),
                uploads: old(ctx)@.uploads.push(
                    UploadRec {
                        target: crate::context::ARRAY_BUFFER,
                        handle: r@.vertices.handle,
                        len: 32,
                        usage: crate::context::STATIC_DRAW,
                    },
                ).push(
                    UploadRec {
                        target: crate::context::ELEMENT_ARRAY_BUFFER,
                        handle: r@.indices.handle,
                        len: 6,
                        usage: crate::context::STATIC_DRAW,
                    },
                ),
                ..old(ctx)@
            }),
            final(ctx)@.live.len() == old(ctx)@.live.len() + 2,
    {
        let mut vertices: Buffer<T> = Buffer::new(ctx, BufferType::Array);
        let mut indices: Buffer<u16> = Buffer::new(ctx, BufferType::IndexArray);

        let quad = quad_vertices(pos, color, zero, one);
        vertices.push(quad.as_slice());
        let winding = quad_indices();
        indices.set_data(winding.as_slice());

        vertices.bind(ctx);
        let vertex_count = vertices.len();
        vertices.upload_data(ctx, 0, vertex_count, true);

        indices.bind(ctx);
        let index_count = indices.len();
        indices.upload_data(ctx, 0, index_count, true);

        proof {
            assert(vertices@.mirror =~= quad_vertex_seq(pos, color, zero, one));
            assert(vertices@.device =~= quad_vertex_seq(pos, color, zero, one));
            assert(indices@.mirror =~= quad_index_seq());
            assert(indices@.device =~= quad_index_seq());
            assert(ctx@ =~~= (GlState {
                next_handle: (old(ctx)@.next_handle + 2) as u64,
                live: old(ctx)@.live.insert(vertices@.handle).insert(indices@.handle),
                bound_array: Some(vertices@.handle),
                bound_elements: Some(indices@.handle),
                uploads: old(ctx)@.uploads.push(
                    UploadRec {
                        target: crate::context::ARRAY_BUFFER,
                        handle: vertices@.handle,
                        len: 32,
                        usage: crate::context::STATIC_DRAW,
                    },
                ).push(
                    UploadRec {
                        target: crate::context::ELEMENT_ARRAY_BUFFER,
                        handle: indices@.handle,
                        len: 6,
                        usage: crate::context::STATIC_DRAW,
                    },
                ),
                ..old(ctx)@
            }));
        }

        Rectangle { vertices, indices, shader: None, color, zero, one }
    }

    /// Rebuilds the quad for new corners — same color, same constants —
    /// and uploads the vertex buffer in full. The index buffer needs no
    /// change: the winding is position-independent.
    pub fn set_position(&mut self, ctx: &mut GlContext, pos: Coordinates<T>)
        requires
            old(ctx)@.wf(),
            old(self)@.wf(),
            old(ctx)@.live.contains(old(self)@.vertices.handle),
        ensures
            final(ctx)@.wf(),
            final(self)@.wf(),
            final(self)@ == (RectState {
                vertices: BufState {
                    mirror: quad_vertex_seq(
                        pos,
                        old(self)@.color,
                        old(self)@.zero,
                        old(self)@.one,
                    ),
                    device: quad_vertex_seq(
                        pos,
                        old(self)@.color,
                        old(self)@.zero,
                        old(self)@.one,
                    ),
                    ..old(self)@.vertices
                },
                ..old(self)@
            }),
            final(ctx)@ == (GlState {
                bound_array: Some(old(self)@.vertices.handle),
                uploads: old(ctx)@.uploads.push(
                    UploadRec {
                        target: crate::context::ARRAY_BUFFER,
                        handle: old(self)@.vertices.handle,
                        len: 32,
                        usage: crate::context::STATIC_DRAW,
                    },
                ),
                ..old(ctx)@
            }),
    {
        self.vertices.clear();
        let quad = quad_vertices(pos, self.color, self.zero, self.one);
        self.vertices.push(quad.as_slice());

        self.vertices.bind(ctx);
        let vertex_count = self.vertices.len();
        self.vertices.upload_data(ctx, 0, vertex_count, true);

        proof {
            assert(self@.vertices.mirror =~= quad_vertex_seq(
                pos,
                old(self)@.color,
                old(self)@.zero,
                old(self)@.one,
            ));
            assert(self@.vertices.device =~= quad_vertex_seq(
                pos,
                old(self)@.color,
                old(self)@.zero,
                old(self)@.one,
            ));
            assert(self@ =~~= (RectState {
                vertices: BufState {
                    mirror: quad_vertex_seq(
                        pos,
                        old(self)@.color,
                        old(self)@.zero,
                        old(self)@.one,
                    ),
                    device: quad_vertex_seq(
                        pos,
                        old(self)@.color,
                        old(self)@.zero,
                        old(self)@.one,
                    ),
                    ..old(self)@.vertices
                },
                ..old(self)@
            }));
            assert(ctx@ =~~= (GlState {
                bound_array: Some(old(self)@.vertices.handle),
                uploads: old(ctx)@.uploads.push(
                    UploadRec {
                        target: crate::context::ARRAY_BUFFER,
                        handle: old(self)@.vertices.handle,
                        len: 32,
                        usage: crate::context::STATIC_DRAW,
                    },
                ),
                ..old(ctx)@
            }));
        }
    }

    /// Hands this rectangle the shader its draws activate; `None` makes
    /// draws run under whatever program is already current.
    pub fn set_shader(&mut self, shader: Option<OurShader>)
        ensures
            final(self)@ == (RectState { shader: shader_view(shader), ..old(self)@ }),
    {
        self.shader = shader;
        proof {
            assert(final(self)@ =~~= (RectState { shader: shader_view(shader), ..old(self)@ }));
        }
    }

    /// The handle of the vertex buffer this rectangle owns.
    pub fn vertices_handle(&self) -> (h: u64)
        ensures
            h == self@.vertices.handle,
    {
        self.vertices.handle()
    }

    /// The handle of the index buffer this rectangle owns.
    pub fn indices_handle(&self) -> (h: u64)
        ensures
            h == self@.indices.handle,
    {
        self.indices.handle()
    }

    /// The shader this rectangle draws with, if it holds one.
    pub fn get_shader(&self) -> (r: Option<&OurShader>)
        ensures
            match r {
                Some(s) => self@.shader == Some(s@),
                None => self@.shader is None,
            },
    {
        self.shader.as_ref()
    }

    /// Submits this rectangle under the given transform: one indexed
    /// triangle draw over its six device-side indices.
    pub fn draw_transformed(&self, ctx: &mut GlContext, view_matrix: &Mat4)
        requires
            old(ctx)@.wf(),
            self@.wf(),
            self@.live_in(old(ctx)@),
        ensures
            final(ctx)@.wf(),
            self@.shader matches Some(s) ==> final(ctx)@ == (GlState {
                bound_array: Some(self@.vertices.handle),
                bound_elements: Some(self@.indices.handle),
                current_program: Some(s.program),
                uniforms: old(ctx)@.uniforms.insert(s.program, *view_matrix),
                attribs: installed_layout(
                    old(ctx)@.attribs,
                    s.attributes,
                    s.attributes.len() as int,
                ),
                enabled_attribs: enabled_slots(
                    old(ctx)@.enabled_attribs,
                    s.attributes.len() as int,
                ),
                blend_on: true,
                blend_src: crate::context::SRC_ALPHA,
                blend_dst: crate::context::ONE_MINUS_SRC_ALPHA,
                draws: submitted(
                    old(ctx)@.draws,
                    DrawMode::Triangles,
                    self@.vertices.handle,
                    self@.indices.handle,
                    self@.indices.device,
                    s.program,
                    *view_matrix,
                ),
                ..old(ctx)@
            }),
            self@.shader is None ==> final(ctx)@ == (GlState {
                bound_array: Some(self@.vertices.handle),
                bound_elements: Some(self@.indices.handle),
                blend_on: true,
                blend_src: crate::context::SRC_ALPHA,
                blend_dst: crate::context::ONE_MINUS_SRC_ALPHA,
                draws: old(ctx)@.draws.push(
                    DrawRec {
                        mode: DrawMode::Triangles,
                        indexed: true,
                        first: 0,
                        count: self@.indices.device.len() as int,
                        vertex_buffer: Some(self@.vertices.handle),
                        element_buffer: Some(self@.indices.handle),
                        program: old(ctx)@.current_program,
                        transform: old(ctx)@.current_mvp(),
                        indices: self@.indices.device,
                    },
                ),
                ..old(ctx)@
            }),
    {
        draw_indices(
            ctx,
            DrawMode::Triangles,
            &self.vertices,
            &self.indices,
            self.shader.as_ref(),
            view_matrix,
        );
    }

    /// Releases both buffer handles, each exactly once, and hands the
    /// shader — which this rectangle only borrowed the use of, not its
    /// lifetime — back to the caller.
    pub fn destroy(self, ctx: &mut GlContext) -> (shader: Option<OurShader>)
        requires
            old(ctx)@.wf(),
            self@.wf(),
            self@.live_in(old(ctx)@),
            self@.vertices.handle != self@.indices.handle,
        ensures
            final(ctx)@.wf(),
            final(ctx)@.live =~= old(ctx)@.live.remove(self@.vertices.handle).remove(
                self@.indices.handle,
            ),
            final(ctx)@.live.len() == old(ctx)@.live.len() - 2,
            final(ctx)@.draws == old(ctx)@.draws,
            final(ctx)@.uploads == old(ctx)@.uploads,
            final(ctx)@.uniforms == old(ctx)@.uniforms,
            final(ctx)@.next_handle == old(ctx)@.next_handle,
            shader_view(shader) == self@.shader,
    {
        self.vertices.destroy(ctx);
        self.indices.destroy(ctx);
        self.shader
    }
}

} // verus!
