//! The capability surface every backend must honor: opaque GPU handles,
//! the fixed-meaning constants, and the calls that create, bind, fill,
//! and release GPU resources. `GlContext` is the model backend: it keeps
//! the whole observable backend state (live handles, bindings, uniform
//! values, attribute layout, the submitted draws) as an explicit value,
//! and every call says in its contract exactly how that state moves.

use std::collections::HashMap;
use std::collections::HashSet;
use vstd::prelude::*;

verus! {

broadcast use vstd::std_specs::hash::group_hash_axioms;

// Numeric encodings are backend-private; the model backend uses the
// desktop GL numbering, so a native adapter can pass them through.
pub const FLOAT: u32 = 0x1406;

pub const COLOR_BUFFER_BIT: u32 = 0x4000;

pub const VERTEX_SHADER: u32 = 0x8B31;

pub const FRAGMENT_SHADER: u32 = 0x8B30;

pub const ARRAY_BUFFER: u32 = 0x8892;

pub const ELEMENT_ARRAY_BUFFER: u32 = 0x8893;

pub const STATIC_DRAW: u32 = 0x88E4;

pub const DYNAMIC_DRAW: u32 = 0x88E8;

pub const COMPILE_STATUS: u32 = 0x8B81;

pub const BLEND: u32 = 0x0BE2;

pub const SRC_ALPHA: u32 = 0x0302;

pub const ONE_MINUS_SRC_ALPHA: u32 = 0x0303;

pub const ONE: u32 = 1;

pub const ZERO: u32 = 0;

/// The primitive draw modes, one name per semantic value.
#[derive(Clone, Copy, PartialEq, Eq, Structural, Debug)]
pub enum DrawMode {
    Points,
    Lines,
    LineLoop,
    LineStrip,
    Triangles,
    TriangleStrip,
    TriangleFan,
}

/// The shader stages a backend can compile.
#[derive(Clone, Copy, PartialEq, Eq, Structural, Debug)]
pub enum ShaderType {
    Vertex,
    Fragment,
}

impl DrawMode {
    /// The backend-private numeric code of this mode.
    pub fn gl_mode(&self) -> (code: u32)
        ensures
            code == self.spec_gl_mode(),
    {
        match *self {
            DrawMode::Points => 0,
            DrawMode::Lines => 1,
            DrawMode::LineLoop => 2,
            DrawMode::LineStrip => 3,
            DrawMode::Triangles => 4,
            DrawMode::TriangleStrip => 5,
            DrawMode::TriangleFan => 6,
        }
    }

    pub open spec fn spec_gl_mode(self) -> u32 {
        match self {
            DrawMode::Points => 0,
            DrawMode::Lines => 1,
            DrawMode::LineLoop => 2,
            DrawMode::LineStrip => 3,
            DrawMode::Triangles => 4,
            DrawMode::TriangleStrip => 5,
            DrawMode::TriangleFan => 6,
        }
    }
}

impl ShaderType {
    /// The backend-private numeric code of this stage.
    pub fn gl_type(&self) -> (code: u32)
        ensures
            *self is Vertex ==> code == VERTEX_SHADER,
            *self is Fragment ==> code == FRAGMENT_SHADER,
    {
        match *self {
            ShaderType::Vertex => VERTEX_SHADER,
            ShaderType::Fragment => FRAGMENT_SHADER,
        }
    }
}

/// A 4x4 transform matrix, carried as the raw bit patterns of its sixteen
/// scalar entries in column-major order. The layer never computes with the
/// entries, it only hands the matrix through to the backend, so the bit
/// pattern is all it needs to hold.
#[derive(Clone, Copy, PartialEq, Debug)]
pub struct Mat4 {
    pub bits: [u32; 16],
}

/// A resolved uniform slot: the program it was resolved against, plus the
/// name it was resolved by (kept in ghost form for the contracts).
#[derive(Clone, Copy)]
pub struct UniformLocation {
    pub program: u64,
    pub name: Ghost<Seq<char>>,
}

/// One vertex-attribute slot as the backend sees it after
/// `vertex_attrib_pointer`: byte stride and byte offset included.
#[derive(Clone, Copy, PartialEq, Debug)]
pub struct AttribPointer {
    pub size: i32,
    pub data_type: u32,
    pub normalized: bool,
    pub stride_bytes: i32,
    pub offset_bytes: i32,
}

/// One submitted draw call, as recorded by the model backend.
#[derive(Clone, PartialEq, Debug)]
pub struct DrawRecord {
    pub mode: DrawMode,
    pub indexed: bool,
    pub first: usize,
    pub count: usize,
    pub vertex_buffer: Option<u64>,
    pub element_buffer: Option<u64>,
    pub program: Option<u64>,
    pub transform: Option<Mat4>,
    pub indices: Vec<u16>,
}

/// The mathematical shape of one submitted draw call.
#[verifier::ext_equal]
pub ghost struct DrawRec {
    pub mode: DrawMode,
    pub indexed: bool,
    pub first: int,
    pub count: int,
    pub vertex_buffer: Option<u64>,
    pub element_buffer: Option<u64>,
    pub program: Option<u64>,
    pub transform: Option<Mat4>,
    pub indices: Seq<u16>,
}

impl View for DrawRecord {
    type V = DrawRec;

    open spec fn view(&self) -> DrawRec {
        DrawRec {
            mode: self.mode,
            indexed: self.indexed,
            first: self.first as int,
            count: self.count as int,
            vertex_buffer: self.vertex_buffer,
            element_buffer: self.element_buffer,
            program: self.program,
            transform: self.transform,
            indices: self.indices@,
        }
    }
}

/// One buffer-store transfer, as recorded by the model backend: which
/// target it went to, which buffer was bound there, how many elements
/// moved, and under which usage hint.
#[verifier::ext_equal]
pub ghost struct UploadRec {
    pub target: u32,
    pub handle: u64,
    pub len: int,
    pub usage: u32,
}

/// The whole observable state of the backend.
#[verifier::ext_equal]
pub ghost struct GlState {
    /// The next handle value the backend will give out.
    pub next_handle: u64,
    /// Every handle that has been created and not yet deleted.
    pub live: Set<u64>,
    pub bound_array: Option<u64>,
    pub bound_elements: Option<u64>,
    pub bound_vertex_array: Option<u64>,
    pub current_program: Option<u64>,
    /// The one 4x4 matrix uniform each program owns.
    pub uniforms: Map<u64, Mat4>,
    pub attribs: Map<u32, AttribPointer>,
    pub enabled_attribs: Set<u32>,
    pub compiled: Set<u64>,
    pub linked: Set<u64>,
    pub shader_sources: Map<u64, Seq<char>>,
    pub shader_kinds: Map<u64, ShaderType>,
    pub attached: Map<u64, Set<u64>>,
    pub attrib_names: Map<(u64, u32), Seq<char>>,
    pub blend_on: bool,
    pub blend_src: u32,
    pub blend_dst: u32,
    pub clear_color_rgba: (u32, u32, u32, u32),
    pub clears: Seq<u32>,
    pub uploads: Seq<UploadRec>,
    pub draws: Seq<DrawRec>,
}

impl GlState {
    /// Handles are given out in increasing order, so everything live sits
    /// below the next handle; that is what makes a fresh handle fresh.
    pub open spec fn wf(self) -> bool {
        &&& self.live.finite()
        &&& forall|h: u64| self.live.contains(h) ==> h < self.next_handle
    }

    /// The transform a draw issued now would be under: the matrix uniform
    /// of the current program, if one has been set.
    pub open spec fn current_mvp(self) -> Option<Mat4> {
        match self.current_program {
            Some(p) => if self.uniforms.contains_key(p) {
                Some(self.uniforms[p])
            } else {
                None
            },
            None => None,
        }
    }
}

/// What a program's attachment set becomes when one more shader is
/// attached: the set it had — empty if it had none — plus the shader.
pub open spec fn attached_after(m: Map<u64, Set<u64>>, program: u64, shader: u64) -> Map<
    u64,
    Set<u64>,
> {
    m.insert(
        program,
        (if m.contains_key(program) {
            m[program]
        } else {
            Set::empty()
        }).insert(shader),
    )
}

/// The model backend, one per process, bound to one surface. The model
/// itself never fails to create a resource; a native backend signals a
/// creation failure by absence of the handle, and its adapter treats
/// that as fatal at startup — nothing can render without its
/// foundational GPU objects.
pub struct GlContext {
    next_handle: u64,
    live: HashSet<u64>,
    bound_array: Option<u64>,
    bound_elements: Option<u64>,
    bound_vertex_array: Option<u64>,
    current_program: Option<u64>,
    uniforms: HashMap<u64, Mat4>,
    attribs: HashMap<u32, AttribPointer>,
    enabled_attribs: HashSet<u32>,
    compiled: HashSet<u64>,
    linked: Ghost<Set<u64>>,
    shader_sources: Ghost<Map<u64, Seq<char>>>,
    shader_kinds: Ghost<Map<u64, ShaderType>>,
    attached: Ghost<Map<u64, Set<u64>>>,
    attrib_names: Ghost<Map<(u64, u32), Seq<char>>>,
    blend_on: bool,
    blend_src: u32,
    blend_dst: u32,
    clear_color_rgba: (u32, u32, u32, u32),
    clears: Vec<u32>,
    draws: Vec<DrawRecord>,
    uploads: Ghost<Seq<UploadRec>>,
}

/// The draw log as its mathematical shape.
pub open spec fn log_view(draws: Seq<DrawRecord>) -> Seq<DrawRec> {
    draws.map_values(|r: DrawRecord| r@)
}

pub broadcast proof fn lemma_log_view_push(draws: Seq<DrawRecord>, r: DrawRecord)
    ensures
        #[trigger] log_view(draws.push(r)) =~= log_view(draws).push(r@),
{
    assert forall|i: int| 0 <= i < draws.len() + 1 implies log_view(draws.push(r))[i] == log_view(
        draws,
    ).push(r@)[i] by {
        if i < draws.len() {
            assert(draws.push(r)[i] == draws[i]);
        } else {
            assert(draws.push(r)[i] == r);
        }
    }
}

impl View for GlContext {
    type V = GlState;

    closed spec fn view(&self) -> GlState {
        GlState {
            next_handle: self.next_handle,
            live: self.live@,
            bound_array: self.bound_array,
            bound_elements: self.bound_elements,
            bound_vertex_array: self.bound_vertex_array,
            current_program: self.current_program,
            uniforms: self.uniforms@,
            attribs: self.attribs@,
            enabled_attribs: self.enabled_attribs@,
            compiled: self.compiled@,
            linked: self.linked@,
            shader_sources: self.shader_sources@,
            shader_kinds: self.shader_kinds@,
            attached: self.attached@,
            attrib_names: self.attrib_names@,
            blend_on: self.blend_on,
            blend_src: self.blend_src,
            blend_dst: self.blend_dst,
            clear_color_rgba: self.clear_color_rgba,
            clears: self.clears@,
            uploads: self.uploads@,
            draws: log_view(self.draws@),
        }
    }
}

impl GlContext {
    /// A fresh backend bound to its surface: no handles, nothing bound,
    /// blending off with the identity factor pair, and empty logs.
    pub fn new() -> (ctx: GlContext)
        ensures
            ctx@.wf(),
            ctx@.next_handle == 0,
            ctx@.live =~= Set::<u64>::empty(),
            ctx@.bound_array is None,
            ctx@.bound_elements is None,
            ctx@.bound_vertex_array is None,
            ctx@.current_program is None,
            ctx@.uniforms =~= Map::<u64, Mat4>::empty(),
            ctx@.attribs =~= Map::<u32, AttribPointer>::empty(),
            ctx@.enabled_attribs =~= Set::<u32>::empty(),
            ctx@.compiled =~= Set::<u64>::empty(),
            ctx@.linked =~= Set::<u64>::empty(),
            ctx@.shader_sources =~= Map::<u64, Seq<char>>::empty(),
            ctx@.shader_kinds =~= Map::<u64, ShaderType>::empty(),
            ctx@.attached =~= Map::<u64, Set<u64>>::empty(),
            ctx@.attrib_names =~= Map::<(u64, u32), Seq<char>>::empty(),
            !ctx@.blend_on,
            ctx@.blend_src == ONE,
            ctx@.blend_dst == ZERO,
            ctx@.clear_color_rgba == (0u32, 0u32, 0u32, 0u32),
            ctx@.clears =~= Seq::<u32>::empty(),
            ctx@.uploads =~= Seq::<UploadRec>::empty(),
            ctx@.draws =~= Seq::<DrawRec>::empty(),
    {
        GlContext {
            next_handle: 0,
            live: HashSet::new(),
            bound_array: None,
            bound_elements: None,
            bound_vertex_array: None,
            current_program: None,
            uniforms: HashMap::new(),
            attribs: HashMap::new(),
            enabled_attribs: HashSet::new(),
            compiled: HashSet::new(),
            linked: Ghost(Set::empty()),
            shader_sources: Ghost(Map::empty()),
            shader_kinds: Ghost(Map::empty()),
            attached: Ghost(Map::empty()),
            attrib_names: Ghost(Map::empty()),
            blend_on: false,
            blend_src: ONE,
            blend_dst: ZERO,
            clear_color_rgba: (0, 0, 0, 0),
            clears: Vec::new(),
            draws: Vec::new(),
            uploads: Ghost(Seq::empty()),
        }
    }

    /// How many handles are live right now: the net of creations against
    /// deletions.
    pub fn live_handles(&self) -> (n: usize)
        ensures
            n == self@.live.len(),
    {
        self.live.len()
    }

    /// Gives out the next handle. The handle is fresh: it was not live
    /// before this call.
    fn fresh_handle(&mut self) -> (h: u64)
        requires
            old(self)@.wf(),
            old(self)@.next_handle < u64::MAX,
        ensures
            final(self)@.wf(),
            h == old(self)@.next_handle,
            !old(self)@.live.contains(h),
            final(self)@ == (GlState {
                next_handle: (old(self)@.next_handle + 1) as u64,
                live: old(self)@.live.insert(h),
                ..old(self)@
            }),
            final(self)@.live.len() == old(self)@.live.len() + 1,
    {
        let h = self.next_handle;
        self.next_handle = self.next_handle + 1;
        self.live.insert(h);
        h
    }

    /// Creates a buffer object and hands its owner the fresh handle.
    pub fn create_buffer(&mut self) -> (h: u64)
        requires
            old(self)@.wf(),
            old(self)@.next_handle < u64::MAX,
        ensures
            final(self)@.wf(),
            h == old(self)@.next_handle,
            !old(self)@.live.contains(h),
            final(self)@ == (GlState {
                next_handle: (old(self)@.next_handle + 1) as u64,
                live: old(self)@.live.insert(h),
                ..old(self)@
            }),
            final(self)@.live.len() == old(self)@.live.len() + 1,
    {
        self.fresh_handle()
    }

    /// Creates a vertex-array object.
    pub fn create_vertex_array(&mut self) -> (h: u64)
        requires
            old(self)@.wf(),
            old(self)@.next_handle < u64::MAX,
        ensures
            final(self)@.wf(),
            h == old(self)@.next_handle,
            !old(self)@.live.contains(h),
            final(self)@ == (GlState {
                next_handle: (old(self)@.next_handle + 1) as u64,
                live: old(self)@.live.insert(h),
                ..old(self)@
            }),
            final(self)@.live.len() == old(self)@.live.len() + 1,
    {
        self.fresh_handle()
    }

    /// Creates a program object.
    pub fn create_program(&mut self) -> (h: u64)
        requires
            old(self)@.wf(),
            old(self)@.next_handle < u64::MAX,
        ensures
            final(self)@.wf(),
            h == old(self)@.next_handle,
            !old(self)@.live.contains(h),
            final(self)@ == (GlState {
                next_handle: (old(self)@.next_handle + 1) as u64,
                live: old(self)@.live.insert(h),
                ..old(self)@
            }),
            final(self)@.live.len() == old(self)@.live.len() + 1,
    {
        self.fresh_handle()
    }

    /// Creates a shader object of the given stage.
    pub fn create_shader(&mut self, shader_type: ShaderType) -> (h: u64)
        requires
            old(self)@.wf(),
            old(self)@.next_handle < u64::MAX,
        ensures
            final(self)@.wf(),
            h == old(self)@.next_handle,
            !old(self)@.live.contains(h),
            final(self)@ == (GlState {
                next_handle: (old(self)@.next_handle + 1) as u64,
                live: old(self)@.live.insert(h),
                shader_kinds: old(self)@.shader_kinds.insert(h, shader_type),
                ..old(self)@
            }),
            final(self)@.live.len() == old(self)@.live.len() + 1,
    {
        let h = self.fresh_handle();
        proof {
            self.shader_kinds@ = self.shader_kinds@.insert(h, shader_type);
        }
        h
    }

    /// Deletes a buffer object; if it was bound, the binding point is
    /// cleared, as the native APIs do.
    pub fn delete_buffer(&mut self, h: u64)
        requires
            old(self)@.wf(),
            old(self)@.live.contains(h),
        ensures
            final(self)@.wf(),
            final(self)@ == (GlState {
                live: old(self)@.live.remove(h),
                bound_array: if old(self)@.bound_array == Some(h) {
                    None
                } else {
                    old(self)@.bound_array
                },
                bound_elements: if old(self)@.bound_elements == Some(h) {
                    None
                } else {
                    old(self)@.bound_elements
                },
                ..old(self)@
            }),
            final(self)@.live.len() == old(self)@.live.len() - 1,
    {
        self.live.remove(&h);
        match self.bound_array {
            Some(b) => if b == h {
                self.bound_array = None;
            },
            None => {},
        }
        match self.bound_elements {
            Some(b) => if b == h {
                self.bound_elements = None;
            },
            None => {},
        }
    }

    /// Deletes a vertex-array object.
    pub fn delete_vertex_array(&mut self, h: u64)
        requires
            old(self)@.wf(),
            old(self)@.live.contains(h),
        ensures
            final(self)@.wf(),
            final(self)@ == (GlState {
                live: old(self)@.live.remove(h),
                bound_vertex_array: if old(self)@.bound_vertex_array == Some(h) {
                    None
                } else {
                    old(self)@.bound_vertex_array
                },
                ..old(self)@
            }),
            final(self)@.live.len() == old(self)@.live.len() - 1,
    {
        self.live.remove(&h);
        match self.bound_vertex_array {
            Some(b) => if b == h {
                self.bound_vertex_array = None;
            },
            None => {},
        }
    }

    /// Deletes a shader object and forgets its bookkeeping.
    pub fn delete_shader(&mut self, h: u64)
        requires
            old(self)@.wf(),
            old(self)@.live.contains(h),
        ensures
            final(self)@.wf(),
            final(self)@ == (GlState {
                live: old(self)@.live.remove(h),
                compiled: old(self)@.compiled.remove(h),
                shader_sources: old(self)@.shader_sources.remove(h),
                shader_kinds: old(self)@.shader_kinds.remove(h),
                ..old(self)@
            }),
            final(self)@.live.len() == old(self)@.live.len() - 1,
    {
        self.live.remove(&h);
        self.compiled.remove(&h);
        proof {
            self.shader_sources@ = self.shader_sources@.remove(h);
            self.shader_kinds@ = self.shader_kinds@.remove(h);
        }
    }

    /// Deletes a program object; if it was current, no program is current
    /// afterwards.
    pub fn delete_program(&mut self, h: u64)
        requires
            old(self)@.wf(),
            old(self)@.live.contains(h),
        ensures
            final(self)@.wf(),
            final(self)@ == (GlState {
                live: old(self)@.live.remove(h),
                current_program: if old(self)@.current_program == Some(h) {
                    None
                } else {
                    old(self)@.current_program
                },
                linked: old(self)@.linked.remove(h),
                attached: old(self)@.attached.remove(h),
                ..old(self)@
            }),
            final(self)@.live.len() == old(self)@.live.len() - 1,
    {
        self.live.remove(&h);
        match self.current_program {
            Some(b) => if b == h {
                self.current_program = None;
            },
            None => {},
        }
        proof {
            self.linked@ = self.linked@.remove(h);
            self.attached@ = self.attached@.remove(h);
        }
    }

    /// Makes the given buffer the one bound at the given target class.
    pub fn bind_buffer(&mut self, target: u32, handle: u64)
        requires
            old(self)@.wf(),
            old(self)@.live.contains(handle),
            target == ARRAY_BUFFER || target == ELEMENT_ARRAY_BUFFER,
        ensures
            final(self)@.wf(),
            target == ARRAY_BUFFER ==> final(self)@ == (GlState {
                bound_array: Some(handle),
                ..old(self)@
            }),
            target == ELEMENT_ARRAY_BUFFER ==> final(self)@ == (GlState {
                bound_elements: Some(handle),
                ..old(self)@
            }),
    {
        if target == ARRAY_BUFFER {
            self.bound_array = Some(handle);
        } else {
            self.bound_elements = Some(handle);
        }
    }

    /// Makes the given vertex array current.
    pub fn bind_vertex_array(&mut self, handle: u64)
        requires
            old(self)@.wf(),
            old(self)@.live.contains(handle),
        ensures
            final(self)@.wf(),
            final(self)@ == (GlState { bound_vertex_array: Some(handle), ..old(self)@ }),
    {
        self.bound_vertex_array = Some(handle);
    }

    /// Makes the given program the current one.
    pub fn use_program(&mut self, program: u64)
        requires
            old(self)@.wf(),
            old(self)@.live.contains(program),
        ensures
            final(self)@.wf(),
            final(self)@ == (GlState { current_program: Some(program), ..old(self)@ }),
    {
        self.current_program = Some(program);
    }

    /// Replaces the source text of a shader object.
    pub fn shader_source(&mut self, shader: u64, source: &str)
        requires
            old(self)@.wf(),
            old(self)@.live.contains(shader),
        ensures
            final(self)@.wf(),
            final(self)@ == (GlState {
                shader_sources: old(self)@.shader_sources.insert(shader, source@),
                ..old(self)@
            }),
    {
        proof {
            self.shader_sources@ = self.shader_sources@.insert(shader, source@);
        }
    }

    /// Compiles a shader object. The model backend accepts every source;
    /// real compilers may refuse one, which a native adapter surfaces only
    /// as informational output (see `get_shader_info_log`).
    pub fn compile_shader(&mut self, shader: u64)
        requires
            old(self)@.wf(),
            old(self)@.live.contains(shader),
        ensures
            final(self)@.wf(),
            final(self)@ == (GlState { compiled: old(self)@.compiled.insert(shader), ..old(self)@ }),
    {
        self.compiled.insert(shader);
    }

    /// Reads one parameter of a shader object; only the compile status is
    /// modelled.
    pub fn get_shader_parameter(&self, shader: u64, pname: u32) -> (r: Option<i32>)
        ensures
            pname == COMPILE_STATUS ==> r == Some(
                if self@.compiled.contains(shader) {
                    1i32
                } else {
                    0i32
                },
            ),
            pname != COMPILE_STATUS ==> r is None,
    {
        if pname == COMPILE_STATUS {
            if self.compiled.contains(&shader) {
                Some(1)
            } else {
                Some(0)
            }
        } else {
            None
        }
    }

    /// The compiler diagnostics for a shader object. The model backend has
    /// no compiler, so there is never a log; a native adapter prints the
    /// real one.
    pub fn get_shader_info_log(&self, shader: u64) -> (r: Option<String>)
        ensures
            r is None,
    {
        None
    }

    /// Attaches a shader object to a program object.
    pub fn attach_shader(&mut self, program: u64, shader: u64)
        requires
            old(self)@.wf(),
            old(self)@.live.contains(program),
            old(self)@.live.contains(shader),
        ensures
            final(self)@.wf(),
            final(self)@ == (GlState {
                attached: attached_after(old(self)@.attached, program, shader),
                ..old(self)@
            }),
    {
        proof {
            let prior = if self.attached@.contains_key(program) {
                self.attached@[program]
            } else {
                Set::empty()
            };
            self.attached@ = self.attached@.insert(program, prior.insert(shader));
        }
    }

    /// Links a program object from its attached stages.
    pub fn link_program(&mut self, program: u64)
        requires
            old(self)@.wf(),
            old(self)@.live.contains(program),
        ensures
            final(self)@.wf(),
            final(self)@ == (GlState { linked: old(self)@.linked.insert(program), ..old(self)@ }),
    {
        proof {
            self.linked@ = self.linked@.insert(program);
        }
    }

    /// Fixes the location of a named attribute of a program.
    pub fn bind_attrib_location(&mut self, program: u64, index: u32, name: &str)
        requires
            old(self)@.wf(),
            old(self)@.live.contains(program),
        ensures
            final(self)@.wf(),
            final(self)@ == (GlState {
                attrib_names: old(self)@.attrib_names.insert((program, index), name@),
                ..old(self)@
            }),
    {
        proof {
            self.attrib_names@ = self.attrib_names@.insert((program, index), name@);
        }
    }

    /// Installs the layout of one attribute slot. Stride and offset come
    /// in scalar counts and are stored in bytes, four bytes per scalar.
    pub fn vertex_attrib_pointer(
        &mut self,
        location: u32,
        size: i32,
        data_type: u32,
        normalized: bool,
        stride: i32,
        offset: i32,
    )
        requires
            old(self)@.wf(),
            0 <= stride <= i32::MAX / 4,
            0 <= offset <= i32::MAX / 4,
        ensures
            final(self)@.wf(),
            final(self)@ == (GlState {
                attribs: old(self)@.attribs.insert(
                    location,
                    AttribPointer {
                        size: size,
                        data_type: data_type,
                        normalized: normalized,
                        stride_bytes: (stride * 4) as i32,
                        offset_bytes: (offset * 4) as i32,
                    },
                ),
                ..old(self)@
            }),
    {
        let pointer = AttribPointer {
            size: size,
            data_type: data_type,
            normalized: normalized,
            stride_bytes: stride * 4,
            offset_bytes: offset * 4,
        };
        self.attribs.insert(location, pointer);
    }

    /// Turns one attribute slot on.
    pub fn enable_vertex_attrib_array(&mut self, location: u32)
        requires
            old(self)@.wf(),
        ensures
            final(self)@.wf(),
            final(self)@ == (GlState {
                enabled_attribs: old(self)@.enabled_attribs.insert(location),
                ..old(self)@
            }),
    {
        self.enabled_attribs.insert(location);
    }

    /// Resolves a uniform slot of a program by name. The model backend
    /// resolves every name; a native adapter treats absence of the slot as
    /// fatal, since every consumer supplies a transform.
    pub fn get_uniform_location(&self, program: u64, name: &str) -> (loc: UniformLocation)
        requires
            self@.wf(),
            self@.live.contains(program),
        ensures
            loc.program == program,
            loc.name@ == name@,
    {
        UniformLocation { program, name: Ghost(name@) }
    }

    /// Sets the 4x4 matrix uniform of the program the slot was resolved
    /// against. The native APIs only take the untransposed layout.
    pub fn uniform_matrix_4fv(&mut self, location: &UniformLocation, transpose: bool, mat: &Mat4)
        requires
            old(self)@.wf(),
            old(self)@.current_program == Some(location.program),
            !transpose,
        ensures
            final(self)@.wf(),
            final(self)@ == (GlState {
                uniforms: old(self)@.uniforms.insert(location.program, *mat),
                ..old(self)@
            }),
    {
        self.uniforms.insert(location.program, *mat);
    }

    /// Turns a capability on; blending is the one the layer uses.
    pub fn enable(&mut self, cap: u32)
        requires
            old(self)@.wf(),
            cap == BLEND,
        ensures
            final(self)@.wf(),
            final(self)@ == (GlState { blend_on: true, ..old(self)@ }),
    {
        self.blend_on = true;
    }

    /// Picks the source/destination blend factor pair.
    pub fn blend_func(&mut self, src: u32, dst: u32)
        requires
            old(self)@.wf(),
        ensures
            final(self)@.wf(),
            final(self)@ == (GlState { blend_src: src, blend_dst: dst, ..old(self)@ }),
    {
        self.blend_src = src;
        self.blend_dst = dst;
    }

    /// Picks the clear color; the four channels are carried as raw bit
    /// patterns, which is all the layer needs to hand through.
    pub fn clear_color(&mut self, r: u32, g: u32, b: u32, a: u32)
        requires
            old(self)@.wf(),
        ensures
            final(self)@.wf(),
            final(self)@ == (GlState { clear_color_rgba: (r, g, b, a), ..old(self)@ }),
    {
        self.clear_color_rgba = (r, g, b, a);
    }

    /// Clears the buffers named by the mask. The framebuffer contents are
    /// outside the model; the call itself is logged so program order is
    /// observable.
    pub fn clear(&mut self, mask: u32)
        requires
            old(self)@.wf(),
        ensures
            final(self)@.wf(),
            final(self)@ == (GlState { clears: old(self)@.clears.push(mask), ..old(self)@ }),
    {
        self.clears.push(mask);
    }

    /// Logs one buffer-store transfer to the buffer bound at the target:
    /// how many elements moved and under which usage hint. The hint only
    /// steers allocation strategy, so nothing but the log depends on it.
    pub fn buffer_data(&mut self, target: u32, len: usize, usage: u32)
        requires
            old(self)@.wf(),
            target == ARRAY_BUFFER ==> old(self)@.bound_array is Some,
            target == ELEMENT_ARRAY_BUFFER ==> old(self)@.bound_elements is Some,
            target == ARRAY_BUFFER || target == ELEMENT_ARRAY_BUFFER,
            usage == STATIC_DRAW || usage == DYNAMIC_DRAW,
        ensures
            final(self)@.wf(),
            final(self)@ == (GlState {
                uploads: old(self)@.uploads.push(
                    UploadRec {
                        target: target,
                        handle: if target == ARRAY_BUFFER {
                            old(self)@.bound_array->0
                        } else {
                            old(self)@.bound_elements->0
                        },
                        len: len as int,
                        usage: usage,
                    },
                ),
                ..old(self)@
            }),
    {
        let bound = if target == ARRAY_BUFFER {
            self.bound_array
        } else {
            self.bound_elements
        };
        match bound {
            Some(h) => {
                proof {
                    self.uploads@ = self.uploads@.push(
                        UploadRec { target: target, handle: h, len: len as int, usage: usage },
                    );
                }
            },
            None => {
                proof {
                    assert(false);
                }
            },
        }
    }

    /// Issues a non-indexed draw over `count` sequential vertices of the
    /// buffer bound at the vertex target, under the current program and
    /// its transform.
    pub fn draw_arrays(&mut self, mode: DrawMode, first: usize, count: usize)
        requires
            old(self)@.wf(),
        ensures
            final(self)@.wf(),
            final(self)@ == (GlState {
                draws: old(self)@.draws.push(
                    DrawRec {
                        mode: mode,
                        indexed: false,
                        first: first as int,
                        count: count as int,
                        vertex_buffer: old(self)@.bound_array,
                        element_buffer: None,
                        program: old(self)@.current_program,
                        transform: old(self)@.current_mvp(),
                        indices: Seq::empty(),
                    },
                ),
                ..old(self)@
            }),
    {
        let transform = self.lookup_current_mvp();
        let record = DrawRecord {
            mode,
            indexed: false,
            first,
            count,
            vertex_buffer: self.bound_array,
            element_buffer: None,
            program: self.current_program,
            transform,
            indices: Vec::new(),
        };
        proof {
            lemma_log_view_push(self.draws@, record);
        }
        self.draws.push(record);
        proof {
            assert(self@ =~~= (GlState {
                draws: old(self)@.draws.push(
                    DrawRec {
                        mode: mode,
                        indexed: false,
                        first: first as int,
                        count: count as int,
                        vertex_buffer: old(self)@.bound_array,
                        element_buffer: None,
                        program: old(self)@.current_program,
                        transform: old(self)@.current_mvp(),
                        indices: Seq::empty(),
                    },
                ),
                ..old(self)@
            }));
        }
    }

    /// Issues an indexed draw. The caller hands over the contents of the
    /// element buffer bound right now — the model's way of letting the
    /// draw observe GPU memory — and the record keeps those indices, the
    /// current program, and the transform in force at this very call.
    pub fn draw_elements(&mut self, mode: DrawMode, index_data: &[u16])
        requires
            old(self)@.wf(),
            old(self)@.bound_elements is Some,
        ensures
            final(self)@.wf(),
            final(self)@ == (GlState {
                draws: old(self)@.draws.push(
                    DrawRec {
                        mode: mode,
                        indexed: true,
                        first: 0,
                        count: index_data@.len() as int,
                        vertex_buffer: old(self)@.bound_array,
                        element_buffer: old(self)@.bound_elements,
                        program: old(self)@.current_program,
                        transform: old(self)@.current_mvp(),
                        indices: index_data@,
                    },
                ),
                ..old(self)@
            }),
    {
        let transform = self.lookup_current_mvp();
        let count = index_data.len();
        let record = DrawRecord {
            mode,
            indexed: true,
            first: 0,
            count,
            vertex_buffer: self.bound_array,
            element_buffer: self.bound_elements,
            program: self.current_program,
            transform,
            indices: vstd::slice::slice_to_vec(index_data),
        };
        proof {
            lemma_log_view_push(self.draws@, record);
        }
        self.draws.push(record);
        proof {
            assert(self@ =~~= (GlState {
                draws: old(self)@.draws.push(
                    DrawRec {
                        mode: mode,
                        indexed: true,
                        first: 0,
                        count: index_data@.len() as int,
                        vertex_buffer: old(self)@.bound_array,
                        element_buffer: old(self)@.bound_elements,
                        program: old(self)@.current_program,
                        transform: old(self)@.current_mvp(),
                        indices: index_data@,
                    },
                ),
                ..old(self)@
            }));
        }
    }

    /// How many clears have been issued.
    pub fn clear_count(&self) -> (n: usize)
        ensures
            n == self@.clears.len(),
    {
        self.clears.len()
    }

    /// How many draws have been submitted.
    pub fn draw_count(&self) -> (n: usize)
        ensures
            n == self@.draws.len(),
    {
        self.draws.len()
    }

    /// Reads back one submitted draw, for inspection.
    pub fn draw_at(&self, i: usize) -> (r: &DrawRecord)
        requires
            i < self@.draws.len(),
        ensures
            r@ == self@.draws[i as int],
    {
        &self.draws[i]
    }

    /// The matrix uniform of the current program, if both exist.
    fn lookup_current_mvp(&self) -> (r: Option<Mat4>)
        ensures
            r == self@.current_mvp(),
    {
        match self.current_program {
            Some(p) => match self.uniforms.get(&p) {
                Some(m) => Some(*m),
                None => None,
            },
            None => None,
        }
    }
}

/// Creating a handle and then deleting it returns the live-handle set —
/// and with it the live-handle count — to exactly its prior value. This
/// is the net-zero lifetime law for every owned GPU resource: `insert`
/// then `remove` of a fresh handle is the identity on the backend's live
/// set.
pub proof fn lemma_handle_lifetime_neutral(live: Set<u64>, h: u64)
    requires
        live.finite(),
        !live.contains(h),
    ensures
        live.insert(h).remove(h) =~= live,
        live.insert(h).remove(h).len() == live.len(),
{
    assert(live.insert(h).remove(h) =~= live);
}

} // verus!
