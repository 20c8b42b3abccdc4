//! A compiled shader program: the two stage handles, the linked program
//! handle, and the fixed attribute layout. Stride and offsets are a pure
//! function of the ordered attribute list — stride is the sum of the
//! component counts, an attribute's offset is the sum of the counts
//! before it, four bytes per scalar — and activating the program
//! recomputes and installs that layout every time.

use crate::context::{attached_after, AttribPointer, GlContext, GlState, UniformLocation, FLOAT};
use vstd::prelude::*;

pub use crate::context::ShaderType;

verus! {

/// One named per-vertex input slot: its name in the shader source and
/// how many scalar components it takes per vertex.
#[derive(Clone, Debug)]
pub struct ShaderAttribute {
    pub name: String,
    pub size: usize,
}

/// The sum of the component counts of the first `n` attributes. With
/// `n` the whole list this is the record stride in scalars; with `n`
/// the position of one attribute it is that attribute's offset in
/// scalars.
pub open spec fn attrib_sum(attrs: Seq<ShaderAttribute>, n: int) -> int
    decreases n,
{
    if n <= 0 {
        0
    } else {
        attrib_sum(attrs, n - 1) + attrs[n - 1].size
    }
}

pub proof fn lemma_attrib_sum_monotonic(attrs: Seq<ShaderAttribute>, i: int, j: int)
    requires
        0 <= i <= j,
    ensures
        attrib_sum(attrs, i) <= attrib_sum(attrs, j),
    decreases j - i,
{
    if i < j {
        lemma_attrib_sum_monotonic(attrs, i, j - 1);
    }
}

pub proof fn lemma_attrib_sum_nonneg(attrs: Seq<ShaderAttribute>, n: int)
    ensures
        0 <= attrib_sum(attrs, n),
    decreases n,
{
    if n > 0 {
        lemma_attrib_sum_nonneg(attrs, n - 1);
    }
}

/// The attribute-location bindings a program ends up with: location `i`
/// carries the name of the `i`-th attribute of the list — locations are
/// assigned by list position, never queried from the compiled program.
pub open spec fn bound_names(
    pre: Map<(u64, u32), Seq<char>>,
    program: u64,
    attrs: Seq<ShaderAttribute>,
    n: int,
) -> Map<(u64, u32), Seq<char>>
    decreases n,
{
    if n <= 0 {
        pre
    } else {
        bound_names(pre, program, attrs, n - 1).insert(
            (program, (n - 1) as u32),
            attrs[n - 1].name@,
        )
    }
}

/// The attribute-layout slots an activation installs: slot `i` takes
/// `attrs[i].size` float components, with the shared byte stride and its
/// own byte offset, four bytes per scalar.
pub open spec fn installed_layout(
    pre: Map<u32, AttribPointer>,
    attrs: Seq<ShaderAttribute>,
    n: int,
) -> Map<u32, AttribPointer>
    decreases n,
{
    if n <= 0 {
        pre
    } else {
        installed_layout(pre, attrs, n - 1).insert(
            (n - 1) as u32,
            AttribPointer {
                size: attrs[n - 1].size as i32,
                data_type: FLOAT,
                normalized: false,
                stride_bytes: (4 * attrib_sum(attrs, attrs.len() as int)) as i32,
                offset_bytes: (4 * attrib_sum(attrs, n - 1)) as i32,
            },
        )
    }
}

/// The attribute slots an activation turns on: the first `n` locations.
pub open spec fn enabled_slots(pre: Set<u32>, n: int) -> Set<u32>
    decreases n,
{
    if n <= 0 {
        pre
    } else {
        enabled_slots(pre, n - 1).insert((n - 1) as u32)
    }
}

pub proof fn lemma_installed_layout_lookup(
    pre: Map<u32, AttribPointer>,
    attrs: Seq<ShaderAttribute>,
    n: int,
    i: int,
)
    requires
        0 <= i < n <= u32::MAX,
    ensures
        installed_layout(pre, attrs, n).contains_key(i as u32),
        installed_layout(pre, attrs, n)[i as u32] == (AttribPointer {
            size: attrs[i].size as i32,
            data_type: FLOAT,
            normalized: false,
            stride_bytes: (4 * attrib_sum(attrs, attrs.len() as int)) as i32,
            offset_bytes: (4 * attrib_sum(attrs, i)) as i32,
        }),
    decreases n,
{
    if i < n - 1 {
        lemma_installed_layout_lookup(pre, attrs, n - 1, i);
    }
}

/// What activation leaves in slot `i` of the backend, with the casts
/// discharged: the slot exists and is enabled, carries exactly
/// `attrs[i].size` components, a byte stride of four times the sum of
/// all component counts, and a byte offset of four times the sum of the
/// counts before `i`.
pub proof fn lemma_layout_slot(
    pre: Map<u32, AttribPointer>,
    enabled_pre: Set<u32>,
    attrs: Seq<ShaderAttribute>,
    i: int,
)
    requires
        0 <= i < attrs.len() <= u32::MAX,
        attrib_sum(attrs, attrs.len() as int) <= 0x1FFF_FFFF,
    ensures
        installed_layout(pre, attrs, attrs.len() as int).contains_key(i as u32),
        installed_layout(pre, attrs, attrs.len() as int)[i as u32].size as int == attrs[i].size
            as int,
        installed_layout(pre, attrs, attrs.len() as int)[i as u32].stride_bytes as int == 4
            * attrib_sum(attrs, attrs.len() as int),
        installed_layout(pre, attrs, attrs.len() as int)[i as u32].offset_bytes as int == 4
            * attrib_sum(attrs, i),
        enabled_slots(enabled_pre, attrs.len() as int).contains(i as u32),
{
    lemma_attrib_sum_nonneg(attrs, i);
    lemma_attrib_sum_monotonic(attrs, i + 1, attrs.len() as int);
    lemma_attrib_sum_nonneg(attrs, attrs.len() as int);
    lemma_installed_layout_lookup(pre, attrs, attrs.len() as int, i);
    lemma_enabled_slots_contains(enabled_pre, attrs.len() as int, i);
}

/// The mathematical shape of a shader program: three distinct live
/// handles and the fixed attribute layout.
#[verifier::ext_equal]
pub ghost struct ShaderState {
    pub program: u64,
    pub vs: u64,
    pub fs: u64,
    pub attributes: Seq<ShaderAttribute>,
    pub locations: Seq<u32>,
    pub attribute_size: int,
}

impl ShaderState {
    /// The layout really is a pure function of the attribute list: the
    /// cached stride is the component-count sum, location `i` is `i`,
    /// and the whole layout fits the backend's byte-count type.
    pub open spec fn wf(self) -> bool {
        &&& self.locations.len() == self.attributes.len()
        &&& forall|i: int| 0 <= i < self.locations.len() ==> self.locations[i] == i as u32
        &&& self.attribute_size == attrib_sum(self.attributes, self.attributes.len() as int)
        &&& attrib_sum(self.attributes, self.attributes.len() as int) <= 0x1FFF_FFFF
        &&& self.attributes.len() <= u32::MAX
        &&& self.program != self.vs
        &&& self.program != self.fs
        &&& self.vs != self.fs
    }

    /// The three handles this program owns are live in the given backend
    /// state.
    pub open spec fn live_in(self, ctx: GlState) -> bool {
        &&& ctx.live.contains(self.program)
        &&& ctx.live.contains(self.vs)
        &&& ctx.live.contains(self.fs)
    }
}

/// A compiled-and-linked shader program owning its two stages, with the
/// ordered attribute list that fixes the vertex layout.
pub struct OurShader {
    program: u64,
    vs: u64,
    fs: u64,
    attributes: Vec<ShaderAttribute>,
    attribute_locations: Vec<u32>,
    attribute_size: usize,
}

impl View for OurShader {
    type V = ShaderState;

    closed spec fn view(&self) -> ShaderState {
        ShaderState {
            program: self.program,
            vs: self.vs,
            fs: self.fs,
            attributes: self.attributes@,
            locations: self.attribute_locations@,
            attribute_size: self.attribute_size as int,
        }
    }
}

impl OurShader {
    /// Compiles both stages, links the program, and fixes each declared
    /// attribute to the location equal to its list position. The model
    /// backend accepts every source; a real compiler's diagnostics are
    /// informational only, so construction proceeds either way — a known
    /// design weakness kept on purpose: a stage that failed to compile
    /// still yields a "successfully constructed" program.
    pub fn new(
        ctx: &mut GlContext,
        vertex_shader: &str,
        fragment_shader: &str,
        attributes: Vec<ShaderAttribute>,
    ) -> (s: OurShader)
        requires
            old(ctx)@.wf(),
            old(ctx)@.next_handle + 3 <= u64::MAX,
            attrib_sum(attributes@, attributes@.len() as int) <= 0x1FFF_FFFF,
            attributes@.len() <= u32::MAX,
        ensures
            final(ctx)@.wf(),
            s@.wf(),
            s@.live_in(final(ctx)@),
            s@.attributes == attributes@,
            s@.vs == old(ctx)@.next_handle,
            s@.fs == old(ctx)@.next_handle + 1,
            s@.program == old(ctx)@.next_handle + 2,
            final(ctx)@ == (GlState {
                next_handle: (old(ctx)@.next_handle + 3) as u64,
                live: old(ctx)@.live.insert(s@.vs).insert(s@.fs).insert(s@.program),
                current_program: Some(s@.program),
                shader_kinds: old(ctx)@.shader_kinds.insert(s@.vs, ShaderType::Vertex).insert(
                    s@.fs,
                    ShaderType::Fragment,
                ),
                shader_sources: old(ctx)@.shader_sources.insert(s@.vs, vertex_shader@).insert(
                    s@.fs,
                    fragment_shader@,
                ),
                compiled: old(ctx)@.compiled.insert(s@.vs).insert(s@.fs),
                attached: attached_after(
                    attached_after(old(ctx)@.attached, s@.program, s@.vs),
                    s@.program,
                    s@.fs,
                ),
                linked: old(ctx)@.linked.insert(s@.program),
                attrib_names: bound_names(
                    old(ctx)@.attrib_names,
                    s@.program,
                    attributes@,
                    attributes@.len() as int,
                ),
                ..old(ctx)@
            }),
            final(ctx)@.live.len() == old(ctx)@.live.len() + 3,
    {
        let vs = ctx.create_shader(ShaderType::Vertex);
        ctx.shader_source(vs, vertex_shader);
        ctx.compile_shader(vs);
        let _vertex_log = ctx.get_shader_info_log(vs);

        let fs = ctx.create_shader(ShaderType::Fragment);
        ctx.shader_source(fs, fragment_shader);
        ctx.compile_shader(fs);
        let _fragment_log = ctx.get_shader_info_log(fs);

        let program = ctx.create_program();
        ctx.attach_shader(program, vs);
        ctx.attach_shader(program, fs);
        ctx.link_program(program);

        let mut attribute_locations: Vec<u32> = Vec::new();
        ctx.use_program(program);
        let mut attribute_size: usize = 0;
        let mut index: usize = 0;

        let ghost pre_loop = ctx@;
        while index < attributes.len()
            invariant
                index <= attributes@.len(),
                attributes@.len() <= u32::MAX,
                attrib_sum(attributes@, attributes@.len() as int) <= 0x1FFF_FFFF,
                pre_loop.wf(),
                pre_loop.live.contains(program),
                attribute_size == attrib_sum(attributes@, index as int),
                attribute_locations@.len() == index,
                forall|j: int|
                    0 <= j < index ==> attribute_locations@[j] == j as u32,
                ctx@ == (GlState {
                    attrib_names: bound_names(
                        pre_loop.attrib_names,
                        program,
                        attributes@,
                        index as int,
                    ),
                    ..pre_loop
                }),
            decreases attributes@.len() - index,
        {
            proof {
                lemma_attrib_sum_nonneg(attributes@, index as int);
                lemma_attrib_sum_monotonic(attributes@, index + 1, attributes@.len() as int);
            }
            ctx.bind_attrib_location(program, index as u32, attributes[index].name.as_str());
            attribute_locations.push(index as u32);
            attribute_size = attribute_size + attributes[index].size;
            index = index + 1;
        }

        proof {
            assert(ctx@ =~~= (GlState {
                next_handle: (old(ctx)@.next_handle + 3) as u64,
                live: old(ctx)@.live.insert(vs).insert(fs).insert(program),
                current_program: Some(program),
                shader_kinds: old(ctx)@.shader_kinds.insert(vs, ShaderType::Vertex).insert(
                    fs,
                    ShaderType::Fragment,
                ),
                shader_sources: old(ctx)@.shader_sources.insert(vs, vertex_shader@).insert(
                    fs,
                    fragment_shader@,
                ),
                compiled: old(ctx)@.compiled.insert(vs).insert(fs),
                attached: attached_after(
                    attached_after(old(ctx)@.attached, program, vs),
                    program,
                    fs,
                ),
                linked: old(ctx)@.linked.insert(program),
                attrib_names: bound_names(
                    old(ctx)@.attrib_names,
                    program,
                    attributes@,
                    attributes@.len() as int,
                ),
                ..old(ctx)@
            }));
        }

        OurShader { program, vs, fs, attributes, attribute_locations, attribute_size }
    }

    /// The linked program's handle.
    pub fn program(&self) -> (p: u64)
        ensures
            p == self@.program,
    {
        self.program
    }

    /// How many attributes the fixed layout declares.
    pub fn attribute_count(&self) -> (n: usize)
        ensures
            n == self@.attributes.len(),
    {
        self.attributes.len()
    }

    /// The component count of attribute `i`.
    pub fn attribute_size_of(&self, i: usize) -> (n: usize)
        requires
            i < self@.attributes.len(),
        ensures
            n == self@.attributes[i as int].size,
    {
        self.attributes[i].size
    }

    /// The declared name of attribute `i`.
    pub fn attribute_name(&self, i: usize) -> (r: &str)
        requires
            i < self@.attributes.len(),
        ensures
            r@ == self@.attributes[i as int].name@,
    {
        self.attributes[i].name.as_str()
    }

    /// The record stride in scalars: the sum of all component counts.
    pub fn attribute_size(&self) -> (n: usize)
        requires
            self@.wf(),
        ensures
            n == attrib_sum(self@.attributes, self@.attributes.len() as int),
    {
        self.attribute_size
    }

    /// The record stride in bytes: four bytes per scalar.
    pub fn stride_bytes(&self) -> (n: usize)
        requires
            self@.wf(),
        ensures
            n == 4 * attrib_sum(self@.attributes, self@.attributes.len() as int),
    {
        proof {
            lemma_attrib_sum_nonneg(self@.attributes, self@.attributes.len() as int);
        }
        self.attribute_size * 4
    }

    /// The offset of attribute `i` in scalars: the sum of the component
    /// counts of the attributes before it, recomputed from the list.
    pub fn offset_of(&self, i: usize) -> (n: usize)
        requires
            self@.wf(),
            i <= self@.attributes.len(),
        ensures
            n == attrib_sum(self@.attributes, i as int),
    {
        let mut acc: usize = 0;
        let mut j: usize = 0;
        while j < i
            invariant
                j <= i <= self@.attributes.len(),
                self@.wf(),
                acc == attrib_sum(self@.attributes, j as int),
            decreases i - j,
        {
            proof {
                lemma_attrib_sum_nonneg(self@.attributes, j as int);
                lemma_attrib_sum_monotonic(self@.attributes, j + 1, self@.attributes.len() as int);
            }
            acc = acc + self.attributes[j].size;
            j = j + 1;
        }
        acc
    }

    /// Makes the program current and reinstalls the whole attribute
    /// layout from the list: slot `i` gets `attrs[i].size` float
    /// components at byte offset `4 * sum(sizes before i)` within records
    /// of byte stride `4 * sum(all sizes)`, and is enabled.
    pub fn set_active(&self, ctx: &mut GlContext)
        requires
            old(ctx)@.wf(),
            self@.wf(),
            old(ctx)@.live.contains(self@.program),
        ensures
            final(ctx)@.wf(),
            final(ctx)@ == (GlState {
                current_program: Some(self@.program),
                attribs: installed_layout(
                    old(ctx)@.attribs,
                    self@.attributes,
                    self@.attributes.len() as int,
                ),
                enabled_attribs: enabled_slots(
                    old(ctx)@.enabled_attribs,
                    self@.attributes.len() as int,
                ),
                ..old(ctx)@
            }),
    {
        ctx.use_program(self.program);

        let mut offset: usize = 0;
        let mut i: usize = 0;
        let ghost pre_loop = ctx@;
        while i < self.attributes.len()
            invariant
                i <= self@.attributes.len(),
                self@.wf(),
                pre_loop.wf(),
                offset == attrib_sum(self@.attributes, i as int),
                ctx@ == (GlState {
                    attribs: installed_layout(pre_loop.attribs, self@.attributes, i as int),
                    enabled_attribs: enabled_slots(pre_loop.enabled_attribs, i as int),
                    ..pre_loop
                }),
            decreases self@.attributes.len() - i,
        {
            proof {
                lemma_attrib_sum_nonneg(self@.attributes, i as int);
                lemma_attrib_sum_monotonic(self@.attributes, i + 1, self@.attributes.len() as int);
            }
            let attrib_size = self.attributes[i].size;
            let attrib_pos = self.attribute_locations[i];
            ctx.vertex_attrib_pointer(
                attrib_pos,
                attrib_size as i32,
                FLOAT,
                false,
                self.attribute_size as i32,
                offset as i32,
            );
            ctx.enable_vertex_attrib_array(attrib_pos);
            offset = offset + attrib_size;
            i = i + 1;
        }

        proof {
            assert(ctx@ =~~= (GlState {
                current_program: Some(self@.program),
                attribs: installed_layout(
                    old(ctx)@.attribs,
                    self@.attributes,
                    self@.attributes.len() as int,
                ),
                enabled_attribs: enabled_slots(
                    old(ctx)@.enabled_attribs,
                    self@.attributes.len() as int,
                ),
                ..old(ctx)@
            }));
        }
    }

    /// Resolves the fixed-name transform uniform, `"MVP"`, on every call.
    /// The model backend resolves every name; a native adapter treats a
    /// missing slot as fatal, since every consumer supplies a transform.
    pub fn get_uniform_location(&self, ctx: &GlContext) -> (loc: UniformLocation)
        requires
            ctx@.wf(),
            ctx@.live.contains(self@.program),
        ensures
            loc.program == self@.program,
            loc.name@ == "MVP"@,
    {
        ctx.get_uniform_location(self.program, "MVP")
    }

    /// Releases the program and both stages, each exactly once; if the
    /// program was current, none is afterwards.
    pub fn destroy(self, ctx: &mut GlContext)
        requires
            old(ctx)@.wf(),
            self@.wf(),
            self@.live_in(old(ctx)@),
        ensures
            final(ctx)@.wf(),
            final(ctx)@ == (GlState {
                live: old(ctx)@.live.remove(self@.program).remove(self@.vs).remove(self@.fs),
                current_program: if old(ctx)@.current_program == Some(self@.program) {
                    None
                } else {
                    old(ctx)@.current_program
                },
                linked: old(ctx)@.linked.remove(self@.program),
                attached: old(ctx)@.attached.remove(self@.program),
                compiled: old(ctx)@.compiled.remove(self@.vs).remove(self@.fs),
                shader_sources: old(ctx)@.shader_sources.remove(self@.vs).remove(self@.fs),
                shader_kinds: old(ctx)@.shader_kinds.remove(self@.vs).remove(self@.fs),
                ..old(ctx)@
            }),
            final(ctx)@.live.len() == old(ctx)@.live.len() - 3,
    {
        ctx.delete_program(self.program);
        ctx.delete_shader(self.vs);
        ctx.delete_shader(self.fs);
        proof {
            assert(ctx@ =~~= (GlState {
                live: old(ctx)@.live.remove(self@.program).remove(self@.vs).remove(self@.fs),
                current_program: if old(ctx)@.current_program == Some(self@.program) {
                    None
                } else {
                    old(ctx)@.current_program
                },
                linked: old(ctx)@.linked.remove(self@.program),
                attached: old(ctx)@.attached.remove(self@.program),
                compiled: old(ctx)@.compiled.remove(self@.vs).remove(self@.fs),
                shader_sources: old(ctx)@.shader_sources.remove(self@.vs).remove(self@.fs),
                shader_kinds: old(ctx)@.shader_kinds.remove(self@.vs).remove(self@.fs),
                ..old(ctx)@
            }));
        }
    }
}

proof fn lemma_enabled_slots_contains(pre: Set<u32>, n: int, i: int)
    requires
        0 <= i < n <= u32::MAX,
    ensures
        enabled_slots(pre, n).contains(i as u32),
    decreases n,
{
    if i < n - 1 {
        lemma_enabled_slots_contains(pre, n - 1, i);
    }
}

} // verus!
