//! An owned GPU buffer: exactly one backend handle plus a CPU-side mirror
//! of the element data. The mirror is the only thing local mutation
//! touches; the device-side store changes only at an explicit upload, and
//! the two may diverge between a mutation and the next upload — never
//! otherwise. The model keeps the device-side store as an explicit second
//! sequence, so that divergence is statable and checked.

use crate::context::{
    GlContext, GlState, UploadRec, ARRAY_BUFFER, DYNAMIC_DRAW, ELEMENT_ARRAY_BUFFER, STATIC_DRAW,
};
use vstd::prelude::*;

verus! {

/// The two target classes a buffer can belong to: vertex data or index
/// data.
#[derive(Clone, Copy, PartialEq, Eq, Structural, Debug)]
pub enum BufferType {
    Array,
    IndexArray,
}

impl BufferType {
    /// The backend-private numeric code of this target class.
    pub fn gl_type(&self) -> (code: u32)
        ensures
            code == self.spec_gl_type(),
    {
        match *self {
            BufferType::Array => ARRAY_BUFFER,
            BufferType::IndexArray => ELEMENT_ARRAY_BUFFER,
        }
    }

    pub open spec fn spec_gl_type(self) -> u32 {
        match self {
            BufferType::Array => ARRAY_BUFFER,
            BufferType::IndexArray => ELEMENT_ARRAY_BUFFER,
        }
    }
}

/// The mathematical shape of a buffer: its handle, its target class, the
/// CPU-side mirror, and the device-side store.
#[verifier::ext_equal]
pub ghost struct BufState<T> {
    pub handle: u64,
    pub kind: BufferType,
    pub mirror: Seq<T>,
    pub device: Seq<T>,
}

/// A local mutation that appends to the mirror; the device store is not
/// touched.
pub open spec fn pushed<T>(b: BufState<T>, vals: Seq<T>) -> BufState<T> {
    BufState { mirror: b.mirror + vals, ..b }
}

/// A local mutation that overwrites the mirror wholesale; the device
/// store is not touched.
pub open spec fn replaced<T>(b: BufState<T>, vals: Seq<T>) -> BufState<T> {
    BufState { mirror: vals, ..b }
}

/// A local write of one mirror element; the device store is not touched.
pub open spec fn written<T>(b: BufState<T>, i: int, v: T) -> BufState<T> {
    BufState { mirror: b.mirror.update(i, v), ..b }
}

/// A local resize of the mirror; the device store is not touched.
pub open spec fn resized<T>(b: BufState<T>, n: int, default: T) -> BufState<T> {
    BufState {
        mirror: if n <= b.mirror.len() {
            b.mirror.subrange(0, n)
        } else {
            b.mirror + Seq::new((n - b.mirror.len()) as nat, |i: int| default)
        },
        ..b
    }
}

/// A local clear of the mirror; the device store is not touched.
pub open spec fn cleared<T>(b: BufState<T>) -> BufState<T> {
    BufState { mirror: Seq::empty(), ..b }
}

/// The one operation that moves data to the device: the store is replaced
/// by `mirror[offset..end]`, and the mirror is not touched.
pub open spec fn uploaded<T>(b: BufState<T>, offset: int, end: int) -> BufState<T> {
    BufState { device: b.mirror.subrange(offset, end), ..b }
}

/// What the backend state becomes when a buffer transfers `len` elements:
/// the buffer gets bound at its target, and the transfer is logged with
/// the usage hint the caller chose. Nothing else moves — in particular
/// the hint steers allocation strategy only.
pub open spec fn upload_ctx_state(
    pre: GlState,
    kind: BufferType,
    handle: u64,
    len: int,
    is_static: bool,
) -> GlState {
    GlState {
        bound_array: if kind is Array {
            Some(handle)
        } else {
            pre.bound_array
        },
        bound_elements: if kind is IndexArray {
            Some(handle)
        } else {
            pre.bound_elements
        },
        uploads: pre.uploads.push(
            UploadRec {
                target: kind.spec_gl_type(),
                handle: handle,
                len: len,
                usage: if is_static {
                    STATIC_DRAW
                } else {
                    DYNAMIC_DRAW
                },
            },
        ),
        ..pre
    }
}

/// An owned GPU buffer of elements of `T`, tagged with its target class.
/// The handle is valid for exactly this object's lifetime: `new` creates
/// it and `destroy` releases it, once.
pub struct Buffer<T> {
    handle: u64,
    buffer_type: BufferType,
    data: Vec<T>,
    device: Vec<T>,
}

impl<T> View for Buffer<T> {
    type V = BufState<T>;

    closed spec fn view(&self) -> BufState<T> {
        BufState {
            handle: self.handle,
            kind: self.buffer_type,
            mirror: self.data@,
            device: self.device@,
        }
    }
}

impl<T> Buffer<T> {
    /// Allocates the backend handle immediately; mirror and device store
    /// start empty.
    pub fn new(ctx: &mut GlContext, buffer_type: BufferType) -> (buf: Buffer<T>)
        requires
            old(ctx)@.wf(),
            old(ctx)@.next_handle < u64::MAX,
        ensures
            final(ctx)@.wf(),
            buf@.handle == old(ctx)@.next_handle,
            !old(ctx)@.live.contains(buf@.handle),
            final(ctx)@ == (GlState {
                next_handle: (old(ctx)@.next_handle + 1) as u64,
                live: old(ctx)@.live.insert(buf@.handle),
                ..old(ctx)@
            }),
            final(ctx)@.live.len() == old(ctx)@.live.len() + 1,
            buf@.kind == buffer_type,
            buf@.mirror =~= Seq::<T>::empty(),
            buf@.device =~= Seq::<T>::empty(),
    {
        let handle = ctx.create_buffer();
        Buffer { handle, buffer_type, data: Vec::new(), device: Vec::new() }
    }

    /// How many elements the mirror holds.
    pub fn len(&self) -> (n: usize)
        ensures
            n == self@.mirror.len(),
    {
        self.data.len()
    }

    /// Whether the mirror holds no elements.
    pub fn is_empty(&self) -> (b: bool)
        ensures
            b == (self@.mirror.len() == 0),
    {
        self.data.is_empty()
    }

    /// The handle the backend gave this buffer.
    pub fn handle(&self) -> (h: u64)
        ensures
            h == self@.handle,
    {
        self.handle
    }

    /// The target class this buffer was created for.
    pub fn buffer_type(&self) -> (t: BufferType)
        ensures
            t == self@.kind,
    {
        self.buffer_type
    }

    /// Empties the mirror; the device store keeps what was last uploaded.
    pub fn clear(&mut self)
        ensures
            final(self)@ == cleared(old(self)@),
    {
        self.data.clear();
        proof {
            assert(final(self)@ =~~= cleared(old(self)@));
        }
    }

    /// Makes this buffer the one bound at its target class.
    pub fn bind(&self, ctx: &mut GlContext)
        requires
            old(ctx)@.wf(),
            old(ctx)@.live.contains(self@.handle),
        ensures
            final(ctx)@.wf(),
            self@.kind is Array ==> final(ctx)@ == (GlState {
                bound_array: Some(self@.handle),
                ..old(ctx)@
            }),
            self@.kind is IndexArray ==> final(ctx)@ == (GlState {
                bound_elements: Some(self@.handle),
                ..old(ctx)@
            }),
    {
        ctx.bind_buffer(self.buffer_type.gl_type(), self.handle);
    }

    /// Releases the backend handle. This is the only way the handle goes
    /// away, and consuming the buffer makes sure it goes away exactly
    /// once, whether or not an upload ever happened.
    pub fn destroy(self, ctx: &mut GlContext)
        requires
            old(ctx)@.wf(),
            old(ctx)@.live.contains(self@.handle),
        ensures
            final(ctx)@.wf(),
            final(ctx)@ == (GlState {
                live: old(ctx)@.live.remove(self@.handle),
                bound_array: if old(ctx)@.bound_array == Some(self@.handle) {
                    None
                } else {
                    old(ctx)@.bound_array
                },
                bound_elements: if old(ctx)@.bound_elements == Some(self@.handle) {
                    None
                } else {
                    old(ctx)@.bound_elements
                },
                ..old(ctx)@
            }),
            final(ctx)@.live.len() == old(ctx)@.live.len() - 1,
    {
        ctx.delete_buffer(self.handle);
    }
}

impl<T: Copy> Buffer<T> {
    /// Reads one mirror element. Out-of-range access is ruled out by
    /// contract — it would be a fatal programming error.
    pub fn get(&self, index: usize) -> (v: T)
        requires
            index < self@.mirror.len(),
        ensures
            v == self@.mirror[index as int],
    {
        self.data[index]
    }

    /// Overwrites one mirror element; GPU memory is not touched until the
    /// next upload.
    pub fn set(&mut self, index: usize, value: T)
        requires
            index < old(self)@.mirror.len(),
        ensures
            final(self)@ == written(old(self)@, index as int, value),
    {
        self.data.set(index, value);
        proof {
            assert(final(self)@ =~~= written(old(self)@, index as int, value));
        }
    }

    /// Extends the mirror with the given values, in order; GPU memory is
    /// not touched until the next upload.
    pub fn push(&mut self, values: &[T])
        requires
            old(self)@.mirror.len() + values@.len() <= usize::MAX,
        ensures
            final(self)@ == pushed(old(self)@, values@),
    {
        let mut i: usize = 0;
        while i < values.len()
            invariant
                i <= values@.len(),
                self@.handle == old(self)@.handle,
                self@.kind == old(self)@.kind,
                self@.device == old(self)@.device,
                self@.mirror =~= old(self)@.mirror + values@.subrange(0, i as int),
            decreases values@.len() - i,
        {
            self.data.push(values[i]);
            i = i + 1;
        }
        proof {
            assert(values@.subrange(0, values@.len() as int) =~= values@);
            assert(final(self)@ =~~= pushed(old(self)@, values@));
        }
    }

    /// Overwrites the mirror wholesale with the given values; GPU memory
    /// is not touched until the next upload.
    pub fn set_data(&mut self, data: &[T])
        ensures
            final(self)@ == replaced(old(self)@, data@),
    {
        self.data = vstd::slice::slice_to_vec(data);
        proof {
            assert(final(self)@ =~~= replaced(old(self)@, data@));
        }
    }

    /// Resizes the mirror, filling new slots with the default value; GPU
    /// memory is not touched until the next upload.
    pub fn resize(&mut self, size: usize, default: T)
        ensures
            final(self)@ == resized(old(self)@, size as int, default),
    {
        if size <= self.data.len() {
            self.data.truncate(size);
            proof {
                assert(final(self)@ =~~= resized(old(self)@, size as int, default));
            }
        } else {
            while self.data.len() < size
                invariant
                    old(self)@.mirror.len() < size,
                    old(self)@.mirror.len() <= self@.mirror.len() <= size,
                    self@.handle == old(self)@.handle,
                    self@.kind == old(self)@.kind,
                    self@.device == old(self)@.device,
                    self@.mirror =~= old(self)@.mirror + Seq::new(
                        (self@.mirror.len() - old(self)@.mirror.len()) as nat,
                        |i: int| default,
                    ),
                decreases size - self@.mirror.len(),
            {
                self.data.push(default);
                proof {
                    assert(self@.mirror =~= old(self)@.mirror + Seq::new(
                        (self@.mirror.len() - old(self)@.mirror.len()) as nat,
                        |i: int| default,
                    ));
                }
            }
            proof {
                assert(final(self)@ =~~= resized(old(self)@, size as int, default));
            }
        }
    }

    /// Binds this buffer and transfers `mirror[offset..length]` to the
    /// device store, replacing it. The usage hint picks the allocation
    /// strategy the backend is told about; it has no bearing on what the
    /// device store holds afterwards.
    pub fn upload_data(&mut self, ctx: &mut GlContext, offset: usize, length: usize, is_static: bool)
        requires
            old(ctx)@.wf(),
            old(ctx)@.live.contains(old(self)@.handle),
            offset <= length <= old(self)@.mirror.len(),
        ensures
            final(ctx)@.wf(),
            final(self)@ == uploaded(old(self)@, offset as int, length as int),
            final(ctx)@ == upload_ctx_state(
                old(ctx)@,
                old(self)@.kind,
                old(self)@.handle,
                length - offset,
                is_static,
            ),
    {
        let target = self.buffer_type.gl_type();
        ctx.bind_buffer(target, self.handle);
        let usage = if is_static {
            STATIC_DRAW
        } else {
            DYNAMIC_DRAW
        };
        ctx.buffer_data(target, length - offset, usage);
        self.device.clear();
        let mut i: usize = offset;
        while i < length
            invariant
                offset <= i <= length <= self@.mirror.len(),
                self@.handle == old(self)@.handle,
                self@.kind == old(self)@.kind,
                self@.mirror == old(self)@.mirror,
                self@.device =~= old(self)@.mirror.subrange(offset as int, i as int),
            decreases length - i,
        {
            let v = self.data[i];
            self.device.push(v);
            i = i + 1;
        }
        proof {
            assert(final(self)@ =~~= uploaded(old(self)@, offset as int, length as int));
            assert(final(ctx)@ =~~= upload_ctx_state(
                old(ctx)@,
                old(self)@.kind,
                old(self)@.handle,
                length - offset,
                is_static,
            ));
        }
    }

    /// The device-side store: what the GPU would observe in a draw issued
    /// now. It changes only at `upload_data`.
    pub fn device_contents(&self) -> (r: &[T])
        ensures
            r@ == self@.device,
    {
        self.device.as_slice()
    }
}

/// What an upload right after an append publishes, and what a later
/// append cannot disturb: uploading the full mirror after `append(vals)`
/// makes the device store exactly the prior mirror followed by `vals`, in
/// insertion order; appending again afterwards leaves the device store —
/// what the next draw observes — untouched until the next upload.
pub proof fn lemma_append_then_upload_visible<T>(b: BufState<T>, vals: Seq<T>, later: Seq<T>)
    ensures
        uploaded(pushed(b, vals), 0, b.mirror.len() + vals.len() as int).device =~= b.mirror + vals,
        pushed(uploaded(pushed(b, vals), 0, b.mirror.len() + vals.len() as int), later).device =~= b.mirror
            + vals,
{
    assert(uploaded(pushed(b, vals), 0, b.mirror.len() + vals.len() as int).device =~= b.mirror + vals);
}

} // verus!
