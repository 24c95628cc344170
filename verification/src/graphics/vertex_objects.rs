//! The integer bookkeeping of vertex buffers: how vertices are laid out,
//! how many bytes a run of values takes, and where each slot of a buffer
//! that holds many drawings starts.

use vstd::prelude::*;
use vstd::layout::size_of;
use crate::graphics::engine::DrawingType;

verus! {

/// The bytes taken by `floats` values of type `T`.
pub fn get_bytes<T>(floats: usize) -> (bytes: usize)
    requires
        floats * size_of::<T>() <= usize::MAX,
    ensures
        bytes == floats * size_of::<T>(),
{
    floats * core::mem::size_of::<T>()
}

/// The number of values per vertex: position and colour for plain drawings,
/// position, texture coordinate and offset for text.
pub open spec fn spec_stride(drawing_type: DrawingType) -> nat {
    match drawing_type {
        DrawingType::Plain => 6,
        _ => 7,
    }
}

/// The number of values per vertex of `drawing_type`.
pub fn stride(drawing_type: &DrawingType) -> (res: usize)
    ensures
        res == spec_stride(*drawing_type),
{
    match drawing_type {
        DrawingType::Plain => 6,
        _ => 7,
    }
}

/// One attribute of a vertex: its shader location, how many values it
/// takes and at which value of the vertex it starts.
#[derive(Debug, Clone, Copy, PartialEq, Eq)]
pub struct VertexAttribute {
    pub location: u32,
    pub size: i32,
    pub offset: usize,
}

/// The attributes of a vertex of `drawing_type`, as `(size, offset)` pairs.
pub open spec fn attributes(drawing_type: DrawingType) -> Seq<(int, int)> {
    match drawing_type {
        DrawingType::Plain => seq![(3, 0), (3, 3)],
        DrawingType::Text => seq![(3, 0), (2, 3), (2, 5)],
    }
}

/// The attributes to enable for `drawing_type`, in location order.
pub fn vertex_attributes(drawing_type: &DrawingType) -> (res: Vec<VertexAttribute>)
    ensures
        res@.len() == attributes(*drawing_type).len(),
        forall|k: int|
            0 <= k < res@.len() ==> {
                &&& (#[trigger] res@[k]).location == k
                &&& (res@[k].size as int, res@[k].offset as int) == attributes(*drawing_type)[k]
            },
{
    match drawing_type {
        DrawingType::Plain => vec![
            VertexAttribute { location: 0, size: 3, offset: 0 },
            VertexAttribute { location: 1, size: 3, offset: 3 },
        ],
        DrawingType::Text => vec![
            VertexAttribute { location: 0, size: 3, offset: 0 },
            VertexAttribute { location: 1, size: 2, offset: 3 },
            VertexAttribute { location: 2, size: 2, offset: 5 },
        ],
    }
}

/// The attributes of a vertex follow one another without gap or overlap
/// and fill exactly the vertex's stride.
pub proof fn lemma_attributes_fill_stride(drawing_type: DrawingType)
    ensures
        attributes(drawing_type)[0].1 == 0,
        forall|k: int|
            0 <= k < attributes(drawing_type).len() - 1 ==> #[trigger] attributes(drawing_type)[k + 1].1
                == attributes(drawing_type)[k].1 + attributes(drawing_type)[k].0,
        attributes(drawing_type).last().1 + attributes(drawing_type).last().0 == spec_stride(
            drawing_type,
        ),
{
}

/// Every vertex starts with its position, three values at the start of the
/// vertex. A plain vertex follows it with a colour of three values; a text
/// vertex follows it with a texture coordinate of two values and an offset of
/// two values, each starting where the one before it ends.
pub proof fn lemma_vertex_layout(drawing_type: DrawingType)
    ensures
        attributes(drawing_type)[0] == (3int, 0int),
        drawing_type == DrawingType::Plain ==> {
            &&& attributes(drawing_type).len() == 2
            &&& attributes(drawing_type)[1].0 == 3
            &&& attributes(drawing_type)[1].1 == attributes(drawing_type)[0].0
        },
        drawing_type == DrawingType::Text ==> {
            &&& attributes(drawing_type).len() == 3
            &&& attributes(drawing_type)[1].0 == 2
            &&& attributes(drawing_type)[2].0 == 2
            &&& attributes(drawing_type)[1].1 == 3
            &&& attributes(drawing_type)[2].1 == attributes(drawing_type)[1].1 + attributes(drawing_type)[1].0
        },
{
}

/// The vertices held by `floats` values.
pub fn count_verticies(floats: usize, stride: usize) -> (res: usize)
    requires
        stride > 0,
    ensures
        res == floats / stride,
{
    floats / stride
}

/// The first vertex and the vertex count to draw for `floats` values that
/// start `float_offset` values into a buffer; nothing when there are none.
pub open spec fn spec_draw_range(float_offset: nat, floats: nat, stride: nat) -> Option<(nat, nat)> {
    if floats > 0 {
        Some((float_offset / stride, floats / stride))
    } else {
        None
    }
}

/// What to draw of `floats` values that start `float_offset` values into a
/// buffer.
pub fn draw_range(float_offset: usize, floats: usize, stride: usize) -> (res: Option<(usize, usize)>)
    requires
        stride > 0,
    ensures
        match res {
            Some((first, count)) => spec_draw_range(float_offset as nat, floats as nat, stride as nat)
                == Some((first as nat, count as nat)),
            None => spec_draw_range(float_offset as nat, floats as nat, stride as nat) is None,
        },
{
    if floats > 0 {
        Some((count_verticies(float_offset, stride), count_verticies(floats, stride)))
    } else {
        None
    }
}

/// The slots of a buffer that holds many drawings: `indices` slots of
/// `max_floats_per_index` values each, and how many values each slot holds.
pub struct MultiVBOLayout {
    indices: usize,
    max_floats_per_index: usize,
    float_bytes: usize,
    floats_at_index: Vec<usize>,
}

/// The largest buffer allowed, in bytes.
pub const MAX_BYTES: usize = 2147483648;

/// The bytes that `indices` slots of `max_floats_per_index` values of
/// `float_bytes` bytes take.
pub open spec fn total_bytes_of(indices: nat, max_floats_per_index: nat, float_bytes: nat) -> nat {
    indices * (max_floats_per_index * float_bytes)
}

/// Why a load into a slot is refused.
#[derive(Debug, Clone, Copy, PartialEq, Eq)]
pub enum LoadError {
    /// The slot does not exist.
    IndexOutOfRange,
    /// The values do not fit the slot.
    TooManyFloats,
}

/// Why loading `floats` values into slot `index` of `indices` slots of
/// `max_floats_per_index` values is refused, if it is.
pub open spec fn spec_load_error(indices: nat, max_floats_per_index: nat, index: nat, floats: nat) -> Option<LoadError> {
    if index >= indices {
        Some(LoadError::IndexOutOfRange)
    } else if floats > max_floats_per_index {
        Some(LoadError::TooManyFloats)
    } else {
        None
    }
}

/// The draw ranges of the first `n` slots: slot `k` starts `k` slots of
/// `max_floats_per_index` values in, and is drawn when it holds values.
pub open spec fn slot_ranges(floats_at_index: Seq<usize>, max_floats_per_index: nat, stride: nat, n: nat) -> Seq<(usize, usize)>
    decreases n,
{
    if n == 0 {
        Seq::empty()
    } else {
        let k = (n - 1) as nat;
        let rest = slot_ranges(floats_at_index, max_floats_per_index, stride, k);
        match spec_draw_range(k * max_floats_per_index, floats_at_index[k as int] as nat, stride) {
            Some((first, count)) => rest.push((first as usize, count as usize)),
            None => rest,
        }
    }
}

impl MultiVBOLayout {
    pub closed spec fn spec_indices(&self) -> nat {
        self.indices as nat
    }

    pub closed spec fn spec_max_floats_per_index(&self) -> nat {
        self.max_floats_per_index as nat
    }

    pub closed spec fn spec_float_bytes(&self) -> nat {
        self.float_bytes as nat
    }

    /// How many values each slot holds.
    pub closed spec fn spec_floats_at_index(&self) -> Seq<usize> {
        self.floats_at_index@
    }

    /// The layout's invariant: one count per slot, each within the slot, a
    /// slot's bytes within `usize`, and the whole buffer within `MAX_BYTES`.
    pub closed spec fn wf(&self) -> bool {
        &&& self.floats_at_index@.len() == self.indices
        &&& forall|k: int| 0 <= k < self.indices ==> #[trigger] self.floats_at_index@[k] <= self.max_floats_per_index
        &&& self.float_bytes > 0
        &&& self.max_floats_per_index * self.float_bytes <= usize::MAX
        &&& total_bytes_of(self.indices as nat, self.max_floats_per_index as nat, self.float_bytes as nat) <= MAX_BYTES
    }

    /// Whether a buffer of `indices` slots of `max_floats_per_index` values
    /// of type `T` can be sized: a slot's bytes fit a `usize` and the whole
    /// buffer stays within `MAX_BYTES` (values take at least a byte).
    pub fn fits<T>(indices: usize, max_floats_per_index: usize) -> (res: bool)
        ensures
            res == (size_of::<T>() > 0 && max_floats_per_index * size_of::<T>() <= usize::MAX && total_bytes_of(
                indices as nat,
                max_floats_per_index as nat,
                size_of::<T>(),
            ) <= MAX_BYTES),
    {
        let float_bytes = core::mem::size_of::<T>();
        if float_bytes == 0 {
            return false;
        }
        match max_floats_per_index.checked_mul(float_bytes) {
            None => false,
            Some(index_bytes) => match indices.checked_mul(index_bytes) {
                None => false,
                Some(total) => total <= MAX_BYTES,
            },
        }
    }

    /// An empty layout of `indices` slots of `max_floats_per_index` values
    /// of type `T`.
    pub fn new<T>(indices: usize, max_floats_per_index: usize) -> (layout: MultiVBOLayout)
        requires
            size_of::<T>() > 0,
            max_floats_per_index * size_of::<T>() <= usize::MAX,
            total_bytes_of(indices as nat, max_floats_per_index as nat, size_of::<T>()) <= MAX_BYTES,
        ensures
            layout.wf(),
            layout.spec_indices() == indices,
            layout.spec_max_floats_per_index() == max_floats_per_index,
            layout.spec_float_bytes() == size_of::<T>(),
            layout.spec_floats_at_index() == Seq::new(indices as nat, |k: int| 0usize),
    {
        let float_bytes = core::mem::size_of::<T>();
        let floats_at_index = vec_of_zeros(indices);
        MultiVBOLayout { indices, max_floats_per_index, float_bytes, floats_at_index }
    }

    pub fn indices(&self) -> (res: usize)
        ensures
            res == self.spec_indices(),
    {
        self.indices
    }

    pub fn max_floats_per_index(&self) -> (res: usize)
        ensures
            res == self.spec_max_floats_per_index(),
    {
        self.max_floats_per_index
    }

    /// The bytes of the whole buffer.
    pub fn total_bytes(&self) -> (res: usize)
        requires
            self.wf(),
        ensures
            res == total_bytes_of(self.spec_indices(), self.spec_max_floats_per_index(), self.spec_float_bytes()),
    {
        self.indices * self.index_bytes()
    }

    /// The bytes of one slot.
    pub fn index_bytes(&self) -> (res: usize)
        requires
            self.wf(),
        ensures
            res == self.spec_max_floats_per_index() * self.spec_float_bytes(),
    {
        self.max_floats_per_index * self.float_bytes
    }

    /// The byte at which slot `index` starts.
    pub fn offset_bytes(&self, index: usize) -> (res: usize)
        requires
            self.wf(),
            index < self.spec_indices(),
        ensures
            res == index * (self.spec_max_floats_per_index() * self.spec_float_bytes()),
    {
        let index_bytes = self.index_bytes();
        proof {
            assert(index * index_bytes <= self.indices * index_bytes) by (nonlinear_arith)
                requires
                    index < self.indices,
            ;
        }
        index * index_bytes
    }

    /// The value at which slot `index` starts.
    pub fn offset_floats(&self, index: usize) -> (res: usize)
        requires
            self.wf(),
            index < self.spec_indices(),
        ensures
            res == index * self.spec_max_floats_per_index(),
    {
        proof {
            self.lemma_offsets_fit(index as nat);
        }
        index * self.max_floats_per_index
    }

    /// Why loading `floats` values into slot `index` is refused, if it is.
    pub fn load_error(&self, index: usize, floats: usize) -> (res: Option<LoadError>)
        ensures
            res == spec_load_error(self.spec_indices(), self.spec_max_floats_per_index(), index as nat, floats as nat),
    {
        if index >= self.indices {
            Some(LoadError::IndexOutOfRange)
        } else if floats > self.max_floats_per_index {
            Some(LoadError::TooManyFloats)
        } else {
            None
        }
    }

    /// Records that slot `index` now holds `floats` values.
    pub fn record_load(&mut self, index: usize, floats: usize)
        requires
            old(self).wf(),
            spec_load_error(old(self).spec_indices(), old(self).spec_max_floats_per_index(), index as nat, floats as nat) is None,
        ensures
            final(self).wf(),
            final(self).spec_indices() == old(self).spec_indices(),
            final(self).spec_max_floats_per_index() == old(self).spec_max_floats_per_index(),
            final(self).spec_float_bytes() == old(self).spec_float_bytes(),
            final(self).spec_floats_at_index() == old(self).spec_floats_at_index().update(index as int, floats),
    {
        self.floats_at_index.set(index, floats);
    }

    /// The runs of vertices to draw: one per slot that holds values, starting
    /// at the slot's first vertex.
    pub fn draw_ranges(&self, stride: usize) -> (res: Vec<(usize, usize)>)
        requires
            self.wf(),
            stride > 0,
        ensures
            res@ == slot_ranges(self.spec_floats_at_index(), self.spec_max_floats_per_index(), stride as nat, self.spec_indices()),
    {
        let mut out: Vec<(usize, usize)> = Vec::new();
        let mut k: usize = 0;
        while k < self.indices
            invariant
                self.wf(),
                stride > 0,
                k <= self.indices,
                out@ == slot_ranges(self.floats_at_index@, self.max_floats_per_index as nat, stride as nat, k as nat),
            decreases self.indices - k,
        {
            let float_offset = self.offset_floats(k);
            match draw_range(float_offset, self.floats_at_index[k], stride) {
                Some(range) => out.push(range),
                None => {},
            }
            k = k + 1;
        }
        out
    }

    /// The values before a slot never outnumber the buffer's bytes.
    proof fn lemma_offsets_fit(&self, index: nat)
        requires
            self.wf(),
            index <= self.indices,
        ensures
            index * self.max_floats_per_index <= MAX_BYTES,
    {
        assert(index * self.max_floats_per_index <= index * (self.max_floats_per_index * self.float_bytes)) by (nonlinear_arith)
            requires
                self.float_bytes >= 1,
        ;
        assert(index * (self.max_floats_per_index * self.float_bytes) <= self.indices * (self.max_floats_per_index * self.float_bytes)) by (nonlinear_arith)
            requires
                index <= self.indices,
        ;
    }
}

/// A vector of `n` zeros.
fn vec_of_zeros(n: usize) -> (res: Vec<usize>)
    ensures
        res@ == Seq::new(n as nat, |k: int| 0usize),
{
    let mut v: Vec<usize> = Vec::new();
    let mut i: usize = 0;
    while i < n
        invariant
            i <= n,
            v@ == Seq::new(i as nat, |k: int| 0usize),
        decreases n - i,
    {
        v.push(0);
        i = i + 1;
        assert(v@ =~= Seq::new(i as nat, |k: int| 0usize));
    }
    v
}

/// The slots of a buffer lie one after another inside it: slot `k` starts
/// right where slot `k - 1` ends and ends no later than the buffer.
pub proof fn lemma_slots_tile_buffer(indices: nat, index_bytes: nat, k: nat)
    requires
        k < indices,
    ensures
        (k + 1) * index_bytes == k * index_bytes + index_bytes,
        k * index_bytes + index_bytes <= indices * index_bytes,
{
    assert((k + 1) * index_bytes == k * index_bytes + index_bytes) by (nonlinear_arith);
    assert((k + 1) * index_bytes <= indices * index_bytes) by (nonlinear_arith)
        requires
            k + 1 <= indices,
    ;
}


/// The number of the first `n` slots that hold values.
pub open spec fn filled_slots(floats_at_index: Seq<usize>, n: nat) -> nat
    decreases n,
{
    if n == 0 {
        0
    } else if floats_at_index[n - 1] > 0 {
        filled_slots(floats_at_index, (n - 1) as nat) + 1
    } else {
        filled_slots(floats_at_index, (n - 1) as nat)
    }
}

/// Every slot that holds values is drawn, once, in slot order, and no other:
/// there is one draw range per filled slot among the first `n`, and the range
/// of a filled slot `k`, which follows the ranges of the filled slots before
/// it, starts at the vertex where the slot starts, `k` slots of
/// `max_floats_per_index` values in, and covers the vertices the slot holds.
pub proof fn lemma_every_filled_slot_is_drawn(
    floats_at_index: Seq<usize>,
    max_floats_per_index: nat,
    stride: nat,
    n: nat,
)
    requires
        stride > 0,
        n <= floats_at_index.len(),
    ensures
        slot_ranges(floats_at_index, max_floats_per_index, stride, n).len() == filled_slots(floats_at_index, n),
        forall|k: int|
            0 <= k < n && floats_at_index[k] > 0 ==> #[trigger] slot_ranges(
                floats_at_index,
                max_floats_per_index,
                stride,
                n,
            )[filled_slots(floats_at_index, k as nat) as int] == (
                ((k * max_floats_per_index) / (stride as int)) as usize,
                ((floats_at_index[k] as nat) / stride) as usize,
            ),
    decreases n,
{
    if n > 0 {
        let m = (n - 1) as nat;
        lemma_every_filled_slot_is_drawn(floats_at_index, max_floats_per_index, stride, m);
        lemma_filled_slots_grow(floats_at_index, m);
        let rest = slot_ranges(floats_at_index, max_floats_per_index, stride, m);
        let all = slot_ranges(floats_at_index, max_floats_per_index, stride, n);
        assert forall|k: int|
            0 <= k < n && floats_at_index[k] > 0 implies #[trigger] all[filled_slots(floats_at_index, k as nat) as int]
            == (((k * max_floats_per_index) / (stride as int)) as usize, ((floats_at_index[k] as nat) / stride) as usize) by {
            if k < m {
                assert(all[filled_slots(floats_at_index, k as nat) as int] == rest[filled_slots(floats_at_index, k as nat) as int]);
            }
        }
    }
}

/// Counting the filled slots before `k` never passes the count before `n`
/// when `k < n`, and falls short of it when slot `k` is filled.
proof fn lemma_filled_slots_grow(floats_at_index: Seq<usize>, n: nat)
    ensures
        forall|k: int| 0 <= k < n ==> #[trigger] filled_slots(floats_at_index, k as nat) <= filled_slots(floats_at_index, n),
        forall|k: int|
            0 <= k < n && floats_at_index[k] > 0 ==> #[trigger] filled_slots(floats_at_index, k as nat) < filled_slots(floats_at_index, n),
    decreases n,
{
    if n > 0 {
        lemma_filled_slots_grow(floats_at_index, (n - 1) as nat);
    }
}

} // verus!
