//! The pyramid: its model, its index buffer, and what has to be written to
//! the graphics device before a frame.

use vstd::prelude::*;

verus! {

/// The number of base vertices that the vertex buffer has room for.
pub const MAX_SIDES: usize = 64;

/// The size of one vertex in the vertex buffer, in bytes: a position and a
/// colour of three 32-bit numbers each.
pub const VERTEX_SIZE: usize = 24;

/// The size of one index in the index buffer, in bytes.
pub const INDEX_SIZE: usize = 2;

/// The shape of the pyramid. `X` is the type of its lengths.
///
/// Vertex 0 is the top; the base vertices follow as 1 up to `side_count`.
#[derive(Debug, Clone)]
pub struct PyramidModel<X> {
    pub height: X,
    pub base_radius: X,
    pub side_count: usize,
}

/// The index at position `k` of the index list of a pyramid with
/// `side_count` sides: side `k / 3` is the triangle of the top, the base
/// vertex after its own, and its own.
pub open spec fn index_at(side_count: usize, k: int) -> u16 {
    let side = k / 3;
    let corner = k % 3;
    if corner == 0 {
        0u16
    } else if corner == 1 {
        (((side + 1) % (side_count as int) + 1) as usize) as u16
    } else {
        (((side % (side_count as int)) + 1) as usize) as u16
    }
}

/// The index list of a pyramid with `side_count` sides: three indices a side.
pub open spec fn indices_of(side_count: usize) -> Seq<u16> {
    Seq::new((3 * side_count) as nat, |k: int| index_at(side_count, k))
}

/// The bytes are the 16-bit numbers, each with its low byte first.
pub open spec fn is_little_endian(bytes: Seq<u8>, numbers: Seq<u16>) -> bool {
    &&& bytes.len() == 2 * numbers.len()
    &&& forall|i: int|
        0 <= i < numbers.len() ==> (#[trigger] numbers[i]) == bytes[2 * i] + 256 * bytes[2 * i
            + 1]
}

/// The bytes are the 16-bit numbers, each with its high byte first.
pub open spec fn is_big_endian(bytes: Seq<u8>, numbers: Seq<u16>) -> bool {
    &&& bytes.len() == 2 * numbers.len()
    &&& forall|i: int|
        0 <= i < numbers.len() ==> (#[trigger] numbers[i]) == 256 * bytes[2 * i] + bytes[2 * i
            + 1]
}

/// The bytes of the 16-bit numbers as they lie in memory.
///
/// Calls `bytemuck::cast_slice` from `u16` to `u8`, which views the same
/// memory as bytes, and copies the view. That cast cannot fail: a byte has no
/// alignment to miss and divides every length. Two bytes come out for each
/// number, in the byte order of the machine, which is one of two.
#[verifier::external_body]
fn bytes_of_indices(indices: &Vec<u16>) -> (bytes: Vec<u8>)
    ensures
        is_little_endian(bytes@, indices@) || is_big_endian(bytes@, indices@),
{
    bytemuck::cast_slice::<u16, u8>(indices.as_slice()).to_vec()
}

impl<X> PyramidModel<X> {
    /// The index list: for each side the top, the base vertex after the
    /// side's own, and the side's own, which draws the side counterclockwise.
    pub fn indices(&self) -> (indices: Vec<u16>)
        requires
            3 * self.side_count <= usize::MAX,
        ensures
            indices@ == indices_of(self.side_count),
    {
        let n = self.side_count;
        let mut indices: Vec<u16> = Vec::new();
        let mut side: usize = 0;
        while side < n
            invariant
                n == self.side_count,
                3 * n <= usize::MAX,
                side <= n,
                indices@.len() == 3 * side,
                forall|k: int| 0 <= k < 3 * side ==> indices@[k] == index_at(n, k),
            decreases n - side,
        {
            let next = (side + 1) % n + 1;
            let own = side % n + 1;
            indices.push(0);
            indices.push(#[verifier::truncate] (next as u16));
            indices.push(#[verifier::truncate] (own as u16));
            side = side + 1;
        }
        indices
    }

    /// The contents of the index buffer: the index list as bytes, two for
    /// each index, in the byte order of the machine.
    pub fn index_buffer(&self) -> (bytes: Vec<u8>)
        requires
            3 * self.side_count <= usize::MAX,
        ensures
            bytes@.len() == INDEX_SIZE * 3 * self.side_count,
            is_little_endian(bytes@, indices_of(self.side_count)) || is_big_endian(
                bytes@,
                indices_of(self.side_count),
            ),
    {
        let indices = self.indices();
        let bytes = bytes_of_indices(&indices);
        assert(INDEX_SIZE * 3 * self.side_count == 2 * (3 * self.side_count)) by {
            assert(INDEX_SIZE * 3 == 6);
        }
        bytes
    }

    /// The number of indices to draw: three a side.
    pub fn index_count(&self) -> (count: u32)
        requires
            3 * self.side_count <= u32::MAX,
        ensures
            count == 3 * self.side_count,
    {
        (self.side_count as u32) * 3
    }

    /// The part of the vertex buffer that is drawn from, in bytes: the top
    /// and one vertex a side.
    pub fn vertex_buffer_len(&self) -> (len: u64)
        requires
            VERTEX_SIZE * (self.side_count + 1) <= usize::MAX,
        ensures
            len == VERTEX_SIZE * (self.side_count + 1),
    {
        (VERTEX_SIZE * (self.side_count + 1)) as u64
    }

    /// The part of the index buffer that is drawn from, in bytes.
    pub fn index_buffer_len(&self) -> (len: u64)
        requires
            INDEX_SIZE * self.side_count * 3 <= usize::MAX,
        ensures
            len == INDEX_SIZE * self.side_count * 3,
    {
        (INDEX_SIZE * self.side_count * 3) as u64
    }

    /// Whether every base vertex of the model has its place in the vertex buffer.
    pub fn fits_vertex_buffer(&self) -> (fits: bool)
        ensures
            fits == (self.side_count <= MAX_SIDES),
    {
        self.side_count <= MAX_SIDES
    }
}

/// For a pyramid of at least one side and of no more sides than a 16-bit
/// index can name, every index names a vertex of the model, and side `i` is
/// the triangle of the top, the base vertex after its own, and its own, where
/// the first base vertex comes after the last.
pub proof fn law_indices_name_vertices(side_count: usize, side: int)
    requires
        0 < side_count <= u16::MAX,
        0 <= side < side_count,
    ensures
        indices_of(side_count).len() == 3 * side_count,
        indices_of(side_count)[3 * side] == 0,
        indices_of(side_count)[3 * side + 1] == if side + 1 == side_count {
            1int
        } else {
            side + 2
        },
        indices_of(side_count)[3 * side + 2] == side + 1,
        forall|k: int|
            0 <= k < 3 * side_count ==> (#[trigger] indices_of(side_count)[k]) <= side_count,
{
    let n = side_count as int;
    if side + 1 == n {
        assert((side + 1) % n == 0) by (nonlinear_arith)
            requires
                side + 1 == n,
                n > 0,
        ;
    } else {
        assert((side + 1) % n == side + 1) by (nonlinear_arith)
            requires
                0 <= side + 1 < n,
        ;
    }
    assert(side % n == side) by (nonlinear_arith)
        requires
            0 <= side < n,
    ;
}

/// What has to be written to the graphics device before the pyramid is drawn.
#[derive(Debug, Clone, Copy, PartialEq, Eq, Structural)]
pub struct PyramidWrites {
    /// The transform has changed since it was last written.
    pub transform: bool,
    /// The model has changed since it was last written.
    pub model: bool,
}

/// Handler for the pyramid. It keeps the transform and the model, and knows
/// which of them the graphics device has not seen yet. `T` is the type of the
/// transform, `X` that of the model's lengths.
pub struct Pyramid<T, X> {
    transform: T,
    model: PyramidModel<X>,
    is_transform_dirty: bool,
    is_model_dirty: bool,
}

impl<T, X> Pyramid<T, X> {
    /// The transform.
    pub closed spec fn spec_transform(&self) -> T {
        self.transform
    }

    /// The model.
    pub closed spec fn spec_model(&self) -> PyramidModel<X> {
        self.model
    }

    /// What the graphics device has not seen yet.
    pub closed spec fn dirty(&self) -> PyramidWrites {
        PyramidWrites { transform: self.is_transform_dirty, model: self.is_model_dirty }
    }

    /// A pyramid whose transform and model the graphics device has seen.
    pub fn new(transform: T, model: PyramidModel<X>) -> (pyramid: Self)
        ensures
            pyramid.spec_transform() == transform,
            pyramid.spec_model() == model,
            pyramid.dirty() == (PyramidWrites { transform: false, model: false }),
    {
        Pyramid { transform, model, is_transform_dirty: false, is_model_dirty: false }
    }

    /// The transform.
    pub fn transform(&self) -> (transform: &T)
        ensures
            *transform == self.spec_transform(),
    {
        &self.transform
    }

    /// The transform, to be changed. It counts as changed from now on.
    pub fn transform_mut(&mut self) -> (transform: &mut T)
        ensures
            *transform == old(self).spec_transform(),
            final(self).spec_transform() == *final(transform),
            final(self).spec_model() == old(self).spec_model(),
            final(self).dirty() == (PyramidWrites { transform: true, ..old(self).dirty() }),
    {
        self.is_transform_dirty = true;
        &mut self.transform
    }

    /// The transform, to be changed without it counting as changed.
    pub fn transform_mut_clean(&mut self) -> (transform: &mut T)
        ensures
            *transform == old(self).spec_transform(),
            final(self).spec_transform() == *final(transform),
            final(self).spec_model() == old(self).spec_model(),
            final(self).dirty() == old(self).dirty(),
    {
        &mut self.transform
    }

    /// Sets the transform, which counts as changed from now on.
    pub fn set_transform(&mut self, transform: T)
        ensures
            final(self).spec_transform() == transform,
            final(self).spec_model() == old(self).spec_model(),
            final(self).dirty() == (PyramidWrites { transform: true, ..old(self).dirty() }),
    {
        self.transform = transform;
        self.is_transform_dirty = true;
    }

    /// The model.
    pub fn model(&self) -> (model: &PyramidModel<X>)
        ensures
            *model == self.spec_model(),
    {
        &self.model
    }

    /// The model, to be changed. It counts as changed from now on.
    pub fn model_mut(&mut self) -> (model: &mut PyramidModel<X>)
        ensures
            *model == old(self).spec_model(),
            final(self).spec_model() == *final(model),
            final(self).spec_transform() == old(self).spec_transform(),
            final(self).dirty() == (PyramidWrites { model: true, ..old(self).dirty() }),
    {
        self.is_model_dirty = true;
        &mut self.model
    }

    /// The model, to be changed without it counting as changed.
    pub fn model_mut_clean(&mut self) -> (model: &mut PyramidModel<X>)
        ensures
            *model == old(self).spec_model(),
            final(self).spec_model() == *final(model),
            final(self).spec_transform() == old(self).spec_transform(),
            final(self).dirty() == old(self).dirty(),
    {
        &mut self.model
    }

    /// Sets the model, which counts as changed from now on.
    pub fn set_model(&mut self, model: PyramidModel<X>)
        ensures
            final(self).spec_model() == model,
            final(self).spec_transform() == old(self).spec_transform(),
            final(self).dirty() == (PyramidWrites { model: true, ..old(self).dirty() }),
    {
        self.model = model;
        self.is_model_dirty = true;
    }

    /// Whether the transform has changed and the outside has to hear of it.
    pub fn signal(&self) -> (send: bool)
        ensures
            send == self.dirty().transform,
    {
        self.is_transform_dirty
    }

    /// Says what has to be written to the graphics device before this frame
    /// is drawn, and counts it as written.
    pub fn render(&mut self) -> (writes: PyramidWrites)
        ensures
            writes == old(self).dirty(),
            final(self).dirty() == (PyramidWrites { transform: false, model: false }),
            final(self).spec_transform() == old(self).spec_transform(),
            final(self).spec_model() == old(self).spec_model(),
    {
        let writes = PyramidWrites {
            transform: self.is_transform_dirty,
            model: self.is_model_dirty,
        };
        self.is_transform_dirty = false;
        self.is_model_dirty = false;
        writes
    }
}

} // verus!
