//! Packing of the demo quad's vertex and index data into one combined
//! GPU allocation, with a word-aligned index offset.

use vstd::prelude::*;

verus! {

/// Vertices in the demo quad geometry.
pub const TEST_VERTEX_COUNT: u32 = 4;

/// Bytes per vertex: a two-component position and a three-component color,
/// four bytes per component.
pub const VERTEX_STRIDE_BYTES: u64 = 20;

/// Indices in the demo quad geometry: two triangles over four vertices.
pub const TEST_INDEX_COUNT: u32 = 6;

/// Bytes per index (16-bit indices).
pub const INDEX_STRIDE_BYTES: u64 = 2;

/// `n` rounded up to the next multiple of four.
pub open spec fn align_up4(n: int) -> int {
    n + ((4 - n % 4) % 4)
}

/// The same rounding, written with the mask that the executable code uses.
pub open spec fn align_up4_mask(n: u64) -> u64
    recommends
        n + 3 <= u64::MAX,
{
    (((n + 3) as u64) & !3u64)
}

/// The mask form and the arithmetic form of rounding up agree.
pub proof fn lemma_align_up4_equals_mask(n: u64)
    by (bit_vector)
    requires
        n + 3 <= u64::MAX,
    ensures
        align_up4_mask(n) == align_up4(n as int),
{
}

/// Rounding up to a multiple of four stays within three bytes of `n`,
/// and the result is itself a multiple of four.
pub proof fn lemma_align_up4_bounds(n: int)
    requires
        0 <= n,
    ensures
        n <= align_up4(n) <= n + 3,
        align_up4(n) % 4 == 0,
{
}

/// Law: repacking an already aligned size changes nothing, so packing the
/// same inputs twice yields identical offsets.
pub proof fn lemma_align_up4_idempotent(n: int)
    requires
        0 <= n,
    ensures
        align_up4(align_up4(n)) == align_up4(n),
{
    lemma_align_up4_bounds(n);
}

/// Rounds `n` up to the next multiple of four using the mask form.
pub fn align_up_to_word(n: u64) -> (r: u64)
    requires
        n + 3 <= u64::MAX,
    ensures
        r == align_up4(n as int),
{
    proof {
        lemma_align_up4_equals_mask(n);
    }
    (n + 3) & !3u64
}

/// Placement of vertex and index data inside one combined GPU allocation.
/// Immutable after the initial upload.
#[derive(Clone, Copy, PartialEq, Eq, Structural, Debug)]
pub struct CombinedBuffer {
    /// Byte offset of the vertex data; always zero.
    pub vertex_offset: u64,
    /// Byte offset of the index data, aligned to four bytes.
    pub index_offset: u64,
    /// Number of indices stored after `index_offset`.
    pub index_count: u32,
    /// Total size of the allocation in bytes.
    pub total_size: u64,
}

impl CombinedBuffer {
    /// The packing invariant: indices start at the aligned end of the
    /// vertex data and fill the allocation exactly.
    pub open spec fn packs(self, vertex_bytes: int, index_bytes: int) -> bool {
        &&& self.vertex_offset == 0
        &&& self.index_offset == align_up4(vertex_bytes)
        &&& self.total_size == self.index_offset + index_bytes
    }
}

/// Computes the layout of one combined vertex-plus-index allocation:
/// vertices at offset zero, indices at the vertex size rounded up to a
/// multiple of four.
pub fn create_combined_buffer(vertex_bytes: u64, index_bytes: u64, index_count: u32) -> (r:
    CombinedBuffer)
    requires
        vertex_bytes + 3 + index_bytes <= u64::MAX,
    ensures
        r.packs(vertex_bytes as int, index_bytes as int),
        r.index_count == index_count,
{
    let index_offset = align_up_to_word(vertex_bytes);
    proof {
        lemma_align_up4_bounds(vertex_bytes as int);
    }
    CombinedBuffer {
        vertex_offset: 0,
        index_offset,
        index_count,
        total_size: index_offset + index_bytes,
    }
}

/// The index list of the demo quad: two triangles sharing one diagonal.
/// Every index addresses one of the four vertices.
pub fn test_indices() -> (r: Vec<u16>)
    ensures
        r@ == seq![0u16, 1u16, 2u16, 2u16, 3u16, 0u16],
        r@.len() == TEST_INDEX_COUNT,
        forall|i: int| 0 <= i < r@.len() ==> r@[i] < TEST_VERTEX_COUNT,
{
    let mut v: Vec<u16> = Vec::new();
    v.push(0);
    v.push(1);
    v.push(2);
    v.push(2);
    v.push(3);
    v.push(0);
    proof {
        assert(v@ =~= seq![0u16, 1u16, 2u16, 2u16, 3u16, 0u16]);
    }
    v
}

/// The combined buffer of the demo geometry: four 20-byte vertices and six
/// 16-bit indices.
pub fn test_geometry_buffer() -> (r: CombinedBuffer)
    ensures
        r.packs(
            (TEST_VERTEX_COUNT * VERTEX_STRIDE_BYTES) as int,
            (TEST_INDEX_COUNT * INDEX_STRIDE_BYTES) as int,
        ),
        r.vertex_offset == 0,
        r.index_offset == 80,
        r.total_size == 92,
        r.index_count == TEST_INDEX_COUNT,
{
    let vertex_bytes: u64 = (TEST_VERTEX_COUNT as u64) * VERTEX_STRIDE_BYTES;
    let index_bytes: u64 = (TEST_INDEX_COUNT as u64) * INDEX_STRIDE_BYTES;
    create_combined_buffer(vertex_bytes, index_bytes, TEST_INDEX_COUNT)
}

} // verus!
