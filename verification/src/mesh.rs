//! Index data of the textured quad: two triangles over four corner vertices.

use vstd::prelude::*;

verus! {

/// The quad's index list: corners are top left (0), bottom left (1),
/// top right (2) and bottom right (3).
pub open spec fn spec_quad_indices() -> Seq<u16> {
    seq![0u16, 1, 2, 1, 3, 2]
}

/// Byte `lo` then byte `hi` hold `v` in little-endian order, or in
/// big-endian order.
pub open spec fn holds_u16(lo: u8, hi: u8, v: u16, little_endian: bool) -> bool {
    if little_endian {
        lo + 256 * hi == v
    } else {
        256 * lo + hi == v
    }
}

/// `bytes` is `values` laid out two bytes per value, all in one byte order.
pub open spec fn encodes_u16s(bytes: Seq<u8>, values: Seq<u16>, little_endian: bool) -> bool {
    &&& bytes.len() == 2 * values.len()
    &&& forall|i: int|
        0 <= i < values.len() ==> #[trigger] holds_u16(
            bytes[2 * i],
            bytes[2 * i + 1],
            values[i],
            little_endian,
        )
}

/// Whether the executing machine stores numbers little-endian, as vstd's
/// `endianness()` abstracts it: one fixed order, without saying which.
pub open spec fn machine_little_endian() -> bool {
    vstd::endian::endianness() == vstd::endian::Endian::Little
}

/// Calls `bytemuck::cast_slice` to view the indices as bytes and copies
/// them. The cast reinterprets the memory of the slice, so the bytes are the
/// indices in the machine's byte order, the same order for every call; the
/// contract names that order through vstd's `endianness()` and does not say
/// which it is.
#[verifier::external_body]
fn cast_indices_to_bytes(indices: &[u16]) -> (bytes: Vec<u8>)
    ensures
        exists|le: bool| encodes_u16s(bytes@, indices@, le),
        encodes_u16s(bytes@, indices@, machine_little_endian()),
{
    bytemuck::cast_slice::<u16, u8>(indices).to_vec()
}

/// The index list of the quad.
pub fn quad_indices() -> (r: Vec<u16>)
    ensures
        r@ == spec_quad_indices(),
        forall|i: int| 0 <= i < r@.len() ==> r@[i] < 4,
{
    let r: Vec<u16> = vec![0, 1, 2, 1, 3, 2];
    assert(r@ =~= spec_quad_indices());
    r
}

/// The contents of an index buffer for `indices` and the number of indices
/// to draw.
pub fn index_buffer_data(indices: &[u16]) -> (d: (Vec<u8>, u32))
    requires
        indices@.len() <= u32::MAX,
    ensures
        d.1 == indices@.len(),
        exists|le: bool| encodes_u16s(d.0@, indices@, le),
        encodes_u16s(d.0@, indices@, machine_little_endian()),
{
    let bytes = cast_indices_to_bytes(indices);
    let ghost le = choose|le: bool| encodes_u16s(bytes@, indices@, le);
    assert(encodes_u16s(bytes@, indices@, le));
    let d = (bytes, indices.len() as u32);
    assert(encodes_u16s(d.0@, indices@, le));
    d
}

proof fn lemma_u16_bytes_unique(lo1: u8, hi1: u8, lo2: u8, hi2: u8, v: u16, le: bool)
    requires
        holds_u16(lo1, hi1, v, le),
        holds_u16(lo2, hi2, v, le),
    ensures
        lo1 == lo2,
        hi1 == hi2,
{
}

/// Index bytes laid out in the machine's byte order are the same for equal
/// indices, whichever lists they come from: index `i` of one list and index
/// `j` of another are stored as the same two bytes exactly when they are
/// equal, so every index buffer reads back in one fixed order.
pub proof fn lemma_index_bytes_one_order(a: Seq<u16>, ba: Seq<u8>, b: Seq<u16>, bb: Seq<u8>, i: int, j: int)
    requires
        encodes_u16s(ba, a, machine_little_endian()),
        encodes_u16s(bb, b, machine_little_endian()),
        0 <= i < a.len(),
        0 <= j < b.len(),
    ensures
        (a[i] == b[j]) <==> (ba[2 * i] == bb[2 * j] && ba[2 * i + 1] == bb[2 * j + 1]),
        machine_little_endian() ==> ba[2 * i] + 256 * ba[2 * i + 1] == a[i],
        !machine_little_endian() ==> 256 * ba[2 * i] + ba[2 * i + 1] == a[i],
{
    assert(holds_u16(ba[2 * i], ba[2 * i + 1], a[i], machine_little_endian()));
    assert(holds_u16(bb[2 * j], bb[2 * j + 1], b[j], machine_little_endian()));
    if a[i] == b[j] {
        lemma_u16_bytes_unique(ba[2 * i], ba[2 * i + 1], bb[2 * j], bb[2 * j + 1], a[i], machine_little_endian());
    }
}

/// The quad is drawn with six indices, each naming one of its four vertices,
/// so an indexed draw of the whole index list over the quad's vertex buffer
/// reads only vertices that exist.
pub proof fn lemma_quad_indices_in_range()
    ensures
        spec_quad_indices().len() == 6,
        forall|i: int| 0 <= i < spec_quad_indices().len() ==> #[trigger] spec_quad_indices()[i] < 4,
{
}

/// The index buffer contents of the quad and the number of indices to draw:
/// six indices, each naming one of the quad's four vertices, so an indexed
/// draw of that count over the quad's vertex buffer reads only its vertices.
pub fn quad_index_buffer_data() -> (d: (Vec<u8>, u32))
    ensures
        d.1 == 6,
        d.1 == spec_quad_indices().len(),
        forall|i: int| 0 <= i < d.1 ==> #[trigger] spec_quad_indices()[i] < 4,
        exists|le: bool| encodes_u16s(d.0@, spec_quad_indices(), le),
        encodes_u16s(d.0@, spec_quad_indices(), machine_little_endian()),
{
    let indices = quad_indices();
    index_buffer_data(indices.as_slice())
}

} // verus!
