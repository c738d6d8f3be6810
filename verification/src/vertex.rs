//! Vertex records, their layout in a vertex buffer, and the attribute table
//! that tells a render pipeline where each field of a record lies.

use crate::encoding::{bytes_to_words, lemma_words_round_trip, words_from_le, words_le, words_to_bytes};
use vstd::prelude::*;

verus! {

/// Numeric format of one vertex attribute. Every supported format is a vector
/// of one to four 32-bit components.
#[derive(Copy, Clone, Debug, PartialEq, Eq, Structural)]
pub enum VertexFormat {
    Float,
    Float2,
    Float3,
    Float4,
    Uint,
    Uint2,
    Uint3,
    Uint4,
    Int,
    Int2,
    Int3,
    Int4,
}

impl VertexFormat {
    /// Number of 32-bit components.
    pub open spec fn spec_components(self) -> nat {
        match self {
            VertexFormat::Float | VertexFormat::Uint | VertexFormat::Int => 1,
            VertexFormat::Float2 | VertexFormat::Uint2 | VertexFormat::Int2 => 2,
            VertexFormat::Float3 | VertexFormat::Uint3 | VertexFormat::Int3 => 3,
            VertexFormat::Float4 | VertexFormat::Uint4 | VertexFormat::Int4 => 4,
        }
    }

    /// Size in bytes of one attribute of this format.
    pub open spec fn spec_size(self) -> nat {
        4 * self.spec_components()
    }

    /// Number of 32-bit components.
    pub fn components(self) -> (n: u64)
        ensures
            n == self.spec_components(),
    {
        match self {
            VertexFormat::Float | VertexFormat::Uint | VertexFormat::Int => 1,
            VertexFormat::Float2 | VertexFormat::Uint2 | VertexFormat::Int2 => 2,
            VertexFormat::Float3 | VertexFormat::Uint3 | VertexFormat::Int3 => 3,
            VertexFormat::Float4 | VertexFormat::Uint4 | VertexFormat::Int4 => 4,
        }
    }

    /// Size in bytes of one attribute of this format.
    pub fn size(self) -> (n: u64)
        ensures
            n == self.spec_size(),
    {
        4 * self.components()
    }
}

/// Whether a vertex buffer advances once per vertex or once per instance.
#[derive(Copy, Clone, Debug, PartialEq, Eq, Structural)]
pub enum InputStepMode {
    Vertex,
    Instance,
}

/// One entry of the attribute table: where a field starts within a record,
/// which shader input it feeds, and how its bytes are read.
#[derive(Copy, Clone, Debug, PartialEq, Eq, Structural)]
pub struct VertexAttribute {
    pub offset: u64,
    pub shader_location: u32,
    pub format: VertexFormat,
}

/// Layout of one vertex buffer: the distance between records and the
/// attribute table.
#[derive(Clone, Debug, PartialEq, Eq)]
pub struct VertexBufferLayout {
    pub stride: u64,
    pub step_mode: InputStepMode,
    pub attributes: Vec<VertexAttribute>,
}

/// Byte offset of field `i` in a record whose fields are laid out one after
/// another in declaration order: the sizes of the fields before it, added up.
/// With `i` the number of fields, this is the size of the record.
pub open spec fn field_offset(fields: Seq<VertexFormat>, i: int) -> nat
    decreases i,
{
    if i <= 0 {
        0
    } else {
        field_offset(fields, i - 1) + fields[i - 1].spec_size()
    }
}

/// No record is larger than sixteen bytes per field.
pub proof fn lemma_field_offset_bound(fields: Seq<VertexFormat>, i: int)
    requires
        0 <= i <= fields.len(),
    ensures
        field_offset(fields, i) <= 16 * i,
        field_offset(fields, i) % 4 == 0,
    decreases i,
{
    if i > 0 {
        lemma_field_offset_bound(fields, i - 1);
    }
}

/// What is wrong with an attribute table, for a record with given fields.
#[derive(Copy, Clone, Debug, PartialEq, Eq, Structural)]
pub enum LayoutError {
    /// The table does not have one attribute per field.
    AttributeCount,
    /// The attribute at `index` is the first whose offset, shader location or
    /// format is not that of its field.
    Attribute { index: usize },
    /// Every attribute is right, but the stride is not the size of one record.
    Stride,
}

impl VertexBufferLayout {
    /// Attribute `i` is the one that field `i` calls for: it starts at the
    /// byte offset of the field, feeds shader input `i`, and has the field's
    /// format.
    pub open spec fn attribute_matches(self, fields: Seq<VertexFormat>, i: int) -> bool {
        &&& self.attributes@[i].offset == field_offset(fields, i)
        &&& self.attributes@[i].shader_location == i
        &&& self.attributes@[i].format == fields[i]
    }

    /// The layout matches a record with the given fields: one attribute per
    /// field, in order, each at the byte offset of its field, and a stride of
    /// exactly one record.
    pub open spec fn describes(self, fields: Seq<VertexFormat>) -> bool {
        &&& self.attributes@.len() == fields.len()
        &&& self.stride == field_offset(fields, fields.len() as int)
        &&& forall|i: int| 0 <= i < fields.len() ==> self.attribute_matches(fields, i)
    }

    /// The per-vertex layout of a record with the given fields, or `None`
    /// where there are more fields than shader locations can number.
    pub fn for_fields(fields: &[VertexFormat]) -> (layout: Option<VertexBufferLayout>)
        ensures
            layout is Some <==> fields@.len() <= u32::MAX,
            layout matches Some(l) ==> l.describes(fields@) && l.step_mode
                == InputStepMode::Vertex,
    {
        let n: usize = fields.len();
        if n > u32::MAX as usize {
            return None;
        }
        let mut attributes: Vec<VertexAttribute> = Vec::new();
        let mut offset: u64 = 0;
        let mut i: usize = 0;
        while i < n
            invariant
                n == fields@.len(),
                n <= u32::MAX,
                i <= n,
                offset == field_offset(fields@, i as int),
                attributes@.len() == i,
                forall|k: int|
                    0 <= k < i ==> {
                        &&& (#[trigger] attributes@[k]).offset == field_offset(fields@, k)
                        &&& attributes@[k].shader_location == k
                        &&& attributes@[k].format == fields@[k]
                    },
            decreases n - i,
        {
            proof {
                lemma_field_offset_bound(fields@, i as int);
            }
            attributes.push(
                VertexAttribute { offset, shader_location: i as u32, format: fields[i] },
            );
            offset = offset + fields[i].size();
            i += 1;
        }
        Some(VertexBufferLayout { stride: offset, step_mode: InputStepMode::Vertex, attributes })
    }

    /// `fault` is the first thing wrong with the table for a record with the
    /// given fields: the number of attributes, else the first attribute that
    /// does not match its field, else the stride.
    pub open spec fn has_fault(self, fields: Seq<VertexFormat>, fault: LayoutError) -> bool {
        match fault {
            LayoutError::AttributeCount => self.attributes@.len() != fields.len(),
            LayoutError::Attribute { index } => {
                &&& self.attributes@.len() == fields.len()
                &&& index < fields.len()
                &&& !self.attribute_matches(fields, index as int)
                &&& forall|k: int| 0 <= k < index ==> self.attribute_matches(fields, k)
            },
            LayoutError::Stride => {
                &&& self.attributes@.len() == fields.len()
                &&& forall|k: int| 0 <= k < fields.len() ==> self.attribute_matches(fields, k)
                &&& self.stride != field_offset(fields, fields.len() as int)
            },
        }
    }

    /// Holds the table against the fields of the record it is meant for.
    pub fn check(&self, fields: &[VertexFormat]) -> (r: Result<(), LayoutError>)
        ensures
            match r {
                Ok(()) => self.describes(fields@),
                Err(fault) => self.has_fault(fields@, fault),
            },
    {
        let n: usize = fields.len();
        if self.attributes.len() != n {
            return Err(LayoutError::AttributeCount);
        }
        let mut offset: u64 = 0;
        let mut i: usize = 0;
        while i < n
            invariant
                n == fields@.len(),
                n == self.attributes@.len(),
                i <= n,
                i <= u32::MAX + 1,
                offset == field_offset(fields@, i as int),
                forall|k: int| 0 <= k < i ==> self.attribute_matches(fields@, k),
            decreases n - i,
        {
            proof {
                lemma_field_offset_bound(fields@, i as int);
            }
            let attribute: VertexAttribute = self.attributes[i];
            if attribute.offset != offset || attribute.shader_location as usize != i
                || attribute.format != fields[i] {
                return Err(LayoutError::Attribute { index: i });
            }
            offset = offset + fields[i].size();
            i += 1;
        }
        if self.stride != offset {
            return Err(LayoutError::Stride);
        }
        Ok(())
    }
}

/// One record of the vertex buffer: a position in the plane and the texture
/// coordinate that goes with it. Each number is an IEEE-754 single, held as
/// its bit pattern.
#[derive(Copy, Clone, Debug, PartialEq, Eq)]
pub struct Vertex {
    pub position: [u32; 2],
    pub tex_coords: [u32; 2],
}

/// Size in bytes of one [`Vertex`] in a buffer.
pub const VERTEX_SIZE: usize = 16;

impl Vertex {
    /// The fields of a record, in the order in which they lie in memory.
    pub open spec fn spec_fields() -> Seq<VertexFormat> {
        seq![VertexFormat::Float2, VertexFormat::Float2]
    }

    /// The four words of a record, in the order in which they lie in memory.
    pub open spec fn words(self) -> Seq<u32> {
        seq![self.position[0], self.position[1], self.tex_coords[0], self.tex_coords[1]]
    }

    /// The fields of a record, in the order in which they lie in memory.
    pub fn fields() -> (fields: Vec<VertexFormat>)
        ensures
            fields@ == Self::spec_fields(),
    {
        let mut fields: Vec<VertexFormat> = Vec::new();
        fields.push(VertexFormat::Float2);
        fields.push(VertexFormat::Float2);
        assert(fields@ =~= Self::spec_fields());
        fields
    }

    /// The attribute table of a buffer of records: the position at shader
    /// location 0, the texture coordinate behind it at location 1. It
    /// matches the fields of a record.
    pub fn desc() -> (layout: VertexBufferLayout)
        ensures
            layout.stride == VERTEX_SIZE,
            layout.step_mode == InputStepMode::Vertex,
            layout.attributes@ == seq![
                VertexAttribute { offset: 0, shader_location: 0, format: VertexFormat::Float2 },
                VertexAttribute { offset: 8, shader_location: 1, format: VertexFormat::Float2 },
            ],
            layout.describes(Self::spec_fields()),
    {
        let mut attributes: Vec<VertexAttribute> = Vec::new();
        attributes.push(
            VertexAttribute { offset: 0, shader_location: 0, format: VertexFormat::Float2 },
        );
        attributes.push(
            VertexAttribute { offset: 8, shader_location: 1, format: VertexFormat::Float2 },
        );
        proof {
            reveal_with_fuel(field_offset, 3);
            assert(attributes@ =~= seq![
                VertexAttribute { offset: 0, shader_location: 0, format: VertexFormat::Float2 },
                VertexAttribute { offset: 8, shader_location: 1, format: VertexFormat::Float2 },
            ]);
        }
        VertexBufferLayout { stride: 16, step_mode: InputStepMode::Vertex, attributes }
    }
}

/// The words of a run of records, record after record.
pub open spec fn vertices_words(vertices: Seq<Vertex>) -> Seq<u32> {
    Seq::new((4 * vertices.len()) as nat, |i: int| vertices[i / 4].words()[i % 4])
}

/// The bytes of a run of records as they lie in a vertex buffer.
pub open spec fn vertices_bytes(vertices: Seq<Vertex>) -> Seq<u8> {
    words_le(vertices_words(vertices))
}

/// The record made of four words.
pub open spec fn vertex_of(w0: u32, w1: u32, w2: u32, w3: u32) -> Vertex {
    Vertex { position: [w0, w1], tex_coords: [w2, w3] }
}

/// The records that a run of words holds; a tail shorter than a record is ignored.
pub open spec fn vertices_of_words(words: Seq<u32>) -> Seq<Vertex> {
    Seq::new(
        (words.len() / 4) as nat,
        |i: int| vertex_of(words[4 * i], words[4 * i + 1], words[4 * i + 2], words[4 * i + 3]),
    )
}

/// The records that the bytes of a vertex buffer hold.
pub open spec fn vertices_of_bytes(bytes: Seq<u8>) -> Seq<Vertex> {
    vertices_of_words(words_from_le(bytes))
}

/// Splitting records into words and joining the words again gives the records back.
pub proof fn lemma_vertices_words_round_trip(vertices: Seq<Vertex>)
    ensures
        vertices_words(vertices).len() == 4 * vertices.len(),
        vertices_of_words(vertices_words(vertices)) == vertices,
{
    let words = vertices_words(vertices);
    assert forall|i: int| 0 <= i < vertices.len() implies vertices_of_words(words)[i]
        == vertices[i] by {
        let v = vertices[i];
        assert(words[4 * i] == v.words()[0]);
        assert(words[4 * i + 1] == v.words()[1]);
        assert(words[4 * i + 2] == v.words()[2]);
        assert(words[4 * i + 3] == v.words()[3]);
        let back = vertices_of_words(words)[i];
        assert(back.position =~= v.position);
        assert(back.tex_coords =~= v.tex_coords);
    }
    assert(vertices_of_words(words) =~= vertices);
}

/// Reading back the bytes of a run of records gives the same records, bit for bit.
pub proof fn lemma_vertices_round_trip(vertices: Seq<Vertex>)
    ensures
        vertices_bytes(vertices).len() == VERTEX_SIZE * vertices.len(),
        vertices_of_bytes(vertices_bytes(vertices)) == vertices,
{
    lemma_vertices_words_round_trip(vertices);
    lemma_words_round_trip(vertices_words(vertices));
}

/// The bytes between two word boundaries of a run are the bytes of the words
/// between them.
pub proof fn lemma_words_le_subrange(words: Seq<u32>, from: int, to: int)
    requires
        0 <= from <= to <= words.len(),
    ensures
        words_le(words).subrange(4 * from, 4 * to) == words_le(words.subrange(from, to)),
{
    assert(words_le(words).subrange(4 * from, 4 * to) =~= words_le(words.subrange(from, to)));
}

/// The words of field `i` within the words of one record.
pub open spec fn field_words(fields: Seq<VertexFormat>, record: Seq<u32>, i: int) -> Seq<u32> {
    record.subrange(field_offset(fields, i) as int / 4, field_offset(fields, i + 1) as int / 4)
}

/// In the bytes of a record, every field lies at the offset that a matching
/// attribute table declares for it: the sizes of the fields before it, added
/// up, and the next field starts where it ends.
pub proof fn lemma_declared_offsets_are_byte_offsets(
    layout: VertexBufferLayout,
    fields: Seq<VertexFormat>,
    record: Seq<u32>,
    i: int,
)
    requires
        layout.describes(fields),
        4 * record.len() == field_offset(fields, fields.len() as int),
        0 <= i < fields.len(),
    ensures
        layout.attributes@[i].offset == field_offset(fields, i),
        layout.attributes@[i].offset + layout.attributes@[i].format.spec_size() == field_offset(
            fields,
            i + 1,
        ),
        i + 1 < fields.len() ==> layout.attributes@[i + 1].offset == layout.attributes@[i].offset
            + layout.attributes@[i].format.spec_size(),
        i + 1 == fields.len() ==> layout.stride == layout.attributes@[i].offset
            + layout.attributes@[i].format.spec_size(),
        words_le(record).subrange(
            layout.attributes@[i].offset as int,
            layout.attributes@[i].offset + layout.attributes@[i].format.spec_size(),
        ) == words_le(field_words(fields, record, i)),
{
    assert(layout.attribute_matches(fields, i));
    if i + 1 < fields.len() {
        assert(layout.attribute_matches(fields, i + 1));
    }
    lemma_field_offset_bound(fields, i);
    lemma_field_offset_bound(fields, i + 1);
    lemma_field_offset_monotonic(fields, i + 1, fields.len() as int);
    let from = field_offset(fields, i) as int / 4;
    let to = field_offset(fields, i + 1) as int / 4;
    lemma_words_le_subrange(record, from, to);
}

/// Offsets grow with the field number.
pub proof fn lemma_field_offset_monotonic(fields: Seq<VertexFormat>, i: int, j: int)
    requires
        0 <= i <= j,
    ensures
        field_offset(fields, i) <= field_offset(fields, j),
    decreases j - i,
{
    if i < j {
        lemma_field_offset_monotonic(fields, i, j - 1);
    }
}

/// The attribute table of [`Vertex::desc`] points at the fields of a record:
/// the position fills the first eight bytes, the texture coordinate the next
/// eight.
pub proof fn lemma_vertex_fields_at_offsets(vertex: Vertex)
    ensures
        vertices_bytes(seq![vertex]).len() == VERTEX_SIZE,
        vertices_bytes(seq![vertex]).subrange(0, 8) == words_le(vertex.position@),
        vertices_bytes(seq![vertex]).subrange(8, 16) == words_le(vertex.tex_coords@),
{
    let words = vertices_words(seq![vertex]);
    assert(words =~= vertex.words());
    lemma_words_le_subrange(words, 0, 2);
    lemma_words_le_subrange(words, 2, 4);
    assert(words.subrange(0, 2) =~= vertex.position@);
    assert(words.subrange(2, 4) =~= vertex.tex_coords@);
}

/// The bytes of `vertices` as they go into a vertex buffer: record after
/// record, field after field, each number least significant byte first.
pub fn vertices_to_bytes(vertices: &[Vertex]) -> (bytes: Vec<u8>)
    ensures
        bytes@ == vertices_bytes(vertices@),
{
    let n: usize = vertices.len();
    let mut words: Vec<u32> = Vec::new();
    let mut i: usize = 0;
    while i < n
        invariant
            n == vertices@.len(),
            i <= n,
            words@.len() == 4 * i,
            forall|k: int| 0 <= k < 4 * i ==> words@[k] == vertices@[k / 4].words()[k % 4],
        decreases n - i,
    {
        let vertex: Vertex = vertices[i];
        words.push(vertex.position[0]);
        words.push(vertex.position[1]);
        words.push(vertex.tex_coords[0]);
        words.push(vertex.tex_coords[1]);
        i += 1;
    }
    assert(words@ =~= vertices_words(vertices@));
    words_to_bytes(words.as_slice())
}

/// The records held by the bytes of a vertex buffer; `None` where the length
/// is not a whole number of records. Reads back what [`vertices_to_bytes`]
/// wrote.
pub fn vertices_from_bytes(bytes: &[u8]) -> (vertices: Option<Vec<Vertex>>)
    ensures
        vertices is Some <==> bytes@.len() % 16 == 0,
        vertices matches Some(v) ==> v@ == vertices_of_bytes(bytes@),
        forall|uploaded: Seq<Vertex>|
            bytes@ == #[trigger] vertices_bytes(uploaded) ==> (vertices matches Some(v) && v@
                == uploaded),
{
    assert forall|uploaded: Seq<Vertex>| bytes@ == #[trigger] vertices_bytes(uploaded) implies {
        &&& bytes@.len() % 16 == 0
        &&& vertices_of_bytes(bytes@) == uploaded
    } by {
        lemma_vertices_round_trip(uploaded);
    }
    if bytes.len() % VERTEX_SIZE != 0 {
        return None;
    }
    let words: Vec<u32> = match bytes_to_words(bytes) {
        Some(words) => words,
        None => { return None; },
    };
    let total: usize = words.len();
    let n: usize = total / 4;
    let mut vertices: Vec<Vertex> = Vec::new();
    let mut i: usize = 0;
    while i < n
        invariant
            words@ == words_from_le(bytes@),
            total == words@.len(),
            total == 4 * n,
            i <= n,
            vertices@.len() == i,
            forall|k: int| 0 <= k < i ==> vertices@[k] == vertices_of_words(words@)[k],
        decreases n - i,
    {
        let at: usize = 4 * i;
        vertices.push(
            Vertex {
                position: [words[at], words[at + 1]],
                tex_coords: [words[at + 2], words[at + 3]],
            },
        );
        i += 1;
    }
    assert(vertices@ =~= vertices_of_bytes(bytes@));
    Some(vertices)
}

} // verus!
