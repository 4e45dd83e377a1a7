use vstd::prelude::*;
use crate::graphics::renderer::gl_enum::GlEnum;
use crate::graphics::renderer::types::GlTypeEnum;

verus! {

/// One attribute of a vertex: `size` components of type `gl_type`,
/// optionally normalized to [0, 1] or [-1, 1] when read as floats.
#[derive(Debug, Clone, Copy, PartialEq, Eq, Structural)]
pub struct FieldType {
    pub normalized: bool,
    pub gl_type: GlTypeEnum,
    pub size: i32,
}

impl FieldType {
    pub fn new(normalized: bool, gl_type: GlTypeEnum, size: i32) -> (r: FieldType)
        ensures
            r == (FieldType { normalized, gl_type, size }),
    {
        FieldType { normalized, gl_type, size }
    }

    /// Bytes that the attribute occupies in a vertex.
    pub open spec fn byte_size(self) -> int {
        self.gl_type.spec_size() * self.size
    }
}

/// The Rust types that vertex fields have, by their component type and
/// count: `u8`, three and four `u8`s, two `u16`s, two `i16`s, one and two
/// 32-bit floats, and `u32`.
#[derive(Debug, Clone, Copy, PartialEq, Eq, Structural)]
pub enum VertexFieldKind {
    UnsignedByte,
    UnsignedByte3,
    UnsignedByte4,
    UnsignedShort2,
    Short2,
    Float,
    Float2,
    UnsignedInt,
}

impl VertexFieldKind {
    /// The component type of the field.
    pub open spec fn spec_component(self) -> GlTypeEnum {
        match self {
            VertexFieldKind::UnsignedByte => GlTypeEnum::UnsignedByte,
            VertexFieldKind::UnsignedByte3 => GlTypeEnum::UnsignedByte,
            VertexFieldKind::UnsignedByte4 => GlTypeEnum::UnsignedByte,
            VertexFieldKind::UnsignedShort2 => GlTypeEnum::UnsignedShort,
            VertexFieldKind::Short2 => GlTypeEnum::Short,
            VertexFieldKind::Float => GlTypeEnum::Float,
            VertexFieldKind::Float2 => GlTypeEnum::Float,
            VertexFieldKind::UnsignedInt => GlTypeEnum::UnsignedInt,
        }
    }

    /// The number of components of the field.
    pub open spec fn spec_count(self) -> i32 {
        match self {
            VertexFieldKind::UnsignedByte => 1,
            VertexFieldKind::UnsignedByte3 => 3,
            VertexFieldKind::UnsignedByte4 => 4,
            VertexFieldKind::UnsignedShort2 => 2,
            VertexFieldKind::Short2 => 2,
            VertexFieldKind::Float => 1,
            VertexFieldKind::Float2 => 2,
            VertexFieldKind::UnsignedInt => 1,
        }
    }

    /// Bytes that a value of the field's Rust type occupies.
    pub open spec fn spec_rust_size(self) -> int {
        match self {
            VertexFieldKind::UnsignedByte => 1,
            VertexFieldKind::UnsignedByte3 => 3,
            VertexFieldKind::UnsignedByte4 => 4,
            VertexFieldKind::UnsignedShort2 => 4,
            VertexFieldKind::Short2 => 4,
            VertexFieldKind::Float => 4,
            VertexFieldKind::Float2 => 8,
            VertexFieldKind::UnsignedInt => 4,
        }
    }

    /// The attribute of a field of this kind.
    pub fn field_type(&self, normalized: bool) -> (r: FieldType)
        ensures
            r == (FieldType { normalized, gl_type: self.spec_component(), size: self.spec_count() }),
    {
        let (gl_type, size) = match self {
            VertexFieldKind::UnsignedByte => (GlTypeEnum::UnsignedByte, 1),
            VertexFieldKind::UnsignedByte3 => (GlTypeEnum::UnsignedByte, 3),
            VertexFieldKind::UnsignedByte4 => (GlTypeEnum::UnsignedByte, 4),
            VertexFieldKind::UnsignedShort2 => (GlTypeEnum::UnsignedShort, 2),
            VertexFieldKind::Short2 => (GlTypeEnum::Short, 2),
            VertexFieldKind::Float => (GlTypeEnum::Float, 1),
            VertexFieldKind::Float2 => (GlTypeEnum::Float, 2),
            VertexFieldKind::UnsignedInt => (GlTypeEnum::UnsignedInt, 1),
        };
        FieldType::new(normalized, gl_type, size)
    }
}

/// Each field kind reads its Rust component as the GL type of that component
/// and counts its components: `u8` kinds are `UnsignedByte`, `u16` ones
/// `UnsignedShort`, `i16` ones `Short`, `f32` ones `Float` and `u32` ones
/// `UnsignedInt`; one-component kinds have a count of 1, pairs 2, and the
/// three and four `u8` kinds 3 and 4. So a floating-point field is never
/// read as an integer, nor an integer field as a float.
pub proof fn lemma_field_kind_components(kind: VertexFieldKind)
    ensures
        (kind is UnsignedByte || kind is UnsignedByte3 || kind is UnsignedByte4) <==> kind.spec_component()
            == GlTypeEnum::UnsignedByte,
        kind is UnsignedShort2 <==> kind.spec_component() == GlTypeEnum::UnsignedShort,
        kind is Short2 <==> kind.spec_component() == GlTypeEnum::Short,
        (kind is Float || kind is Float2) <==> kind.spec_component() == GlTypeEnum::Float,
        kind is UnsignedInt <==> kind.spec_component() == GlTypeEnum::UnsignedInt,
        (kind is Float || kind is Float2) <==> !kind.spec_component().spec_is_integer(),
        (kind is UnsignedByte || kind is Float || kind is UnsignedInt) <==> kind.spec_count() == 1,
        (kind is UnsignedShort2 || kind is Short2 || kind is Float2) <==> kind.spec_count() == 2,
        kind is UnsignedByte3 <==> kind.spec_count() == 3,
        kind is UnsignedByte4 <==> kind.spec_count() == 4,
{
}

/// The attribute of a field covers exactly the bytes of the field's Rust
/// type: component size times component count is the type's size.
pub proof fn lemma_field_kind_bytes(kind: VertexFieldKind, normalized: bool)
    ensures
        (FieldType { normalized, gl_type: kind.spec_component(), size: kind.spec_count() }).byte_size()
            == kind.spec_rust_size(),
{
    match kind {
        VertexFieldKind::UnsignedByte => {},
        VertexFieldKind::UnsignedByte3 => {},
        VertexFieldKind::UnsignedByte4 => {},
        VertexFieldKind::UnsignedShort2 => {},
        VertexFieldKind::Short2 => {},
        VertexFieldKind::Float => {},
        VertexFieldKind::Float2 => {},
        VertexFieldKind::UnsignedInt => {},
    }
}

/// A vertex type whose attribute layout is known from the type alone.
pub trait StaticVertexLayout: Sized {
    fn get_fields() -> &'static [FieldType];
    /// Bytes between consecutive vertices; by default the size of the
    /// vertex type, as an `i32`.
    fn get_stride() -> (r: i32)
        default_ensures
            r == vstd::layout::size_of::<Self>() as i32,
    {
        core::mem::size_of::<Self>() as i32
    }
    fn get_divisor() -> u32;
}

/// Something whose contents a vertex array can read as vertices: its
/// attributes, the bytes between consecutive vertices, and how many
/// instances share one vertex (0: every vertex is read per vertex).
pub trait VertexLayout {
    fn get_fields(&self) -> &'static [FieldType];
    fn get_stride(&self) -> i32;
    /// Instances per vertex advance; by default 0, every vertex is read
    /// per vertex.
    fn get_divisor(&self) -> (r: u32)
        default_ensures
            r == 0,
    {
        0
    }
}

/// A GPU buffer of vertices.
pub trait GenericBuffer: VertexLayout {
    fn get_id(&self) -> u32;
}

/// The layout of one vertex buffer that a vertex array reads from.
#[derive(Debug, Clone)]
pub struct BufferLayout {
    pub buffer_id: u32,
    pub fields: Vec<FieldType>,
    pub stride: i32,
    pub divisor: u32,
}

/// A buffer attached to a binding point of a vertex array.
#[derive(Debug, Clone, Copy, PartialEq, Eq, Structural)]
pub struct BufferBinding {
    pub binding_index: u32,
    pub buffer_id: u32,
    pub stride: i32,
    pub divisor: u32,
}

/// The format of one enabled vertex attribute. `integer` selects the
/// integer form of the format call (values are not converted to floats).
#[derive(Debug, Clone, Copy, PartialEq, Eq, Structural)]
pub struct AttributeFormat {
    pub attribute_index: u32,
    pub binding_index: u32,
    pub size: i32,
    pub gl_type: u32,
    pub normalized: bool,
    pub relative_offset: u32,
    pub integer: bool,
}

/// What a vertex array needs to read a list of buffers: one binding per
/// buffer and one attribute per field, in order.
#[derive(Debug, Clone)]
pub struct VertexArrayPlan {
    pub bindings: Vec<BufferBinding>,
    pub attributes: Vec<AttributeFormat>,
}

/// Bytes taken by a sequence of fields laid out one after another.
pub open spec fn fields_bytes(fields: Seq<FieldType>) -> int
    decreases fields.len(),
{
    if fields.len() == 0 {
        0
    } else {
        fields_bytes(fields.drop_last()) + fields.last().byte_size()
    }
}

/// Number of fields of the buffers before buffer `b`.
pub open spec fn fields_before(buffers: Seq<BufferLayout>, b: int) -> int
    decreases b,
{
    if b <= 0 {
        0
    } else {
        fields_before(buffers, b - 1) + buffers[b - 1].fields@.len()
    }
}

/// The layouts can be planned without any counter overflowing: sizes are
/// not negative, every buffer's fields fit in `u32` bytes and the attribute
/// count fits in `u32`.
pub open spec fn layouts_fit(buffers: Seq<BufferLayout>) -> bool {
    &&& fields_before(buffers, buffers.len() as int) <= u32::MAX
    &&& forall|b: int, j: int|
        0 <= b < buffers.len() && 0 <= j < buffers[b].fields@.len() ==> 0 <= #[trigger] buffers[b].fields@[j].size
    &&& forall|b: int| 0 <= b < buffers.len() ==> fields_bytes(#[trigger] buffers[b].fields@) <= u32::MAX
}

/// The binding of buffer `b`.
pub open spec fn binding_for(buffers: Seq<BufferLayout>, b: int) -> BufferBinding {
    BufferBinding {
        binding_index: b as u32,
        buffer_id: buffers[b].buffer_id,
        stride: buffers[b].stride,
        divisor: buffers[b].divisor,
    }
}

/// The attribute of field `j` of buffer `b`: attributes are numbered across
/// all buffers, and a field starts where the fields before it in its buffer end.
pub open spec fn attribute_for(buffers: Seq<BufferLayout>, b: int, j: int) -> AttributeFormat {
    let f = buffers[b].fields@[j];
    AttributeFormat {
        attribute_index: (fields_before(buffers, b) + j) as u32,
        binding_index: b as u32,
        size: f.size,
        gl_type: f.gl_type.gl_value(),
        normalized: f.normalized,
        relative_offset: fields_bytes(buffers[b].fields@.take(j)) as u32,
        integer: f.gl_type is Int || f.gl_type is UnsignedInt,
    }
}

proof fn lemma_fields_bytes_prefix(fields: Seq<FieldType>, j: int)
    requires
        0 <= j <= fields.len(),
        forall|k: int| 0 <= k < fields.len() ==> 0 <= #[trigger] fields[k].size,
    ensures
        0 <= fields_bytes(fields.take(j)) <= fields_bytes(fields),
    decreases fields.len(),
{
    if fields.len() == 0 {
        assert(fields.take(j) =~= fields);
    } else if j == fields.len() {
        assert(fields.take(j) =~= fields);
        lemma_fields_bytes_prefix(fields.drop_last(), j - 1);
        assert(fields.drop_last().take(j - 1) =~= fields.drop_last());
        lemma_byte_size_nonneg(fields.last());
    } else {
        lemma_fields_bytes_prefix(fields.drop_last(), j);
        assert(fields.drop_last().take(j) =~= fields.take(j));
        lemma_byte_size_nonneg(fields.last());
    }
}

proof fn lemma_byte_size_nonneg(f: FieldType)
    requires
        0 <= f.size,
    ensures
        0 <= f.byte_size(),
{
    let s = f.gl_type.spec_size() as int;
    assert(0 <= s * f.size) by (nonlinear_arith)
        requires
            0 <= s,
            0 <= f.size,
    ;
}

proof fn lemma_fields_before_mono(buffers: Seq<BufferLayout>, a: int, b: int)
    requires
        0 <= a <= b <= buffers.len(),
    ensures
        0 <= fields_before(buffers, a) <= fields_before(buffers, b),
    decreases b,
{
    if a < b {
        lemma_fields_before_mono(buffers, a, b - 1);
    } else if a > 0 {
        lemma_fields_before_mono(buffers, a - 1, b - 1);
    }
}

/// The attributes of a buffer are laid out back to back: each one starts
/// where the previous one ends, numbered one after the other, all in the
/// buffer's binding.
pub proof fn lemma_attributes_back_to_back(buffers: Seq<BufferLayout>, b: int, j: int)
    requires
        layouts_fit(buffers),
        0 <= b < buffers.len(),
        0 <= j,
        j + 1 < buffers[b].fields@.len(),
    ensures
        attribute_for(buffers, b, j + 1).relative_offset == attribute_for(buffers, b, j).relative_offset
            + buffers[b].fields@[j].byte_size(),
        attribute_for(buffers, b, j + 1).attribute_index == attribute_for(buffers, b, j).attribute_index + 1,
        attribute_for(buffers, b, j + 1).binding_index == attribute_for(buffers, b, j).binding_index,
{
    let fields = buffers[b].fields@;
    assert forall|k: int| 0 <= k < fields.len() implies 0 <= #[trigger] fields[k].size by {
        assert(0 <= buffers[b].fields@[k].size);
    }
    assert(fields_bytes(buffers[b].fields@) <= u32::MAX);
    lemma_fields_bytes_prefix(fields, j);
    lemma_fields_bytes_prefix(fields, j + 1);
    assert(fields.take(j + 1).drop_last() =~= fields.take(j));
    lemma_fields_before_mono(buffers, b, b + 1);
    lemma_fields_before_mono(buffers, b + 1, buffers.len() as int);
}

/// Plans the bindings and attribute formats of a vertex array over `buffers`.
pub fn plan_vertex_attributes(buffers: &[BufferLayout]) -> (plan: VertexArrayPlan)
    requires
        layouts_fit(buffers@),
    ensures
        plan.bindings@.len() == buffers@.len(),
        forall|b: int| 0 <= b < buffers@.len() ==> #[trigger] plan.bindings@[b] == binding_for(buffers@, b),
        plan.attributes@.len() == fields_before(buffers@, buffers@.len() as int),
        forall|b: int, j: int|
            0 <= b < buffers@.len() && 0 <= j < buffers@[b].fields@.len()
                ==> plan.attributes@[fields_before(buffers@, b) + j] == #[trigger] attribute_for(buffers@, b, j),
{
    let mut bindings: Vec<BufferBinding> = Vec::new();
    let mut attributes: Vec<AttributeFormat> = Vec::new();
    let mut attribute_index: u32 = 0;
    let mut b: usize = 0;
    while b < buffers.len()
        invariant
            layouts_fit(buffers@),
            b <= buffers@.len(),
            bindings@.len() == b,
            forall|k: int| 0 <= k < b ==> #[trigger] bindings@[k] == binding_for(buffers@, k),
            attribute_index == fields_before(buffers@, b as int),
            attributes@.len() == fields_before(buffers@, b as int),
            forall|k: int, j: int|
                0 <= k < b && 0 <= j < buffers@[k].fields@.len()
                    ==> attributes@[fields_before(buffers@, k) + j] == #[trigger] attribute_for(buffers@, k, j),
        decreases buffers@.len() - b,
    {
        let buffer = &buffers[b];
        let binding_index = b as u32;
        bindings.push(BufferBinding {
            binding_index,
            buffer_id: buffer.buffer_id,
            stride: buffer.stride,
            divisor: buffer.divisor,
        });
        let ghost base = fields_before(buffers@, b as int);
        let ghost prev = attributes@;
        proof {
            lemma_fields_before_mono(buffers@, b as int + 1, buffers@.len() as int);
            lemma_fields_before_mono(buffers@, b as int, b as int + 1);
        }
        let fields = &buffer.fields;
        let mut relative_offset: u32 = 0;
        let mut j: usize = 0;
        while j < fields.len()
            invariant
                layouts_fit(buffers@),
                b < buffers@.len(),
                *fields == buffers@[b as int].fields,
                base == fields_before(buffers@, b as int),
                0 <= base,
                binding_index == b as u32,
                base + fields@.len() == fields_before(buffers@, b as int + 1),
                fields_before(buffers@, b as int + 1) <= u32::MAX,
                j <= fields@.len(),
                attribute_index == base + j,
                relative_offset == fields_bytes(fields@.take(j as int)),
                attributes@.len() == base + j,
                forall|i: int| 0 <= i < base ==> #[trigger] attributes@[i] == prev[i],
                forall|i: int| 0 <= i < j ==> attributes@[base + i] == #[trigger] attribute_for(buffers@, b as int, i),
            decreases fields@.len() - j,
        {
            let field = &fields[j];
            let ghost old_attrs = attributes@;
            proof {
                assert(0 <= buffers@[b as int].fields@[j as int].size);
                assert forall|k: int| 0 <= k < fields@.len() implies 0 <= #[trigger] fields@[k].size by {
                    assert(0 <= buffers@[b as int].fields@[k].size);
                }
                lemma_fields_bytes_prefix(fields@, j as int + 1);
                assert(fields@.take(j as int + 1).drop_last() =~= fields@.take(j as int));
                assert(fields_bytes(buffers@[b as int].fields@) <= u32::MAX);
                lemma_byte_size_nonneg(*field);
            }
            let size_bytes: u32 = field.gl_type.get_size() as u32;
            let count: u32 = field.size as u32;
            proof {
                assert(size_bytes * count == field.byte_size());
            }
            let bytes: u32 = size_bytes * count;
            let gl_type = field.gl_type.to_gl_enum();
            let integer = match field.gl_type {
                GlTypeEnum::Int | GlTypeEnum::UnsignedInt => true,
                _ => false,
            };
            attributes.push(AttributeFormat {
                attribute_index,
                binding_index,
                size: field.size,
                gl_type,
                normalized: field.normalized,
                relative_offset,
                integer,
            });
            proof {
                let f = buffers@[b as int].fields@[j as int];
                assert(f == *field);
                assert(attributes@[base + j] == attribute_for(buffers@, b as int, j as int));
                assert forall|i: int| 0 <= i < j + 1 implies attributes@[base + i] == #[trigger] attribute_for(buffers@, b as int, i) by {
                    if i < j {
                        assert(attributes@[base + i] == old_attrs[base + i]);
                    }
                }
            }
            relative_offset = relative_offset + bytes;
            attribute_index = attribute_index + 1;
            j = j + 1;
        }
        proof {
            assert forall|k: int, i: int|
                0 <= k < b + 1 && 0 <= i < buffers@[k].fields@.len()
                    implies attributes@[fields_before(buffers@, k) + i] == #[trigger] attribute_for(buffers@, k, i) by {
                if k < b {
                    lemma_fields_before_mono(buffers@, k + 1, b as int);
                    lemma_fields_before_mono(buffers@, k, k + 1);
                    assert(fields_before(buffers@, k + 1) == fields_before(buffers@, k) + buffers@[k].fields@.len());
                    assert(fields_before(buffers@, k) + i < base);
                    assert(prev[fields_before(buffers@, k) + i] == attribute_for(buffers@, k, i));
                    assert(attributes@[fields_before(buffers@, k) + i] == prev[fields_before(buffers@, k) + i]);
                }
            }
        }
        b = b + 1;
    }
    VertexArrayPlan { bindings, attributes }
}

} // verus!
