use vstd::prelude::*;
use crate::graphics::renderer::codes;
use crate::graphics::renderer::gl_enum::GlEnum;

verus! {

/// The component types that a vertex attribute can have.
#[derive(Debug, Clone, Copy, PartialEq, Eq, Structural)]
pub enum GlTypeEnum {
    Byte,
    UnsignedByte,
    Short,
    UnsignedShort,
    Int,
    UnsignedInt,
    Float,
    Double,
}

impl GlTypeEnum {
    /// Size in bytes of one component.
    pub open spec fn spec_size(self) -> usize {
        match self {
            GlTypeEnum::Byte | GlTypeEnum::UnsignedByte => 1,
            GlTypeEnum::Short | GlTypeEnum::UnsignedShort => 2,
            GlTypeEnum::Int | GlTypeEnum::UnsignedInt | GlTypeEnum::Float => 4,
            GlTypeEnum::Double => 8,
        }
    }

    /// Whether the component type is an integer type.
    pub open spec fn spec_is_integer(self) -> bool {
        !(self is Float || self is Double)
    }

    pub fn get_size(&self) -> (r: usize)
        ensures
            r == self.spec_size(),
    {
        match self {
            GlTypeEnum::Byte | GlTypeEnum::UnsignedByte => 1,
            GlTypeEnum::Short | GlTypeEnum::UnsignedShort => 2,
            GlTypeEnum::Int | GlTypeEnum::UnsignedInt | GlTypeEnum::Float => 4,
            GlTypeEnum::Double => 8,
        }
    }

    pub fn is_integer(&self) -> (r: bool)
        ensures
            r == self.spec_is_integer(),
    {
        match self {
            GlTypeEnum::Byte | GlTypeEnum::UnsignedByte | GlTypeEnum::Short
            | GlTypeEnum::UnsignedShort | GlTypeEnum::Int | GlTypeEnum::UnsignedInt => true,
            _ => false,
        }
    }
}

impl GlEnum for GlTypeEnum {
    open spec fn gl_value(&self) -> u32 {
        match *self {
            GlTypeEnum::Byte => codes::GL_BYTE,
            GlTypeEnum::UnsignedByte => codes::GL_UNSIGNED_BYTE,
            GlTypeEnum::Short => codes::GL_SHORT,
            GlTypeEnum::UnsignedShort => codes::GL_UNSIGNED_SHORT,
            GlTypeEnum::Int => codes::GL_INT,
            GlTypeEnum::UnsignedInt => codes::GL_UNSIGNED_INT,
            GlTypeEnum::Float => codes::GL_FLOAT,
            GlTypeEnum::Double => codes::GL_DOUBLE,
        }
    }

    proof fn lemma_gl_value_injective(a: Self, b: Self) {
    }

    fn to_gl_enum(&self) -> (r: u32) {
        match self {
            GlTypeEnum::Byte => codes::GL_BYTE,
            GlTypeEnum::UnsignedByte => codes::GL_UNSIGNED_BYTE,
            GlTypeEnum::Short => codes::GL_SHORT,
            GlTypeEnum::UnsignedShort => codes::GL_UNSIGNED_SHORT,
            GlTypeEnum::Int => codes::GL_INT,
            GlTypeEnum::UnsignedInt => codes::GL_UNSIGNED_INT,
            GlTypeEnum::Float => codes::GL_FLOAT,
            GlTypeEnum::Double => codes::GL_DOUBLE,
        }
    }

    fn from_gl_enum(value: u32) -> (r: Option<Self>) {
        let r = if value == codes::GL_BYTE {
            Some(GlTypeEnum::Byte)
        } else if value == codes::GL_UNSIGNED_BYTE {
            Some(GlTypeEnum::UnsignedByte)
        } else if value == codes::GL_SHORT {
            Some(GlTypeEnum::Short)
        } else if value == codes::GL_UNSIGNED_SHORT {
            Some(GlTypeEnum::UnsignedShort)
        } else if value == codes::GL_INT {
            Some(GlTypeEnum::Int)
        } else if value == codes::GL_UNSIGNED_INT {
            Some(GlTypeEnum::UnsignedInt)
        } else if value == codes::GL_FLOAT {
            Some(GlTypeEnum::Float)
        } else if value == codes::GL_DOUBLE {
            Some(GlTypeEnum::Double)
        } else {
            None
        };
        r
    }
}

/// Each variant of `GlTypeEnum` has the OpenGL code of the same name, as the
/// Khronos registry numbers it (`GlTypeEnum::Byte` is `GL_BYTE`, 0x1400).
pub proof fn lemma_gl_type_enum_codes()
    ensures
        GlTypeEnum::Byte.gl_value() == 0x1400u32,
        GlTypeEnum::UnsignedByte.gl_value() == 0x1401u32,
        GlTypeEnum::Short.gl_value() == 0x1402u32,
        GlTypeEnum::UnsignedShort.gl_value() == 0x1403u32,
        GlTypeEnum::Int.gl_value() == 0x1404u32,
        GlTypeEnum::UnsignedInt.gl_value() == 0x1405u32,
        GlTypeEnum::Float.gl_value() == 0x1406u32,
        GlTypeEnum::Double.gl_value() == 0x140Au32,
{
}

/// Component sizes are those of the GL types: bytes take 1 byte, shorts 2,
/// ints and floats 4, doubles 8; and every type but `Float` and `Double` is
/// an integer type.
pub proof fn lemma_gl_type_sizes(t: GlTypeEnum)
    ensures
        (t is Byte || t is UnsignedByte) <==> t.spec_size() == 1,
        (t is Short || t is UnsignedShort) <==> t.spec_size() == 2,
        (t is Int || t is UnsignedInt || t is Float) <==> t.spec_size() == 4,
        t is Double <==> t.spec_size() == 8,
        t.spec_is_integer() <==> (t is Byte || t is UnsignedByte || t is Short || t is UnsignedShort || t is Int
            || t is UnsignedInt),
{
}

} // verus!
