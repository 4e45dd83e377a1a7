use vstd::prelude::*;

verus! {

/// An enumeration that stands for a set of OpenGL `GLenum` codes.
///
/// Each variant has one code (`gl_value`), no two variants share a code,
/// and decoding a code gives back the variant that has it, if any.
pub trait GlEnum: Sized {
    /// The OpenGL code of a variant.
    spec fn gl_value(&self) -> u32;

    /// No two variants have the same code.
    proof fn lemma_gl_value_injective(a: Self, b: Self)
        ensures
            a.gl_value() == b.gl_value() ==> a == b,
    ;

    fn to_gl_enum(&self) -> (r: u32)
        ensures
            r == self.gl_value(),
    ;

    fn from_gl_enum(value: u32) -> (r: Option<Self>)
        ensures
            r matches Some(x) ==> x.gl_value() == value,
            r is None ==> forall|x: Self| #[trigger] x.gl_value() != value,
    ;
}

/// Decoding is the inverse of encoding: whatever `from_gl_enum` returns for
/// the code of a variant `x` (a result meeting its postcondition) is `Some(x)`.
pub proof fn lemma_round_trip<E: GlEnum>(x: E, r: Option<E>)
    requires
        r matches Some(y) ==> y.gl_value() == x.gl_value(),
        r is None ==> forall|y: E| #[trigger] y.gl_value() != x.gl_value(),
    ensures
        r == Some(x),
{
    match r {
        Some(y) => E::lemma_gl_value_injective(x, y),
        None => {
            let v = x.gl_value();
            assert(v == x.gl_value());
        },
    }
}

} // verus!
