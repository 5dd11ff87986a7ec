//! Shader uniforms: their declarations and the values set for a draw.

use vstd::prelude::*;

use crate::render_helpers::colorimetry::Mat3;
use crate::utils::ratio::Ratio;

verus! {

/// The type of a shader uniform.
#[derive(Debug, Clone, Copy, PartialEq, Eq, Structural)]
pub enum UniformType {
    Float1,
    Float2,
    Float3,
    Float4,
    Int1,
    Int2,
    Int3,
    Int4,
    Uint1,
    Uint2,
    Uint3,
    Uint4,
    Matrix2x2,
    Matrix2x3,
    Matrix2x4,
    Matrix3x2,
    Matrix3x3,
    Matrix3x4,
    Matrix4x2,
    Matrix4x3,
    Matrix4x4,
}

/// The declaration of a uniform.
#[derive(Debug, Clone, Copy)]
pub struct UniformName {
    pub name: &'static str,
    pub type_: UniformType,
}

impl UniformName {
    pub fn new(name: &'static str, type_: UniformType) -> (declared: Self)
        ensures
            declared == (UniformName { name, type_ }),
    {
        UniformName { name, type_ }
    }
}

/// The value of a uniform.
#[derive(Debug, Clone, Copy, PartialEq, Eq, Structural)]
pub enum UniformValue {
    Float(Ratio),
    Float2(Ratio, Ratio),
    /// The matrix in column-major order: its first row holds the first column that the shader
    /// sees.
    Matrix3x3(Mat3),
}

/// A uniform set for a draw.
#[derive(Debug, Clone, Copy)]
pub struct Uniform {
    pub name: &'static str,
    pub value: UniformValue,
}

impl UniformValue {
    /// The declared type a value of this kind needs.
    pub open spec fn type_(self) -> UniformType {
        match self {
            UniformValue::Float(_) => UniformType::Float1,
            UniformValue::Float2(_, _) => UniformType::Float2,
            UniformValue::Matrix3x3(_) => UniformType::Matrix3x3,
        }
    }
}

impl Uniform {
    pub open spec fn float_spec(name: &'static str, value: Ratio) -> Uniform {
        Uniform { name, value: UniformValue::Float(value) }
    }

    pub open spec fn flag_spec(name: &'static str, on: bool) -> Uniform {
        Uniform::float_spec(name, if on { Ratio::one_spec() } else { Ratio::zero_spec() })
    }

    pub open spec fn matrix_spec(name: &'static str, column_major: Mat3) -> Uniform {
        Uniform { name, value: UniformValue::Matrix3x3(column_major) }
    }

    pub fn float(name: &'static str, value: Ratio) -> (uniform: Self)
        ensures
            uniform == Uniform::float_spec(name, value),
    {
        Uniform { name, value: UniformValue::Float(value) }
    }

    /// A float that is one or zero.
    pub fn flag(name: &'static str, on: bool) -> (uniform: Self)
        ensures
            uniform == Uniform::flag_spec(name, on),
    {
        Uniform {
            name,
            value: UniformValue::Float(if on { Ratio::one() } else { Ratio::zero() }),
        }
    }

    pub fn matrix(name: &'static str, column_major: Mat3) -> (uniform: Self)
        ensures
            uniform == Uniform::matrix_spec(name, column_major),
    {
        Uniform { name, value: UniformValue::Matrix3x3(column_major) }
    }

    /// Whether a program with these declarations accepts the uniform.
    pub open spec fn declared_in(self, declared: Seq<UniformName>) -> bool {
        exists|i: int| #![trigger declared[i]]
            0 <= i < declared.len() && declared[i].name@ == self.name@ && declared[i].type_
                == self.value.type_()
    }
}

} // verus!
