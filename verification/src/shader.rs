//! Shader stage types: each names the GLSL source file that implements it.
//!
//! The draw path keeps one cache of loaded shader sources per stage, keyed by
//! these types, and resolves a type to its file through [`ShaderType`].

use vstd::prelude::*;

verus! {

/// A shader stage that knows the path of its GLSL source, relative to the
/// shader directory.
pub trait ShaderType: Copy + Clone + core::fmt::Debug + Eq + core::hash::Hash + PartialEq {
    /// The path of the shader source file.
    spec fn spec_filename(&self) -> Seq<char>;

    /// The path of the shader source file.
    fn to_filename(&self) -> (r: &'static str)
        ensures
            r@ == self.spec_filename(),
    ;
}

/// The fragment shader stages the renderer ships.
#[derive(Copy, Clone, Debug, Eq, Hash, PartialEq)]
pub enum FragmentShaderType {
    Unlit,
}

/// The vertex shader stages the renderer ships.
#[derive(Copy, Clone, Debug, Eq, Hash, PartialEq)]
pub enum VertexShaderType {
    Perspective,
    Gui,
}

impl ShaderType for FragmentShaderType {
    open spec fn spec_filename(&self) -> Seq<char> {
        "shaders/unlit.fragment.glsl"@
    }

    fn to_filename(&self) -> (r: &'static str) {
        match *self {
            FragmentShaderType::Unlit => "shaders/unlit.fragment.glsl",
        }
    }
}

impl ShaderType for VertexShaderType {
    open spec fn spec_filename(&self) -> Seq<char> {
        match *self {
            VertexShaderType::Perspective => "shaders/perspective.vertex.glsl"@,
            VertexShaderType::Gui => "shaders/gui.vertex.glsl"@,
        }
    }

    fn to_filename(&self) -> (r: &'static str) {
        match *self {
            VertexShaderType::Perspective => "shaders/perspective.vertex.glsl",
            VertexShaderType::Gui => "shaders/gui.vertex.glsl",
        }
    }
}

} // verus!
