use vstd::prelude::*;

verus! {

/// The shader dialects the UI renderer is built with.
#[derive(Clone, Copy, Debug, PartialEq, Eq, Structural)]
pub enum ShaderVersion {
    /// OpenGL 4.0 and later.
    GlSl400,
    /// OpenGL 3.0 and later.
    GlSl130,
    /// OpenGL 2.0 and later.
    GlSl110,
    /// OpenGL ES 3.0 and later.
    GlSlEs300,
    /// OpenGL ES 2.0 and later.
    GlSlEs100,
}

/// The dialect for a shading language of the given flavour and major version.
pub open spec fn shaders_for(is_embedded: bool, major: u32) -> ShaderVersion {
    if is_embedded {
        if major >= 3 {
            ShaderVersion::GlSlEs300
        } else {
            ShaderVersion::GlSlEs100
        }
    } else if major >= 4 {
        ShaderVersion::GlSl400
    } else if major >= 3 {
        ShaderVersion::GlSl130
    } else {
        ShaderVersion::GlSl110
    }
}

/// Picks the newest dialect that the device's shading language supports.
pub fn select_shaders(is_embedded: bool, major: u32) -> (r: ShaderVersion)
    ensures
        r == shaders_for(is_embedded, major),
        is_embedded <==> (r is GlSlEs300 || r is GlSlEs100),
{
    if is_embedded {
        if major >= 3 {
            ShaderVersion::GlSlEs300
        } else {
            ShaderVersion::GlSlEs100
        }
    } else if major >= 4 {
        ShaderVersion::GlSl400
    } else if major >= 3 {
        ShaderVersion::GlSl130
    } else {
        ShaderVersion::GlSl110
    }
}

} // verus!
