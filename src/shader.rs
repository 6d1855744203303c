use vstd::prelude::*;
use vstd::string::StringExecFns;
use crate::error::Error;

verus! {

/// The shader stage a source file is compiled for.
#[derive(Debug, Clone, Copy, PartialEq, Eq, Structural)]
pub enum ShaderStage {
    Vertex,
    Fragment,
    Compute,
}

/// The stage that a file extension names: `vert`, `frag` or `comp`.
pub open spec fn stage_for_extension(ext: Seq<char>) -> Option<ShaderStage> {
    if ext == "frag"@ {
        Some(ShaderStage::Fragment)
    } else if ext == "vert"@ {
        Some(ShaderStage::Vertex)
    } else if ext == "comp"@ {
        Some(ShaderStage::Compute)
    } else {
        None
    }
}

/// Reads the shader stage from a file extension; any other extension fails
/// with `UnknownShaderFileExtension`.
pub fn shader_stage(ext: &String) -> (r: Result<ShaderStage, Error>)
    ensures
        r == match stage_for_extension(ext@) {
            Some(s) => Ok::<ShaderStage, Error>(s),
            None => Err(Error::UnknownShaderFileExtension),
        },
{
    if *ext == String::from_str("frag") {
        Ok(ShaderStage::Fragment)
    } else if *ext == String::from_str("vert") {
        Ok(ShaderStage::Vertex)
    } else if *ext == String::from_str("comp") {
        Ok(ShaderStage::Compute)
    } else {
        Err(Error::UnknownShaderFileExtension)
    }
}

/// An extension of a file that other shaders include, compiled on its own
/// for no stage.
pub fn is_include_extension(ext: &String) -> (r: bool)
    ensures
        r == (ext@ == "glsl"@),
{
    *ext == String::from_str("glsl")
}

} // verus!
