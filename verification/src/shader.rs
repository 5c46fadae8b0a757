//! Shader loading, as far as it is a decision: which failure is reported.

use vstd::prelude::*;

verus! {

/// Why a shader could not be loaded. Either failure keeps the renderer from
/// starting.
#[derive(Clone, Debug)]
pub enum ShaderLoadError {
    /// The shader file could not be read. Carries the path.
    FailedToFind(String),
    /// The compiler rejected the source. Carries its message.
    FailedToCompile(String),
}

/// The stage that a shader belongs to.
#[derive(Clone, Copy, Debug, PartialEq, Eq, Structural)]
pub enum ShaderType {
    Vertex,
    Fragment,
}

/// A compiled shader: its SPIR-V words and its entry point.
pub struct Shader {
    pub code: Vec<u32>,
    pub shader_type: ShaderType,
}

impl Shader {
    /// Decides what comes of loading the shader at `path`.
    ///
    /// `source` is what reading the file gave, `compile` turns source text
    /// into SPIR-V or a message. A file that could not be read is reported
    /// with its path and is not compiled. What the compiler rejects is
    /// reported with the message of the compiler.
    pub fn new<C: Fn(&String, ShaderType) -> Result<Vec<u32>, String>>(
        path: String,
        source: Option<String>,
        shader_type: ShaderType,
        compile: C,
    ) -> (res: Result<Shader, ShaderLoadError>)
        requires
            forall|text: String| call_requires(compile, (&text, shader_type)),
        ensures
            match source {
                None => res matches Err(ShaderLoadError::FailedToFind(p)) && p == path,
                Some(text) => match res {
                    Ok(shader) => {
                        &&& shader.shader_type == shader_type
                        &&& call_ensures(compile, (&text, shader_type), Ok::<Vec<u32>, String>(shader.code))
                    },
                    Err(ShaderLoadError::FailedToCompile(message)) => call_ensures(
                        compile,
                        (&text, shader_type),
                        Err::<Vec<u32>, String>(message),
                    ),
                    Err(ShaderLoadError::FailedToFind(_)) => false,
                },
            },
    {
        match source {
            None => Err(ShaderLoadError::FailedToFind(path)),
            Some(text) => match compile(&text, shader_type) {
                Ok(code) => Ok(Shader { code, shader_type }),
                Err(message) => Err(ShaderLoadError::FailedToCompile(message)),
            },
        }
    }
}

} // verus!
