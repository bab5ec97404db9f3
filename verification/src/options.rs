//! Command-line options of the viewer, and the decisions taken from them.

use vstd::prelude::*;

verus! {

/// The shader crates the viewer knows.
#[derive(Clone, Copy, PartialEq, Eq, Structural, Debug)]
pub enum RustGPUShader {
    Simplest,
    Sky,
    Compute,
    Mouse,
}

/// The viewer's command-line options.
#[derive(Clone, Copy, PartialEq, Eq, Structural, Debug)]
pub struct Options {
    /// Which shader to run.
    pub shader: RustGPUShader,
    /// Hand SPIR-V to the driver unchanged even where that is not detected.
    pub force_spirv_passthru: bool,
    /// Pass the shader parameters in a storage buffer instead of push constants.
    pub emulate_push_constants_with_storage_buffer: bool,
}

impl Options {
    /// The options as they apply on this platform: on the web, push constants
    /// are not available, so they are always emulated with a storage buffer.
    pub fn for_platform(self, on_web: bool) -> (o: Options)
        ensures
            o == (Options {
                emulate_push_constants_with_storage_buffer: self.emulate_push_constants_with_storage_buffer || on_web,
                ..self
            }),
    {
        let mut options = self;
        if on_web {
            options.emulate_push_constants_with_storage_buffer = true;
        }
        options
    }
}

/// How a compiled shader reacts to a panic.
#[derive(Clone, Copy, PartialEq, Eq, Structural, Debug)]
pub enum ShaderPanicStrategy {
    /// Print a message with `debugPrintf`, then leave the invocation.
    DebugPrintfThenExit { print_inputs: bool, print_backtrace: bool },
    /// Leave the invocation without a word.
    SilentExit,
}

/// The panic strategy shaders are compiled with: `debugPrintf` needs SPIR-V
/// passthrough, so with passthrough a panic prints its inputs and backtrace,
/// and without it the invocation exits silently.
pub fn shader_panic_strategy(spirv_passthrough: bool) -> (s: ShaderPanicStrategy)
    ensures
        s == (if spirv_passthrough {
            ShaderPanicStrategy::DebugPrintfThenExit { print_inputs: true, print_backtrace: true }
        } else {
            ShaderPanicStrategy::SilentExit
        }),
{
    let has_debug_printf = spirv_passthrough;
    if has_debug_printf {
        ShaderPanicStrategy::DebugPrintfThenExit { print_inputs: true, print_backtrace: true }
    } else {
        ShaderPanicStrategy::SilentExit
    }
}

} // verus!
