//! Shader bookkeeping records of the rasterization path: plain handles
//! for a shader object, a factory collecting the shaders attached to one
//! program, and the linked program. Compiling, linking and releasing
//! happen on the GPU side, outside this crate; these records track the
//! identifiers involved.

use vstd::prelude::*;

verus! {

pub struct Shader {
    pub shader_id: u32,
    pub shader_type: u32,
    pub program_id: u32,
}

pub struct ShaderFactory {
    pub program_id: u32,
    pub shaders: Vec<Shader>,
}

impl ShaderFactory {
    /// A factory for the given program, holding no shaders yet.
    pub fn new(program_id: u32) -> (r: ShaderFactory)
        ensures
            r.program_id == program_id,
            r.shaders@.len() == 0,
    {
        ShaderFactory {
            program_id,
            shaders: Vec::new(),
        }
    }

    /// Fold one shader-compile outcome into the factory: a compiled
    /// shader id is recorded against the factory's program, a compile
    /// error leaves the factory unchanged and is handed back. The
    /// compiling itself (reading the source file, the GPU calls) is
    /// outside work whose result arrives here as a plain value.
    pub fn compile_shader(&mut self, shader_type: u32, compiled: Result<u32, String>)
        -> (r: Result<(), String>)
        ensures
            match compiled {
                Ok(shader_id) => {
                    &&& r is Ok
                    &&& final(self).program_id == old(self).program_id
                    &&& final(self).shaders@.len() == old(self).shaders@.len() + 1
                    &&& (forall|i: int| 0 <= i < old(self).shaders@.len()
                        ==> final(self).shaders@[i] == old(self).shaders@[i])
                    &&& final(self).shaders@.last().shader_id == shader_id
                    &&& final(self).shaders@.last().shader_type == shader_type
                    &&& final(self).shaders@.last().program_id == old(self).program_id
                },
                Err(message) => {
                    &&& *final(self) == *old(self)
                    &&& r == Err::<(), String>(message)
                },
            },
    {
        match compiled {
            Ok(shader_id) => {
                self.attach(shader_id, shader_type);
                Ok(())
            },
            Err(message) => Err(message),
        }
    }

    /// Record one compiled shader of the factory's program.
    pub fn attach(&mut self, shader_id: u32, shader_type: u32)
        ensures
            final(self).program_id == old(self).program_id,
            final(self).shaders@.len() == old(self).shaders@.len() + 1,
            forall|i: int| 0 <= i < old(self).shaders@.len()
                ==> final(self).shaders@[i] == old(self).shaders@[i],
            final(self).shaders@.last().shader_id == shader_id,
            final(self).shaders@.last().shader_type == shader_type,
            final(self).shaders@.last().program_id == old(self).program_id,
    {
        let program_id = self.program_id;
        self.shaders.push(Shader { shader_id, shader_type, program_id });
    }
}

pub struct ShaderProgram {
    pub program_id: u32,
}

} // verus!
