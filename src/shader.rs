use vstd::prelude::*;
use vulkanalia::bytecode::{Bytecode, BytecodeError};

verus! {

#[verifier::external_type_specification]
#[verifier::external_body]
pub struct ExBytecode(Bytecode);

/// Why SPIR-V bytecode could not be prepared for a shader module.
#[derive(Clone, Copy, Debug, PartialEq, Eq, Structural)]
pub enum ShaderCodeError {
    /// The buffer is empty or its length in bytes is not a multiple of four.
    Length(usize),
    /// No aligned buffer could be allocated for the copy.
    Alloc,
}

/// A byte length that SPIR-V accepts: a non-empty sequence of 32-bit words.
pub open spec fn valid_code_length(n: nat) -> bool {
    n > 0 && n % 4 == 0
}

/// Relies on vulkanalia's `Bytecode::new`: it refuses, with the length, a buffer
/// that is empty or whose length is not a multiple of four, and otherwise copies
/// it into a 4-byte aligned buffer, which fails only when allocation does.
#[verifier::external_body]
fn aligned_bytecode(bytes: &[u8]) -> (r: Result<Bytecode, ShaderCodeError>)
    ensures
        !valid_code_length(bytes@.len()) ==> r.is_err() && r->Err_0 == ShaderCodeError::Length(
            bytes@.len() as usize,
        ),
        valid_code_length(bytes@.len()) ==> r.is_ok() || r->Err_0 == ShaderCodeError::Alloc,
{
    match Bytecode::new(bytes) {
        Ok(code) => Ok(code),
        Err(BytecodeError::Length(n)) => Err(ShaderCodeError::Length(n)),
        Err(BytecodeError::Alloc) => Err(ShaderCodeError::Alloc),
    }
}

/// SPIR-V bytecode copied into an aligned buffer, with its size in bytes, ready
/// to be handed to the creation of a shader module.
pub struct ShaderCode {
    pub bytecode: Bytecode,
    pub code_size: usize,
}

/// Prepares the SPIR-V bytecode of one shader stage: checks its length and
/// copies it into a 4-byte aligned buffer whose size is the input's length.
pub fn shader_code(bytecode: &[u8]) -> (r: Result<ShaderCode, ShaderCodeError>)
    ensures
        !valid_code_length(bytecode@.len()) ==> r.is_err() && r->Err_0 == ShaderCodeError::Length(
            bytecode@.len() as usize,
        ),
        valid_code_length(bytecode@.len()) ==> r.is_ok() || r->Err_0 == ShaderCodeError::Alloc,
        r.is_ok() ==> r->Ok_0.code_size == bytecode@.len(),
{
    let n = bytecode.len();
    match aligned_bytecode(bytecode) {
        Ok(code) => Ok(ShaderCode { bytecode: code, code_size: n }),
        Err(e) => Err(e),
    }
}

} // verus!
