use vstd::prelude::*;
use vstd::string::{StrSliceExecFns, StringExecFns};

verus! {

/// A shader stage or a program failed to build; the text is the driver's
/// diagnostic log, or a fixed message when the log is empty.
#[derive(Debug, PartialEq, Eq)]
pub enum ShaderError {
    Compile(String),
    Link(String),
}

/// GL's `TRUE`, as a compile or link status reports success.
pub const GL_STATUS_OK: i32 = 1;

/// Length of the text in a log buffer that the driver filled: the bytes
/// before the first NUL, or all of them.
pub fn log_text_len(buf: &Vec<u8>) -> (r: usize)
    ensures
        r <= buf@.len(),
        forall|i: int| 0 <= i < r ==> buf@[i] != 0,
        r < buf@.len() ==> buf@[r as int] == 0,
{
    let mut i: usize = 0;
    while i < buf.len()
        invariant
            i <= buf@.len(),
            forall|j: int| 0 <= j < i ==> buf@[j] != 0,
        decreases buf@.len() - i,
    {
        if buf[i] == 0 {
            return i;
        }
        i = i + 1;
    }
    i
}

/// The message a failure reports: the log, or `fallback` when the log is empty.
pub open spec fn diagnostic(log: Seq<char>, fallback: Seq<char>) -> Seq<char> {
    if log.len() > 0 {
        log
    } else {
        fallback
    }
}

fn diagnostic_text(log: String, fallback: &str) -> (r: String)
    ensures
        r@ == diagnostic(log@, fallback@),
{
    if log.as_str().unicode_len() > 0 {
        log
    } else {
        <String as StringExecFns>::from_str(fallback)
    }
}

/// Message for a failed compilation that left no log.
pub open spec fn compile_fallback() -> Seq<char> {
    "shader compilation failed without a diagnostic"@
}

/// Message for a failed link that left no log.
pub open spec fn link_fallback() -> Seq<char> {
    "program link failed without a diagnostic"@
}

/// The result of compiling shader object `shader`: the shader when the status
/// is `GL_STATUS_OK`, else a compile error that carries a non-empty message.
pub fn compile_outcome(shader: u32, status: i32, log: String) -> (r: Result<u32, ShaderError>)
    ensures
        (status == GL_STATUS_OK) <==> r is Ok,
        r is Ok ==> r == Ok::<u32, ShaderError>(shader),
        r matches Err(e) ==> e matches ShaderError::Compile(m) && m@ == diagnostic(log@, compile_fallback())
            && m@.len() > 0,
{
    if status == GL_STATUS_OK {
        Ok(shader)
    } else {
        let m = diagnostic_text(log, "shader compilation failed without a diagnostic");
        proof {
            reveal_strlit("shader compilation failed without a diagnostic");
        }
        Err(ShaderError::Compile(m))
    }
}

/// The result of linking program `program`: the program when the status is
/// `GL_STATUS_OK`, else a link error that carries a non-empty message.
pub fn link_outcome(program: u32, status: i32, log: String) -> (r: Result<u32, ShaderError>)
    ensures
        (status == GL_STATUS_OK) <==> r is Ok,
        r is Ok ==> r == Ok::<u32, ShaderError>(program),
        r matches Err(e) ==> e matches ShaderError::Link(m) && m@ == diagnostic(log@, link_fallback())
            && m@.len() > 0,
{
    if status == GL_STATUS_OK {
        Ok(program)
    } else {
        let m = diagnostic_text(log, "program link failed without a diagnostic");
        proof {
            reveal_strlit("program link failed without a diagnostic");
        }
        Err(ShaderError::Link(m))
    }
}

} // verus!
