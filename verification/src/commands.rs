use vstd::prelude::*;

verus! {

/// Result of one operation run through the library's command interface,
/// mapped one-to-one onto process exit codes.
#[derive(Clone, Copy, PartialEq, Eq, Structural, Debug)]
pub enum ResultCode {
    /// Execution completed successfully.
    Success,
    /// Some unexpected error occurred during execution.
    InternalError,
    /// The arguments provided when invoking the operation were not valid.
    ArgumentError,
    /// There was an error configuring the compiler.
    ConfigError,
    /// There was an error reading from or writing to disk.
    IoError,
}

/// The process exit code of a result code: 0 for success, then the error
/// codes in order.
pub open spec fn spec_result_exit_code(code: ResultCode) -> int {
    match code {
        ResultCode::Success => 0,
        ResultCode::InternalError => 1,
        ResultCode::ArgumentError => 2,
        ResultCode::ConfigError => 3,
        ResultCode::IoError => 4,
    }
}

impl ResultCode {
    pub fn exit_code(&self) -> (r: i32)
        ensures
            r == spec_result_exit_code(*self),
    {
        match self {
            ResultCode::Success => 0,
            ResultCode::InternalError => 1,
            ResultCode::ArgumentError => 2,
            ResultCode::ConfigError => 3,
            ResultCode::IoError => 4,
        }
    }
}

/// Arguments common to every operation.
pub struct BaseArgs {
    /// Directory under which the games and extensions folders may be found.
    /// When absent, the directory of the current executable is used; an
    /// application embedding the library may supply its own path here.
    pub toolchain_root: Option<String>,
}

impl Default for BaseArgs {
    fn default() -> (r: Self)
        ensures
            r.toolchain_root is None,
    {
        Self { toolchain_root: None }
    }
}

/// Arguments of the compile operation.
pub struct CompileArgs {
    pub base: BaseArgs,
    pub input_file: String,
}

} // verus!
