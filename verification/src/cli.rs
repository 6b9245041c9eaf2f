use vstd::prelude::*;

verus! {

/// Numeric error code the compiler executable may exit with; exit code 0
/// (success) is not an error and has no variant here.
#[derive(Clone, Copy, PartialEq, Eq, Structural, Debug)]
pub enum ErrorCode {
    /// Some unexpected error occurred during execution.
    InternalError,
    /// The provided command line options were not valid.
    CommandLineError,
    /// There was an error configuring the compiler.
    ConfigError,
    /// There was an error reading from or writing to disk.
    IoError,
}

/// The process exit code of an error code.
pub open spec fn spec_exit_code(code: ErrorCode) -> int {
    match code {
        ErrorCode::InternalError => 1,
        ErrorCode::CommandLineError => 2,
        ErrorCode::ConfigError => 3,
        ErrorCode::IoError => 4,
    }
}

impl ErrorCode {
    pub fn exit_code(&self) -> (r: i32)
        ensures
            r == spec_exit_code(*self),
    {
        match self {
            ErrorCode::InternalError => 1,
            ErrorCode::CommandLineError => 2,
            ErrorCode::ConfigError => 3,
            ErrorCode::IoError => 4,
        }
    }
}

/// Debug-verbosity setting of the command line.
#[derive(Clone, Copy, PartialEq, Eq, Structural, Debug)]
pub enum DebugLevel {
    /// No debug logging will occur.
    Off,
    /// Normal debug logs will be printed.
    On,
    /// Debug and trace logs will be printed.
    Trace,
}

/// The parsed command line of the compiler executable.
pub struct Cli {
    pub command: Subcommand,
}

/// Commands that may be executed on the compiler executable.
pub enum Subcommand {
    /// Compile a map from a source file.
    Compile(CompileCommandArgs),
}

/// Arguments of the compile subcommand.
pub struct CompileCommandArgs {
    /// Path to the output file; an existing file is overwritten.
    pub output_file: String,
}

/// A failed command: its error code and a human-readable description.
pub struct CommandError {
    pub code: ErrorCode,
    pub description: String,
}

impl CommandError {
    pub fn new(code: ErrorCode, description: &str) -> (r: Self)
        ensures
            r.code == code,
            r.description@ == description@,
    {
        Self { code, description: description.to_owned() }
    }

    pub fn exit_code(&self) -> (r: i32)
        ensures
            r == spec_exit_code(self.code),
    {
        self.code.exit_code()
    }
}

} // verus!
