use vstd::prelude::*;

use crate::commands::ResultCode;

verus! {

/// The kind of a compiler-level failure.
#[derive(Clone, Copy, PartialEq, Eq, Structural, Debug)]
pub enum CompilerErrorCode {
    InternalError,
    ArgumentError,
    ConfigError,
    IoError,
}

/// The result code a compiler error maps to.
pub open spec fn spec_result_code(code: CompilerErrorCode) -> ResultCode {
    match code {
        CompilerErrorCode::InternalError => ResultCode::InternalError,
        CompilerErrorCode::ArgumentError => ResultCode::ArgumentError,
        CompilerErrorCode::ConfigError => ResultCode::ConfigError,
        CompilerErrorCode::IoError => ResultCode::IoError,
    }
}

impl CompilerErrorCode {
    pub fn get_result_code(&self) -> (r: ResultCode)
        ensures
            r == spec_result_code(*self),
    {
        match self {
            CompilerErrorCode::InternalError => ResultCode::InternalError,
            CompilerErrorCode::ArgumentError => ResultCode::ArgumentError,
            CompilerErrorCode::ConfigError => ResultCode::ConfigError,
            CompilerErrorCode::IoError => ResultCode::IoError,
        }
    }
}

/// A compiler-level failure: its kind and a human-readable description.
pub struct CompilerError {
    pub code: CompilerErrorCode,
    pub description: String,
}

/// The first compiler-error code in a causal chain, where each link carries
/// the code of the error behind it, if that error was a compiler error.
pub open spec fn spec_first_code(chain: Seq<Option<CompilerErrorCode>>) -> Option<
    CompilerErrorCode,
>
    decreases chain.len(),
{
    if chain.len() == 0 {
        None
    } else if chain[0] is Some {
        chain[0]
    } else {
        spec_first_code(chain.skip(1))
    }
}

impl CompilerError {
    pub fn new(code: CompilerErrorCode, description: String) -> (r: Self)
        ensures
            r.code == code,
            r.description == description,
    {
        Self { code, description }
    }

    /// Walk a causal chain of errors, outermost first, and return the code
    /// of the first link that is a compiler error; each element of `chain`
    /// is that link's code, if it has one.
    pub fn first_code_in_chain(chain: &Vec<Option<CompilerErrorCode>>) -> (r: Option<
        CompilerErrorCode,
    >)
        ensures
            r == spec_first_code(chain@),
    {
        let mut i: usize = 0;
        proof {
            assert(chain@.skip(0) =~= chain@);
        }
        while i < chain.len()
            invariant
                i <= chain@.len(),
                spec_first_code(chain@) == spec_first_code(chain@.skip(i as int)),
            decreases chain@.len() - i,
        {
            proof {
                assert(chain@.skip(i as int)[0] == chain@[i as int]);
            }
            match chain[i] {
                Some(code) => {
                    return Some(code);
                },
                None => {
                    proof {
                        assert(chain@.skip(i as int).skip(1) =~= chain@.skip(i + 1));
                    }
                    i = i + 1;
                },
            }
        }
        proof {
            assert(chain@.skip(i as int).len() == 0);
        }
        None
    }
}

} // verus!
