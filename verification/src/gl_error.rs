//! Translation of GPU error codes into symbolic categories, and the
//! pure half of the error-checked call wrapper.
//!
//! The driver keeps a queue of pending error flags that can only be
//! polled through the foreign API.  The host drains that queue after
//! each guarded call and hands the polled codes to [`gl_log_errors`],
//! which turns every code before the first "no error" into a
//! structured diagnostic entry and reports whether any error was
//! observed.  Diagnostics are data, not control flow: no error is ever
//! raised to the caller.

use vstd::prelude::*;

use crate::gl_constants::GL_INVALID_ENUM;
use crate::gl_constants::GL_INVALID_OPERATION;
use crate::gl_constants::GL_INVALID_VALUE;
use crate::gl_constants::GL_NO_ERROR;
use crate::gl_constants::GL_OUT_OF_MEMORY;
use crate::gl_constants::GL_STACK_OVERFLOW;
use crate::gl_constants::GL_STACK_UNDERFLOW;

verus! {

/// Symbolic category of a GPU error code.
#[derive(Clone, Copy, PartialEq, Eq, Structural, Debug)]
pub enum GLGenericError {
    NoError,
    InvalidEnum,
    InvalidValue,
    InvalidOperation,
    StackOverflow,
    StackUnderflow,
    OutOfMemory,
    UnknownError,
}

/// The category a numeric error code translates to; any code outside
/// the known set is `UnknownError`.
pub open spec fn spec_error_from_code(code: u32) -> GLGenericError {
    if code == GL_NO_ERROR {
        GLGenericError::NoError
    } else if code == GL_INVALID_ENUM {
        GLGenericError::InvalidEnum
    } else if code == GL_INVALID_VALUE {
        GLGenericError::InvalidValue
    } else if code == GL_INVALID_OPERATION {
        GLGenericError::InvalidOperation
    } else if code == GL_STACK_OVERFLOW {
        GLGenericError::StackOverflow
    } else if code == GL_STACK_UNDERFLOW {
        GLGenericError::StackUnderflow
    } else if code == GL_OUT_OF_MEMORY {
        GLGenericError::OutOfMemory
    } else {
        GLGenericError::UnknownError
    }
}

impl From<u32> for GLGenericError {
    /// Translate a numeric error code into its symbolic category.
    fn from(value: u32) -> (r: GLGenericError) {
        if value == GL_NO_ERROR {
            GLGenericError::NoError
        } else if value == GL_INVALID_ENUM {
            GLGenericError::InvalidEnum
        } else if value == GL_INVALID_VALUE {
            GLGenericError::InvalidValue
        } else if value == GL_INVALID_OPERATION {
            GLGenericError::InvalidOperation
        } else if value == GL_STACK_OVERFLOW {
            GLGenericError::StackOverflow
        } else if value == GL_STACK_UNDERFLOW {
            GLGenericError::StackUnderflow
        } else if value == GL_OUT_OF_MEMORY {
            GLGenericError::OutOfMemory
        } else {
            GLGenericError::UnknownError
        }
    }
}

impl vstd::std_specs::convert::FromSpecImpl<u32> for GLGenericError {
    open spec fn obeys_from_spec() -> bool {
        true
    }

    open spec fn from_spec(v: u32) -> GLGenericError {
        spec_error_from_code(v)
    }
}

impl GLGenericError {
    /// The human-readable name of this category.
    pub open spec fn spec_message(self) -> Seq<char> {
        match self {
            GLGenericError::NoError => "No Error"@,
            GLGenericError::InvalidEnum => "Invalid Enum"@,
            GLGenericError::InvalidValue => "Invalid Value"@,
            GLGenericError::InvalidOperation => "Invalid Operation"@,
            GLGenericError::StackOverflow => "Stack Overflow"@,
            GLGenericError::StackUnderflow => "Stack Underflow"@,
            GLGenericError::OutOfMemory => "Out of Memory"@,
            GLGenericError::UnknownError => "Unknown Error"@,
        }
    }

    /// The human-readable name of this category.
    pub fn message(&self) -> (r: &'static str)
        ensures
            r@ == self.spec_message(),
    {
        match self {
            GLGenericError::NoError => "No Error",
            GLGenericError::InvalidEnum => "Invalid Enum",
            GLGenericError::InvalidValue => "Invalid Value",
            GLGenericError::InvalidOperation => "Invalid Operation",
            GLGenericError::StackOverflow => "Stack Overflow",
            GLGenericError::StackUnderflow => "Stack Underflow",
            GLGenericError::OutOfMemory => "Out of Memory",
            GLGenericError::UnknownError => "Unknown Error",
        }
    }
}

/// One structured diagnostic: the numeric code, its symbolic category,
/// the source location of the guarded block, and the offending
/// statement's text with newlines removed.
pub struct GlErrorEntry {
    pub code: u32,
    pub error: GLGenericError,
    pub file: String,
    pub line: u64,
    pub statement: String,
}

/// The error codes a drain of the driver's queue reports: every code
/// before the first "no error", in polling order.
pub open spec fn drained_codes(codes: Seq<u32>) -> Seq<u32>
    decreases codes.len(),
{
    if codes.len() == 0 || codes[0] == GL_NO_ERROR {
        Seq::<u32>::empty()
    } else {
        seq![codes[0]] + drained_codes(codes.drop_first())
    }
}

/// The drained prefix is exactly the codes before the first zero.
proof fn lemma_drained_prefix(codes: Seq<u32>, i: int)
    requires
        0 <= i <= codes.len(),
        forall|j: int| 0 <= j < i ==> codes[j] != GL_NO_ERROR,
        i == codes.len() || codes[i] == GL_NO_ERROR,
    ensures
        drained_codes(codes) == codes.take(i),
    decreases codes.len(),
{
    if i == 0 {
        assert(codes.take(0) =~= Seq::<u32>::empty());
    } else {
        assert(codes[0] != GL_NO_ERROR);
        assert forall|j: int|
            0 <= j < i - 1 implies codes.drop_first()[j] != GL_NO_ERROR by {
            assert(codes[j + 1] != GL_NO_ERROR);
        }
        lemma_drained_prefix(codes.drop_first(), i - 1);
        assert(codes.take(i) =~= seq![codes[0]] + codes.drop_first().take(i - 1));
    }
}

/// The statement text with every line-feed character removed.
pub open spec fn spec_strip_newlines(s: Seq<char>) -> Seq<char>
    decreases s.len(),
{
    if s.len() == 0 {
        s
    } else {
        spec_strip_newlines(s.drop_last()) + if s.last() == '\n' {
            Seq::<char>::empty()
        } else {
            seq![s.last()]
        }
    }
}

/// Remove every line-feed character from `s`.
pub fn strip_newlines(s: &str) -> (r: String)
    ensures
        r@ == spec_strip_newlines(s@),
{
    let n = s.unicode_len();
    let mut out = String::new();
    let mut i: usize = 0;
    while i < n
        invariant
            n == s@.len(),
            0 <= i <= n,
            out@ == spec_strip_newlines(s@.take(i as int)),
        decreases n - i,
    {
        let c = s.get_char(i);
        if c != '\n' {
            let piece = s.substring_char(i, i + 1);
            proof {
                assert(piece@ =~= seq![s@[i as int]]);
            }
            out.append(piece);
        }
        proof {
            let pre = s@.take(i as int);
            let cur = s@.take(i + 1);
            assert(cur.drop_last() =~= pre);
            assert(cur.last() == s@[i as int]);
            if s@[i as int] == '\n' {
                assert(spec_strip_newlines(cur) =~= spec_strip_newlines(pre));
            }
        }
        i += 1;
    }
    proof {
        assert(s@.take(n as int) =~= s@);
    }
    out
}

/// Translate the codes drained after a guarded call into structured
/// diagnostics.
///
/// Mirroring the driver's queue discipline, codes are consumed in
/// order up to the first "no error"; each consumed code yields one
/// entry carrying the code, its category, the call site and the
/// cleaned statement text.  The second result reports whether any
/// error was observed.  No error is raised: the diagnostics are the
/// whole effect.
pub fn gl_log_errors(file: &str, line: u64, statement: &str, codes: &Vec<u32>) -> (r: (
    Vec<GlErrorEntry>,
    bool,
))
    ensures
        r.0@.len() == drained_codes(codes@).len(),
        forall|k: int|
            0 <= k < r.0@.len() ==> {
                &&& (#[trigger] r.0@[k]).code == drained_codes(codes@)[k]
                &&& r.0@[k].error == spec_error_from_code(drained_codes(codes@)[k])
                &&& r.0@[k].file@ == file@
                &&& r.0@[k].line == line
                &&& r.0@[k].statement@ == spec_strip_newlines(statement@)
            },
        r.1 == (drained_codes(codes@).len() > 0),
{
    let cleaned = strip_newlines(statement);
    let n = codes.len();
    let mut entries: Vec<GlErrorEntry> = Vec::new();
    let mut i: usize = 0;
    while i < n && codes[i] != GL_NO_ERROR
        invariant
            n == codes@.len(),
            0 <= i <= n,
            cleaned@ == spec_strip_newlines(statement@),
            forall|j: int| 0 <= j < i ==> codes@[j] != GL_NO_ERROR,
            entries@.len() == i,
            forall|k: int|
                0 <= k < i ==> {
                    &&& (#[trigger] entries@[k]).code == codes@[k]
                    &&& entries@[k].error == spec_error_from_code(codes@[k])
                    &&& entries@[k].file@ == file@
                    &&& entries@[k].line == line
                    &&& entries@[k].statement@ == spec_strip_newlines(statement@)
                },
        decreases n - i,
    {
        let code = codes[i];
        entries.push(
            GlErrorEntry {
                code,
                error: GLGenericError::from(code),
                file: file.to_owned(),
                line,
                statement: cleaned.clone(),
            },
        );
        i += 1;
    }
    proof {
        lemma_drained_prefix(codes@, i as int);
        assert(drained_codes(codes@) =~= codes@.take(i as int));
    }
    let errored = entries.len() > 0;
    (entries, errored)
}

} // verus!
