//! Compilation options and back-end selection.

use vstd::prelude::*;

use crate::list::Lst;

verus! {

/// The available back ends.  Only the native just-in-time back end is fully
/// wired; the alternative textual back end and the third one are stubs.
#[derive(Clone, Copy, PartialEq, Eq, Structural, Debug)]
pub enum Backend {
    GccJIT,
    CPP,
    CraneLift,
}

/// Relies on `str`'s equality: true exactly when the two strings hold the
/// same characters.
#[verifier::external_body]
fn str_eq(a: &str, b: &str) -> (r: bool)
    ensures
        r == (a@ == b@),
{
    a == b
}

impl Backend {
    /// The canonical spelling of the native back end's name.
    pub fn gccjit() -> (r: &'static str)
        ensures
            r@ == "gccjit"@,
    {
        "gccjit"
    }

    /// The canonical spelling of the textual back end's name.
    pub fn cpp() -> (r: &'static str)
        ensures
            r@ == "cpp"@,
    {
        "cpp"
    }

    /// The canonical spelling of the third back end's name.
    pub fn cranelift() -> (r: &'static str)
        ensures
            r@ == "cranelift"@,
    {
        "cranelift"
    }

    /// Parse a lowercase back-end name.
    pub fn from_str(s: &str) -> (r: Result<Backend, &'static str>)
        ensures
            match r {
                Result::Ok(b) => (s@ == "gccjit"@ && b == Backend::GccJIT) || (s@ == "cranelift"@
                    && b == Backend::CraneLift) || ((s@ == "cpp"@ || s@ == "c++"@) && b
                    == Backend::CPP),
                Result::Err(_) => s@ != "gccjit"@ && s@ != "cranelift"@ && s@ != "cpp"@ && s@
                    != "c++"@,
            },
    {
        if str_eq(s, "gccjit") {
            Result::Ok(Backend::GccJIT)
        } else if str_eq(s, "cranelift") {
            Result::Ok(Backend::CraneLift)
        } else if str_eq(s, "cpp") || str_eq(s, "c++") {
            Result::Ok(Backend::CPP)
        } else {
            Result::Err("expected gccjit,cpp or cranelift backend")
        }
    }
}

/// Everything the command line decides: input and output paths, optimization
/// level, emission mode, linker libraries, extra back-end options, and the
/// evaluator switches.
#[derive(PartialEq, Eq, Debug)]
pub struct Options {
    pub file: String,
    pub opt_level: u8,
    pub jit: bool,
    pub emit_obj: bool,
    pub emit_asm: bool,
    pub output: Option<String>,
    pub shared: bool,
    pub emit_gimple: bool,
    pub backend: Backend,
    pub libraries_link: Lst<String>,
    pub gcc_opts: Lst<String>,
    pub const_eval: bool,
    pub print_ast: bool,
    pub aggressive_eval: bool,
}

} // verus!