//! The black-box compiler capability.
//!
//! The markup grammar is deliberately not implemented here: `mdxjs::compile`
//! turns document text into its module-dialect rendering, and this crate
//! only names that rendering and reasons about everything around it.

use vstd::prelude::*;

verus! {

/// Whether the bytes are valid UTF-8.
pub uninterp spec fn utf8_ok(bytes: Seq<u8>) -> bool;

/// What the compiler yields on a document: its module-dialect rendering, or
/// the grammar error message. A pure function of the document text alone.
pub uninterp spec fn mdx_compile(source: Seq<u8>) -> Result<Seq<u8>, Seq<u8>>;

/// Relies on std::str::from_utf8: it returns Ok exactly when the bytes are
/// valid UTF-8.
#[verifier::external_body]
pub(crate) fn check_utf8(bytes: &Vec<u8>) -> (r: bool)
    ensures
        r == utf8_ok(bytes@),
{
    std::str::from_utf8(bytes).is_ok()
}

/// Relies on mdxjs::compile with default options: a pure function of the
/// document text, returning the module-dialect rendering of the document or,
/// on any grammar violation, an error message.
#[verifier::external_body]
pub(crate) fn compile_mdx(source: &Vec<u8>) -> (r: Result<Vec<u8>, Vec<u8>>)
    requires
        utf8_ok(source@),
    ensures
        (r is Ok) == (mdx_compile(source@) is Ok),
        r matches Ok(code) ==> mdx_compile(source@) matches Ok(c) && code@ == c,
        r matches Err(msg) ==> mdx_compile(source@) matches Err(m) && msg@ == m,
{
    match std::str::from_utf8(source) {
        Ok(text) => match mdxjs::compile(text, &mdxjs::Options::default()) {
            Ok(code) => Ok(code.into_bytes()),
            Err(message) => Err(format!("{}", message).into_bytes()),
        },
        Err(_) => Err(Vec::new()),
    }
}

} // verus!
