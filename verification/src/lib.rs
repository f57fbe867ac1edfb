//! Compiles MDX documents (markup with embedded expressions) into a module
//! rendering usable by an ECMAScript-family toolchain, and packages the result
//! for a memoizing build system and a bundler's module/chunk abstractions.
//!
//! The markup grammar itself is a black-box capability (`mdxjs::compile`);
//! this crate owns and verifies the orchestration around it: content
//! dispatch, the tri-state cacheable result, hygiene-scope allocation, the
//! comment store, the transform chain, and the module bridge's failure
//! classification and degraded output.

use vstd::prelude::*;

pub mod compiler;
pub mod hygiene;
pub mod parse;
pub mod text;
pub mod transform;

use crate::compiler::{check_utf8, compile_mdx, mdx_compile, utf8_ok};
use crate::text::{clone_bytes, push_all};
use crate::transform::Transform;

verus! {

/// A logical document path paired with the state of its content, as the
/// external file abstraction reports it.
#[derive(Debug)]
pub struct DocumentSource {
    /// The stable logical path of the document.
    pub path: Vec<u8>,
    /// The raw content, a redirect, or absence.
    pub content: SourceContent,
}

/// What the document source capability hands back for a read:
/// raw bytes, a redirect, or nothing.
#[derive(Debug)]
pub enum SourceContent {
    Bytes(Vec<u8>),
    Redirect,
    NotFound,
}

/// The compiled rendering of a document wrapped as a virtual document that
/// keeps the original document's logical path, so that downstream tooling
/// attributes diagnostics to the original file and not a generated name.
#[derive(Debug)]
pub struct SyntheticSource {
    pub path: Vec<u8>,
    pub code: Vec<u8>,
}

/// How the module bridge fails. These are hard errors with a message, never
/// cached sentinels: they mark boundary conditions the bridge cannot
/// classify as benign.
#[derive(Debug)]
pub enum BridgeError {
    /// The source reported absent content: a content-read failure.
    ContentAbsent,
    /// The source reported a redirect where file content was expected.
    UnexpectedContent,
    /// The content is not decodable as text.
    Decode,
    /// The compiler invocation failed; carries the compiler's message.
    Compiler { message: Vec<u8> },
}

/// What compiling a document and wrapping it as a synthetic source yields:
/// the three failure cases of the bridge, or a synthetic source that carries
/// the compiled rendering under the original logical path.
pub open spec fn wraps_compilation(
    source: DocumentSource,
    r: Result<SyntheticSource, BridgeError>,
) -> bool {
    &&& (source.content is NotFound ==> r == Err::<SyntheticSource, BridgeError>(
        BridgeError::ContentAbsent,
    ))
    &&& (source.content is Redirect ==> r == Err::<SyntheticSource, BridgeError>(
        BridgeError::UnexpectedContent,
    ))
    &&& (source.content matches SourceContent::Bytes(b) ==> {
        let compiled = mdx_compile(b@);
        &&& (!utf8_ok(b@) ==> r == Err::<SyntheticSource, BridgeError>(BridgeError::Decode))
        &&& (utf8_ok(b@) ==> (compiled matches Ok(code) ==> (r matches Ok(s) && s.path@
            == source.path@ && s.code@ == code)))
        &&& (utf8_ok(b@) ==> (compiled matches Err(m) ==> (r matches Err(e)
            && e matches BridgeError::Compiler { message } && message@ == m)))
    })
}

/// Compiles the document and wraps the rendering as a synthetic source
/// tagged with the original path. Both bridge entry points call this one
/// function, so they classify failures identically.
pub fn compile_to_synthetic(source: &DocumentSource) -> (r: Result<SyntheticSource, BridgeError>)
    ensures
        wraps_compilation(*source, r),
{
    match &source.content {
        SourceContent::NotFound => Err(BridgeError::ContentAbsent),
        SourceContent::Redirect => Err(BridgeError::UnexpectedContent),
        SourceContent::Bytes(bytes) => {
            if !check_utf8(bytes) {
                Err(BridgeError::Decode)
            } else {
                match compile_mdx(bytes) {
                    Ok(code) => Ok(SyntheticSource { path: clone_bytes(&source.path), code }),
                    Err(message) => Err(BridgeError::Compiler { message }),
                }
            }
        },
    }
}

/// An MDX document presented to the bundler as a module: the document
/// source, the identity of the external asset context it resolves under,
/// and the transform chain to run over compiled output.
#[derive(Debug)]
pub struct MdxModuleAsset {
    pub source: DocumentSource,
    pub context: u64,
    pub transforms: Vec<Transform>,
}

impl MdxModuleAsset {
    pub fn new(source: DocumentSource, context: u64, transforms: Vec<Transform>) -> (r: Self)
        ensures
            r.source == source,
            r.context == context,
            r.transforms == transforms,
    {
        MdxModuleAsset { source, context, transforms }
    }

    /// The document's logical path.
    pub fn path(&self) -> (r: &Vec<u8>)
        ensures
            r@ == self.source.path@,
    {
        &self.source.path
    }

    /// The document's content as the source capability reports it.
    pub fn content(&self) -> (r: &SourceContent)
        ensures
            *r == self.source.content,
    {
        &self.source.content
    }

    /// The path imports are resolved against: the original document's.
    pub fn origin_path(&self) -> (r: &Vec<u8>)
        ensures
            r@ == self.source.path@,
    {
        &self.source.path
    }

    /// The identity of the asset context this module resolves under.
    pub fn context(&self) -> (r: u64)
        ensures
            r == self.context,
    {
        self.context
    }

    /// Reference discovery: compiles the document and wraps it as a
    /// synthetic source for the external module-analysis capability, which
    /// discovers the imports and exports of the rendering. Absent content,
    /// undecodable content, and compiler failures surface as the bridge's
    /// three hard errors, never as a crash.
    pub fn analyze(&self) -> (r: Result<SyntheticSource, BridgeError>)
        ensures
            wraps_compilation(self.source, r),
    {
        compile_to_synthetic(&self.source)
    }

    /// Packages this module for one chunk of the bundle.
    pub fn as_chunk_item(self, chunking_context: u64) -> (r: MdxChunkItem)
        ensures
            r.module == self,
            r.context == chunking_context,
    {
        MdxChunkItem { module: self, context: chunking_context }
    }
}

/// One emittable unit of the bundle: the module together with the identity
/// of the chunking context that asked for it.
#[derive(Debug)]
pub struct MdxChunkItem {
    pub module: MdxModuleAsset,
    pub context: u64,
}

/// The label appended to a chunk item's description; rendered, it reads
/// ` (mdx)`.
pub open spec fn mdx_label_spec() -> Seq<u8> {
    seq![
        32u8, 40u8, 109u8, 100u8, 120u8, 41u8,
    ]
}

/// The opening of the runtime-throwing stub, up to the offending path;
/// rendered, it reads `const e = new Error("Could not parse module '`.
pub open spec fn stub_prefix_spec() -> Seq<u8> {
    seq![
        99u8, 111u8, 110u8, 115u8, 116u8, 32u8, 101u8, 32u8, 61u8, 32u8, 110u8, 101u8,
        119u8, 32u8, 69u8, 114u8, 114u8, 111u8, 114u8, 40u8, 34u8, 67u8, 111u8, 117u8,
        108u8, 100u8, 32u8, 110u8, 111u8, 116u8, 32u8, 112u8, 97u8, 114u8, 115u8, 101u8,
        32u8, 109u8, 111u8, 100u8, 117u8, 108u8, 101u8, 32u8, 39u8,
    ]
}

/// The close of the runtime-throwing stub after the offending path;
/// rendered, it reads `'");` then `e.code = 'MODULE_UNPARSEABLE';` and
/// `throw e;` on their own lines.
pub open spec fn stub_suffix_spec() -> Seq<u8> {
    seq![
        39u8, 34u8, 41u8, 59u8, 10u8, 101u8, 46u8, 99u8, 111u8, 100u8, 101u8, 32u8,
        61u8, 32u8, 39u8, 77u8, 79u8, 68u8, 85u8, 76u8, 69u8, 95u8, 85u8, 78u8,
        80u8, 65u8, 82u8, 83u8, 69u8, 65u8, 66u8, 76u8, 69u8, 39u8, 59u8, 10u8,
        116u8, 104u8, 114u8, 111u8, 119u8, 32u8, 101u8, 59u8,
    ]
}

/// The degraded output for a document that failed to compile: a
/// deterministic script that throws at load time, naming the offending path
/// and carrying the fixed failure code, so the surrounding bundle stays
/// structurally loadable.
pub open spec fn unparseable_stub_spec(path: Seq<u8>) -> Seq<u8> {
    stub_prefix_spec() + path + stub_suffix_spec()
}

/// Builds the opening of the runtime-throwing stub.
#[verifier::rlimit(50)]
fn stub_prefix() -> (r: Vec<u8>)
    ensures
        r@ == stub_prefix_spec(),
{
    let mut v: Vec<u8> = Vec::new();
    v.push(99u8);
    v.push(111u8);
    v.push(110u8);
    v.push(115u8);
    v.push(116u8);
    v.push(32u8);
    v.push(101u8);
    v.push(32u8);
    v.push(61u8);
    v.push(32u8);
    v.push(110u8);
    v.push(101u8);
    v.push(119u8);
    v.push(32u8);
    v.push(69u8);
    v.push(114u8);
    v.push(114u8);
    v.push(111u8);
    v.push(114u8);
    v.push(40u8);
    v.push(34u8);
    v.push(67u8);
    v.push(111u8);
    v.push(117u8);
    v.push(108u8);
    v.push(100u8);
    v.push(32u8);
    v.push(110u8);
    v.push(111u8);
    v.push(116u8);
    v.push(32u8);
    v.push(112u8);
    v.push(97u8);
    v.push(114u8);
    v.push(115u8);
    v.push(101u8);
    v.push(32u8);
    v.push(109u8);
    v.push(111u8);
    v.push(100u8);
    v.push(117u8);
    v.push(108u8);
    v.push(101u8);
    v.push(32u8);
    v.push(39u8);
    assert(v@ =~= stub_prefix_spec());
    v
}

/// Builds the close of the runtime-throwing stub.
#[verifier::rlimit(50)]
fn stub_suffix() -> (r: Vec<u8>)
    ensures
        r@ == stub_suffix_spec(),
{
    let mut v: Vec<u8> = Vec::new();
    v.push(39u8);
    v.push(34u8);
    v.push(41u8);
    v.push(59u8);
    v.push(10u8);
    v.push(101u8);
    v.push(46u8);
    v.push(99u8);
    v.push(111u8);
    v.push(100u8);
    v.push(101u8);
    v.push(32u8);
    v.push(61u8);
    v.push(32u8);
    v.push(39u8);
    v.push(77u8);
    v.push(79u8);
    v.push(68u8);
    v.push(85u8);
    v.push(76u8);
    v.push(69u8);
    v.push(95u8);
    v.push(85u8);
    v.push(78u8);
    v.push(80u8);
    v.push(65u8);
    v.push(82u8);
    v.push(83u8);
    v.push(69u8);
    v.push(65u8);
    v.push(66u8);
    v.push(76u8);
    v.push(69u8);
    v.push(39u8);
    v.push(59u8);
    v.push(10u8);
    v.push(116u8);
    v.push(104u8);
    v.push(114u8);
    v.push(111u8);
    v.push(119u8);
    v.push(32u8);
    v.push(101u8);
    v.push(59u8);
    assert(v@ =~= stub_suffix_spec());
    v
}

/// Builds the runtime-throwing stub for the given logical path.
pub fn unparseable_stub(path: &Vec<u8>) -> (r: Vec<u8>)
    ensures
        r@ == unparseable_stub_spec(path@),
{
    let mut r = stub_prefix();
    let tail = stub_suffix();
    push_all(&mut r, path);
    push_all(&mut r, &tail);
    r
}

impl MdxChunkItem {
    /// A readable description of this chunk item: the document's logical
    /// path followed by ` (mdx)`.
    pub fn description(&self) -> (r: Vec<u8>)
        ensures
            r@ == self.module.source.path@ + mdx_label_spec(),
    {
        let mut r = clone_bytes(&self.module.source.path);
        let mut label: Vec<u8> = Vec::new();
    label.push(32u8);
    label.push(40u8);
    label.push(109u8);
    label.push(100u8);
    label.push(120u8);
    label.push(41u8);
        assert(label@ =~= mdx_label_spec());
        push_all(&mut r, &label);
        r
    }

    /// The identity of the chunking context this item belongs to.
    pub fn chunking_context(&self) -> (r: u64)
        ensures
            r == self.context,
    {
        self.context
    }

    /// Content emission: compiles the document and returns the emittable
    /// rendering. A document whose content is absent, a redirect, or not
    /// decodable is a hard error; one that fails to compile still emits —
    /// the runtime-throwing stub — so the bundle stays loadable.
    pub fn content(&self) -> (r: Result<Vec<u8>, BridgeError>)
        ensures
            self.module.source.content is NotFound ==> r == Err::<Vec<u8>, BridgeError>(
                BridgeError::ContentAbsent,
            ),
            self.module.source.content is Redirect ==> r == Err::<Vec<u8>, BridgeError>(
                BridgeError::UnexpectedContent,
            ),
            self.module.source.content matches SourceContent::Bytes(b) ==> {
                let compiled = mdx_compile(b@);
                &&& (!utf8_ok(b@) ==> r == Err::<Vec<u8>, BridgeError>(BridgeError::Decode))
                &&& (utf8_ok(b@) ==> (compiled matches Ok(code) ==> (r matches Ok(c) && c@
                    == code)))
                &&& (utf8_ok(b@) ==> (compiled is Err ==> (r matches Ok(c) && c@
                    == unparseable_stub_spec(self.module.source.path@))))
            },
    {
        match compile_to_synthetic(&self.module.source) {
            Ok(synthetic) => Ok(synthetic.code),
            Err(BridgeError::Compiler { .. }) => Ok(unparseable_stub(&self.module.source.path)),
            Err(failure) => Err(failure),
        }
    }
}

} // verus!
