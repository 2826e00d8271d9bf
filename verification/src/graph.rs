//! The dependency graph that a bundle run consumes: what a built graph
//! holds under an identity, and where its imports lead.

use crate::text::optional_text;
use vstd::prelude::*;

verus! {

/// What kind of source a module holds.
#[derive(Debug, Clone, Copy, PartialEq, Eq, Hash, Structural)]
pub enum MediaKind {
    JavaScript,
    Jsx,
    Mjs,
    Cjs,
    TypeScript,
    Mts,
    Cts,
    Dts,
    Dmts,
    Dcts,
    Tsx,
    Json,
    Wasm,
    TsBuildInfo,
    SourceMap,
    Unknown,
}

/// One module of the graph, as plain values. The source is absent where it
/// could not be retrieved.
#[derive(Debug, Clone, PartialEq, Eq)]
pub struct ModuleRecord {
    pub specifier: String,
    pub media_type: MediaKind,
    pub maybe_source: Option<String>,
}

/// The mathematical value of a `ModuleRecord`.
pub struct ModuleRecordView {
    pub specifier: Seq<char>,
    pub media_type: MediaKind,
    pub maybe_source: Option<Seq<char>>,
}

impl View for ModuleRecord {
    type V = ModuleRecordView;

    open spec fn view(&self) -> ModuleRecordView {
        ModuleRecordView {
            specifier: self.specifier@,
            media_type: self.media_type,
            maybe_source: optional_text(self.maybe_source),
        }
    }
}

#[verifier::external_type_specification]
#[verifier::external_body]
pub struct ExModuleGraph(deno_graph::ModuleGraph);

#[verifier::external_type_specification]
#[verifier::external_body]
pub struct ExMediaType(deno_ast::MediaType);

/// The identities of the roots that a built graph holds, in order.
pub uninterp spec fn graph_roots(graph: deno_graph::ModuleGraph) -> Seq<Seq<char>>;

/// The module that `ModuleGraph::get` finds in a built graph under the
/// identity `specifier`, redirects followed; `None` where the text is no URL
/// or the graph holds no module there.
pub uninterp spec fn graph_module(graph: deno_graph::ModuleGraph, specifier: Seq<char>) -> Option<
    ModuleRecordView,
>;

/// The identity that `ModuleGraph::resolve_dependency` gives for the import
/// `specifier` of the module `referrer`: the module that the import leads
/// to, if the graph holds it; `None` where the referrer is no URL, has no
/// such import, or the import leads to no module of the graph.
pub uninterp spec fn graph_dependency(
    graph: deno_graph::ModuleGraph,
    specifier: Seq<char>,
    referrer: Seq<char>,
    prefer_types: bool,
) -> Option<Seq<char>>;

/// Reads the field `roots` of the graph and hands out the identity of each
/// root as text. The contract only names what comes back.
#[verifier::external_body]
pub(crate) fn roots_of(graph: &deno_graph::ModuleGraph) -> (out: Vec<String>)
    ensures
        Seq::new(out@.len(), |i: int| out@[i]@) == graph_roots(*graph),
{
    graph.roots.iter().map(|root| root.0.to_string()).collect()
}

/// Names the media kind for each variant of `deno_ast::MediaType`.
#[verifier::external_body]
fn from_media_type(media_type: deno_ast::MediaType) -> (out: MediaKind) {
    match media_type {
        deno_ast::MediaType::JavaScript => MediaKind::JavaScript, deno_ast::MediaType::Jsx => MediaKind::Jsx,
        deno_ast::MediaType::Mjs => MediaKind::Mjs, deno_ast::MediaType::Cjs => MediaKind::Cjs,
        deno_ast::MediaType::TypeScript => MediaKind::TypeScript, deno_ast::MediaType::Mts => MediaKind::Mts,
        deno_ast::MediaType::Cts => MediaKind::Cts, deno_ast::MediaType::Dts => MediaKind::Dts,
        deno_ast::MediaType::Dmts => MediaKind::Dmts, deno_ast::MediaType::Dcts => MediaKind::Dcts,
        deno_ast::MediaType::Tsx => MediaKind::Tsx, deno_ast::MediaType::Json => MediaKind::Json,
        deno_ast::MediaType::Wasm => MediaKind::Wasm, deno_ast::MediaType::TsBuildInfo => MediaKind::TsBuildInfo,
        deno_ast::MediaType::SourceMap => MediaKind::SourceMap, deno_ast::MediaType::Unknown => MediaKind::Unknown,
    }
}

/// Names the variant of `deno_ast::MediaType` for each media kind.
#[verifier::external_body]
pub(crate) fn to_media_type(kind: MediaKind) -> (out: deno_ast::MediaType) {
    match kind {
        MediaKind::JavaScript => deno_ast::MediaType::JavaScript, MediaKind::Jsx => deno_ast::MediaType::Jsx,
        MediaKind::Mjs => deno_ast::MediaType::Mjs, MediaKind::Cjs => deno_ast::MediaType::Cjs,
        MediaKind::TypeScript => deno_ast::MediaType::TypeScript, MediaKind::Mts => deno_ast::MediaType::Mts,
        MediaKind::Cts => deno_ast::MediaType::Cts, MediaKind::Dts => deno_ast::MediaType::Dts,
        MediaKind::Dmts => deno_ast::MediaType::Dmts, MediaKind::Dcts => deno_ast::MediaType::Dcts,
        MediaKind::Tsx => deno_ast::MediaType::Tsx, MediaKind::Json => deno_ast::MediaType::Json,
        MediaKind::Wasm => deno_ast::MediaType::Wasm, MediaKind::TsBuildInfo => deno_ast::MediaType::TsBuildInfo,
        MediaKind::SourceMap => deno_ast::MediaType::SourceMap, MediaKind::Unknown => deno_ast::MediaType::Unknown,
    }
}

/// Calls `ModuleGraph::get` with the identity read as a URL, and hands the
/// module out as plain values: its identity, its media type and its source.
/// The contract only names what comes back.
#[verifier::external_body]
pub(crate) fn get_module(graph: &deno_graph::ModuleGraph, specifier: &str) -> (out: Option<
    ModuleRecord,
>)
    ensures
        match out {
            Some(module) => graph_module(*graph, specifier@) == Some(module@),
            None => graph_module(*graph, specifier@) is None,
        },
{
    let url = deno_graph::ModuleSpecifier::parse(specifier).ok()?;
    graph.get(&url).map(
        |m| ModuleRecord {
            specifier: m.specifier.to_string(),
            media_type: from_media_type(m.media_type),
            maybe_source: m.maybe_source.as_ref().map(|s| s.to_string()),
        },
    )
}

/// Calls `ModuleGraph::resolve_dependency` with the referrer read as a URL,
/// and hands out the identity that it gives as text. The contract only
/// names what comes back.
#[verifier::external_body]
pub(crate) fn resolve_in(
    graph: &deno_graph::ModuleGraph,
    specifier: &str,
    referrer: &str,
    prefer_types: bool,
) -> (out: Option<String>)
    ensures
        match out {
            Some(target) => graph_dependency(*graph, specifier@, referrer@, prefer_types) == Some(
                target@,
            ),
            None => graph_dependency(*graph, specifier@, referrer@, prefer_types) is None,
        },
{
    let url = deno_graph::ModuleSpecifier::parse(referrer).ok()?;
    graph.resolve_dependency(specifier, &url, prefer_types).map(|target| target.to_string())
}

} // verus!
