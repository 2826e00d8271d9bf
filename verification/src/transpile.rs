//! What is asked of the transpiler for a single module.

use crate::config::{default_emit_options, TranspilerOptions, TranspilerOptionsView};
use crate::graph::MediaKind;
use crate::minify::{MinifyOptions, MinifyPlan};
use vstd::prelude::*;

verus! {

/// What is done to a single module that is minified: the optimizer runs
/// with compression and with renaming at the top level. No fixer runs
/// after it.
pub open spec fn module_minify_plan() -> MinifyPlan {
    MinifyPlan {
        options: MinifyOptions { compress: true, mangle: true, mangle_top_level: true },
        run_fixer: false,
    }
}

/// The plan for minifying a single module.
pub fn minify_module() -> (out: MinifyPlan)
    ensures
        out == module_minify_plan(),
{
    MinifyPlan {
        options: MinifyOptions { compress: true, mangle: true, mangle_top_level: true },
        run_fixer: false,
    }
}

/// How a single module is compiled.
#[derive(Debug, Clone, PartialEq, Eq)]
pub struct CompilePlan {
    /// How the parsed module is minified before it is transpiled, if it is.
    pub post_process: Option<MinifyPlan>,
    /// The options of the transpiler.
    pub options: TranspilerOptions,
}

/// The options under which a single module is compiled: the defaults,
/// without any source map.
pub open spec fn compile_options() -> TranspilerOptionsView {
    TranspilerOptionsView { source_map: false, inline_source_map: false, ..default_emit_options() }
}

/// The plan for compiling a single module to text: it is minified after
/// parsing where `minify` is set, and transpiled without a source map.
pub fn compile(minify: bool) -> (out: CompilePlan)
    ensures
        out.post_process == if minify {
            Some(module_minify_plan())
        } else {
            None::<MinifyPlan>
        },
        out.options@ == compile_options(),
{
    let mut options = TranspilerOptions::default();
    options.source_map = false;
    options.inline_source_map = false;
    CompilePlan {
        post_process: if minify {
            Some(minify_module())
        } else {
            None
        },
        options,
    }
}

/// Whether a module of type `media_type` has to be transpiled before it
/// runs: typed scripts and JSX do, plain scripts and structured data do not,
/// and nothing else is transpiled at all.
pub open spec fn needs_transpile(media_type: MediaKind) -> bool {
    media_type == MediaKind::Jsx || media_type == MediaKind::TypeScript || media_type
        == MediaKind::Mts || media_type == MediaKind::Cts || media_type == MediaKind::Dts
        || media_type == MediaKind::Dmts || media_type == MediaKind::Dcts || media_type
        == MediaKind::Tsx
}

/// Whether a module of type `media_type` has to be transpiled before it
/// runs.
pub fn need_transpile(media_type: MediaKind) -> (out: bool)
    ensures
        out == needs_transpile(media_type),
{
    match media_type {
        MediaKind::JavaScript | MediaKind::Mjs | MediaKind::Cjs | MediaKind::Json => false,
        MediaKind::Jsx
        | MediaKind::TypeScript
        | MediaKind::Mts
        | MediaKind::Cts
        | MediaKind::Dts
        | MediaKind::Dmts
        | MediaKind::Dcts
        | MediaKind::Tsx => true,
        _ => false,
    }
}

/// What `deno_ast` makes of the module `specifier` with the source `code`:
/// the module is parsed under the media type that its specifier has and
/// transpiled under the default options with the two source map options as
/// given; the result is the script text, or the message of the failure.
pub uninterp spec fn transpiled_text(
    specifier: Seq<char>,
    code: Seq<char>,
    source_map: bool,
    inline_source_map: bool,
) -> Result<Seq<char>, Seq<char>>;

/// The mathematical value of a text or the message of a failure.
pub open spec fn text_result(out: Result<String, String>) -> Result<Seq<char>, Seq<char>> {
    match out {
        Ok(text) => Ok(text@),
        Err(message) => Err(message@),
    }
}

/// Calls `deno_ast::parse_module` on the source, with the media type that
/// `deno_ast::MediaType::from` gives for the specifier, and
/// `ParsedSource::transpile` on what it gives, under the default options of
/// `deno_ast` but for the two source map options. A specifier that is no
/// URL, a source that does not parse and a failure to transpile give the
/// message of the error. The contract only names what comes back.
#[verifier::external_body]
fn transpile_text(specifier: &str, code: String, source_map: bool, inline_source_map: bool) -> (out:
    Result<String, String>)
    ensures
        text_result(out) == transpiled_text(specifier@, code@, source_map, inline_source_map),
{
    let url = deno_ast::ModuleSpecifier::parse(specifier).map_err(|e| e.to_string())?;
    let params = deno_ast::ParseParams {
        specifier: url.to_string(),
        text_info: deno_ast::SourceTextInfo::from_string(code),
        media_type: deno_ast::MediaType::from(&url),
        capture_tokens: false,
        scope_analysis: false,
        maybe_syntax: None,
    };
    let options = deno_ast::EmitOptions { source_map, inline_source_map, ..Default::default() };
    let parsed = deno_ast::parse_module(params).map_err(|e| e.to_string())?;
    parsed.transpile(&options).map(|t| t.text).map_err(|e| e.to_string())
}

/// Compiles the module `specifier` with the source `code` to script text,
/// without a source map and without minifying it.
pub fn compile_text(specifier: &str, code: String) -> (out: Result<String, String>)
    ensures
        text_result(out) == transpiled_text(specifier@, code@, false, false),
{
    transpile_text(specifier, code, false, false)
}

} // verus!
