//! The last stage of a bundle run: what is asked of the code generator, and
//! what is returned from the bytes that it gives back.

use crate::config::TranspilerOptions;
use crate::error::BundleError;
use deno_ast::swc::bundler::Bundle;
use deno_ast::swc::common::{BytePos, LineCol, SourceMap};
use std::rc::Rc;
use crate::text::{optional_text, text_from_utf8};
use vstd::prelude::*;
use vstd::utf8::{decode_utf8, encode_utf8, valid_utf8};

verus! {

/// The comment lines that open a bundle whose header was asked for: they
/// keep formatters and linters off the file.
pub open spec fn ignore_directives_text() -> Seq<char> {
    "// deno-fmt-ignore-file\n// deno-lint-ignore-file\n// This code was bundled using `deno-bundler` and it's not recommended to edit it manually\n\n"@
}

/// The comment lines that open a bundle whose header was asked for.
pub fn ignore_directives() -> (out: String)
    ensures
        out@ == ignore_directives_text(),
{
    String::from_str(
        "// deno-fmt-ignore-file\n// deno-lint-ignore-file\n// This code was bundled using `deno-bundler` and it's not recommended to edit it manually\n\n",
    )
}

/// What is asked of the code generator for one bundle.
#[derive(Debug, Clone, PartialEq, Eq)]
pub struct EmitPlan {
    /// The comment that is written before any code, if there is one.
    pub leading_comment: Option<String>,
    /// Whether the code is written in its minified form.
    pub minify: bool,
    /// Whether a source map is built from the generator's positions.
    pub build_source_map: bool,
    /// Whether the source map carries the texts of the sources.
    pub inline_sources: bool,
}

impl EmitPlan {
    /// The plan for a bundle under `emit_options`: the header comment is
    /// written where `ignore_directive` is set, and a source map is built
    /// where one of the two source map options asks for it.
    pub fn new(emit_options: &TranspilerOptions, ignore_directive: bool, minify: bool) -> (out: Self)
        ensures
            optional_text(out.leading_comment) == if ignore_directive {
                Some(ignore_directives_text())
            } else {
                None::<Seq<char>>
            },
            out.minify == minify,
            out.build_source_map == (emit_options.source_map || emit_options.inline_source_map),
            out.inline_sources == emit_options.inline_sources,
    {
        EmitPlan {
            leading_comment: if ignore_directive {
                Some(ignore_directives())
            } else {
                None
            },
            minify,
            build_source_map: emit_options.source_map || emit_options.inline_source_map,
            inline_sources: emit_options.inline_sources,
        }
    }
}

/// The text that `base64::encode` gives for `bytes`: the standard alphabet,
/// with padding.
pub uninterp spec fn base64_text(bytes: Seq<u8>) -> Seq<char>;

/// Calls `base64::encode`, which encodes the bytes in the standard alphabet
/// with padding. The contract only names the text that comes back.
#[verifier::external_body]
fn base64_encode(bytes: &Vec<u8>) -> (out: String)
    ensures
        out@ == base64_text(bytes@),
{
    base64::encode(bytes)
}

/// The comment that carries the source map `map` at the end of the code.
pub open spec fn inline_map_comment(map: Seq<u8>) -> Seq<char> {
    "//# sourceMappingURL=data:application/json;base64,"@ + base64_text(map) + "\n"@
}

/// What a bundle run returns from what the code generator gave back: the
/// code `emitted` and, where one was built, the source map `source_map`,
/// each with the failure that came in its place.
///
/// A failure to emit, and code that is not UTF-8, fail the run. With
/// `inline_source_map` the map is appended to the code as a comment and none
/// is returned beside it, whatever `source_map_flag` says. With
/// `source_map_flag` alone the map is returned beside the code. With neither
/// no map is looked at.
pub open spec fn generated(
    emitted: Result<Vec<u8>, String>,
    source_map: Result<Vec<u8>, String>,
    inline_source_map: bool,
    source_map_flag: bool,
) -> Result<(Seq<char>, Option<Seq<char>>), BundleError> {
    match emitted {
        Err(cause) => Err(BundleError::Emit { cause }),
        Ok(code) => if !valid_utf8(code@) {
            Err(BundleError::InvalidCode)
        } else if !inline_source_map && !source_map_flag {
            Ok((decode_utf8(code@), None))
        } else {
            match source_map {
                Err(cause) => Err(BundleError::SourceMap { cause }),
                Ok(map) => if inline_source_map {
                    Ok((decode_utf8(code@) + inline_map_comment(map@), None))
                } else if valid_utf8(map@) {
                    Ok((decode_utf8(code@), Some(decode_utf8(map@))))
                } else {
                    Err(BundleError::InvalidSourceMap)
                },
            }
        },
    }
}

/// The mathematical value of the code and the source map that are returned.
pub open spec fn generated_view(out: Result<(String, Option<String>), BundleError>) -> Result<
    (Seq<char>, Option<Seq<char>>),
    BundleError,
> {
    match out {
        Ok((code, map)) => Ok((code@, optional_text(map))),
        Err(error) => Err(error),
    }
}

/// Makes the output of a bundle run from what the code generator gave back.
pub fn assemble(
    emitted: Result<Vec<u8>, String>,
    source_map: Result<Vec<u8>, String>,
    emit_options: &TranspilerOptions,
) -> (out: Result<(String, Option<String>), BundleError>)
    ensures
        generated_view(out) == generated(
            emitted,
            source_map,
            emit_options.inline_source_map,
            emit_options.source_map,
        ),
{
    let code_bytes = match emitted {
        Ok(bytes) => bytes,
        Err(cause) => {
            return Err(BundleError::Emit { cause });
        },
    };
    let mut code = match text_from_utf8(code_bytes) {
        Some(text) => text,
        None => {
            return Err(BundleError::InvalidCode);
        },
    };
    if !emit_options.inline_source_map && !emit_options.source_map {
        return Ok((code, None));
    }
    let map_bytes = match source_map {
        Ok(bytes) => bytes,
        Err(cause) => {
            return Err(BundleError::SourceMap { cause });
        },
    };
    if emit_options.inline_source_map {
        code.append("//# sourceMappingURL=data:application/json;base64,");
        code.append(base64_encode(&map_bytes).as_str());
        code.append("\n");
        assert(code@ =~= decode_utf8(code_bytes@) + inline_map_comment(map_bytes@));
        Ok((code, None))
    } else {
        match text_from_utf8(map_bytes) {
            Some(map) => Ok((code, Some(map))),
            None => Err(BundleError::InvalidSourceMap),
        }
    }
}

#[verifier::external_type_specification]
#[verifier::external_body]
pub struct ExBundle(Bundle);

#[verifier::external_type_specification]
#[verifier::external_body]
pub struct ExSourceMap(SourceMap);

#[verifier::external_type_specification]
#[verifier::external_body]
pub struct ExBytePos(BytePos);

#[verifier::external_type_specification]
#[verifier::external_body]
pub struct ExLineCol(LineCol);

/// Whether the spans of the tree of `bundle` are known to lie in files that
/// the source map holds, each at the start of a character. It is learnt of
/// what the minifier hands back; of a bundle that was merged from modules
/// parsed with this map the caller vouches. Files are only ever added to a
/// source map, so what is known stays true.
pub uninterp spec fn lies_in(cm: SourceMap, bundle: Bundle) -> bool;

/// Whether the positions are known to lie in files that the source map
/// holds.
pub uninterp spec fn recorded_in(cm: SourceMap, positions: Seq<(BytePos, LineCol)>) -> bool;

/// Whether `out` is what the code generator of swc has given for the tree
/// of `bundle`, written after `comment` and in its minified form where
/// `minify` is set: the bytes and the positions recorded for the source map,
/// or the message of its failure.
pub uninterp spec fn emitted_as(
    cm: SourceMap,
    bundle: Bundle,
    comment: Option<Seq<char>>,
    minify: bool,
    out: Result<(Vec<u8>, Vec<(BytePos, LineCol)>), String>,
) -> bool;

/// Whether `out` is what `SourceMap::build_source_map_with_config` has
/// built of the positions, written as JSON: its bytes, or the message of
/// the failure.
pub uninterp spec fn map_built_as(
    cm: SourceMap,
    positions: Seq<(BytePos, LineCol)>,
    inline_sources: bool,
    out: Result<Vec<u8>, String>,
) -> bool;

/// Writes the comment, if there is one, with `JsWriter::write_comment` and
/// the module of the bundle with `Emitter::emit_module`, both into one
/// buffer, and hands out the bytes written and the positions that the
/// writer recorded for the source map; or the message of the error with
/// which either failed. The generator looks spans of the tree up in the
/// source map, so they are to lie in it; the positions that it records are
/// ends of such spans. The comment is written first and as it is, so the
/// bytes begin with it.
#[verifier::external_body]
fn emit_module(cm: &Rc<SourceMap>, bundle: &Bundle, comment: &Option<String>, minify: bool) -> (out:
    Result<(Vec<u8>, Vec<(BytePos, LineCol)>), String>)
    requires
        lies_in(**cm, *bundle),
    ensures
        emitted_as(**cm, *bundle, optional_text(*comment), minify, out),
        out matches Ok(parts) ==> opens_with(parts.0@, optional_text(*comment)) && recorded_in(
            **cm,
            parts.1@,
        ),
{
    let mut buf = Vec::new();
    let mut srcmap = Vec::new();
    let mut wr = Box::new(
        deno_ast::swc::codegen::text_writer::JsWriter::new(cm.clone(), "\n", &mut buf, Some(&mut srcmap)),
    );
    if let Some(text) = comment {
        deno_ast::swc::codegen::text_writer::WriteJs::write_comment(&mut wr, text).map_err(|e| e.to_string())?;
    }
    let cfg = deno_ast::swc::codegen::Config { minify, ..Default::default() };
    let mut emitter = deno_ast::swc::codegen::Emitter { cfg, cm: cm.clone(), comments: None, wr };
    emitter.emit_module(&bundle.module).map_err(|e| e.to_string())?;
    drop(emitter);
    Ok((buf, srcmap))
}

/// Calls `SourceMap::build_source_map_with_config` on the positions that the
/// writer recorded, and writes the map as JSON with `to_writer`; hands out
/// the bytes, or the message of the error. The call looks up the file of
/// every position, so they are to lie in the map.
#[verifier::external_body]
fn build_source_map(
    cm: &Rc<SourceMap>,
    positions: Vec<(BytePos, LineCol)>,
    inline_sources: bool,
) -> (out: Result<Vec<u8>, String>)
    requires
        recorded_in(**cm, positions@),
    ensures
        map_built_as(**cm, positions@, inline_sources, out),
{
    let mut positions = positions;
    let mut map = Vec::new();
    let config = deno_ast::SourceMapConfig { inline_sources };
    let built = cm.build_source_map_with_config(&mut positions, None, config);
    built.to_writer(&mut map).map(|_| map).map_err(|e| e.to_string())
}

/// Whether the bytes `code` begin with the text `comment`, where there is
/// one.
pub open spec fn opens_with(code: Seq<u8>, comment: Option<Seq<char>>) -> bool {
    comment matches Some(text) ==> encode_utf8(text).is_prefix_of(code)
}

/// Whether `out` is what rendering gives once the generator has given
/// `emitted`: its failure and no map; or its bytes, which open with the
/// comment, and beside them the map that was built of its positions where
/// `build_source_map` is set, an empty one where it is not.
pub open spec fn follows_emission(
    cm: SourceMap,
    emitted: Result<(Vec<u8>, Vec<(BytePos, LineCol)>), String>,
    comment: Option<Seq<char>>,
    build_source_map: bool,
    inline_sources: bool,
    out: (Result<Vec<u8>, String>, Result<Vec<u8>, String>),
) -> bool {
    match emitted {
        Err(cause) => {
            &&& out.0 == Err::<Vec<u8>, String>(cause)
            &&& out.1 matches Ok(map)
            &&& map@.len() == 0
        },
        Ok(parts) => {
            &&& out.0 matches Ok(code)
            &&& code@ == parts.0@
            &&& opens_with(code@, comment)
            &&& if build_source_map {
                map_built_as(cm, parts.1@, inline_sources, out.1)
            } else {
                out.1 matches Ok(map) && map@.len() == 0
            }
        },
    }
}

/// Whether `out` is what rendering `bundle` gives: what follows from what
/// the generator has given for it.
pub open spec fn is_emit_outcome(
    cm: SourceMap,
    bundle: Bundle,
    comment: Option<Seq<char>>,
    minify: bool,
    build_source_map: bool,
    inline_sources: bool,
    out: (Result<Vec<u8>, String>, Result<Vec<u8>, String>),
) -> bool {
    exists|emitted: Result<(Vec<u8>, Vec<(BytePos, LineCol)>), String>|
        {
            &&& #[trigger] emitted_as(cm, bundle, comment, minify, emitted)
            &&& follows_emission(cm, emitted, comment, build_source_map, inline_sources, out)
        }
}

/// Renders the bundle as `plan` says: the bytes of the code and, where the
/// plan asks for a source map, the bytes of the map, each with the failure
/// that came in its place. Where no map is asked for, or the code could not
/// be rendered, no map is built and an empty one stands in. The spans of
/// the tree are to lie in the source map.
pub fn emit(cm: &Rc<SourceMap>, bundle: &Bundle, plan: &EmitPlan) -> (out: (
    Result<Vec<u8>, String>,
    Result<Vec<u8>, String>,
))
    requires
        lies_in(**cm, *bundle),
    ensures
        is_emit_outcome(
            **cm,
            *bundle,
            optional_text(plan.leading_comment),
            plan.minify,
            plan.build_source_map,
            plan.inline_sources,
            out,
        ),
{
    let emitted = emit_module(cm, bundle, &plan.leading_comment, plan.minify);
    let ghost witness = emitted;
    let out = match emitted {
        Ok((code, positions)) => {
            if plan.build_source_map {
                (Ok(code), build_source_map(cm, positions, plan.inline_sources))
            } else {
                (Ok(code), Ok(Vec::new()))
            }
        },
        Err(cause) => (Err(cause), Ok(Vec::new())),
    };
    assert(follows_emission(
        **cm,
        witness,
        optional_text(plan.leading_comment),
        plan.build_source_map,
        plan.inline_sources,
        out,
    ));
    out
}

/// The comment that opens the code where the header is asked for.
pub open spec fn header_of(ignore_directive: bool) -> Option<Seq<char>> {
    if ignore_directive {
        Some(ignore_directives_text())
    } else {
        None
    }
}

/// Renders the bundle and makes the output from it: the code is written
/// after the header where `ignore_directive` is set, in its minified form
/// where `minify` is set, a source map is built where one of the two
/// options of `emit_options` asks for it, and the output is assembled from
/// what the generator gave. The spans of the tree are to lie in the source
/// map.
pub fn gen_code(
    cm: &Rc<SourceMap>,
    bundle: &Bundle,
    emit_options: &TranspilerOptions,
    ignore_directive: bool,
    minify: bool,
) -> (out: Result<(String, Option<String>), BundleError>)
    requires
        lies_in(**cm, *bundle),
    ensures
        exists|rendered: (Result<Vec<u8>, String>, Result<Vec<u8>, String>)|
            {
                &&& is_emit_outcome(
                    **cm,
                    *bundle,
                    header_of(ignore_directive),
                    minify,
                    emit_options.source_map || emit_options.inline_source_map,
                    emit_options.inline_sources,
                    rendered,
                )
                &&& generated_view(out) == #[trigger] generated(
                    rendered.0,
                    rendered.1,
                    emit_options.inline_source_map,
                    emit_options.source_map,
                )
            },
{
    let plan = EmitPlan::new(emit_options, ignore_directive, minify);
    let rendered = emit(cm, bundle, &plan);
    let ghost witness = rendered;
    let out = assemble(rendered.0, rendered.1, emit_options);
    assert(is_emit_outcome(
        **cm,
        *bundle,
        header_of(ignore_directive),
        minify,
        emit_options.source_map || emit_options.inline_source_map,
        emit_options.inline_sources,
        witness,
    ));
    out
}

/// The two source map options, in their four combinations, on code and a
/// map that are valid UTF-8. With neither, the code is returned as it was
/// emitted and no map. With `inline_source_map`, whatever `source_map_flag`
/// says, the code ends with the comment that carries the map and no map is
/// returned. With `source_map_flag` alone the code is returned as it was
/// emitted, and the map beside it, which is empty only if its bytes are.
pub proof fn lemma_source_map_matrix(
    code: Vec<u8>,
    map: Vec<u8>,
    inline_source_map: bool,
    source_map_flag: bool,
)
    requires
        valid_utf8(code@),
        valid_utf8(map@),
    ensures
        generated(Ok(code), Ok(map), inline_source_map, source_map_flag) matches Ok(
            (text, returned),
        ) && if inline_source_map {
            &&& text == decode_utf8(code@) + inline_map_comment(map@)
            &&& returned is None
        } else if source_map_flag {
            &&& text == decode_utf8(code@)
            &&& returned == Some(decode_utf8(map@))
            &&& map@.len() > 0 ==> decode_utf8(map@).len() > 0
        } else {
            &&& text == decode_utf8(code@)
            &&& returned is None
        },
{
}

/// Without a source map option nothing is asked of the source map: the
/// output is the same whatever came in its place.
pub proof fn lemma_no_option_no_map(
    code: Result<Vec<u8>, String>,
    map1: Result<Vec<u8>, String>,
    map2: Result<Vec<u8>, String>,
)
    ensures
        generated(code, map1, false, false) == generated(code, map2, false, false),
        generated(code, map1, false, false) matches Ok((_, returned)) ==> returned is None,
{
}

} // verus!
