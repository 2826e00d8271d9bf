//! Turns a module of the graph into the syntax tree that is merged: its
//! source is prepared, parsed and lowered.

use crate::config::{TranspilerOptions, TranspilerOptionsView};
use crate::error::{BundleError, Diagnostic, LineAndColumnDisplay, SourceRange};
use crate::graph::{get_module, graph_module, to_media_type, MediaKind};
use crate::text::chars_of;
use deno_ast::swc::ast::{Module, Program};
use deno_ast::swc::common::comments::SingleThreadedComments;
use deno_ast::swc::common::{FileName, Globals, Mark, SourceFile, SourceMap, Spanned, GLOBALS};
use deno_ast::swc::parser::error::Error;
use deno_ast::swc::parser::lexer::Lexer;
use deno_ast::swc::parser::{Parser, StringInput};
use deno_ast::SourceRangedForSpanned;
use std::rc::Rc;
use vstd::prelude::*;

verus! {

/// The byte order mark.
pub const BOM_CHAR: char = '\u{FEFF}';

/// `text` without a byte order mark at its start.
pub open spec fn without_bom(text: Seq<char>) -> Seq<char> {
    if text.len() > 0 && text[0] == BOM_CHAR {
        text.skip(1)
    } else {
        text
    }
}

/// Strips the byte order mark from the start of `text`, if there is one.
pub fn strip_bom(text: &str) -> (out: &str)
    ensures
        out@ == without_bom(text@),
{
    let n = text.unicode_len();
    if n > 0 && text.get_char(0) == BOM_CHAR {
        text.substring_char(1, n)
    } else {
        text
    }
}

/// `text` as it stands between the backticks of a template literal: a
/// backslash is put before every backtick and before every `${`.
pub open spec fn escape_template(text: Seq<char>) -> Seq<char>
    decreases text.len(),
{
    if text.len() == 0 {
        Seq::empty()
    } else if text[0] == '$' && text.len() >= 2 && text[1] == '{' {
        seq!['\\', '$', '{'] + escape_template(text.skip(2))
    } else if text[0] == '`' {
        seq!['\\', '`'] + escape_template(text.skip(1))
    } else {
        seq![text[0]] + escape_template(text.skip(1))
    }
}

/// The module that stands for the structured data `text`: its default export
/// is the value that `text` is parsed to.
pub open spec fn json_module(text: Seq<char>) -> Seq<char> {
    "export default JSON.parse(`"@ + escape_template(text) + "`);"@
}

/// Wraps structured data into a module that exports its parsed value.
pub fn wrap_json(text: &str) -> (out: String)
    ensures
        out@ == json_module(text@),
{
    let chars = chars_of(text);
    let mut out = String::from_str("export default JSON.parse(`");
    let ghost head = out@;
    let mut i: usize = 0;
    assert(chars@.skip(0) =~= chars@);
    while i < chars.len()
        invariant
            i <= chars.len(),
            chars@ == text@,
            head == "export default JSON.parse(`"@,
            out@ + escape_template(chars@.skip(i as int)) == head + escape_template(chars@),
        decreases chars.len() - i,
    {
        let ghost rest = chars@.skip(i as int);
        let ghost before = out@;
        let c = chars[i];
        if c == '$' && i + 1 < chars.len() && chars[i + 1] == '{' {
            out.push('\\');
            out.push('$');
            out.push('{');
            proof {
                assert(rest.skip(2) =~= chars@.skip(i + 2));
                assert(out@ =~= before + seq!['\\', '$', '{']);
                assert(out@ + escape_template(chars@.skip(i + 2)) =~= before + escape_template(
                    rest,
                ));
            }
            i += 2;
        } else {
            if c == '`' {
                out.push('\\');
                out.push('`');
                proof {
                    assert(out@ =~= before + seq!['\\', '`']);
                }
            } else {
                out.push(c);
                proof {
                    assert(out@ =~= before + seq![c]);
                }
            }
            proof {
                assert(rest.skip(1) =~= chars@.skip(i + 1));
                assert(out@ + escape_template(chars@.skip(i + 1)) =~= before + escape_template(
                    rest,
                ));
            }
            i += 1;
        }
    }
    proof {
        assert(chars@.skip(chars@.len() as int) =~= Seq::<char>::empty());
        assert(out@ =~= head + escape_template(chars@));
    }
    out.append("`);");
    out
}

/// The dialect under which a module of type `media_type` is parsed:
/// structured data is parsed as the script that wraps it.
pub open spec fn syntax_of(media_type: MediaKind) -> MediaKind {
    if media_type == MediaKind::Json {
        MediaKind::JavaScript
    } else {
        media_type
    }
}

/// The text that is parsed for a module with the source `source`: the
/// source without its byte order mark, wrapped where it is structured data.
pub open spec fn prepared_source(source: Seq<char>, media_type: MediaKind) -> Seq<char> {
    if media_type == MediaKind::Json {
        json_module(without_bom(source))
    } else {
        without_bom(source)
    }
}

/// What is handed to the parser for one module.
#[derive(Debug, Clone, PartialEq, Eq)]
pub struct PreparedModule {
    pub specifier: String,
    pub source: String,
    pub syntax: MediaKind,
}

/// Prepares the source of one module for parsing.
pub fn prepare_module(specifier: &str, source: &str, media_type: MediaKind) -> (out:
    PreparedModule)
    ensures
        out.specifier@ == specifier@,
        out.source@ == prepared_source(source@, media_type),
        out.syntax == syntax_of(media_type),
{
    let source = strip_bom(source);
    match media_type {
        MediaKind::Json => PreparedModule {
            specifier: String::from_str(specifier),
            source: wrap_json(source),
            syntax: MediaKind::JavaScript,
        },
        _ => PreparedModule {
            specifier: String::from_str(specifier),
            source: String::from_str(source),
            syntax: media_type,
        },
    }
}

/// The source text of a module, the empty text where it is absent.
pub open spec fn source_or_empty(source: Option<Seq<char>>) -> Seq<char> {
    match source {
        Some(text) => text,
        None => Seq::empty(),
    }
}

/// Loads modules out of a graph, for one bundle run and its one set of
/// options.
pub struct BundleLoader<'a> {
    pub globals: &'a Globals,
    pub cm: Rc<SourceMap>,
    pub emit_options: &'a TranspilerOptions,
    pub graph: &'a deno_graph::ModuleGraph,
}

/// The string that a template literal evaluates to when `raw` is the text
/// between its backticks. The model covers the texts without a substitution,
/// without a closing backtick, without a carriage return, and with no
/// backslash but before a backtick or a dollar sign; for every other text it
/// gives `None`.
pub open spec fn template_value(raw: Seq<char>) -> Option<Seq<char>>
    decreases raw.len(),
{
    if raw.len() == 0 {
        Some(Seq::empty())
    } else if raw[0] == '\\' {
        if raw.len() >= 2 && (raw[1] == '`' || raw[1] == '$') {
            match template_value(raw.skip(2)) {
                Some(rest) => Some(seq![raw[1]] + rest),
                None => None,
            }
        } else {
            None
        }
    } else if raw[0] == '`' || raw[0] == '\r' || (raw[0] == '$' && raw.len() >= 2 && raw[1]
        == '{') {
        None
    } else {
        match template_value(raw.skip(1)) {
            Some(rest) => Some(seq![raw[0]] + rest),
            None => None,
        }
    }
}

/// Structured data comes back verbatim from the module that wraps it: the
/// template literal that holds the escaped text evaluates to the text
/// itself, backticks and `${` included. This holds of every text without a
/// backslash and without a carriage return.
pub proof fn lemma_escaped_template_evaluates_to_source(source: Seq<char>)
    requires
        !source.contains('\\'),
        !source.contains('\r'),
    ensures
        template_value(escape_template(source)) == Some(source),
    decreases source.len(),
{
    if source.len() == 0 {
    } else {
        assert(source[0] != '\\' && source[0] != '\r') by {
            assert(source.contains(source[0]));
        }
        if source[0] == '$' && source.len() >= 2 && source[1] == '{' {
            let rest = source.skip(2);
            assert forall|c: char| rest.contains(c) implies source.contains(c) by {
                let i = choose|i: int| 0 <= i < rest.len() && rest[i] == c;
                assert(source[i + 2] == c);
            }
            lemma_escaped_template_evaluates_to_source(rest);
            let escaped = escape_template(source);
            assert(escaped =~= seq!['\\', '$', '{'] + escape_template(rest));
            assert(escaped.skip(2) =~= seq!['{'] + escape_template(rest));
            assert(escaped.skip(2).skip(1) =~= escape_template(rest));
            assert(template_value(escaped.skip(2)) == Some(seq!['{'] + rest));
            assert(seq!['$'] + (seq!['{'] + rest) =~= source);
        } else {
            let rest = source.skip(1);
            assert forall|c: char| rest.contains(c) implies source.contains(c) by {
                let i = choose|i: int| 0 <= i < rest.len() && rest[i] == c;
                assert(source[i + 1] == c);
            }
            lemma_escaped_template_evaluates_to_source(rest);
            let escaped = escape_template(source);
            if source[0] == '`' {
                assert(escaped =~= seq!['\\', '`'] + escape_template(rest));
                assert(escaped.skip(2) =~= escape_template(rest));
                assert(seq!['`'] + rest =~= source);
            } else {
                assert(escaped =~= seq![source[0]] + escape_template(rest));
                assert(escaped.skip(1) =~= escape_template(rest));
                if source[0] == '$' && escaped.len() >= 2 {
                    lemma_escape_head(rest);
                    assert(escaped[1] == escape_template(rest)[0]);
                }
                assert(seq![source[0]] + rest =~= source);
            }
        }
    }
}

/// The text that stands for `text` begins with a backslash or with the
/// first character of `text`.
proof fn lemma_escape_head(text: Seq<char>)
    requires
        escape_template(text).len() > 0,
    ensures
        text.len() > 0,
        escape_template(text)[0] == '\\' || escape_template(text)[0] == text[0],
{
}

/// The column that is shown for what stands after `col_display` columns of
/// a line: columns are counted from 1.
pub open spec fn shown_column(col_display: usize) -> usize {
    if col_display < usize::MAX {
        (col_display + 1) as usize
    } else {
        usize::MAX
    }
}

/// The diagnostic for a fault that the parser reports in the module
/// `specifier`: `line` is the line of its start, counted from 1, and
/// `col_display` the display width of what stands before it on the line, so
/// that the column shown counts from 1 too.
pub fn swc_err_to_diagnostic(
    specifier: &str,
    range: SourceRange,
    line: usize,
    col_display: usize,
    kind: String,
) -> (out: Diagnostic)
    ensures
        out.specifier@ == specifier@,
        out.range == range,
        out.display_position == (LineAndColumnDisplay {
            line_number: line,
            column_number: shown_column(col_display),
        }),
        out.kind == kind,
{
    Diagnostic {
        specifier: String::from_str(specifier),
        range,
        display_position: LineAndColumnDisplay {
            line_number: line,
            column_number: if col_display < usize::MAX {
                col_display + 1
            } else {
                usize::MAX
            },
        },
        kind,
    }
}

#[verifier::external_type_specification]
#[verifier::external_body]
pub struct ExModule(Module);

#[verifier::external_type_specification]
#[verifier::external_body]
pub struct ExSourceFile(SourceFile);

#[verifier::external_type_specification]
#[verifier::external_body]
pub struct ExSingleThreadedComments(SingleThreadedComments);

#[verifier::external_type_specification]
#[verifier::external_body]
pub struct ExError(Error);

#[verifier::external_type_specification]
#[verifier::external_body]
pub struct ExGlobals(Globals);

#[verifier::external_type_specification]
#[verifier::external_body]
pub struct ExEmitOptions(deno_ast::EmitOptions);

/// Whether the parser of swc stops at a fault in the text `source` when it
/// parses it as a module under the syntax that `deno_ast::get_syntax` gives
/// for the media kind `syntax`.
pub uninterp spec fn parse_stops(source: Seq<char>, syntax: MediaKind) -> bool;

/// The number of faults that the parser of swc recovers from in the text
/// `source` under the syntax of `syntax`, where it does not stop.
pub uninterp spec fn recovered_faults(source: Seq<char>, syntax: MediaKind) -> nat;

/// The text that a source file holds: its field `src`, which never changes.
/// It is the text that the file was registered with, without a byte order
/// mark at its start.
pub uninterp spec fn file_text(file: SourceFile) -> Seq<char>;

/// Whether `deno_ast::fold_program` fails on the module that the parser
/// makes of the text `source` under the syntax of `syntax`, when it lowers
/// it under `options` with the faults that the parser recovered from. It is
/// asked only of texts at which the parser does not stop.
pub uninterp spec fn lowering_fails(
    source: Seq<char>,
    syntax: MediaKind,
    options: TranspilerOptionsView,
) -> bool;

/// Whether the parser has made the module, the comments and the faults of
/// the text of the file, under the syntax of `syntax`.
pub uninterp spec fn parsed_from(
    file: SourceFile,
    syntax: MediaKind,
    module: Module,
    comments: SingleThreadedComments,
    faults: Seq<Error>,
) -> bool;

/// Whether the span of the fault is known to start in a file that the
/// source map holds, at the start of a character, unless it starts at
/// position 0, which lies in no source. It is learnt of the faults that the
/// parser reports of a source that it read from this map.
pub uninterp spec fn fault_lies_in(cm: SourceMap, error: Error) -> bool;

/// The byte position at which the span of a fault starts. It is 0 for a
/// fault that lies nowhere in a source.
pub uninterp spec fn fault_start(error: Error) -> u32;

/// The byte position at which the span of a fault ends.
pub uninterp spec fn fault_end(error: Error) -> u32;

/// The message of the kind of a fault.
pub uninterp spec fn fault_kind(error: Error) -> Seq<char>;

/// Whether `SourceMap::lookup_char_pos` has given `line` and `width` for the
/// start of the fault: its line, counted from 1, and the display width of
/// what stands before it on the line.
pub uninterp spec fn located_as(cm: SourceMap, error: Error, line: usize, width: usize) -> bool;

/// Registers the source with `SourceMap::new_source_file` under the
/// specifier and parses it with `Parser::parse_module`, under the syntax
/// that `deno_ast::get_syntax` gives for the media type. Hands out the
/// source file, the module, the comments and the faults that the parser
/// recovered from; or the fault that it stopped at. The file holds the text
/// that was handed in, but for a byte order mark at its start, which the
/// registration takes away. Every fault lies in that file. Whether the
/// parser stops and how many faults it recovers from is named; nothing is
/// claimed of the tree.
#[verifier::external_body]
fn parse_source(cm: &Rc<SourceMap>, prepared: PreparedModule) -> (out: Result<
    (Rc<SourceFile>, Module, SingleThreadedComments, Vec<Error>),
    Error,
>)
    ensures
        out is Err <==> parse_stops(prepared.source@, prepared.syntax),
        out matches Err(error) ==> fault_lies_in(**cm, error),
        out matches Ok(parts) ==> {
            &&& parsed_from(*parts.0, prepared.syntax, parts.1, parts.2, parts.3@)
            &&& file_text(*parts.0) == without_bom(prepared.source@)
            &&& parts.3@.len() == recovered_faults(prepared.source@, prepared.syntax)
            &&& forall|i: int| 0 <= i < parts.3@.len() ==> fault_lies_in(**cm, #[trigger] parts.3@[i])
        },
{
    let name = match deno_ast::ModuleSpecifier::parse(&prepared.specifier) {
        Ok(url) => FileName::Url(url),
        Err(_) => FileName::Custom(prepared.specifier),
    };
    let fm = cm.new_source_file(name, prepared.source);
    let comments = SingleThreadedComments::default();
    let input = StringInput::from(&*fm);
    let syntax = deno_ast::get_syntax(to_media_type(prepared.syntax));
    let lexer = Lexer::new(syntax, deno_ast::ES_VERSION, input, Some(&comments));
    let mut parser = Parser::new_from(lexer);
    let module = parser.parse_module()?;
    let errors = parser.take_errors();
    Ok((fm, module, comments, errors))
}

/// Reads the span of the fault and the message of its kind.
#[verifier::external_body]
fn describe(error: &Error) -> (out: (SourceRange, String))
    ensures
        out.0.start == fault_start(*error) as usize,
        out.0.end == fault_end(*error) as usize,
        out.1@ == fault_kind(*error),
{
    let span = error.span();
    (SourceRange { start: span.lo.0 as usize, end: span.hi.0 as usize }, error.kind().msg().to_string())
}

/// Looks the start of the fault up with `SourceMap::lookup_char_pos`, which
/// gives its line, counted from 1, and the display width of what stands
/// before it on the line. The lookup needs a position that lies in a file
/// of the map, at the start of a character.
#[verifier::external_body]
fn locate(cm: &Rc<SourceMap>, error: &Error) -> (out: (usize, usize))
    requires
        fault_lies_in(**cm, *error),
        fault_start(*error) != 0,
    ensures
        located_as(**cm, *error, out.0, out.1),
        out.0 >= 1,
{
    let location = cm.lookup_char_pos(error.span().lo);
    (location.line, location.col_display)
}

/// Whether `diagnostic` reports the fault `error` of the module
/// `specifier`: it holds the span and the kind of the fault; for a fault
/// that lies in the source, the line that the source map gives, which is 1
/// at least, and the column after the display width that it gives; for a
/// fault that lies nowhere, line 0.
pub open spec fn reports(cm: SourceMap, specifier: Seq<char>, error: Error, diagnostic: Diagnostic) -> bool {
    &&& diagnostic.specifier@ == specifier
    &&& diagnostic.range.start == fault_start(error) as usize
    &&& diagnostic.range.end == fault_end(error) as usize
    &&& diagnostic.kind@ == fault_kind(error)
    &&& if fault_start(error) != 0 {
        &&& diagnostic.display_position.line_number >= 1
        &&& exists|width: usize|
            {
                &&& #[trigger] located_as(
                    cm,
                    error,
                    diagnostic.display_position.line_number,
                    width,
                )
                &&& diagnostic.display_position.column_number == shown_column(width)
            }
    } else {
        &&& diagnostic.display_position.line_number == 0
        &&& diagnostic.display_position.column_number == 1
    }
}

/// Whether `diagnostic` reports a fault of the parser in the module
/// `specifier`.
pub open spec fn is_diagnostic_of(cm: SourceMap, specifier: Seq<char>, diagnostic: Diagnostic) -> bool {
    exists|error: Error| #[trigger] reports(cm, specifier, error, diagnostic)
}

/// The column of a diagnostic counts from 1.
pub proof fn lemma_diagnostic_column_counts_from_one(
    cm: SourceMap,
    specifier: Seq<char>,
    diagnostic: Diagnostic,
)
    requires
        is_diagnostic_of(cm, specifier, diagnostic),
    ensures
        diagnostic.display_position.column_number >= 1,
        diagnostic.specifier@ == specifier,
{
}

/// The diagnostic of a fault of the parser in the module `specifier`. A
/// fault that lies nowhere in the source is put at line 0.
fn diagnostic_of(cm: &Rc<SourceMap>, specifier: &str, error: &Error) -> (out: Diagnostic)
    requires
        fault_lies_in(**cm, *error),
    ensures
        reports(**cm, specifier@, *error, out),
{
    let (range, kind) = describe(error);
    let (line, col_display) = if range.start != 0 {
        locate(cm, error)
    } else {
        (0, 0)
    };
    let out = swc_err_to_diagnostic(specifier, range, line, col_display, kind);
    proof {
        if fault_start(*error) != 0 {
            assert(located_as(**cm, *error, out.display_position.line_number, col_display));
        }
    }
    out
}

/// A module as the parser gave it back: its tree, with the source file
/// that it was parsed from and the syntax that it was parsed under.
/// `parse_module` makes one whose parts belong together, which the lowering
/// asks for.
pub struct ParsedModule {
    specifier: String,
    syntax: MediaKind,
    fm: Rc<SourceFile>,
    module: Module,
    comments: SingleThreadedComments,
    diagnostics: Vec<Diagnostic>,
    errors: Vec<Error>,
}

impl ParsedModule {
    /// The identity of the module.
    pub closed spec fn specifier_text(&self) -> Seq<char> {
        self.specifier@
    }

    /// The text that was parsed: what the source file holds.
    pub closed spec fn source_text(&self) -> Seq<char> {
        file_text(*self.fm)
    }

    /// The media kind whose syntax the text was parsed under.
    pub closed spec fn syntax(&self) -> MediaKind {
        self.syntax
    }

    /// The faults that the parser recovered from.
    pub closed spec fn faults(&self) -> Seq<Diagnostic> {
        self.diagnostics@
    }

    /// Whether the parts belong together: the parser has made the tree, the
    /// comments and the faults of the text of the source file under the
    /// syntax, and every fault has its diagnostic: there are as many of the
    /// one as of the other, and each diagnostic reports its fault.
    pub closed spec fn is_paired(&self, cm: SourceMap) -> bool {
        &&& parsed_from(*self.fm, self.syntax, self.module, self.comments, self.errors@)
        &&& self.diagnostics@.len() == self.errors@.len()
        &&& forall|i: int|
            0 <= i < self.errors@.len() ==> reports(
                cm,
                self.specifier@,
                #[trigger] self.errors@[i],
                self.diagnostics@[i],
            )
    }

    /// The identity of the module.
    pub fn specifier(&self) -> (out: &String)
        ensures
            out@ == self.specifier_text(),
    {
        &self.specifier
    }

    /// The faults that the parser recovered from, each with its position.
    pub fn diagnostics(&self) -> (out: &Vec<Diagnostic>)
        ensures
            out@ == self.faults(),
    {
        &self.diagnostics
    }

    /// The source as it was registered for the source map.
    pub fn source_file(&self) -> (out: &Rc<SourceFile>)
        ensures
            file_text(**out) == self.source_text(),
    {
        &self.fm
    }

    /// The syntax tree.
    pub fn module(&self) -> &Module {
        &self.module
    }
}

/// A module as it is merged: parsed and lowered to plain script.
pub struct LoweredModule {
    /// The identity of the module.
    pub specifier: String,
    /// The source as it was registered for the source map.
    pub fm: Rc<SourceFile>,
    /// The syntax tree.
    pub module: Module,
}

/// Whether `out` is what parsing `prepared` with the source map `cm` gives:
/// where the parser stops, the diagnostic of the fault that it stopped at;
/// otherwise the parsed module of that syntax, whose source file holds the
/// prepared text without a byte order mark, with a diagnostic for every
/// fault that the parser recovered from.
pub open spec fn is_parse_outcome(
    cm: SourceMap,
    prepared: PreparedModule,
    out: Result<ParsedModule, BundleError>,
) -> bool {
    if parse_stops(prepared.source@, prepared.syntax) {
        out matches Err(BundleError::Parse(diagnostic)) && is_diagnostic_of(
            cm,
            prepared.specifier@,
            diagnostic,
        )
    } else {
        &&& out matches Ok(parsed)
        &&& parsed.specifier_text() == prepared.specifier@
        &&& parsed.source_text() == without_bom(prepared.source@)
        &&& parsed.syntax() == prepared.syntax
        &&& parsed.is_paired(cm)
        &&& parsed.faults().len() == recovered_faults(prepared.source@, prepared.syntax)
        &&& forall|i: int|
            0 <= i < parsed.faults().len() ==> is_diagnostic_of(
                cm,
                prepared.specifier@,
                #[trigger] parsed.faults()[i],
            )
    }
}

/// Parses what was prepared for a module. It fails where the parser stops
/// at a fault, and only there.
pub fn parse_module(cm: &Rc<SourceMap>, prepared: PreparedModule) -> (out: Result<
    ParsedModule,
    BundleError,
>)
    ensures
        is_parse_outcome(**cm, prepared, out),
{
    let specifier = prepared.specifier.clone();
    let syntax = prepared.syntax;
    match parse_source(cm, prepared) {
        Err(error) => {
            let diagnostic = diagnostic_of(cm, specifier.as_str(), &error);
            assert(reports(**cm, specifier@, error, diagnostic));
            Err(BundleError::Parse(diagnostic))
        },
        Ok((fm, module, comments, errors)) => {
            let mut diagnostics: Vec<Diagnostic> = Vec::new();
            let mut i: usize = 0;
            while i < errors.len()
                invariant
                    i <= errors.len(),
                    diagnostics@.len() == i,
                    forall|k: int| 0 <= k < errors@.len() ==> fault_lies_in(**cm, #[trigger] errors@[k]),
                    forall|j: int|
                        0 <= j < i ==> reports(
                            **cm,
                            specifier@,
                            #[trigger] errors@[j],
                            diagnostics@[j],
                        ),
                decreases errors.len() - i,
            {
                diagnostics.push(diagnostic_of(cm, specifier.as_str(), &errors[i]));
                i += 1;
            }
            let parsed = ParsedModule { specifier, syntax, fm, module, comments, diagnostics, errors };
            proof {
                assert forall|i: int| 0 <= i < parsed.faults().len() implies is_diagnostic_of(
                    **cm,
                    prepared.specifier@,
                    #[trigger] parsed.faults()[i],
                ) by {
                    assert(reports(**cm, specifier@, errors@[i], diagnostics@[i]));
                }
            }
            Ok(parsed)
        },
    }
}

/// Names the field of `deno_ast::EmitOptions` for each option.
#[verifier::external_body]
fn outside_options(o: &TranspilerOptions) -> (out: deno_ast::EmitOptions) {
    deno_ast::EmitOptions {
        emit_metadata: o.emit_metadata,
        imports_not_used_as_values: match o.imports_not_used_as_values {
            crate::config::ImportsNotUsedAsValues::Remove => deno_ast::ImportsNotUsedAsValues::Remove,
            crate::config::ImportsNotUsedAsValues::Preserve => deno_ast::ImportsNotUsedAsValues::Preserve,
            crate::config::ImportsNotUsedAsValues::Error => deno_ast::ImportsNotUsedAsValues::Error,
        },
        inline_source_map: o.inline_source_map, inline_sources: o.inline_sources,
        source_map: o.source_map, jsx_automatic: o.jsx_automatic, jsx_development: o.jsx_development,
        jsx_factory: o.jsx_factory.clone(), jsx_fragment_factory: o.jsx_fragment_factory.clone(),
        jsx_import_source: o.jsx_import_source.clone(),
        transform_jsx: o.transform_jsx, var_decl_imports: o.var_decl_imports,
    }
}

/// Calls `deno_ast::fold_program` on the parsed module, within the globals
/// of the run and with a fresh top-level mark: types are stripped, JSX is
/// transformed and imports are elided as the options say. The faults that
/// the parser recovered from go with it, each with the position of its
/// diagnostic; a fatal one among them fails the call. Hands out the lowered
/// module with the source file that it came with, or the message of the
/// failure. Whether it fails is named; nothing is claimed of the tree.
#[verifier::external_body]
fn lower_source(globals: &Globals, cm: &Rc<SourceMap>, parsed: ParsedModule, options: &TranspilerOptions) -> (out:
    Result<LoweredModule, String>)
    requires
        parsed.is_paired(**cm),
    ensures
        out is Err <==> lowering_fails(parsed.source_text(), parsed.syntax(), options@),
        out matches Ok(lowered) ==> lowered.specifier@ == parsed.specifier_text() && file_text(
            *lowered.fm,
        ) == parsed.source_text(),
{
    let ParsedModule { specifier, fm, module, comments, diagnostics, errors, .. } = parsed;
    let faults: Vec<_> = errors.into_iter().zip(diagnostics).map(|(e, d)| deno_ast::Diagnostic {
        specifier: d.specifier,
        range: e.range(),
        display_position: deno_ast::LineAndColumnDisplay { line_number: d.display_position.line_number, column_number: d.display_position.column_number },
        kind: e.into_kind(),
    }).collect();
    let folded = GLOBALS.set(globals, || {
        deno_ast::fold_program(Program::Module(module), &outside_options(options), cm.clone(), &comments, Mark::fresh(Mark::root()), &faults)
    });
    folded.map(|p| LoweredModule { specifier, fm, module: p.expect_module() }).map_err(|e| e.to_string())
}

/// Whether `out` is what lowering a module of the text `source`, parsed
/// under `syntax`, gives under `options`: the lowered module with the source
/// file of that text, or the failure of the lowering where it fails.
pub open spec fn is_lower_outcome(
    specifier: Seq<char>,
    source: Seq<char>,
    syntax: MediaKind,
    options: TranspilerOptionsView,
    out: Result<LoweredModule, BundleError>,
) -> bool {
    if lowering_fails(source, syntax, options) {
        out matches Err(error) && error is Lower
    } else {
        &&& out matches Ok(lowered)
        &&& lowered.specifier@ == specifier
        &&& file_text(*lowered.fm) == source
    }
}

/// Lowers a parsed module under `options`, with the source map that it was
/// parsed with. A failure of the lowering is an error with its message as
/// the cause.
pub fn lower_module(
    globals: &Globals,
    cm: &Rc<SourceMap>,
    parsed: ParsedModule,
    options: &TranspilerOptions,
) -> (out: Result<LoweredModule, BundleError>)
    requires
        parsed.is_paired(**cm),
    ensures
        is_lower_outcome(
            parsed.specifier_text(),
            parsed.source_text(),
            parsed.syntax(),
            options@,
            out,
        ),
{
    match lower_source(globals, cm, parsed, options) {
        Ok(lowered) => Ok(lowered),
        Err(cause) => Err(BundleError::Lower { cause }),
    }
}

/// The text that the source file of a module holds: the prepared source,
/// without a byte order mark that is still at its start.
pub open spec fn registered_source(source: Seq<char>, media_type: MediaKind) -> Seq<char> {
    without_bom(prepared_source(source, media_type))
}

/// Whether `out` is what loading a module with the source `source` of the
/// type `media_type` gives under `options`: the diagnostic of the fault at
/// which the parser stops, where it stops; otherwise the failure of the
/// lowering, where it fails; otherwise the lowered module.
pub open spec fn is_load_outcome(
    cm: SourceMap,
    specifier: Seq<char>,
    source: Seq<char>,
    media_type: MediaKind,
    options: TranspilerOptionsView,
    out: Result<LoweredModule, BundleError>,
) -> bool {
    if parse_stops(prepared_source(source, media_type), syntax_of(media_type)) {
        out matches Err(BundleError::Parse(diagnostic)) && is_diagnostic_of(
            cm,
            specifier,
            diagnostic,
        )
    } else {
        is_lower_outcome(
            specifier,
            registered_source(source, media_type),
            syntax_of(media_type),
            options,
            out,
        )
    }
}

/// Strips the byte order mark of the source of a module, wraps structured
/// data into a script, parses the result under the dialect of the media
/// type, and lowers it under `options`.
pub fn transpile_module(
    globals: &Globals,
    cm: &Rc<SourceMap>,
    specifier: &str,
    source: &str,
    media_type: MediaKind,
    options: &TranspilerOptions,
) -> (out: Result<LoweredModule, BundleError>)
    ensures
        is_load_outcome(**cm, specifier@, source@, media_type, options@, out),
{
    match parse_module(cm, prepare_module(specifier, source, media_type)) {
        Ok(parsed) => lower_module(globals, cm, parsed, options),
        Err(error) => Err(error),
    }
}

impl<'a> BundleLoader<'a> {
    /// A loader bound to `graph`, which registers the sources that it
    /// loads with `cm` and lowers them within `globals` under
    /// `emit_options`.
    pub fn new(
        globals: &'a Globals,
        cm: Rc<SourceMap>,
        emit_options: &'a TranspilerOptions,
        graph: &'a deno_graph::ModuleGraph,
    ) -> (out: Self)
        ensures
            out.globals == globals,
            out.cm == cm,
            out.emit_options == emit_options,
            out.graph == graph,
    {
        BundleLoader { globals, cm, emit_options, graph }
    }

    /// Looks up the module `specifier` and prepares its source. A module
    /// that the graph does not hold is an error.
    pub fn prepare(&self, specifier: &str) -> (out: Result<PreparedModule, BundleError>)
        ensures
            match graph_module(*self.graph, specifier@) {
                Some(module) => {
                    &&& out matches Ok(prepared)
                    &&& prepared.specifier@ == specifier@
                    &&& prepared.source@ == prepared_source(
                        source_or_empty(module.maybe_source),
                        module.media_type,
                    )
                    &&& prepared.syntax == syntax_of(module.media_type)
                },
                None => out matches Err(BundleError::MissingModule { specifier: missing })
                    && missing@ == specifier@,
            },
    {
        match get_module(self.graph, specifier) {
            Some(module) => {
                let prepared = match &module.maybe_source {
                    Some(source) => prepare_module(specifier, source.as_str(), module.media_type),
                    None => prepare_module(specifier, "", module.media_type),
                };
                proof {
                    reveal_strlit("");
                    assert(""@ =~= Seq::<char>::empty());
                }
                Ok(prepared)
            },
            None => Err(BundleError::MissingModule { specifier: String::from_str(specifier) }),
        }
    }

    /// Looks up the module `specifier`, prepares its source, parses it and
    /// lowers it under the options of the run. A module that the graph does
    /// not hold, a source at which the parser stops, and a failure of the
    /// lowering are errors.
    pub fn load(&self, specifier: &str) -> (out: Result<LoweredModule, BundleError>)
        ensures
            match graph_module(*self.graph, specifier@) {
                Some(module) => is_load_outcome(
                    *self.cm,
                    specifier@,
                    source_or_empty(module.maybe_source),
                    module.media_type,
                    self.emit_options@,
                    out,
                ),
                None => out matches Err(BundleError::MissingModule { specifier: missing })
                    && missing@ == specifier@,
            },
    {
        let prepared = match self.prepare(specifier) {
            Ok(prepared) => prepared,
            Err(error) => {
                return Err(error);
            },
        };
        match parse_module(&self.cm, prepared) {
            Ok(parsed) => lower_module(self.globals, &self.cm, parsed, self.emit_options),
            Err(error) => Err(error),
        }
    }
}

} // verus!
