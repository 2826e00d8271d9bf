//! The text in which an error of a script is shown, with its source line and
//! its stack.

use crate::text::{
    chars_of, contains_text, ends_with, lines, lines_of, occurs_in, optional_text, signed_decimal,
    signed_decimal_text, stands_at, starts_with, trim_start_matches, without_leading,
};
use vstd::prelude::*;
use vstd::utf8::encode_utf8;

verus! {

/// A source line that takes more bytes than this is not shown.
pub const SOURCE_ABBREV_THRESHOLD: usize = 150;

/// What is written before and after a text to show it in a style.
#[derive(Debug, Clone, PartialEq, Eq)]
pub struct Style {
    pub open: String,
    pub close: String,
}

/// The styles that an error is shown in.
#[derive(Debug, Clone, PartialEq, Eq)]
pub struct Palette {
    pub red: Style,
    pub cyan: Style,
    pub yellow: Style,
    pub italic_bold: Style,
}

/// `text` in the style `style`.
pub open spec fn styled(style: Style, text: Seq<char>) -> Seq<char> {
    style.open@ + text + style.close@
}

fn paint(style: &Style, text: &str) -> (out: String)
    ensures
        out@ == styled(*style, text@),
{
    let mut out = style.open.clone();
    out.append(text);
    out.append(style.close.as_str());
    out
}

fn plain_style() -> (out: Style)
    ensures
        out.open@ == Seq::<char>::empty(),
        out.close@ == Seq::<char>::empty(),
{
    Style { open: String::new(), close: String::new() }
}

impl Palette {
    /// The palette that shows every text as it is.
    pub fn plain() -> (out: Self)
        ensures
            forall|style: Style, text: Seq<char>|
                style == out.red || style == out.cyan || style == out.yellow || style
                    == out.italic_bold ==> #[trigger] styled(style, text) == text,
    {
        let out = Palette {
            red: plain_style(),
            cyan: plain_style(),
            yellow: plain_style(),
            italic_bold: plain_style(),
        };
        assert forall|style: Style, text: Seq<char>|
            style == out.red || style == out.cyan || style == out.yellow || style
                == out.italic_bold implies #[trigger] styled(style, text) == text by {
            assert(styled(style, text) =~= text);
        }
        out
    }
}

/// One frame of the stack of an error. The file name is held as it is
/// shown.
#[derive(Debug, Clone, PartialEq, Eq)]
pub struct JsStackFrame {
    /// The name of the type of the receiver of the call.
    pub receiver_type: Option<String>,
    pub function_name: Option<String>,
    pub method_name: Option<String>,
    pub file_name: Option<String>,
    pub line_number: Option<i64>,
    pub column_number: Option<i64>,
    pub eval_origin: Option<String>,
    pub is_top_level: Option<bool>,
    pub is_eval: bool,
    pub is_native: bool,
    pub is_constructor: bool,
    pub is_async: bool,
    pub is_promise_all: bool,
    pub promise_index: Option<i64>,
}

/// An error that a script threw.
#[derive(Debug, PartialEq, Eq)]
pub struct JsError {
    pub name: Option<String>,
    pub message: Option<String>,
    pub stack: Option<String>,
    pub cause: Option<Box<JsError>>,
    pub exception_message: String,
    pub frames: Vec<JsStackFrame>,
    pub source_line: Option<String>,
    pub source_line_frame_index: Option<usize>,
    pub aggregated: Option<Vec<JsError>>,
}

/// The text of an optional text, empty where there is none.
pub open spec fn text_or_empty(text: Option<String>) -> Seq<char> {
    match text {
        Some(t) => t@,
        None => Seq::empty(),
    }
}

/// Whether the location of `frame` can be shown: code that was evaluated and
/// has no file name has the origin of the evaluation.
pub open spec fn frame_is_valid(frame: JsStackFrame) -> bool {
    !frame.is_native && text_or_empty(frame.file_name).len() == 0 && frame.is_eval
        ==> frame.eval_origin is Some
}

/// The line and the column of `frame`, as far as it has them, each after a
/// colon.
pub open spec fn position_text(frame: JsStackFrame, palette: Palette) -> Seq<char> {
    match frame.line_number {
        Some(line) => ":"@ + styled(palette.yellow, signed_decimal_text(line as int))
            + match frame.column_number {
            Some(column) => ":"@ + styled(palette.yellow, signed_decimal_text(column as int)),
            None => Seq::empty(),
        },
        None => Seq::empty(),
    }
}

/// Whether `frame` can be shown as a line of a stack: a frame of
/// `Promise.all` shows no location, every other frame one that can be shown.
pub open spec fn frame_shows(frame: JsStackFrame) -> bool {
    frame.is_promise_all || frame_is_valid(frame)
}

/// Where `frame` lies: `native`, or the file, the line and the column.
pub open spec fn location_text(frame: JsStackFrame, palette: Palette) -> Seq<char> {
    if frame.is_native {
        styled(palette.cyan, "native"@)
    } else if text_or_empty(frame.file_name).len() > 0 {
        styled(palette.cyan, text_or_empty(frame.file_name)) + position_text(frame, palette)
    } else if frame.is_eval {
        styled(palette.cyan, text_or_empty(frame.eval_origin)) + ", "@ + styled(
            palette.cyan,
            "<anonymous>"@,
        ) + position_text(frame, palette)
    } else {
        styled(palette.cyan, "<anonymous>"@) + position_text(frame, palette)
    }
}

/// Shows where `frame` lies.
pub fn format_location(frame: &JsStackFrame, palette: &Palette) -> (out: String)
    requires
        frame_is_valid(*frame),
    ensures
        out@ == location_text(*frame, *palette),
{
    if frame.is_native {
        return paint(&palette.cyan, "native");
    }
    let mut result = String::new();
    let has_file_name = match &frame.file_name {
        Some(name) => !name.as_str().is_empty(),
        None => false,
    };
    if has_file_name {
        match &frame.file_name {
            Some(name) => {
                result.append(paint(&palette.cyan, name.as_str()).as_str());
            },
            None => {},
        }
    } else {
        if frame.is_eval {
            match &frame.eval_origin {
                Some(origin) => {
                    result.append(paint(&palette.cyan, origin.as_str()).as_str());
                },
                None => {},
            }
            result.append(", ");
        }
        result.append(paint(&palette.cyan, "<anonymous>").as_str());
    }
    let ghost head = result@;
    if let Some(line_number) = frame.line_number {
        result.append(":");
        result.append(paint(&palette.yellow, signed_decimal(line_number).as_str()).as_str());
        if let Some(column_number) = frame.column_number {
            result.append(":");
            result.append(paint(&palette.yellow, signed_decimal(column_number).as_str()).as_str());
        }
    }
    proof {
        assert(result@ =~= head + position_text(*frame, *palette));
        assert(result@ =~= location_text(*frame, *palette));
    }
    result
}

/// The name under which a method call is shown: the function, after its
/// type unless its name begins with it, and before the name of the method
/// unless its name ends with it; without a function, the type and the
/// method.
pub open spec fn method_text(frame: JsStackFrame) -> Seq<char> {
    match frame.function_name {
        Some(function) => (match frame.receiver_type {
            Some(receiver_type) => if stands_at(receiver_type@, function@, 0) {
                Seq::empty()
            } else {
                receiver_type@ + "."@
            },
            None => Seq::empty(),
        }) + function@ + (match frame.method_name {
            Some(method) => if method@.len() <= function@.len() && stands_at(
                method@,
                function@,
                function@.len() - method@.len(),
            ) {
                Seq::empty()
            } else {
                " [as "@ + method@ + "]"@
            },
            None => Seq::empty(),
        }),
        None => (match frame.receiver_type {
            Some(receiver_type) => receiver_type@ + "."@,
            None => Seq::empty(),
        }) + (match frame.method_name {
            Some(method) => method@,
            None => "<anonymous>"@,
        }),
    }
}

fn format_method(frame: &JsStackFrame) -> (out: String)
    ensures
        out@ == method_text(*frame),
{
    let mut out = String::new();
    match &frame.function_name {
        Some(function) => {
            if let Some(receiver_type) = &frame.receiver_type {
                if !starts_with(function.as_str(), receiver_type.as_str()) {
                    out.append(receiver_type.as_str());
                    out.append(".");
                }
            }
            out.append(function.as_str());
            if let Some(method) = &frame.method_name {
                if !ends_with(function.as_str(), method.as_str()) {
                    out.append(" [as ");
                    out.append(method.as_str());
                    out.append("]");
                }
            }
        },
        None => {
            if let Some(receiver_type) = &frame.receiver_type {
                out.append(receiver_type.as_str());
                out.append(".");
            }
            match &frame.method_name {
                Some(method) => {
                    out.append(method.as_str());
                },
                None => {
                    out.append("<anonymous>");
                },
            }
        },
    }
    assert(out@ =~= method_text(*frame));
    out
}

/// Whether `frame` is shown as a call of a method.
pub open spec fn is_method_call(frame: JsStackFrame) -> bool {
    !(frame.is_top_level == Some(true) || frame.is_constructor)
}

/// What is called in `frame`, for a frame that is no `Promise.all`: `None`
/// where the frame shows its location alone.
pub open spec fn callee_text(frame: JsStackFrame, palette: Palette) -> Option<Seq<char>> {
    if is_method_call(frame) {
        Some(styled(palette.italic_bold, method_text(frame)))
    } else if frame.is_constructor {
        Some(
            "new "@ + match frame.function_name {
                Some(function) => styled(palette.italic_bold, function@),
                None => styled(palette.cyan, "<anonymous>"@),
            },
        )
    } else {
        match frame.function_name {
            Some(function) => Some(styled(palette.italic_bold, function@)),
            None => None,
        }
    }
}

/// The line that shows `frame` in a stack.
pub open spec fn frame_text(frame: JsStackFrame, palette: Palette) -> Seq<char> {
    let start = if frame.is_async {
        "async "@
    } else {
        Seq::empty()
    };
    if frame.is_promise_all {
        start + styled(
            palette.italic_bold,
            "Promise.all (index "@ + signed_decimal_text(
                match frame.promise_index {
                    Some(index) => index as int,
                    None => 0,
                },
            ) + ")"@,
        )
    } else {
        match callee_text(frame, palette) {
            Some(callee) => start + callee + " ("@ + location_text(frame, palette) + ")"@,
            None => start + location_text(frame, palette),
        }
    }
}

/// Shows `frame` as a line of a stack.
pub fn format_frame(frame: &JsStackFrame, palette: &Palette) -> (out: String)
    requires
        frame_shows(*frame),
    ensures
        out@ == frame_text(*frame, *palette),
{
    let top_level = match frame.is_top_level {
        Some(flag) => flag,
        None => false,
    };
    let method_call = !(top_level || frame.is_constructor);
    let mut result = String::new();
    if frame.is_async {
        result.append("async ");
    }
    let ghost start = result@;
    if frame.is_promise_all {
        let mut inner = String::from_str("Promise.all (index ");
        let index: i64 = match frame.promise_index {
            Some(index) => index,
            None => 0,
        };
        inner.append(signed_decimal(index).as_str());
        inner.append(")");
        result.append(paint(&palette.italic_bold, inner.as_str()).as_str());
        return result;
    }
    if method_call {
        result.append(paint(&palette.italic_bold, format_method(frame).as_str()).as_str());
    } else if frame.is_constructor {
        result.append("new ");
        match &frame.function_name {
            Some(function) => {
                result.append(paint(&palette.italic_bold, function.as_str()).as_str());
            },
            None => {
                result.append(paint(&palette.cyan, "<anonymous>").as_str());
            },
        }
    } else {
        match &frame.function_name {
            Some(function) => {
                result.append(paint(&palette.italic_bold, function.as_str()).as_str());
            },
            None => {
                result.append(format_location(frame, palette).as_str());
                return result;
            },
        }
    }
    proof {
        assert(result@ =~= start + callee_text(*frame, *palette).unwrap());
    }
    result.append(" (");
    result.append(format_location(frame, palette).as_str());
    result.append(")");
    proof {
        assert(result@ =~= frame_text(*frame, *palette));
    }
    result
}

/// What stands in a source line that could not be formatted before.
pub open spec fn unformatted_marker() -> Seq<char> {
    "Couldn't format source line: "@
}

/// The line that points at the column `column` of `line`: a tab under every
/// tab before the column and a blank under everything else, then a caret.
pub open spec fn underline_text(line: Seq<char>, column: int) -> Seq<char> {
    Seq::new(
        if column >= 1 {
            (column - 1) as nat
        } else {
            0
        },
        |i: int|
            if line[i] == '\t' {
                '\t'
            } else {
                ' '
            },
    ).push('^')
}

/// `n` blanks.
pub open spec fn blanks(n: nat) -> Seq<char> {
    Seq::new(n, |i: int| ' ')
}

/// Whether `line` is shown with `column` underlined: there is a line, not
/// too long, that was not given up before, and the column lies within its
/// bytes.
pub open spec fn shows_underline(line: Option<Seq<char>>, column: Option<i64>) -> bool {
    &&& line matches Some(text)
    &&& column matches Some(c)
    &&& text.len() > 0
    &&& encode_utf8(text).len() <= SOURCE_ABBREV_THRESHOLD
    &&& !occurs_in(unformatted_marker(), text)
    &&& 0 <= c <= encode_utf8(text).len()
}

/// Whether the column to underline lies within the characters of the line,
/// where the line is shown with one.
pub open spec fn underline_fits(line: Option<Seq<char>>, column: Option<i64>) -> bool {
    shows_underline(line, column) ==> column.unwrap() - 1 <= line.unwrap().len()
}

/// The source line of an error as it is shown below its message: nothing
/// without a line or a column, for an empty line and for one that is too
/// long; the line alone where it says that it could not be formatted; a
/// warning where the column lies outside the line; and otherwise the line
/// with the column underlined, both indented by `level`.
pub open spec fn source_line_text(
    line: Option<Seq<char>>,
    column: Option<i64>,
    is_error: bool,
    level: nat,
    palette: Palette,
) -> Seq<char> {
    match (line, column) {
        (Some(text), Some(c)) => if text.len() == 0 || encode_utf8(text).len()
            > SOURCE_ABBREV_THRESHOLD {
            Seq::empty()
        } else if occurs_in(unformatted_marker(), text) {
            "\n"@ + text
        } else if c < 0 || c > encode_utf8(text).len() {
            "\n"@ + styled(palette.yellow, "Warning"@) + " Couldn't format source line: Column "@
                + signed_decimal_text(c as int)
                + " is out of bounds (source may have changed at runtime)"@
        } else {
            "\n"@ + blanks(level) + text + "\n"@ + blanks(level) + styled(
                if is_error {
                    palette.red
                } else {
                    palette.cyan
                },
                underline_text(text, c as int),
            )
        },
        _ => Seq::empty(),
    }
}

fn indent(level: usize) -> (out: String)
    ensures
        out@ == blanks(level as nat),
{
    let mut out = String::new();
    let mut i: usize = 0;
    while i < level
        invariant
            i <= level,
            out@ == blanks(i as nat),
        decreases level - i,
    {
        out.push(' ');
        proof {
            assert(out@ =~= blanks((i + 1) as nat));
        }
        i += 1;
    }
    out
}

/// The view of an optional borrowed text.
pub open spec fn optional_str(text: Option<&str>) -> Option<Seq<char>> {
    match text {
        Some(t) => Some(t@),
        None => None,
    }
}

/// Shows a source line with the column of the error underlined.
pub fn format_maybe_source_line(
    source_line: Option<&str>,
    column_number: Option<i64>,
    is_error: bool,
    level: usize,
    palette: &Palette,
) -> (out: String)
    requires
        underline_fits(optional_str(source_line), column_number),
    ensures
        out@ == source_line_text(
            optional_str(source_line),
            column_number,
            is_error,
            level as nat,
            *palette,
        ),
{
    let (source_line, column_number) = match (source_line, column_number) {
        (Some(line), Some(column)) => (line, column),
        _ => {
            return String::new();
        },
    };
    let byte_len = source_line.as_bytes().len();
    if source_line.is_empty() || byte_len > SOURCE_ABBREV_THRESHOLD {
        return String::new();
    }
    if contains_text(source_line, "Couldn't format source line: ") {
        let mut out = String::from_str("\n");
        out.append(source_line);
        return out;
    }
    if column_number < 0 || column_number > byte_len as i64 {
        let mut out = String::from_str("\n");
        out.append(paint(&palette.yellow, "Warning").as_str());
        out.append(" Couldn't format source line: Column ");
        out.append(signed_decimal(column_number).as_str());
        out.append(" is out of bounds (source may have changed at runtime)");
        return out;
    }
    let chars = chars_of(source_line);
    let mut s = String::new();
    let mut i: i64 = 0;
    while i < column_number - 1
        invariant
            0 <= i,
            0 <= column_number,
            column_number >= 1 ==> i <= column_number - 1,
            column_number < 1 ==> i == 0,
            column_number - 1 <= chars.len(),
            chars@ == source_line@,
            s@ == Seq::new(
                i as nat,
                |k: int|
                    if chars@[k] == '\t' {
                        '\t'
                    } else {
                        ' '
                    },
            ),
        decreases column_number - 1 - i,
    {
        let ghost before = s@;
        if chars[i as usize] == '\t' {
            s.push('\t');
        } else {
            s.push(' ');
        }
        i += 1;
        proof {
            assert(s@ =~= Seq::new(
                i as nat,
                |k: int|
                    if chars@[k] == '\t' {
                        '\t'
                    } else {
                        ' '
                    },
            ));
        }
    }
    s.push('^');
    proof {
        assert(s@ =~= underline_text(source_line@, column_number as int));
    }
    let color_underline = if is_error {
        paint(&palette.red, s.as_str())
    } else {
        paint(&palette.cyan, s.as_str())
    };
    let indent = indent(level);
    let mut out = String::from_str("\n");
    out.append(indent.as_str());
    out.append(source_line);
    out.append("\n");
    out.append(indent.as_str());
    out.append(color_underline.as_str());
    out
}

/// Whether the column to underline lies within the characters of the line,
/// where the line is shown with one.
pub fn fits_underline(source_line: Option<&str>, column_number: Option<i64>) -> (out: bool)
    ensures
        out == underline_fits(optional_str(source_line), column_number),
{
    let (source_line, column_number) = match (source_line, column_number) {
        (Some(line), Some(column)) => (line, column),
        _ => {
            return true;
        },
    };
    let byte_len = source_line.as_bytes().len();
    if source_line.is_empty() || byte_len > SOURCE_ABBREV_THRESHOLD {
        return true;
    }
    if contains_text(source_line, "Couldn't format source line: ") {
        return true;
    }
    if column_number < 0 || column_number > byte_len as i64 {
        return true;
    }
    let count = source_line.unicode_len();
    column_number == 0 || (column_number - 1) as u64 <= count as u64
}

/// Each of the first `n` lines, on a line of its own and indented.
pub open spec fn indented_lines(lines: Seq<Seq<char>>, n: nat) -> Seq<char>
    decreases n,
{
    if n == 0 || n > lines.len() {
        Seq::empty()
    } else {
        indented_lines(lines, (n - 1) as nat) + "\n    "@ + lines[n - 1]
    }
}

/// The text of an error as it is shown below another: without `Uncaught `
/// at its start.
pub open spec fn nested_text(text: Seq<char>) -> Seq<char> {
    without_leading(text, "Uncaught "@)
}

/// The first `n` frames of a stack, each on a line of its own.
pub open spec fn frames_text(frames: Seq<JsStackFrame>, n: nat, palette: Palette) -> Seq<char>
    decreases n,
{
    if n == 0 || n > frames.len() {
        Seq::empty()
    } else {
        frames_text(frames, (n - 1) as nat, palette) + "\n    at "@ + frame_text(
            frames[n - 1],
            palette,
        )
    }
}

/// The column of the frame that the source line of `error` belongs to.
pub open spec fn source_column(error: JsError) -> Option<i64> {
    match error.source_line_frame_index {
        Some(i) => if i < error.frames.len() {
            error.frames[i as int].column_number
        } else {
            None
        },
        None => None,
    }
}

/// The text that shows `error`: its message; the errors that it gathers,
/// line by line and indented; its source line, unless it is shown below
/// another error; its stack; and what caused it.
pub open spec fn js_error_text(error: JsError, is_child: bool, palette: Palette) -> Seq<char>
    decreases error, 0nat,
{
    error.exception_message@ + (match error.aggregated {
        Some(errors) => aggregated_text(errors, errors.len() as nat, palette),
        None => Seq::empty(),
    }) + source_line_text(
        if is_child {
            None
        } else {
            optional_text(error.source_line)
        },
        source_column(error),
        true,
        0,
        palette,
    ) + frames_text(error.frames@, error.frames.len() as nat, palette) + (match error.cause {
        Some(cause) => "\nCaused by: "@ + nested_text(js_error_text(*cause, true, palette)),
        None => Seq::empty(),
    })
}

/// The first `n` of the errors that an error gathers, as they are shown
/// below it.
pub open spec fn aggregated_text(errors: Vec<JsError>, n: nat, palette: Palette) -> Seq<char>
    decreases errors, n,
{
    if n == 0 || n > errors.len() {
        Seq::empty()
    } else {
        let shown = lines_of(nested_text(js_error_text(errors[n - 1], true, palette)));
        aggregated_text(errors, (n - 1) as nat, palette) + indented_lines(shown, shown.len())
    }
}

/// Whether `error` can be shown: the frame that its source line belongs to
/// is one of its frames, every frame can be shown, the
/// column to underline lies within the line, and the same holds of the
/// errors below it.
pub open spec fn error_is_valid(error: JsError, is_child: bool) -> bool
    decreases error, 0nat,
{
    &&& error.source_line_frame_index matches Some(i) ==> i < error.frames.len()
    &&& forall|k: int| 0 <= k < error.frames.len() ==> frame_shows(#[trigger] error.frames[k])
    &&& !is_child ==> underline_fits(optional_text(error.source_line), source_column(error))
    &&& error.aggregated matches Some(errors) ==> all_valid(errors, errors.len() as nat)
    &&& error.cause matches Some(cause) ==> error_is_valid(*cause, true)
}

/// Whether the first `n` errors can be shown below another.
pub open spec fn all_valid(errors: Vec<JsError>, n: nat) -> bool
    decreases errors, n,
{
    n == 0 || n > errors.len() || (all_valid(errors, (n - 1) as nat) && error_is_valid(
        errors[n - 1],
        true,
    ))
}

fn frame_can_be_shown(frame: &JsStackFrame) -> (out: bool)
    ensures
        out == frame_shows(*frame),
{
    if frame.is_promise_all || frame.is_native || !frame.is_eval {
        return true;
    }
    let has_file_name = match &frame.file_name {
        Some(name) => !name.as_str().is_empty(),
        None => false,
    };
    has_file_name || frame.eval_origin.is_some()
}

impl JsError {
    /// Whether this error can be shown.
    pub fn is_valid(&self, is_child: bool) -> (out: bool)
        ensures
            out == error_is_valid(*self, is_child),
        decreases self,
    {
        let mut column: Option<i64> = None;
        if let Some(i) = self.source_line_frame_index {
            if i >= self.frames.len() {
                return false;
            }
            column = self.frames[i].column_number;
        }
        let mut k: usize = 0;
        while k < self.frames.len()
            invariant
                k <= self.frames.len(),
                forall|j: int| 0 <= j < k ==> frame_shows(#[trigger] self.frames[j]),
            decreases self.frames.len() - k,
        {
            if !frame_can_be_shown(&self.frames[k]) {
                return false;
            }
            k += 1;
        }
        if !is_child {
            let fits = match &self.source_line {
                Some(line) => fits_underline(Some(line.as_str()), column),
                None => fits_underline(None, column),
            };
            if !fits {
                return false;
            }
        }
        if let Some(errors) = &self.aggregated {
            let mut n: usize = 0;
            while n < errors.len()
                invariant
                    n <= errors.len(),
                    self.aggregated is Some,
                    self.aggregated->Some_0 == *errors,
                    all_valid(*errors, n as nat),
                decreases errors.len() - n,
            {
                proof {
                    assert(decreases_to!(*self => self.aggregated));
                    assert(decreases_to!(self.aggregated => self.aggregated->Some_0));
                }
                if !errors[n].is_valid(true) {
                    proof {
                        lemma_invalid_stays(*errors, (n + 1) as nat, errors.len() as nat);
                    }
                    return false;
                }
                n += 1;
            }
        }
        if let Some(cause) = &self.cause {
            proof {
                assert(decreases_to!(*self => self.cause));
                assert(decreases_to!(self.cause => self.cause->Some_0));
            }
            if !cause.is_valid(true) {
                return false;
            }
        }
        true
    }
}

proof fn lemma_invalid_stays(errors: Vec<JsError>, n: nat, m: nat)
    requires
        !all_valid(errors, n),
        n <= m <= errors.len(),
    ensures
        !all_valid(errors, m),
    decreases m - n,
{
    if n < m {
        lemma_invalid_stays(errors, n, (m - 1) as nat);
    }
}

fn append_indented(out: &mut String, text: &str)
    ensures
        final(out)@ == old(out)@ + indented_lines(lines_of(text@), lines_of(text@).len()),
{
    let shown = lines(text);
    let ghost all = lines_of(text@);
    let ghost start = out@;
    let mut i: usize = 0;
    while i < shown.len()
        invariant
            i <= shown.len(),
            all == Seq::new(shown@.len(), |k: int| shown@[k]@),
            out@ == start + indented_lines(all, i as nat),
        decreases shown.len() - i,
    {
        out.append("\n    ");
        out.append(shown[i].as_str());
        proof {
            assert(all[i as int] == shown@[i as int]@);
            assert(out@ =~= start + indented_lines(all, (i + 1) as nat));
        }
        i += 1;
    }
    proof {
        assert(out@ =~= start + indented_lines(all, all.len()));
    }
}

/// Shows `error`, as it stands alone or below another error.
pub fn format_js_error_inner(js_error: &JsError, is_child: bool, palette: &Palette) -> (out:
    String)
    requires
        error_is_valid(*js_error, is_child),
    ensures
        out@ == js_error_text(*js_error, is_child, *palette),
    decreases js_error,
{
    let mut s = js_error.exception_message.clone();
    let ghost message = s@;
    if let Some(aggregated) = &js_error.aggregated {
        let mut n: usize = 0;
        while n < aggregated.len()
            invariant
                n <= aggregated.len(),
                js_error.aggregated is Some,
                js_error.aggregated->Some_0 == *aggregated,
                all_valid(*aggregated, aggregated.len() as nat),
                s@ == message + aggregated_text(*aggregated, n as nat, *palette),
            decreases aggregated.len() - n,
        {
            proof {
                assert(decreases_to!(*js_error => js_error.aggregated));
                assert(decreases_to!(js_error.aggregated => js_error.aggregated->Some_0));
                lemma_valid_at(*aggregated, aggregated.len() as nat, n as int);
            }
            let error_string = format_js_error_inner(&aggregated[n], true, palette);
            let shown = trim_start_matches(error_string.as_str(), "Uncaught ");
            let ghost before = s@;
            append_indented(&mut s, shown.as_str());
            proof {
                assert(s@ =~= message + aggregated_text(*aggregated, (n + 1) as nat, *palette));
            }
            n += 1;
        }
    } else {
        proof {
            assert(s@ =~= message + Seq::<char>::empty());
        }
    }
    let ghost after_aggregated = s@;
    let column_number = match js_error.source_line_frame_index {
        Some(i) => js_error.frames[i].column_number,
        None => None,
    };
    let line = match &js_error.source_line {
        Some(line) => if is_child {
            None
        } else {
            Some(line.as_str())
        },
        None => None,
    };
    s.append(format_maybe_source_line(line, column_number, true, 0, palette).as_str());
    let ghost after_line = s@;
    let mut k: usize = 0;
    while k < js_error.frames.len()
        invariant
            k <= js_error.frames.len(),
            forall|j: int|
                0 <= j < js_error.frames.len() ==> frame_shows(#[trigger] js_error.frames[j]),
            s@ == after_line + frames_text(js_error.frames@, k as nat, *palette),
        decreases js_error.frames.len() - k,
    {
        s.append("\n    at ");
        s.append(format_frame(&js_error.frames[k], palette).as_str());
        proof {
            assert(s@ =~= after_line + frames_text(js_error.frames@, (k + 1) as nat, *palette));
        }
        k += 1;
    }
    let ghost after_frames = s@;
    if let Some(cause) = &js_error.cause {
        proof {
            assert(decreases_to!(*js_error => js_error.cause));
            assert(decreases_to!(js_error.cause => js_error.cause->Some_0));
        }
        let error_string = format_js_error_inner(cause, true, palette);
        s.append("\nCaused by: ");
        s.append(trim_start_matches(error_string.as_str(), "Uncaught ").as_str());
    }
    proof {
        assert(s@ =~= js_error_text(*js_error, is_child, *palette));
    }
    s
}

proof fn lemma_valid_at(errors: Vec<JsError>, n: nat, i: int)
    requires
        all_valid(errors, n),
        0 <= i < n <= errors.len(),
    ensures
        error_is_valid(errors[i], true),
    decreases n,
{
    if i < n - 1 {
        lemma_valid_at(errors, (n - 1) as nat, i);
    }
}

/// Shows `error` with its source line, its stack and its causes.
pub fn format_js_error(js_error: &JsError, palette: &Palette) -> (out: String)
    requires
        error_is_valid(*js_error, false),
    ensures
        out@ == js_error_text(*js_error, false, *palette),
{
    format_js_error_inner(js_error, false, palette)
}

} // verus!
