use deno_bundler::fmt_errors::{
    fits_underline, format_frame, format_js_error, format_js_error_inner, format_location,
    format_maybe_source_line, JsError, JsStackFrame, Palette, Style,
};
use deno_bundler::text::{contains_text, ends_with, lines, signed_decimal, starts_with, trim_start_matches};

fn frame() -> JsStackFrame {
    JsStackFrame {
        receiver_type: None,
        function_name: None,
        method_name: None,
        file_name: Some("file:///a.ts".to_string()),
        line_number: Some(3),
        column_number: Some(7),
        eval_origin: None,
        is_top_level: None,
        is_eval: false,
        is_native: false,
        is_constructor: false,
        is_async: false,
        is_promise_all: false,
        promise_index: None,
    }
}

fn error(message: &str) -> JsError {
    JsError {
        name: None,
        message: None,
        stack: None,
        cause: None,
        exception_message: message.to_string(),
        frames: vec![],
        source_line: None,
        source_line_frame_index: None,
        aggregated: None,
    }
}

fn marks() -> Palette {
    let style = |open: &str, close: &str| Style { open: open.to_string(), close: close.to_string() };
    Palette {
        red: style("<r>", "</r>"),
        cyan: style("<c>", "</c>"),
        yellow: style("<y>", "</y>"),
        italic_bold: style("<b>", "</b>"),
    }
}

#[test]
fn location_shows_file_line_and_column() {
    let plain = Palette::plain();
    assert_eq!(format_location(&frame(), &plain), "file:///a.ts:3:7");
    assert_eq!(format_location(&frame(), &marks()), "<c>file:///a.ts</c>:<y>3</y>:<y>7</y>");
    let mut f = frame();
    f.column_number = None;
    assert_eq!(format_location(&f, &plain), "file:///a.ts:3");
    f.line_number = None;
    f.column_number = Some(7);
    assert_eq!(format_location(&f, &plain), "file:///a.ts");
    f.is_native = true;
    assert_eq!(format_location(&f, &plain), "native");
    assert_eq!(format_location(&f, &marks()), "<c>native</c>");
}

#[test]
fn location_without_a_file_is_anonymous() {
    let plain = Palette::plain();
    let mut f = frame();
    f.file_name = None;
    assert_eq!(format_location(&f, &plain), "<anonymous>:3:7");
    f.file_name = Some(String::new());
    f.is_eval = true;
    f.eval_origin = Some("eval at foo (file:///a.ts:1:1)".to_string());
    assert_eq!(format_location(&f, &plain), "eval at foo (file:///a.ts:1:1), <anonymous>:3:7");
    assert_eq!(
        format_location(&f, &marks()),
        "<c>eval at foo (file:///a.ts:1:1)</c>, <c><anonymous></c>:<y>3</y>:<y>7</y>"
    );
    f.line_number = Some(-1);
    assert_eq!(format_location(&f, &plain), "eval at foo (file:///a.ts:1:1), <anonymous>:-1:7");
}

#[test]
fn frames_show_what_is_called() {
    let plain = Palette::plain();
    let mut f = frame();
    assert_eq!(format_frame(&f, &plain), "<anonymous> (file:///a.ts:3:7)");
    f.function_name = Some("foo".to_string());
    assert_eq!(format_frame(&f, &plain), "foo (file:///a.ts:3:7)");
    f.receiver_type = Some("Bar".to_string());
    assert_eq!(format_frame(&f, &plain), "Bar.foo (file:///a.ts:3:7)");
    f.method_name = Some("baz".to_string());
    assert_eq!(format_frame(&f, &plain), "Bar.foo [as baz] (file:///a.ts:3:7)");
    assert_eq!(
        format_frame(&f, &marks()),
        "<b>Bar.foo [as baz]</b> (<c>file:///a.ts</c>:<y>3</y>:<y>7</y>)"
    );
    f.function_name = Some("Bar.foo".to_string());
    f.method_name = Some("foo".to_string());
    assert_eq!(format_frame(&f, &plain), "Bar.foo (file:///a.ts:3:7)");
    f.function_name = None;
    assert_eq!(format_frame(&f, &plain), "Bar.foo (file:///a.ts:3:7)");
    f.method_name = None;
    assert_eq!(format_frame(&f, &plain), "Bar.<anonymous> (file:///a.ts:3:7)");
}

#[test]
fn frames_show_constructors_and_the_top_level() {
    let plain = Palette::plain();
    let mut f = frame();
    f.is_constructor = true;
    assert_eq!(format_frame(&f, &plain), "new <anonymous> (file:///a.ts:3:7)");
    assert_eq!(
        format_frame(&f, &marks()),
        "new <c><anonymous></c> (<c>file:///a.ts</c>:<y>3</y>:<y>7</y>)"
    );
    f.function_name = Some("Foo".to_string());
    f.is_async = true;
    assert_eq!(format_frame(&f, &plain), "async new Foo (file:///a.ts:3:7)");
    let mut top = frame();
    top.is_top_level = Some(true);
    assert_eq!(format_frame(&top, &plain), "file:///a.ts:3:7");
    top.is_async = true;
    assert_eq!(format_frame(&top, &plain), "async file:///a.ts:3:7");
    top.function_name = Some("main".to_string());
    top.receiver_type = Some("Object".to_string());
    assert_eq!(format_frame(&top, &plain), "async main (file:///a.ts:3:7)");
    top.is_top_level = Some(false);
    assert_eq!(format_frame(&top, &plain), "async Object.main (file:///a.ts:3:7)");
}

#[test]
fn frames_show_promise_all() {
    let mut f = frame();
    f.is_promise_all = true;
    f.is_async = true;
    f.promise_index = Some(2);
    assert_eq!(format_frame(&f, &Palette::plain()), "async Promise.all (index 2)");
    assert_eq!(format_frame(&f, &marks()), "async <b>Promise.all (index 2)</b>");
    f.promise_index = None;
    f.is_async = false;
    assert_eq!(format_frame(&f, &Palette::plain()), "Promise.all (index 0)");
    f.file_name = None;
    f.is_eval = true;
    f.eval_origin = None;
    assert_eq!(format_frame(&f, &Palette::plain()), "Promise.all (index 0)");
    let mut e = error("Uncaught Error");
    e.frames = vec![f];
    assert!(e.is_valid(false));
    assert_eq!(
        format_js_error(&e, &Palette::plain()),
        "Uncaught Error\n    at Promise.all (index 0)"
    );
}

#[test]
fn source_line_is_underlined_at_the_column() {
    let plain = Palette::plain();
    assert_eq!(
        format_maybe_source_line(Some("  throw new Error();"), Some(9), true, 0, &plain),
        "\n  throw new Error();\n        ^"
    );
    assert_eq!(
        format_maybe_source_line(Some("\tfoo(\tbar);"), Some(7), true, 0, &plain),
        "\n\tfoo(\tbar);\n\t    \t^"
    );
    assert_eq!(
        format_maybe_source_line(Some("abc"), Some(2), true, 2, &marks()),
        "\n  abc\n  <r> ^</r>"
    );
    assert_eq!(
        format_maybe_source_line(Some("abc"), Some(2), false, 0, &marks()),
        "\nabc\n<c> ^</c>"
    );
    assert_eq!(format_maybe_source_line(Some("abc"), Some(1), true, 0, &plain), "\nabc\n^");
    assert_eq!(format_maybe_source_line(Some("abc"), Some(0), true, 0, &plain), "\nabc\n^");
    assert_eq!(format_maybe_source_line(Some("abc"), Some(3), true, 0, &plain), "\nabc\n  ^");
}

#[test]
fn source_line_is_left_out_where_it_cannot_be_shown() {
    let plain = Palette::plain();
    assert_eq!(format_maybe_source_line(None, Some(1), true, 0, &plain), "");
    assert_eq!(format_maybe_source_line(Some("abc"), None, true, 0, &plain), "");
    assert_eq!(format_maybe_source_line(Some(""), Some(1), true, 0, &plain), "");
    let long = "x".repeat(151);
    assert_eq!(format_maybe_source_line(Some(&long), Some(1), true, 0, &plain), "");
    let longest = "x".repeat(150);
    assert_eq!(
        format_maybe_source_line(Some(&longest), Some(1), true, 0, &plain),
        format!("\n{}\n^", longest)
    );
    let wide = "\u{e9}".repeat(76);
    assert_eq!(format_maybe_source_line(Some(&wide), Some(1), true, 0, &plain), "");
    assert_eq!(
        format_maybe_source_line(
            Some("Couldn't format source line: Column 9 is out of bounds"),
            Some(1),
            true,
            0,
            &plain
        ),
        "\nCouldn't format source line: Column 9 is out of bounds"
    );
}

#[test]
fn column_outside_the_line_gives_a_warning() {
    assert_eq!(
        format_maybe_source_line(Some("abc"), Some(4), true, 0, &Palette::plain()),
        "\nWarning Couldn't format source line: Column 4 is out of bounds (source may have changed at runtime)"
    );
    assert_eq!(
        format_maybe_source_line(Some("abc"), Some(-2), true, 0, &marks()),
        "\n<y>Warning</y> Couldn't format source line: Column -2 is out of bounds (source may have changed at runtime)"
    );
}

#[test]
fn underline_has_to_fit_the_characters() {
    assert!(fits_underline(Some("abc"), Some(3)));
    assert!(fits_underline(Some("abc"), Some(9)));
    assert!(fits_underline(None, Some(9)));
    assert!(fits_underline(Some("\u{e9}\u{e9}"), Some(3)));
    assert!(!fits_underline(Some("\u{e9}\u{e9}"), Some(4)));
    assert_eq!(
        format_maybe_source_line(Some("\u{e9}\u{e9}"), Some(3), true, 0, &Palette::plain()),
        "\n\u{e9}\u{e9}\n  ^"
    );
}

#[test]
fn error_shows_message_line_and_stack() {
    let mut e = error("Uncaught Error: boom");
    e.source_line = Some("  throw new Error('boom');".to_string());
    e.source_line_frame_index = Some(0);
    let mut inner = frame();
    inner.function_name = Some("fail".to_string());
    inner.is_top_level = Some(true);
    let mut outer = frame();
    outer.is_top_level = Some(true);
    outer.line_number = Some(10);
    outer.column_number = Some(1);
    e.frames = vec![inner, outer];
    assert!(e.is_valid(false));
    assert_eq!(
        format_js_error(&e, &Palette::plain()),
        "Uncaught Error: boom\n  throw new Error('boom');\n      ^\n    at fail (file:///a.ts:3:7)\n    at file:///a.ts:10:1"
    );
    assert_eq!(
        format_js_error_inner(&e, true, &Palette::plain()),
        "Uncaught Error: boom\n    at fail (file:///a.ts:3:7)\n    at file:///a.ts:10:1"
    );
}

#[test]
fn error_shows_its_cause_and_what_it_gathers() {
    let mut first = error("Uncaught Error: one\nsecond line");
    first.frames = vec![frame()];
    let second = error("Uncaught Uncaught TypeError: two");
    let mut cause = error("Uncaught Error: root");
    cause.source_line = Some("hidden();".to_string());
    cause.source_line_frame_index = Some(0);
    cause.frames = vec![frame()];
    let mut e = error("Uncaught AggregateError: many");
    e.aggregated = Some(vec![first, second]);
    e.cause = Some(Box::new(cause));
    assert!(e.is_valid(false));
    assert_eq!(
        format_js_error(&e, &Palette::plain()),
        "Uncaught AggregateError: many\n    Error: one\n    second line\n        at <anonymous> (file:///a.ts:3:7)\n    TypeError: two\nCaused by: Error: root\n    at <anonymous> (file:///a.ts:3:7)"
    );
}

#[test]
fn error_with_a_frame_index_out_of_range_is_not_valid() {
    let mut e = error("Uncaught Error");
    e.source_line_frame_index = Some(0);
    assert!(!e.is_valid(false));
    assert!(!e.is_valid(true));
    let mut parent = error("Uncaught Error");
    parent.aggregated = Some(vec![error("fine"), e]);
    assert!(!parent.is_valid(false));
    let mut bad_frame = frame();
    bad_frame.file_name = None;
    bad_frame.is_eval = true;
    let mut with_frame = error("Uncaught Error");
    with_frame.frames = vec![bad_frame];
    assert!(!with_frame.is_valid(false));
    let mut narrow = error("Uncaught Error");
    narrow.source_line = Some("\u{e9}\u{e9}".to_string());
    narrow.source_line_frame_index = Some(0);
    let mut at = frame();
    at.column_number = Some(4);
    narrow.frames = vec![at];
    assert!(!narrow.is_valid(false));
    assert!(narrow.is_valid(true));
}

#[test]
fn text_helpers_behave_like_their_std_namesakes() {
    for (hay, needle) in [("abcabc", "abc"), ("abc", ""), ("", ""), ("ab", "abc"), ("xabc", "abc"), ("aab", "ab")] {
        assert_eq!(starts_with(hay, needle), hay.starts_with(needle));
        assert_eq!(ends_with(hay, needle), hay.ends_with(needle));
        assert_eq!(contains_text(hay, needle), hay.contains(needle));
    }
    for (text, prefix) in [("Uncaught Uncaught x", "Uncaught "), ("xUncaught ", "Uncaught "), ("aaa", "a"), ("aaa", "aa"), ("", "a")] {
        assert_eq!(trim_start_matches(text, prefix), text.trim_start_matches(prefix));
    }
    for text in ["", "a", "a\n", "a\nb", "a\r\nb\r\n", "\n", "\n\n", "a\r", "a\rb\n", "\r\n", "a\n\r", "a\r\r\n"] {
        let expected: Vec<String> = text.lines().map(|l| l.to_string()).collect();
        assert_eq!(lines(text), expected);
    }
    assert_eq!(signed_decimal(0), "0");
    assert_eq!(signed_decimal(-7), "-7");
    assert_eq!(signed_decimal(i64::MIN), "-9223372036854775808");
    assert_eq!(signed_decimal(i64::MAX), "9223372036854775807");
}
