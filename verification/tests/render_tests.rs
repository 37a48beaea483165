use smarthome_cli::render::{nth_line, render, render_block, resolve_source, severity_label_str};
use smarthome_cli::script::{
    Diagnostic, FileContent, Severity, SourceLocation, SourceSpan,
};
use smarthome_cli::text::{i32_to_string, trim_end, u64_to_string};

fn diag(file: &str, line: usize, column: usize, severity: Severity, message: &str) -> Diagnostic {
    Diagnostic {
        span: SourceSpan {
            filename: file.to_string(),
            start: SourceLocation { line, column },
            end: SourceLocation { line, column: column + 1 },
        },
        severity,
        message: message.to_string(),
    }
}

#[test]
fn numbers_format_in_decimal() {
    assert_eq!(u64_to_string(0), "0");
    assert_eq!(u64_to_string(7), "7");
    assert_eq!(u64_to_string(30189), "30189");
    assert_eq!(i32_to_string(0), "0");
    assert_eq!(i32_to_string(42), "42");
    assert_eq!(i32_to_string(-7), "-7");
    assert_eq!(i32_to_string(i32::MIN), "-2147483648");
}

#[test]
fn trailing_whitespace_is_trimmed() {
    assert_eq!(trim_end("hello \n\t "), "hello");
    assert_eq!(trim_end("  keep leading "), "  keep leading");
    assert_eq!(trim_end(""), "");
    assert_eq!(trim_end(" \n "), "");
}

#[test]
fn lines_are_extracted_zero_based() {
    let code = "first\nsecond\nthird";
    assert_eq!(nth_line(code, 0), "first");
    assert_eq!(nth_line(code, 1), "second");
    assert_eq!(nth_line(code, 2), "third");
    assert_eq!(nth_line(code, 3), "");
    assert_eq!(nth_line("", 0), "");
}

#[test]
fn severity_labels() {
    assert_eq!(severity_label_str(&Severity::Syntax), "SyntaxError");
    assert_eq!(severity_label_str(&Severity::Diagnostic { level: 0 }), "Hint");
    assert_eq!(severity_label_str(&Severity::Diagnostic { level: 1 }), "Info");
    assert_eq!(severity_label_str(&Severity::Diagnostic { level: 2 }), "Warning");
    assert_eq!(severity_label_str(&Severity::Diagnostic { level: 3 }), "Error");
    assert_eq!(severity_label_str(&Severity::Runtime), "RuntimeError");
}

#[test]
fn a_block_shows_label_location_excerpt_and_message() {
    let d = diag("main.hms", 2, 5, Severity::Diagnostic { level: 3 }, "unknown name");
    let source = "let a = 1\nbroken line\nlet b = 2".to_string();
    assert_eq!(
        render_block(&d, &source),
        "Error at main.hms:2:5\n | broken line\nunknown name"
    );
}

#[test]
fn a_block_without_a_line_has_no_excerpt() {
    let d = diag("main.hms", 0, 0, Severity::Runtime, "stack overflow");
    let source = "code".to_string();
    assert_eq!(render_block(&d, &source), "RuntimeError at main.hms:0:0\nstack overflow");
}

#[test]
fn diagnostics_prefer_their_own_file_content() {
    let default_source = "the submitted code".to_string();
    let contents = vec![
        FileContent { filename: "lib.hms".to_string(), content: "library text".to_string() },
    ];
    let hit = resolve_source(&"lib.hms".to_string(), &default_source, &contents);
    assert_eq!(hit, "library text");
    let miss = resolve_source(&"absent.hms".to_string(), &default_source, &contents);
    assert_eq!(miss, "the submitted code");
}

#[test]
fn rendering_keeps_order_and_separators() {
    let diags = vec![
        diag("a.hms", 1, 1, Severity::Syntax, "first"),
        diag("b.hms", 1, 1, Severity::Syntax, "second"),
        diag("a.hms", 1, 1, Severity::Syntax, "first"),
    ];
    let default_source = "default line".to_string();
    let contents = vec![
        FileContent { filename: "b.hms".to_string(), content: "b line".to_string() },
    ];
    let out = render(&diags, &default_source, &contents, "\n\n");
    let blocks: Vec<&str> = out.split("\n\n").collect();
    assert_eq!(blocks.len(), 3, "no deduplication, no reordering");
    assert_eq!(blocks[0], "SyntaxError at a.hms:1:1\n | default line\nfirst");
    assert_eq!(blocks[1], "SyntaxError at b.hms:1:1\n | b line\nsecond");
    assert_eq!(blocks[2], blocks[0]);
}

#[test]
fn rendering_nothing_is_empty() {
    let out = render(&Vec::new(), &"code".to_string(), &Vec::new(), "\n\n");
    assert_eq!(out, "");
}
