//! The diagnostic renderer: turns a list of diagnostics plus the relevant
//! source text into human-readable blocks.
//!
//! For each diagnostic the source to excerpt from is chosen by its span's
//! filename: an exact match in the execution's file contents wins, otherwise
//! the code the caller originally submitted is used. Diagnostics are never
//! reordered and never deduplicated.

use vstd::prelude::*;

use crate::script::{Diagnostic, FileContent, Severity};
use crate::text::dec_digits;

verus! {

// ---------------------------------------------------------------------------
// Source resolution
// ---------------------------------------------------------------------------
/// The first file content whose filename is `name`, if any.
pub open spec fn lookup_content(contents: Seq<FileContent>, name: Seq<char>) -> Option<FileContent>
    decreases contents.len(),
{
    if contents.len() == 0 {
        None
    } else if contents[0].filename@ == name {
        Some(contents[0])
    } else {
        lookup_content(contents.drop_first(), name)
    }
}

proof fn lemma_lookup_content_found(contents: Seq<FileContent>, name: Seq<char>, i: int)
    requires
        0 <= i < contents.len(),
        contents[i].filename@ == name,
        forall|j: int| 0 <= j < i ==> contents[j].filename@ != name,
    ensures
        lookup_content(contents, name) == Some(contents[i]),
    decreases i,
{
    if i > 0 {
        lemma_lookup_content_found(contents.drop_first(), name, i - 1);
    }
}

proof fn lemma_lookup_content_absent(contents: Seq<FileContent>, name: Seq<char>)
    requires
        forall|j: int| 0 <= j < contents.len() ==> contents[j].filename@ != name,
    ensures
        lookup_content(contents, name) is None,
    decreases contents.len(),
{
    if contents.len() > 0 {
        lemma_lookup_content_absent(contents.drop_first(), name);
    }
}

/// The source text a diagnostic on file `name` is rendered against.
pub open spec fn source_for(
    name: Seq<char>,
    default_source: Seq<char>,
    contents: Seq<FileContent>,
) -> Seq<char> {
    match lookup_content(contents, name) {
        Some(fc) => fc.content@,
        None => default_source,
    }
}

/// Selects the source text for one diagnostic: the content stored for its
/// filename when there is one, else the submitted code.
pub fn resolve_source<'a>(
    name: &String,
    default_source: &'a String,
    contents: &'a Vec<FileContent>,
) -> (r: &'a String)
    ensures
        r@ == source_for(name@, default_source@, contents@),
{
    let n = contents.len();
    let mut i: usize = 0;
    while i < n
        invariant
            i <= n,
            n == contents@.len(),
            forall|j: int| 0 <= j < i ==> contents@[j].filename@ != name@,
        decreases n - i,
    {
        if contents[i].filename.eq(name) {
            proof {
                lemma_lookup_content_found(contents@, name@, i as int);
            }
            return &contents[i].content;
        }
        i = i + 1;
    }
    proof {
        lemma_lookup_content_absent(contents@, name@);
    }
    default_source
}

// ---------------------------------------------------------------------------
// Line extraction
// ---------------------------------------------------------------------------
/// The `k`-th line (zero-based) of `s`, without its newline; empty when `s`
/// has fewer lines.
pub open spec fn line_at(s: Seq<char>, k: nat) -> Seq<char>
    decreases s.len(),
{
    if s.len() == 0 {
        Seq::empty()
    } else if s[0] == '\n' {
        if k == 0 {
            Seq::empty()
        } else {
            line_at(s.drop_first(), (k - 1) as nat)
        }
    } else {
        if k == 0 {
            seq![s[0]] + line_at(s.drop_first(), 0)
        } else {
            line_at(s.drop_first(), k)
        }
    }
}

proof fn lemma_line_at_first(t: Seq<char>, e: int)
    requires
        0 <= e <= t.len(),
        forall|j: int| 0 <= j < e ==> t[j] != '\n',
        e == t.len() || t[e] == '\n',
    ensures
        line_at(t, 0) == t.subrange(0, e),
    decreases e,
{
    if e == 0 {
        assert(t.subrange(0, 0) =~= Seq::<char>::empty());
    } else {
        lemma_line_at_first(t.drop_first(), e - 1);
        assert(t.drop_first().subrange(0, e - 1) =~= t.subrange(1, e));
        assert(seq![t[0]] + t.subrange(1, e) =~= t.subrange(0, e));
    }
}

/// Extracts the `k`-th line (zero-based) of `s`.
pub fn nth_line(s: &str, k: usize) -> (r: String)
    ensures
        r@ == line_at(s@, k as nat),
{
    let n = s.unicode_len();
    let mut pos: usize = 0;
    let mut remaining: usize = k;
    proof {
        assert(s@.subrange(0, n as int) =~= s@);
    }
    while remaining > 0 && pos < n
        invariant
            pos <= n,
            n == s@.len(),
            line_at(s@, k as nat) == line_at(s@.subrange(pos as int, n as int), remaining as nat),
        decreases n - pos,
    {
        let c = s.get_char(pos);
        proof {
            assert(s@.subrange(pos as int, n as int).drop_first() =~= s@.subrange(
                pos as int + 1,
                n as int,
            ));
        }
        if c == '\n' {
            remaining = remaining - 1;
        }
        pos = pos + 1;
    }
    if remaining > 0 {
        return String::new();
    }
    let mut end: usize = pos;
    while end < n
        invariant_except_break
            pos <= end <= n,
            n == s@.len(),
            forall|j: int| pos <= j < end ==> s@[j] != '\n',
        ensures
            pos <= end <= n,
            forall|j: int| pos <= j < end ==> s@[j] != '\n',
            end == s@.len() || s@[end as int] == '\n',
        decreases n - end,
    {
        if s.get_char(end) == '\n' {
            break;
        }
        end = end + 1;
    }
    proof {
        let t = s@.subrange(pos as int, n as int);
        lemma_line_at_first(t, end - pos);
        assert(t.subrange(0, end - pos) =~= s@.subrange(pos as int, end as int));
    }
    s.substring_char(pos, end).to_owned()
}

// ---------------------------------------------------------------------------
// Rendering
// ---------------------------------------------------------------------------
/// The label a diagnostic is announced with.
pub open spec fn severity_label(sev: Severity) -> Seq<char> {
    match sev {
        Severity::Syntax => "SyntaxError"@,
        Severity::Diagnostic { level } => if level == 0 {
            "Hint"@
        } else if level == 1 {
            "Info"@
        } else if level == 2 {
            "Warning"@
        } else {
            "Error"@
        },
        Severity::Runtime => "RuntimeError"@,
    }
}

/// The label a diagnostic is announced with.
pub fn severity_label_str(sev: &Severity) -> (r: &'static str)
    ensures
        r@ == severity_label(*sev),
{
    match sev {
        Severity::Syntax => "SyntaxError",
        Severity::Diagnostic { level } => {
            if *level == 0 {
                "Hint"
            } else if *level == 1 {
                "Info"
            } else if *level == 2 {
                "Warning"
            } else {
                "Error"
            }
        },
        Severity::Runtime => "RuntimeError",
    }
}

/// One rendered diagnostic: its label and location, the source line the
/// span starts on (when the span carries one), and the message.
pub open spec fn block_spec(d: Diagnostic, source: Seq<char>) -> Seq<char> {
    severity_label(d.severity) + " at "@ + d.span.filename@ + ":"@ + dec_digits(
        d.span.start.line as nat,
    ) + ":"@ + dec_digits(d.span.start.column as nat) + "\n"@ + (if d.span.start.line >= 1 {
        " | "@ + line_at(source, (d.span.start.line - 1) as nat) + "\n"@
    } else {
        Seq::<char>::empty()
    }) + d.message@
}

/// Renders one diagnostic against its chosen source text.
pub fn render_block(d: &Diagnostic, source: &String) -> (r: String)
    ensures
        r@ == block_spec(*d, source@),
{
    let mut s = String::new();
    s.append(severity_label_str(&d.severity));
    s.append(" at ");
    s.append(d.span.filename.as_str());
    s.append(":");
    s.append(crate::text::u64_to_string(d.span.start.line as u64).as_str());
    s.append(":");
    s.append(crate::text::u64_to_string(d.span.start.column as u64).as_str());
    s.append("\n");
    if d.span.start.line >= 1 {
        s.append(" | ");
        s.append(nth_line(source.as_str(), d.span.start.line - 1).as_str());
        s.append("\n");
    }
    s.append(d.message.as_str());
    proof {
        assert(s@ =~= block_spec(*d, source@));
    }
    s
}

/// All diagnostics rendered in order, each against its own chosen source,
/// joined by `sep`.
pub open spec fn render_all(
    diags: Seq<Diagnostic>,
    default_source: Seq<char>,
    contents: Seq<FileContent>,
    sep: Seq<char>,
) -> Seq<char>
    decreases diags.len(),
{
    if diags.len() == 0 {
        Seq::empty()
    } else if diags.len() == 1 {
        block_spec(diags[0], source_for(diags[0].span.filename@, default_source, contents))
    } else {
        block_spec(diags[0], source_for(diags[0].span.filename@, default_source, contents)) + sep
            + render_all(diags.drop_first(), default_source, contents, sep)
    }
}

proof fn lemma_render_all_snoc(
    diags: Seq<Diagnostic>,
    d: Diagnostic,
    default_source: Seq<char>,
    contents: Seq<FileContent>,
    sep: Seq<char>,
)
    ensures
        render_all(diags.push(d), default_source, contents, sep) == if diags.len() == 0 {
            block_spec(d, source_for(d.span.filename@, default_source, contents))
        } else {
            render_all(diags, default_source, contents, sep) + sep + block_spec(
                d,
                source_for(d.span.filename@, default_source, contents),
            )
        },
    decreases diags.len(),
{
    if diags.len() == 0 {
        assert(diags.push(d)[0] == d);
        assert(diags.push(d).len() == 1);
    } else {
        assert(diags.push(d).drop_first() =~= diags.drop_first().push(d));
        lemma_render_all_snoc(diags.drop_first(), d, default_source, contents, sep);
        if diags.len() == 1 {
            assert(render_all(diags.push(d), default_source, contents, sep) == block_spec(
                diags[0],
                source_for(diags[0].span.filename@, default_source, contents),
            ) + sep + block_spec(d, source_for(d.span.filename@, default_source, contents)));
        }
    }
}

/// Renders every diagnostic in order, joined by `sep`, choosing each
/// diagnostic's source by its filename as [`resolve_source`] does.
pub fn render(
    diags: &Vec<Diagnostic>,
    default_source: &String,
    contents: &Vec<FileContent>,
    sep: &str,
) -> (r: String)
    ensures
        r@ == render_all(diags@, default_source@, contents@, sep@),
{
    let mut s = String::new();
    let n = diags.len();
    let mut i: usize = 0;
    while i < n
        invariant
            i <= n,
            n == diags@.len(),
            s@ == render_all(diags@.subrange(0, i as int), default_source@, contents@, sep@),
        decreases n - i,
    {
        if i > 0 {
            s.append(sep);
        }
        let source = resolve_source(&diags[i].span.filename, default_source, contents);
        s.append(render_block(&diags[i], source).as_str());
        proof {
            assert(diags@.subrange(0, i as int).push(diags@[i as int]) =~= diags@.subrange(
                0,
                i as int + 1,
            ));
            lemma_render_all_snoc(
                diags@.subrange(0, i as int),
                diags@[i as int],
                default_source@,
                contents@,
                sep@,
            );
        }
        i = i + 1;
    }
    proof {
        assert(diags@.subrange(0, n as int) =~= diags@);
    }
    s
}

} // verus!
