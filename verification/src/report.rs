//! The diagnostic report: the header, one trace line for each frame that
//! remapped, and the source line of the innermost frame with a caret under
//! the offending column.

use vstd::prelude::*;
use vstd::string::StringExecFns;
use vstd::string::StrSliceExecFns;
use crate::remap::{
    outcome_view, outcomes_view, position_of, line_at, remap_frames, remapped, remapped_frames,
    RemappedFrame, RemappedFrameView, ScriptError, ScriptErrorView, StackFrameView,
};
use crate::source_map::{SourceMapView, SourceMapping, TokenView};
use crate::text::{decimal, opt_view, push_char, push_decimal, text_or, view_or};

verus! {

/// The source line of the innermost frame and the caret line under it.
#[derive(Clone, Debug, PartialEq, Eq)]
pub struct Snippet {
    pub source_line: String,
    pub caret_line: String,
}

/// The mathematical value of a [`Snippet`].
pub ghost struct SnippetView {
    pub source_line: Seq<char>,
    pub caret_line: Seq<char>,
}

impl View for Snippet {
    type V = SnippetView;

    open spec fn view(&self) -> SnippetView {
        SnippetView { source_line: self.source_line@, caret_line: self.caret_line@ }
    }
}

/// A report in parts, for callers that style the parts differently.
#[derive(Clone, Debug, PartialEq, Eq)]
pub struct Report {
    /// The error's name as shown.
    pub name: String,
    /// The error's message as shown.
    pub message: String,
    /// The trace lines, without line breaks, innermost frame first.
    pub trace: Vec<String>,
    /// The source snippet, where there is one.
    pub snippet: Option<Snippet>,
}

/// The mathematical value of a [`Report`].
pub ghost struct ReportView {
    pub name: Seq<char>,
    pub message: Seq<char>,
    pub trace: Seq<Seq<char>>,
    pub snippet: Option<SnippetView>,
}

impl View for Report {
    type V = ReportView;

    open spec fn view(&self) -> ReportView {
        ReportView {
            name: self.name@,
            message: self.message@,
            trace: self.trace@.map_values(|line: String| line@),
            snippet: match self.snippet {
                Some(s) => Some(s@),
                None => None,
            },
        }
    }
}

/// The trace line of one remapped frame, without a line break.
pub open spec fn location_line(frame: RemappedFrameView) -> Seq<char> {
    "    at "@ + frame.function + " ("@ + frame.file + ":"@ + decimal(frame.line as nat) + ":"@
        + decimal(frame.column as nat) + ")"@
}

/// The trace lines: one for each frame that remapped, in order; none for a
/// frame that did not.
pub open spec fn trace_lines(frames: Seq<Option<RemappedFrameView>>) -> Seq<Seq<char>>
    decreases frames.len(),
{
    if frames.len() == 0 {
        Seq::empty()
    } else {
        trace_lines(frames.drop_last()) + match frames.last() {
            Some(frame) => seq![location_line(frame)],
            None => Seq::empty(),
        }
    }
}

/// Zero-based index of the caret under a line of `len` characters for the
/// one-based `column`, clamped to the line's length.
pub open spec fn caret_index(len: nat, column: u32) -> nat {
    let wanted: nat = if column >= 1 {
        (column - 1) as nat
    } else {
        0
    };
    if wanted <= len {
        wanted
    } else {
        len
    }
}

/// The caret line: as long as the source line, blank but for a caret at the
/// caret index. A column past the end of the line leaves it blank.
pub open spec fn caret_line(source_line: Seq<char>, column: u32) -> Seq<char> {
    Seq::new(
        source_line.len(),
        |i: int|
            if i == caret_index(source_line.len(), column) {
                '^'
            } else {
                ' '
            },
    )
}

/// The source snippet: for the innermost frame only, and only where it
/// remapped.
pub open spec fn snippet_of(frames: Seq<Option<RemappedFrameView>>) -> Option<SnippetView> {
    if frames.len() > 0 && frames[0] is Some {
        let frame = frames[0]->Some_0;
        Some(
            SnippetView {
                source_line: frame.source_line,
                caret_line: caret_line(frame.source_line, frame.column),
            },
        )
    } else {
        None
    }
}

/// The parts of the report for an error whose frames remapped as `frames`
/// says. A missing name shows as `Error`, a missing message as
/// `Unknown error`.
pub open spec fn parts(
    name: Option<Seq<char>>,
    message: Option<Seq<char>>,
    frames: Seq<Option<RemappedFrameView>>,
) -> ReportView {
    ReportView {
        name: view_or(name, "Error"@),
        message: view_or(message, "Unknown error"@),
        trace: trace_lines(frames),
        snippet: snippet_of(frames),
    }
}

/// The lines, each led by a line break.
pub open spec fn lines_text(lines: Seq<Seq<char>>) -> Seq<char>
    decreases lines.len(),
{
    if lines.len() == 0 {
        Seq::empty()
    } else {
        lines_text(lines.drop_last()) + "\n"@ + lines.last()
    }
}

/// The snippet as text: a blank line, the source line, the caret line.
pub open spec fn snippet_text(snippet: Option<SnippetView>) -> Seq<char> {
    match snippet {
        Some(s) => "\n\n"@ + s.source_line + "\n"@ + s.caret_line,
        None => Seq::empty(),
    }
}

/// The report as one text: the header line `name: message`, the trace
/// lines, the snippet.
pub open spec fn text_of(report: ReportView) -> Seq<char> {
    report.name + ": "@ + report.message + lines_text(report.trace) + snippet_text(report.snippet)
}

/// The text of the report for an error whose frames remapped as `frames`
/// says.
pub open spec fn rendered(
    name: Option<Seq<char>>,
    message: Option<Seq<char>>,
    frames: Seq<Option<RemappedFrameView>>,
) -> Seq<char> {
    text_of(parts(name, message, frames))
}

/// The text of the report for `error` under `map`.
pub open spec fn report(map: SourceMapView, error: ScriptErrorView) -> Seq<char> {
    rendered(error.name, error.message, remapped_frames(map, error))
}

/// The trace line of `frame`, without a line break.
fn location_text(frame: &RemappedFrame) -> (line: String)
    ensures
        line@ == location_line(frame@),
{
    let mut line = String::from_str("    at ");
    line.append(frame.function.as_str());
    line.append(" (");
    line.append(frame.file.as_str());
    line.append(":");
    push_decimal(&mut line, frame.line);
    line.append(":");
    push_decimal(&mut line, frame.column);
    line.append(")");
    assert(line@ =~= location_line(frame@));
    line
}

/// The caret line for `source_line` and the one-based `column`.
fn caret_text(source_line: &str, column: u32) -> (line: String)
    ensures
        line@ == caret_line(source_line@, column),
{
    let len: usize = source_line.unicode_len();
    let wanted: usize = if column >= 1 {
        (column - 1) as usize
    } else {
        0
    };
    let caret: usize = if wanted <= len {
        wanted
    } else {
        len
    };
    proof {
        reveal_strlit("^");
        reveal_strlit(" ");
    }
    let mut line = String::new();
    let mut i: usize = 0;
    while i < len
        invariant
            i <= len,
            len == source_line@.len(),
            caret == caret_index(source_line@.len(), column),
            "^"@ == seq!['^'],
            " "@ == seq![' '],
            line@ == caret_line(source_line@, column).subrange(0, i as int),
        decreases len - i,
    {
        if i == caret {
            line.append("^");
        } else {
            line.append(" ");
        }
        i += 1;
        assert(line@ =~= caret_line(source_line@, column).subrange(0, i as int));
    }
    assert(line@ =~= caret_line(source_line@, column));
    line
}

/// Builds the parts of the report for an error whose frames remapped as
/// `frames` says, entry by entry.
pub fn compose(
    name: &Option<String>,
    message: &Option<String>,
    frames: &Vec<Option<RemappedFrame>>,
) -> (report: Report)
    ensures
        report@ == parts(opt_view(*name), opt_view(*message), outcomes_view(frames@)),
{
    let ghost views = outcomes_view(frames@);
    let mut trace: Vec<String> = Vec::new();
    let mut i: usize = 0;
    assert(views.subrange(0, 0) =~= Seq::<Option<RemappedFrameView>>::empty());
    while i < frames.len()
        invariant
            i <= frames@.len(),
            views == outcomes_view(frames@),
            trace@.map_values(|line: String| line@) == trace_lines(views.subrange(0, i as int)),
        decreases frames@.len() - i,
    {
        match &frames[i] {
            Some(frame) => {
                let line = location_text(frame);
                trace.push(line);
            },
            None => {},
        }
        proof {
            let upto = views.subrange(0, i + 1);
            assert(upto.drop_last() =~= views.subrange(0, i as int));
            assert(upto.last() == views[i as int]);
            assert(views[i as int] == outcome_view(frames@[i as int]));
            assert(trace@.map_values(|line: String| line@) =~= trace_lines(upto));
        }
        i += 1;
    }
    assert(views.subrange(0, frames@.len() as int) =~= views);
    let snippet = if frames.len() > 0 {
        assert(views[0] == outcome_view(frames@[0]));
        match &frames[0] {
            Some(frame) => Some(
                Snippet {
                    source_line: frame.source_line.clone(),
                    caret_line: caret_text(frame.source_line.as_str(), frame.column),
                },
            ),
            None => None,
        }
    } else {
        None
    };
    Report {
        name: String::from_str(text_or(name, "Error")),
        message: String::from_str(text_or(message, "Unknown error")),
        trace,
        snippet,
    }
}

impl Report {
    /// The report as one text.
    pub fn to_text(&self) -> (text: String)
        ensures
            text@ == text_of(self@),
    {
        let ghost lines = self.trace@.map_values(|line: String| line@);
        let mut text = String::new();
        text.append(self.name.as_str());
        text.append(": ");
        text.append(self.message.as_str());
        let ghost head = text@;
        assert(head =~= self@.name + ": "@ + self@.message);
        let mut i: usize = 0;
        assert(lines.subrange(0, 0) =~= Seq::<Seq<char>>::empty());
        while i < self.trace.len()
            invariant
                i <= self.trace@.len(),
                lines == self.trace@.map_values(|line: String| line@),
                text@ == head + lines_text(lines.subrange(0, i as int)),
            decreases self.trace@.len() - i,
        {
            text.append("\n");
            text.append(self.trace[i].as_str());
            proof {
                let upto = lines.subrange(0, i + 1);
                assert(upto.drop_last() =~= lines.subrange(0, i as int));
                assert(upto.last() == self.trace@[i as int]@);
                assert(text@ =~= head + lines_text(upto));
            }
            i += 1;
        }
        assert(lines.subrange(0, self.trace@.len() as int) =~= lines);
        let ghost traced = text@;
        match &self.snippet {
            Some(snippet) => {
                text.append("\n\n");
                text.append(snippet.source_line.as_str());
                text.append("\n");
                text.append(snippet.caret_line.as_str());
                assert(text@ =~= traced + snippet_text(self@.snippet));
            },
            None => {
                assert(text@ =~= traced + snippet_text(self@.snippet));
            },
        }
        text
    }
}

/// Formats the report for an error whose frames remapped as `frames` says,
/// entry by entry: the header, the trace, and the snippet of the innermost
/// frame.
pub fn render(name: &Option<String>, message: &Option<String>, frames: &Vec<Option<RemappedFrame>>) -> (out:
    String)
    ensures
        out@ == rendered(opt_view(*name), opt_view(*message), outcomes_view(frames@)),
{
    compose(name, message, frames).to_text()
}

/// Builds the parts of the report for an uncaught error: remaps each frame
/// through the source map and composes the report from the outcomes.
pub fn report_parts(error: &ScriptError, smap: &SourceMapping) -> (report: Report)
    ensures
        report@ == parts(error@.name, error@.message, remapped_frames(smap@, error@)),
{
    let outcomes = remap_frames(error, smap);
    compose(&error.name, &error.message, &outcomes)
}

/// Formats the report for an uncaught error: the header line, one trace line
/// for each frame that remaps through the source map, and the source line
/// of the innermost frame with a caret under its column.
pub fn format_js_error_as_node(error: &ScriptError, smap: &SourceMapping) -> (out: String)
    ensures
        out@ == report(smap@, error@),
{
    report_parts(error, smap).to_text()
}

/// The trace lines of two runs of frames, one after the other, are those of
/// the first followed by those of the second.
pub proof fn lemma_trace_lines_concat(
    first: Seq<Option<RemappedFrameView>>,
    second: Seq<Option<RemappedFrameView>>,
)
    ensures
        trace_lines(first + second) == trace_lines(first) + trace_lines(second),
    decreases second.len(),
{
    if second.len() == 0 {
        assert(first + second =~= first);
        assert(trace_lines(first) + trace_lines(second) =~= trace_lines(first));
    } else {
        lemma_trace_lines_concat(first, second.drop_last());
        assert((first + second).drop_last() =~= first + second.drop_last());
        assert((first + second).last() == second.last());
        assert(trace_lines(first + second) =~= trace_lines(first) + trace_lines(second));
    }
}

/// The text of two runs of lines, one after the other, is the text of the
/// first followed by the text of the second.
pub proof fn lemma_lines_text_concat(first: Seq<Seq<char>>, second: Seq<Seq<char>>)
    ensures
        lines_text(first + second) == lines_text(first) + lines_text(second),
    decreases second.len(),
{
    if second.len() == 0 {
        assert(first + second =~= first);
        assert(lines_text(first) + lines_text(second) =~= lines_text(first));
    } else {
        lemma_lines_text_concat(first, second.drop_last());
        assert((first + second).drop_last() =~= first + second.drop_last());
        assert((first + second).last() == second.last());
        assert(lines_text(first + second) =~= lines_text(first) + lines_text(second));
    }
}

/// The caret line is as long as the source line, and holds a caret exactly
/// at the zero-based index `column - 1`, blanks elsewhere. Where the column
/// lies past the end of the line there is no caret.
pub proof fn lemma_caret_position(source_line: Seq<char>, column: u32)
    requires
        column >= 1,
    ensures
        caret_line(source_line, column).len() == source_line.len(),
        forall|i: int|
            0 <= i < source_line.len() ==> #[trigger] caret_line(source_line, column)[i] == (if i
                == column - 1 {
                '^'
            } else {
                ' '
            }),
{
}

/// Where the map resolves the innermost frame's position to a mapped token
/// whose source line is embedded, the report is the header, then the trace
/// line of that frame in one-based authored coordinates, then the trace
/// lines of the remaining frames, then a blank line, the source line, and
/// under it the caret line.
pub proof fn lemma_innermost_frame_shown(
    map: SourceMapView,
    error: ScriptErrorView,
    token: TokenView,
    text: Seq<char>,
)
    requires
        error.frames.len() > 0,
        position_of(error.frames[0]) matches Some(position) && map.tokens.contains_key(position)
            && map.tokens[position] == token,
        token.src_line < u32::MAX,
        token.src_col < u32::MAX,
        line_at(map, token) == Some(Some(text)),
    ensures
        ({
            let shown = RemappedFrameView {
                file: view_or(token.source, "unknown"@),
                line: (token.src_line + 1) as u32,
                column: (token.src_col + 1) as u32,
                function: view_or(token.name, "<anonymous>"@),
                source_line: text,
            };
            let rest = error.frames.subrange(1, error.frames.len() as int).map_values(
                |frame: StackFrameView| remapped(map, frame),
            );
            &&& remapped(map, error.frames[0]) == Some(shown)
            &&& report(map, error) == view_or(error.name, "Error"@) + ": "@ + view_or(
                error.message,
                "Unknown error"@,
            ) + "\n"@ + location_line(shown) + lines_text(trace_lines(rest)) + "\n\n"@ + text
                + "\n"@ + caret_line(text, shown.column)
        }),
{
    let shown = RemappedFrameView {
        file: view_or(token.source, "unknown"@),
        line: (token.src_line + 1) as u32,
        column: (token.src_col + 1) as u32,
        function: view_or(token.name, "<anonymous>"@),
        source_line: text,
    };
    let all = remapped_frames(map, error);
    let rest = error.frames.subrange(1, error.frames.len() as int).map_values(
        |frame: StackFrameView| remapped(map, frame),
    );
    let first = seq![Some(shown)];
    assert(all =~= first + rest);
    lemma_trace_lines_concat(first, rest);
    assert(first.drop_last() =~= Seq::<Option<RemappedFrameView>>::empty());
    assert(trace_lines(first) =~= seq![location_line(shown)]) by {
        reveal_with_fuel(trace_lines, 2);
    }
    lemma_lines_text_concat(seq![location_line(shown)], trace_lines(rest));
    assert(seq![location_line(shown)].drop_last() =~= Seq::<Seq<char>>::empty());
    assert(lines_text(seq![location_line(shown)]) =~= "\n"@ + location_line(shown)) by {
        reveal_with_fuel(lines_text, 2);
    }
    assert(report(map, error) =~= view_or(error.name, "Error"@) + ": "@ + view_or(
        error.message,
        "Unknown error"@,
    ) + "\n"@ + location_line(shown) + lines_text(trace_lines(rest)) + "\n\n"@ + text + "\n"@
        + caret_line(text, shown.column));
}


/// The marks that a terminal takes before and after a piece of text to show
/// it in a style. Both empty leaves the text plain.
#[derive(Clone, Debug, PartialEq, Eq)]
pub struct Style {
    pub open: String,
    pub close: String,
}

/// The mathematical value of a [`Style`].
pub ghost struct StyleView {
    pub open: Seq<char>,
    pub close: Seq<char>,
}

impl View for Style {
    type V = StyleView;

    open spec fn view(&self) -> StyleView {
        StyleView { open: self.open@, close: self.close@ }
    }
}

/// The styles of a report: one for the name and the message, one for the
/// trace lines, one for the caret.
#[derive(Clone, Debug, PartialEq, Eq)]
pub struct Palette {
    pub title: Style,
    pub trace: Style,
    pub caret: Style,
}

/// The mathematical value of a [`Palette`].
pub ghost struct PaletteView {
    pub title: StyleView,
    pub trace: StyleView,
    pub caret: StyleView,
}

impl View for Palette {
    type V = PaletteView;

    open spec fn view(&self) -> PaletteView {
        PaletteView { title: self.title@, trace: self.trace@, caret: self.caret@ }
    }
}

/// The style that leaves text as it is.
pub open spec fn plain_style() -> StyleView {
    StyleView { open: Seq::empty(), close: Seq::empty() }
}

/// The palette that leaves a report as it is.
pub open spec fn plain_palette() -> PaletteView {
    PaletteView { title: plain_style(), trace: plain_style(), caret: plain_style() }
}

/// A piece of text between the marks of a style.
pub open spec fn styled(style: StyleView, text: Seq<char>) -> Seq<char> {
    style.open + text + style.close
}

/// The lines, each led by a line break and set between the marks of the
/// style.
pub open spec fn styled_lines(lines: Seq<Seq<char>>, style: StyleView) -> Seq<char>
    decreases lines.len(),
{
    if lines.len() == 0 {
        Seq::empty()
    } else {
        styled_lines(lines.drop_last(), style) + "\n"@ + styled(style, lines.last())
    }
}

/// A line with every caret in it set between the marks of the style.
pub open spec fn styled_carets(line: Seq<char>, style: StyleView) -> Seq<char>
    decreases line.len(),
{
    if line.len() == 0 {
        Seq::empty()
    } else if line.last() == '^' {
        styled_carets(line.drop_last(), style) + styled(style, seq!['^'])
    } else {
        styled_carets(line.drop_last(), style).push(line.last())
    }
}

/// The snippet as styled text: a blank line, the source line, and the caret
/// line with its caret in the caret style.
pub open spec fn styled_snippet(snippet: Option<SnippetView>, style: StyleView) -> Seq<char> {
    match snippet {
        Some(s) => "\n\n"@ + s.source_line + "\n"@ + styled_carets(s.caret_line, style),
        None => Seq::empty(),
    }
}

/// The report as one styled text: laid out as [`text_of`] lays it out, with
/// the marks of the palette around the name, the message, each trace line
/// and the caret.
pub open spec fn styled_text_of(report: ReportView, palette: PaletteView) -> Seq<char> {
    styled(palette.title, report.name) + ": "@ + styled(palette.title, report.message)
        + styled_lines(report.trace, palette.trace) + styled_snippet(report.snippet, palette.caret)
}

impl Style {
    /// The style that leaves text as it is.
    pub fn plain() -> (style: Style)
        ensures
            style@ == plain_style(),
    {
        Style { open: String::new(), close: String::new() }
    }
}

impl Palette {
    /// The palette that leaves a report as it is.
    pub fn plain() -> (palette: Palette)
        ensures
            palette@ == plain_palette(),
    {
        Palette { title: Style::plain(), trace: Style::plain(), caret: Style::plain() }
    }
}

/// Appends `text` between the marks of `style`.
fn push_styled(out: &mut String, style: &Style, text: &str)
    ensures
        final(out)@ == old(out)@ + styled(style@, text@),
{
    out.append(style.open.as_str());
    out.append(text);
    out.append(style.close.as_str());
    assert(out@ =~= old(out)@ + styled(style@, text@));
}

/// Appends `line` with every caret in it between the marks of `style`.
fn push_styled_carets(out: &mut String, line: &str, style: &Style)
    ensures
        final(out)@ == old(out)@ + styled_carets(line@, style@),
{
    proof {
        reveal_strlit("^");
    }
    assert(line@.subrange(0, 0) =~= Seq::<char>::empty());
    for c in it: line.chars()
        invariant
            it.seq() == line@,
            "^"@ == seq!['^'],
            out@ == old(out)@ + styled_carets(line@.subrange(0, it.index() as int), style@),
    {
        let ghost done = line@.subrange(0, it.index() as int);
        let ghost upto = line@.subrange(0, it.index() + 1);
        assert(upto.drop_last() =~= done);
        assert(upto.last() == c);
        if c == '^' {
            push_styled(out, style, "^");
        } else {
            push_char(out, c);
        }
        assert(out@ =~= old(out)@ + styled_carets(upto, style@));
    }
    assert(line@.subrange(0, line@.len() as int) =~= line@);
}

impl Report {
    /// The report as one text with the marks of `palette` set around its
    /// parts. The layout is that of [`Report::to_text`].
    pub fn to_styled_text(&self, palette: &Palette) -> (text: String)
        ensures
            text@ == styled_text_of(self@, palette@),
    {
        let ghost lines = self.trace@.map_values(|line: String| line@);
        let mut text = String::new();
        push_styled(&mut text, &palette.title, self.name.as_str());
        text.append(": ");
        push_styled(&mut text, &palette.title, self.message.as_str());
        let ghost head = text@;
        assert(head =~= styled(palette@.title, self@.name) + ": "@ + styled(
            palette@.title,
            self@.message,
        ));
        let mut i: usize = 0;
        assert(lines.subrange(0, 0) =~= Seq::<Seq<char>>::empty());
        while i < self.trace.len()
            invariant
                i <= self.trace@.len(),
                lines == self.trace@.map_values(|line: String| line@),
                text@ == head + styled_lines(lines.subrange(0, i as int), palette@.trace),
            decreases self.trace@.len() - i,
        {
            text.append("\n");
            push_styled(&mut text, &palette.trace, self.trace[i].as_str());
            proof {
                let upto = lines.subrange(0, i + 1);
                assert(upto.drop_last() =~= lines.subrange(0, i as int));
                assert(upto.last() == self.trace@[i as int]@);
                assert(text@ =~= head + styled_lines(upto, palette@.trace));
            }
            i += 1;
        }
        assert(lines.subrange(0, self.trace@.len() as int) =~= lines);
        let ghost traced = text@;
        match &self.snippet {
            Some(snippet) => {
                text.append("\n\n");
                text.append(snippet.source_line.as_str());
                text.append("\n");
                push_styled_carets(&mut text, snippet.caret_line.as_str(), &palette.caret);
                assert(text@ =~= traced + styled_snippet(self@.snippet, palette@.caret));
            },
            None => {
                assert(text@ =~= traced + styled_snippet(self@.snippet, palette@.caret));
            },
        }
        text
    }
}

/// Under the plain style a run of lines reads as it does unstyled.
pub proof fn lemma_plain_lines(lines: Seq<Seq<char>>)
    ensures
        styled_lines(lines, plain_style()) == lines_text(lines),
    decreases lines.len(),
{
    if lines.len() > 0 {
        lemma_plain_lines(lines.drop_last());
        assert(styled(plain_style(), lines.last()) =~= lines.last());
        assert(styled_lines(lines, plain_style()) =~= lines_text(lines));
    }
}

/// Under the plain style a line keeps its carets as they are.
pub proof fn lemma_plain_carets(line: Seq<char>)
    ensures
        styled_carets(line, plain_style()) == line,
    decreases line.len(),
{
    if line.len() > 0 {
        lemma_plain_carets(line.drop_last());
        assert(styled(plain_style(), seq!['^']) =~= seq!['^']);
        assert(styled_carets(line, plain_style()) =~= line);
    }
}

/// Styling changes no layout: under the plain palette the styled text is
/// the plain text of the report.
pub proof fn lemma_plain_palette_is_plain_text(report: ReportView)
    ensures
        styled_text_of(report, plain_palette()) == text_of(report),
{
    lemma_plain_lines(report.trace);
    match report.snippet {
        Some(s) => {
            lemma_plain_carets(s.caret_line);
        },
        None => {},
    }
    assert(styled(plain_style(), report.name) =~= report.name);
    assert(styled(plain_style(), report.message) =~= report.message);
    assert(styled_text_of(report, plain_palette()) =~= text_of(report));
}

} // verus!
