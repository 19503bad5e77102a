//! Remapping: from the frames of an uncaught script error, in generated-code
//! coordinates, to frames in authored-source coordinates.

use vstd::prelude::*;
use vstd::string::StringExecFns;
use crate::source_map::{SourceMapView, SourceMapping, Token, TokenView};
use crate::text::{opt_view, view_or};

verus! {

/// One frame of an uncaught error as the script engine reports it: one-based
/// line and column in the generated code.
#[derive(Clone, Debug, PartialEq, Eq)]
pub struct StackFrame {
    pub line_number: Option<i64>,
    pub column_number: Option<i64>,
    pub function_name: Option<String>,
}

/// The mathematical value of a [`StackFrame`].
pub ghost struct StackFrameView {
    pub line_number: Option<i64>,
    pub column_number: Option<i64>,
    pub function_name: Option<Seq<char>>,
}

impl View for StackFrame {
    type V = StackFrameView;

    open spec fn view(&self) -> StackFrameView {
        StackFrameView {
            line_number: self.line_number,
            column_number: self.column_number,
            function_name: opt_view(self.function_name),
        }
    }
}

/// An uncaught script error: its name, its message and its stack, innermost
/// frame first.
#[derive(Clone, Debug, PartialEq, Eq)]
pub struct ScriptError {
    pub name: Option<String>,
    pub message: Option<String>,
    pub frames: Vec<StackFrame>,
}

/// The mathematical value of a [`ScriptError`].
pub ghost struct ScriptErrorView {
    pub name: Option<Seq<char>>,
    pub message: Option<Seq<char>>,
    pub frames: Seq<StackFrameView>,
}

impl View for ScriptError {
    type V = ScriptErrorView;

    open spec fn view(&self) -> ScriptErrorView {
        ScriptErrorView {
            name: opt_view(self.name),
            message: opt_view(self.message),
            frames: self.frames@.map_values(|frame: StackFrame| frame@),
        }
    }
}

/// A frame in authored-source coordinates: one-based line and column, the
/// name to show and the text of the line.
#[derive(Clone, Debug, PartialEq, Eq)]
pub struct RemappedFrame {
    pub file: String,
    pub line: u32,
    pub column: u32,
    pub function: String,
    pub source_line: String,
}

/// The mathematical value of a [`RemappedFrame`].
pub ghost struct RemappedFrameView {
    pub file: Seq<char>,
    pub line: u32,
    pub column: u32,
    pub function: Seq<char>,
    pub source_line: Seq<char>,
}

impl View for RemappedFrame {
    type V = RemappedFrameView;

    open spec fn view(&self) -> RemappedFrameView {
        RemappedFrameView {
            file: self.file@,
            line: self.line,
            column: self.column,
            function: self.function@,
            source_line: self.source_line@,
        }
    }
}

/// The zero-based generated position that a frame points at. A frame without
/// a line or a column, or with one outside `1 ..= u32::MAX`, points nowhere.
pub open spec fn position_of(frame: StackFrameView) -> Option<(u32, u32)> {
    match (frame.line_number, frame.column_number) {
        (Some(line), Some(column)) => if 1 <= line <= u32::MAX && 1 <= column <= u32::MAX {
            Some(((line - 1) as u32, (column - 1) as u32))
        } else {
            None
        },
        _ => None,
    }
}

/// The line of text that a token points at: the outer `None` where the map
/// embeds no text for the token's source, the inner `None` where that text
/// has no such line.
pub open spec fn line_at(map: SourceMapView, token: TokenView) -> Option<Option<Seq<char>>> {
    if map.lines.contains_key(token.src_id) {
        let lines = map.lines[token.src_id];
        if (token.src_line as int) < lines.len() {
            Some(Some(lines[token.src_line as int]))
        } else {
            Some(None)
        }
    } else {
        None
    }
}

/// What a token and the line it points at make of a frame. A token whose line
/// or column is the sentinel `u32::MAX` is unmapped, and a token whose source
/// text is not embedded cannot be shown: neither remaps.
pub open spec fn resolved(token: TokenView, line: Option<Option<Seq<char>>>) -> Option<
    RemappedFrameView,
> {
    if token.src_line == u32::MAX || token.src_col == u32::MAX {
        None
    } else {
        match line {
            None => None,
            Some(text) => Some(
                RemappedFrameView {
                    file: view_or(token.source, "unknown"@),
                    line: (token.src_line + 1) as u32,
                    column: (token.src_col + 1) as u32,
                    function: view_or(token.name, "<anonymous>"@),
                    source_line: view_or(text, "<invalid line number>"@),
                },
            ),
        }
    }
}

/// The remapped frame for `frame` under `map`, or `None` where it does not
/// remap.
pub open spec fn remapped(map: SourceMapView, frame: StackFrameView) -> Option<RemappedFrameView> {
    match position_of(frame) {
        None => None,
        Some(position) => if map.tokens.contains_key(position) {
            resolved(map.tokens[position], line_at(map, map.tokens[position]))
        } else {
            None
        },
    }
}

/// What each frame of `error` remaps to under `map`, in order.
pub open spec fn remapped_frames(map: SourceMapView, error: ScriptErrorView) -> Seq<
    Option<RemappedFrameView>,
> {
    error.frames.map_values(|frame: StackFrameView| remapped(map, frame))
}

/// The view of a remapping outcome.
pub open spec fn outcome_view(frame: Option<RemappedFrame>) -> Option<RemappedFrameView> {
    match frame {
        Some(f) => Some(f@),
        None => None,
    }
}

/// The views of a list of remapping outcomes.
pub open spec fn outcomes_view(frames: Seq<Option<RemappedFrame>>) -> Seq<Option<RemappedFrameView>> {
    frames.map_values(|frame: Option<RemappedFrame>| outcome_view(frame))
}

/// The view of a looked-up line.
pub open spec fn line_view(line: Option<Option<String>>) -> Option<Option<Seq<char>>> {
    match line {
        Some(text) => Some(opt_view(text)),
        None => None,
    }
}

/// The zero-based generated position that `frame` points at.
pub fn frame_position(frame: &StackFrame) -> (position: Option<(u32, u32)>)
    ensures
        position == position_of(frame@),
{
    match (frame.line_number, frame.column_number) {
        (Some(line), Some(column)) => {
            if 1 <= line && line <= 0xffff_ffff && 1 <= column && column <= 0xffff_ffff {
                Some(((line - 1) as u32, (column - 1) as u32))
            } else {
                None
            }
        },
        _ => None,
    }
}

/// Builds the remapped frame from a looked-up token and the line of text it
/// points at: one-based coordinates, `unknown` for a token without a source
/// name, `<anonymous>` for one without a symbol name, and
/// `<invalid line number>` where the source text has no such line.
pub fn resolve_token(token: Token, line: Option<Option<String>>) -> (frame: Option<RemappedFrame>)
    ensures
        outcome_view(frame) == resolved(token@, line_view(line)),
{
    if token.src_line == 0xffff_ffff || token.src_col == 0xffff_ffff {
        return None;
    }
    let text = match line {
        Some(text) => text,
        None => {
            return None;
        },
    };
    let file = match token.source {
        Some(source) => source,
        None => String::from_str("unknown"),
    };
    let function = match token.name {
        Some(name) => name,
        None => String::from_str("<anonymous>"),
    };
    let source_line = match text {
        Some(found) => found,
        None => String::from_str("<invalid line number>"),
    };
    Some(
        RemappedFrame {
            file,
            line: token.src_line + 1,
            column: token.src_col + 1,
            function,
            source_line,
        },
    )
}

/// Remaps one generated frame through the source map. `None` where the frame
/// points nowhere, where the map resolves nothing at that position, where
/// the token found is unmapped, or where the map embeds no text for the
/// token's source.
pub fn remap_stack_frame(frame: &StackFrame, smap: &SourceMapping) -> (found: Option<RemappedFrame>)
    ensures
        outcome_view(found) == remapped(smap@, frame@),
{
    let position = match frame_position(frame) {
        Some(position) => position,
        None => {
            return None;
        },
    };
    let token = match smap.lookup_token(position.0, position.1) {
        Some(token) => token,
        None => {
            return None;
        },
    };
    let line = smap.source_line(token.src_id, token.src_line as usize);
    resolve_token(token, line)
}

/// Remaps every frame of `error` through the source map, in order.
pub fn remap_frames(error: &ScriptError, smap: &SourceMapping) -> (outcomes: Vec<
    Option<RemappedFrame>,
>)
    ensures
        outcomes_view(outcomes@) == remapped_frames(smap@, error@),
{
    let ghost wanted = remapped_frames(smap@, error@);
    let mut outcomes: Vec<Option<RemappedFrame>> = Vec::new();
    let mut i: usize = 0;
    while i < error.frames.len()
        invariant
            i <= error.frames@.len(),
            outcomes@.len() == i,
            wanted == remapped_frames(smap@, error@),
            forall|k: int| 0 <= k < i ==> outcome_view(#[trigger] outcomes@[k]) == wanted[k],
        decreases error.frames@.len() - i,
    {
        let found = remap_stack_frame(&error.frames[i], smap);
        outcomes.push(found);
        i += 1;
    }
    assert(outcomes_view(outcomes@) =~= wanted);
    outcomes
}

} // verus!
