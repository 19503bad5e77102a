//! A parsed source map: the table from generated positions to authored ones,
//! and the authored source text, line by line.
//!
//! Parsing and lookup are the work of the `sourcemap` crate. What this module
//! states of it is believed, not proved: each such item says so.

use vstd::prelude::*;
use crate::fault::Fault;

verus! {

/// The `sourcemap` crate's parsed map, carried as an opaque value.
#[verifier::external_type_specification]
#[verifier::external_body]
pub struct ExSourceMap(sourcemap::SourceMap);

/// The `sourcemap` crate's error, carried as an opaque value.
#[verifier::external_type_specification]
#[verifier::external_body]
pub struct ExSourceMapError(sourcemap::Error);

/// What the map records for one generated position.
#[derive(Clone, Debug, PartialEq, Eq)]
pub struct Token {
    /// Name of the authored file, where the map records one.
    pub source: Option<String>,
    /// Zero-based line in the authored file.
    pub src_line: u32,
    /// Zero-based column in the authored file.
    pub src_col: u32,
    /// The authored symbol name, where the map records one.
    pub name: Option<String>,
    /// Index of the authored file among the map's sources.
    pub src_id: u32,
}

/// The mathematical value of a [`Token`].
pub ghost struct TokenView {
    pub source: Option<Seq<char>>,
    pub src_line: u32,
    pub src_col: u32,
    pub name: Option<Seq<char>>,
    pub src_id: u32,
}

impl View for Token {
    type V = TokenView;

    open spec fn view(&self) -> TokenView {
        TokenView {
            source: match self.source {
                Some(s) => Some(s@),
                None => None,
            },
            src_line: self.src_line,
            src_col: self.src_col,
            name: match self.name {
                Some(s) => Some(s@),
                None => None,
            },
            src_id: self.src_id,
        }
    }
}

/// The mathematical value of a [`SourceMapping`].
pub ghost struct SourceMapView {
    /// For each zero-based generated `(line, column)` that the map resolves,
    /// the token it resolves to.
    pub tokens: Map<(u32, u32), TokenView>,
    /// For each source index whose authored text the map embeds, that text
    /// split into lines.
    pub lines: Map<u32, Seq<Seq<char>>>,
}

/// The lookup table of a parsed map: the generated positions for which
/// `SourceMap::lookup_token` finds a token, each with what its getters report.
pub uninterp spec fn token_table(map: sourcemap::SourceMap) -> Map<(u32, u32), TokenView>;

/// The embedded authored sources of a parsed map: for each source index with
/// a source view, the lines that the view's `lines()` iterator yields.
pub uninterp spec fn source_lines(map: sourcemap::SourceMap) -> Map<u32, Seq<Seq<char>>>;

/// The range flags of a parsed map: for each token, by index, what
/// `Token::is_range` reports.
pub uninterp spec fn range_flags(map: sourcemap::SourceMap) -> Seq<bool>;

/// What `SourceMap::from_slice` makes of a JSON text: the value of the map it
/// returns and that map's range flags, or `None` where it returns an error.
pub uninterp spec fn parsed_source_map(text: Seq<u8>) -> Option<(SourceMapView, Seq<bool>)>;

/// Whether any flag is set.
pub open spec fn any_set(flags: Seq<bool>) -> bool {
    exists|i: int| 0 <= i < flags.len() && #[trigger] flags[i]
}

/// Calls `sourcemap::SourceMap::from_slice`. Trusted: the outcome is a
/// function of the text alone, named by [`parsed_source_map`].
#[verifier::external_body]
fn parse_map(text: &[u8]) -> (parsed: Result<sourcemap::SourceMap, sourcemap::Error>)
    ensures
        match parsed {
            Ok(map) => parsed_source_map(text@) == Some(
                (
                    SourceMapView { tokens: token_table(map), lines: source_lines(map) },
                    range_flags(map),
                ),
            ),
            Err(_) => parsed_source_map(text@) is None,
        },
{
    sourcemap::SourceMap::from_slice(text)
}

/// Calls `SourceMap::get_token` and then `Token::is_range`. Trusted: the flag
/// is that of the token at `index`, and there is none exactly where the
/// index is past the last token. The tokens lie in a `Vec`, which never
/// holds `usize::MAX` elements.
#[verifier::external_body]
fn token_is_range(map: &sourcemap::SourceMap, index: usize) -> (flag: Option<bool>)
    ensures
        match flag {
            Some(set) => index < range_flags(*map).len() && range_flags(*map)[index as int] == set,
            None => index >= range_flags(*map).len(),
        },
        flag is Some ==> index < usize::MAX,
{
    match map.get_token(index) {
        Some(token) => Some(token.is_range()),
        None => None,
    }
}

/// Calls `SourceMap::lookup_token` and copies out what the token's getters
/// report. Trusted: the outcome is the entry of [`token_table`] at that
/// position. Range tokens are left out because the crate subtracts columns
/// for them without a check.
#[verifier::external_body]
fn lookup(map: &sourcemap::SourceMap, line: u32, col: u32) -> (found: Option<Token>)
    requires
        !any_set(range_flags(*map)),
    ensures
        match found {
            Some(token) => token_table(*map).contains_key((line, col)) && token_table(*map)[(
                line,
                col,
            )] == token@,
            None => !token_table(*map).contains_key((line, col)),
        },
{
    match map.lookup_token(line, col) {
        Some(token) => Some(
            Token {
                source: token.get_source().map(str::to_string),
                src_line: token.get_src_line(),
                src_col: token.get_src_col(),
                name: token.get_name().map(str::to_string),
                src_id: token.get_src_id(),
            },
        ),
        None => None,
    }
}

/// Calls `SourceMap::get_source_view` and then `SourceView::lines().nth(..)`.
/// Trusted: the outer `None` means the map embeds no text for that source,
/// the inner `None` that the text has no such line, as [`source_lines`] names
/// them.
#[verifier::external_body]
fn line_of_source(map: &sourcemap::SourceMap, src_id: u32, index: usize) -> (line: Option<
    Option<String>,
>)
    ensures
        match line {
            None => !source_lines(*map).contains_key(src_id),
            Some(found) => source_lines(*map).contains_key(src_id) && match found {
                Some(text) => index < source_lines(*map)[src_id].len() && source_lines(
                    *map,
                )[src_id][index as int] == text@,
                None => index >= source_lines(*map)[src_id].len(),
            },
        },
{
    match map.get_source_view(src_id) {
        Some(view) => Some(view.lines().nth(index).map(str::to_string)),
        None => None,
    }
}

/// A parsed source map without range tokens.
pub struct SourceMapping {
    inner: sourcemap::SourceMap,
}

impl SourceMapping {
    #[verifier::type_invariant]
    spec fn plain(&self) -> bool {
        !any_set(range_flags(self.inner))
    }

    /// The lookup table and the embedded sources of this map.
    pub closed spec fn view(&self) -> SourceMapView {
        SourceMapView { tokens: token_table(self.inner), lines: source_lines(self.inner) }
    }

    /// Parses the JSON text of a source map. A text that the parser refuses,
    /// and a map with a range token, are `SourceMapInvalid`.
    pub fn from_slice(text: &[u8]) -> (map: Result<SourceMapping, Fault>)
        ensures
            match map {
                Ok(m) => parsed_source_map(text@) matches Some((view, flags)) && view == m@
                    && !any_set(flags),
                Err(fault) => fault == Fault::SourceMapInvalid && !(parsed_source_map(text@) matches Some(
                    (_, flags),
                ) && !any_set(flags)),
            },
    {
        let inner = match parse_map(text) {
            Ok(inner) => inner,
            Err(_) => {
                return Err(Fault::SourceMapInvalid);
            },
        };
        let mut i: usize = 0;
        loop
            invariant
                parsed_source_map(text@) == Some(
                    (
                        SourceMapView { tokens: token_table(inner), lines: source_lines(inner) },
                        range_flags(inner),
                    ),
                ),
                i <= range_flags(inner).len(),
                forall|k: int| 0 <= k < i ==> !(#[trigger] range_flags(inner)[k]),
            decreases range_flags(inner).len() - i,
        {
            match token_is_range(&inner, i) {
                Some(true) => {
                    return Err(Fault::SourceMapInvalid);
                },
                Some(false) => {
                    i += 1;
                },
                None => {
                    return Ok(SourceMapping { inner });
                },
            }
        }
    }

    /// The token that the generated position `(line, col)`, both zero-based,
    /// resolves to.
    pub fn lookup_token(&self, line: u32, col: u32) -> (found: Option<Token>)
        ensures
            match found {
                Some(token) => self@.tokens.contains_key((line, col)) && self@.tokens[(line, col)]
                    == token@,
                None => !self@.tokens.contains_key((line, col)),
            },
    {
        proof {
            use_type_invariant(self);
        }
        lookup(&self.inner, line, col)
    }

    /// Line `index`, zero-based, of the embedded text of source `src_id`. The
    /// outer `None` means that the map embeds no text for that source.
    pub fn source_line(&self, src_id: u32, index: usize) -> (line: Option<Option<String>>)
        ensures
            match line {
                None => !self@.lines.contains_key(src_id),
                Some(found) => self@.lines.contains_key(src_id) && match found {
                    Some(text) => index < self@.lines[src_id].len() && self@.lines[src_id][index as int]
                        == text@,
                    None => index >= self@.lines[src_id].len(),
                },
            },
    {
        line_of_source(&self.inner, src_id, index)
    }
}

} // verus!
