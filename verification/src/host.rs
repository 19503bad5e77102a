//! The script host's decisions: what a packed image must yield before the
//! engine starts, and what the outcome of the one run of the entry module
//! means for the process.

use vstd::prelude::*;
use crate::container::{embedded, load_embedded_assets};
use crate::fault::{exit_code, spec_exit_code, Fault};
use crate::remap::{remapped_frames, ScriptError};
use crate::report::{parts, report, report_parts, text_of, Report, ReportView};
use crate::resolver::{resolve_assets, resolved_payload, AssetsView};
use crate::source_map::{any_set, parsed_source_map, SourceMapView, SourceMapping};

verus! {

/// Everything the engine needs from the packed image.
pub struct Bundle {
    /// The text of the entry script.
    pub script: String,
    /// Its source map, parsed.
    pub source_map: SourceMapping,
}

/// The mathematical value of a [`Bundle`].
pub ghost struct BundleView {
    pub script: Seq<char>,
    pub source_map: SourceMapView,
}

impl View for Bundle {
    type V = BundleView;

    open spec fn view(&self) -> BundleView {
        BundleView { script: self.script@, source_map: self.source_map@ }
    }
}

/// What an image yields, stage by stage: the loader's fault where it finds no
/// archive, the resolver's where a required asset is not there, and
/// `SourceMapInvalid` where the source map does not parse or holds range
/// tokens.
pub open spec fn bundle_of(image: Seq<u8>) -> Result<BundleView, Fault> {
    match embedded(image) {
        Err(fault) => Err(fault),
        Ok(payload) => bundle_in(payload),
    }
}

/// What an archive payload yields: the resolver's fault where a required
/// asset is not there, `SourceMapInvalid` where the source map does not parse
/// or holds range tokens, and the bundle otherwise.
pub open spec fn bundle_in(payload: Seq<u8>) -> Result<BundleView, Fault> {
    match resolved_payload(payload) {
        Err(fault) => Err(fault),
        Ok(assets) => parsed_bundle(assets, parsed_source_map(source_map_bytes(assets))),
    }
}

/// The UTF-8 bytes of the source map text of `assets`.
pub open spec fn source_map_bytes(assets: AssetsView) -> Seq<u8> {
    vstd::utf8::encode_utf8(assets.source_map)
}

/// What the resolved assets and the parser's verdict on the source map make
/// of a bundle.
pub open spec fn parsed_bundle(
    assets: AssetsView,
    parsed: Option<(SourceMapView, Seq<bool>)>,
) -> Result<BundleView, Fault> {
    match parsed {
        Some((map, flags)) => if any_set(flags) {
            Err(Fault::SourceMapInvalid)
        } else {
            Ok(BundleView { script: assets.script, source_map: map })
        },
        None => Err(Fault::SourceMapInvalid),
    }
}

/// The view of a loading outcome.
pub open spec fn loaded_view(outcome: Result<Bundle, Fault>) -> Result<BundleView, Fault> {
    match outcome {
        Ok(bundle) => Ok(bundle@),
        Err(fault) => Err(fault),
    }
}


/// Takes a packed image through the loader, the resolver and the source map
/// parser, stopping at the first stage that fails.
pub fn load_bundle(image: &[u8]) -> (outcome: Result<Bundle, Fault>)
    ensures
        loaded_view(outcome) == bundle_of(image@),
{
    match load_embedded_assets(image) {
        Ok(payload) => bundle_from_payload(payload),
        Err(fault) => Err(fault),
    }
}

/// Takes an archive payload through the resolver and the source map parser,
/// stopping at the first stage that fails.
pub fn bundle_from_payload(payload: Vec<u8>) -> (outcome: Result<Bundle, Fault>)
    ensures
        loaded_view(outcome) == bundle_in(payload@),
{
    let assets = match resolve_assets(payload) {
        Ok(assets) => assets,
        Err(fault) => {
            return Err(fault);
        },
    };
    let source_map = match SourceMapping::from_slice(assets.source_map.as_str().as_bytes()) {
        Ok(map) => map,
        Err(fault) => {
            return Err(fault);
        },
    };
    Ok(Bundle { script: assets.script, source_map })
}

/// How the one run of the entry module ended.
#[derive(Clone, Debug, PartialEq, Eq)]
pub enum ScriptOutcome {
    /// The module ran to completion.
    Completed,
    /// The script raised an error that nothing caught, and its stack is
    /// known.
    Uncaught(ScriptError),
    /// The engine failed in any other way; this is its message.
    EngineFailure(String),
}

/// What to print before the process goes on or exits.
#[derive(Clone, Debug, PartialEq, Eq)]
pub enum Notice {
    /// Nothing.
    Nothing,
    /// The remapped trace of an uncaught script error.
    Trace(Report),
    /// The engine's own message, as it is.
    Message(String),
}

/// The mathematical value of a [`Notice`].
pub ghost enum NoticeView {
    Nothing,
    Trace(ReportView),
    Message(Seq<char>),
}

impl View for Notice {
    type V = NoticeView;

    open spec fn view(&self) -> NoticeView {
        match self {
            Notice::Nothing => NoticeView::Nothing,
            Notice::Trace(report) => NoticeView::Trace(report@),
            Notice::Message(message) => NoticeView::Message(message@),
        }
    }
}

/// The text of a notice: empty, the report as one text, or the message.
pub open spec fn notice_text(notice: NoticeView) -> Seq<char> {
    match notice {
        NoticeView::Nothing => Seq::empty(),
        NoticeView::Trace(report) => text_of(report),
        NoticeView::Message(message) => message,
    }
}

impl Notice {
    /// The notice as plain text.
    pub fn to_text(&self) -> (text: String)
        ensures
            text@ == notice_text(self@),
    {
        match self {
            Notice::Nothing => String::new(),
            Notice::Trace(report) => report.to_text(),
            Notice::Message(message) => message.clone(),
        }
    }
}

/// What the process does about the outcome of the run.
#[derive(Clone, Debug, PartialEq, Eq)]
pub struct Verdict {
    /// The condition to report, if any.
    pub fault: Option<Fault>,
    /// The exit status of the process.
    pub exit_code: i32,
    /// What to print.
    pub notice: Notice,
}

/// The mathematical value of a [`Verdict`].
pub ghost struct VerdictView {
    pub fault: Option<Fault>,
    pub exit_code: int,
    pub notice: NoticeView,
}

impl View for Verdict {
    type V = VerdictView;

    open spec fn view(&self) -> VerdictView {
        VerdictView { fault: self.fault, exit_code: self.exit_code as int, notice: self.notice@ }
    }
}

/// The verdict on an outcome: nothing to report after a clean run, the
/// remapped trace for an uncaught script error, and the engine's own message
/// for any other failure. Both failures end the process with a non-zero
/// status.
pub open spec fn verdict_on(outcome: ScriptOutcome, map: SourceMapView) -> VerdictView {
    match outcome {
        ScriptOutcome::Completed => VerdictView {
            fault: None,
            exit_code: spec_exit_code(None),
            notice: NoticeView::Nothing,
        },
        ScriptOutcome::Uncaught(error) => VerdictView {
            fault: Some(Fault::ScriptRuntimeError),
            exit_code: spec_exit_code(Some(Fault::ScriptRuntimeError)),
            notice: NoticeView::Trace(
                parts(error@.name, error@.message, remapped_frames(map, error@)),
            ),
        },
        ScriptOutcome::EngineFailure(message) => VerdictView {
            fault: Some(Fault::ScriptLoadError),
            exit_code: spec_exit_code(Some(Fault::ScriptLoadError)),
            notice: NoticeView::Message(message@),
        },
    }
}

/// Decides what the process does about the outcome of the run.
pub fn conclude(outcome: &ScriptOutcome, smap: &SourceMapping) -> (verdict: Verdict)
    ensures
        verdict@ == verdict_on(*outcome, smap@),
        verdict.exit_code != 0 <==> !(outcome is Completed),
        outcome matches ScriptOutcome::Uncaught(error) ==> notice_text(verdict@.notice) == report(
            smap@,
            error@,
        ),
{
    match outcome {
        ScriptOutcome::Completed => Verdict {
            fault: None,
            exit_code: exit_code(None),
            notice: Notice::Nothing,
        },
        ScriptOutcome::Uncaught(error) => Verdict {
            fault: Some(Fault::ScriptRuntimeError),
            exit_code: exit_code(Some(Fault::ScriptRuntimeError)),
            notice: Notice::Trace(report_parts(error, smap)),
        },
        ScriptOutcome::EngineFailure(message) => Verdict {
            fault: Some(Fault::ScriptLoadError),
            exit_code: exit_code(Some(Fault::ScriptLoadError)),
            notice: Notice::Message(message.clone()),
        },
    }
}

} // verus!
