//! The conditions under which a packed binary refuses to go on.

use vstd::prelude::*;

verus! {

/// One of the two archive entries every bundle must carry.
#[derive(Clone, Copy, Debug, PartialEq, Eq, Structural)]
pub enum RequiredAsset {
    /// The entry script text, stored as `bundle.js`.
    EntryScript,
    /// The source map of the entry script, stored as `bundle.js.map`.
    SourceMap,
}

/// Every failure condition the runtime distinguishes.
#[derive(Clone, Copy, Debug, PartialEq, Eq, Structural)]
pub enum Fault {
    /// The trailing magic is absent: the binary was never packed.
    ArchiveNotFound,
    /// The footer is present but the length it declares does not fit the
    /// file, or the bytes it points at cannot be read as an archive.
    ArchiveCorrupt,
    /// A required entry is absent from the archive, or empty.
    AssetMissing(RequiredAsset),
    /// The source map entry was found but does not parse.
    SourceMapInvalid,
    /// The engine could not load the entry module.
    ScriptLoadError,
    /// The entry script threw and nothing caught it.
    ScriptRuntimeError,
    /// The reply channel of a native call closed before a reply arrived.
    NativeChannelClosed,
}

impl RequiredAsset {
    /// The exact archive entry name of this asset.
    pub open spec fn spec_entry_name(self) -> Seq<char> {
        match self {
            RequiredAsset::EntryScript => "bundle.js"@,
            RequiredAsset::SourceMap => "bundle.js.map"@,
        }
    }

    /// The exact archive entry name of this asset.
    pub fn entry_name(self) -> (name: &'static str)
        ensures
            name@ == self.spec_entry_name(),
    {
        match self {
            RequiredAsset::EntryScript => "bundle.js",
            RequiredAsset::SourceMap => "bundle.js.map",
        }
    }
}

impl Fault {
    /// Every condition ends the process except a closed reply channel,
    /// which is absorbed where it is detected.
    pub open spec fn spec_is_fatal(self) -> bool {
        self != Fault::NativeChannelClosed
    }

    /// Whether this condition ends the process.
    pub fn is_fatal(self) -> (fatal: bool)
        ensures
            fatal == self.spec_is_fatal(),
    {
        match self {
            Fault::NativeChannelClosed => false,
            _ => true,
        }
    }

    /// The one-line diagnostic for this condition.
    pub open spec fn spec_message(self) -> Seq<char> {
        match self {
            Fault::ArchiveNotFound => "Can't find embedded assets, make sure you use the build script."@,
            Fault::ArchiveCorrupt => "embedded archive is corrupt"@,
            Fault::AssetMissing(RequiredAsset::EntryScript) => "required asset is missing or empty: bundle.js"@,
            Fault::AssetMissing(RequiredAsset::SourceMap) => "required asset is missing or empty: bundle.js.map"@,
            Fault::SourceMapInvalid => "source map could not be parsed"@,
            Fault::ScriptLoadError => "entry script could not be loaded"@,
            Fault::ScriptRuntimeError => "uncaught error in entry script"@,
            Fault::NativeChannelClosed => "native call got no reply; using the fallback value"@,
        }
    }

    /// The one-line diagnostic for this condition. For a missing asset it
    /// names the entry.
    pub fn message(self) -> (text: &'static str)
        ensures
            text@ == self.spec_message(),
    {
        match self {
            Fault::ArchiveNotFound => "Can't find embedded assets, make sure you use the build script.",
            Fault::ArchiveCorrupt => "embedded archive is corrupt",
            Fault::AssetMissing(RequiredAsset::EntryScript) => "required asset is missing or empty: bundle.js",
            Fault::AssetMissing(RequiredAsset::SourceMap) => "required asset is missing or empty: bundle.js.map",
            Fault::SourceMapInvalid => "source map could not be parsed",
            Fault::ScriptLoadError => "entry script could not be loaded",
            Fault::ScriptRuntimeError => "uncaught error in entry script",
            Fault::NativeChannelClosed => "native call got no reply; using the fallback value",
        }
    }
}

/// The exit status for a run that ended with `fault`, or cleanly with `None`.
pub open spec fn spec_exit_code(fault: Option<Fault>) -> int {
    match fault {
        Some(f) => if f.spec_is_fatal() { 1 } else { 0 },
        None => 0,
    }
}

/// The process exit status: zero on clean completion, non-zero on any fatal
/// condition.
pub fn exit_code(fault: Option<Fault>) -> (code: i32)
    ensures
        code == spec_exit_code(fault),
        code != 0 <==> (fault matches Some(f) && f.spec_is_fatal()),
{
    match fault {
        Some(f) => if f.is_fatal() { 1 } else { 0 },
        None => 0,
    }
}

} // verus!
