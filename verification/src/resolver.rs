//! The asset resolver: from the archive payload to the entry script text and
//! its source map.

use vstd::prelude::*;
use vstd::string::StringExecFns;
use crate::archive::{
    archive_len, archive_listing, entry_name, entry_text, open_archive, payload_listing,
    ListedEntry,
};
use crate::fault::{Fault, RequiredAsset};
use crate::text::opt_view;

verus! {

/// The two texts every bundle must carry.
#[derive(Clone, Debug, PartialEq, Eq)]
pub struct Assets {
    /// The entry script, from `bundle.js`.
    pub script: String,
    /// The JSON text of its source map, from `bundle.js.map`.
    pub source_map: String,
}

/// The mathematical value of [`Assets`].
pub ghost struct AssetsView {
    pub script: Seq<char>,
    pub source_map: Seq<char>,
}

impl View for Assets {
    type V = AssetsView;

    open spec fn view(&self) -> AssetsView {
        AssetsView { script: self.script@, source_map: self.source_map@ }
    }
}

/// One archive entry held in memory: its name and, where it decodes as
/// UTF-8, its text.
#[derive(Clone, Debug, PartialEq, Eq)]
pub struct Entry {
    pub name: String,
    pub text: Option<String>,
}

impl View for Entry {
    type V = ListedEntry;

    open spec fn view(&self) -> ListedEntry {
        ListedEntry { name: self.name@, text: opt_view(self.text) }
    }
}

/// The listing that a list of entries in memory stands for.
pub open spec fn listing_of(entries: Seq<Entry>) -> Seq<ListedEntry> {
    entries.map_values(|entry: Entry| entry@)
}

/// Whether `index` is the first position at which `names` holds exactly
/// `wanted`.
pub open spec fn first_match(names: Seq<Seq<char>>, wanted: Seq<char>, index: int) -> bool {
    &&& 0 <= index < names.len()
    &&& names[index] == wanted
    &&& forall|j: int| 0 <= j < index ==> #[trigger] names[j] != wanted
}

/// Whether `names` holds `wanted` anywhere.
pub open spec fn has_match(names: Seq<Seq<char>>, wanted: Seq<char>) -> bool {
    exists|j: int| 0 <= j < names.len() && #[trigger] names[j] == wanted
}

/// The names of a listing, in order.
pub open spec fn names_of(listing: Seq<ListedEntry>) -> Seq<Seq<char>> {
    listing.map_values(|entry: ListedEntry| entry.name)
}

/// What a required asset resolves to in a listing: missing where no entry
/// bears its name, corrupt where the first such entry has no text, missing
/// again where that text is empty, and the text otherwise. Entries of other
/// names play no part.
pub open spec fn required_text(listing: Seq<ListedEntry>, asset: RequiredAsset) -> Result<
    Seq<char>,
    Fault,
> {
    let names = names_of(listing);
    let wanted = asset.spec_entry_name();
    if !has_match(names, wanted) {
        Err(Fault::AssetMissing(asset))
    } else {
        let index = choose|index: int| first_match(names, wanted, index);
        match listing[index].text {
            None => Err(Fault::ArchiveCorrupt),
            Some(text) => if text.len() == 0 {
                Err(Fault::AssetMissing(asset))
            } else {
                Ok(text)
            },
        }
    }
}

/// What a listing resolves to: the entry script is looked for first, then
/// the source map.
pub open spec fn resolved_assets(listing: Seq<ListedEntry>) -> Result<AssetsView, Fault> {
    match required_text(listing, RequiredAsset::EntryScript) {
        Err(fault) => Err(fault),
        Ok(script) => match required_text(listing, RequiredAsset::SourceMap) {
            Err(fault) => Err(fault),
            Ok(source_map) => Ok(AssetsView { script, source_map }),
        },
    }
}

/// What an archive payload resolves to: corrupt where it does not open as an
/// archive, else what its listing resolves to.
pub open spec fn resolved_payload(payload: Seq<u8>) -> Result<AssetsView, Fault> {
    match payload_listing(payload) {
        None => Err(Fault::ArchiveCorrupt),
        Some(listing) => resolved_assets(listing),
    }
}

/// The view of a resolution outcome.
pub open spec fn outcome_view(outcome: Result<Assets, Fault>) -> Result<AssetsView, Fault> {
    match outcome {
        Ok(assets) => Ok(assets@),
        Err(fault) => Err(fault),
    }
}

/// The views of a list of names.
pub open spec fn names_view(names: Seq<String>) -> Seq<Seq<char>> {
    names.map_values(|name: String| name@)
}

/// At most one index is the first match.
pub proof fn lemma_first_match_unique(names: Seq<Seq<char>>, wanted: Seq<char>, a: int, b: int)
    requires
        first_match(names, wanted, a),
        first_match(names, wanted, b),
    ensures
        a == b,
{
    if a < b {
        assert(names[a] != wanted);
    } else if b < a {
        assert(names[b] != wanted);
    }
}

/// Finds the first entry whose name is exactly `wanted`.
pub fn find_entry(names: &Vec<String>, wanted: &str) -> (found: Option<usize>)
    ensures
        match found {
            Some(index) => first_match(names_view(names@), wanted@, index as int),
            None => !has_match(names_view(names@), wanted@),
        },
{
    let wanted_name = String::from_str(wanted);
    let mut i: usize = 0;
    while i < names.len()
        invariant
            i <= names@.len(),
            wanted_name@ == wanted@,
            forall|j: int| 0 <= j < i ==> #[trigger] names_view(names@)[j] != wanted@,
        decreases names@.len() - i,
    {
        if names[i] == wanted_name {
            assert(names_view(names@)[i as int] == names@[i as int]@);
            return Some(i);
        }
        assert(names_view(names@)[i as int] == names@[i as int]@);
        i += 1;
    }
    None
}

/// Accepts the text found for a required asset unless it is empty.
pub fn require_text(asset: RequiredAsset, text: String) -> (checked: Result<String, Fault>)
    ensures
        match checked {
            Ok(kept) => text@.len() > 0 && kept@ == text@,
            Err(fault) => text@.len() == 0 && fault == Fault::AssetMissing(asset),
        },
{
    if text.as_str().is_empty() {
        Err(Fault::AssetMissing(asset))
    } else {
        Ok(text)
    }
}


/// Reads the text of a required asset out of an open archive whose entry
/// names are `names`.
fn read_required(
    archive: &mut zip::ZipArchive<std::io::Cursor<Vec<u8>>>,
    names: &Vec<String>,
    asset: RequiredAsset,
) -> (text: Result<String, Fault>)
    requires
        names_view(names@) == names_of(archive_listing(*old(archive))),
    ensures
        archive_listing(*final(archive)) == archive_listing(*old(archive)),
        match text {
            Ok(found) => required_text(archive_listing(*old(archive)), asset) == Ok::<
                Seq<char>,
                Fault,
            >(found@),
            Err(fault) => required_text(archive_listing(*old(archive)), asset) == Err::<
                Seq<char>,
                Fault,
            >(fault),
        },
{
    let ghost listing = archive_listing(*archive);
    match find_entry(names, asset.entry_name()) {
        None => Err(Fault::AssetMissing(asset)),
        Some(index) => {
            proof {
                let chosen = choose|k: int|
                    first_match(names_of(listing), asset.spec_entry_name(), k);
                lemma_first_match_unique(
                    names_of(listing),
                    asset.spec_entry_name(),
                    index as int,
                    chosen,
                );
            }
            match entry_text(archive, index) {
                Err(_) => Err(Fault::ArchiveCorrupt),
                Ok(text) => require_text(asset, text),
            }
        },
    }
}

/// Picks the text of a required asset out of entries held in memory whose
/// names are `names`.
fn pick_required(entries: &Vec<Entry>, names: &Vec<String>, asset: RequiredAsset) -> (text: Result<
    String,
    Fault,
>)
    requires
        names_view(names@) == names_of(listing_of(entries@)),
    ensures
        match text {
            Ok(found) => required_text(listing_of(entries@), asset) == Ok::<Seq<char>, Fault>(
                found@,
            ),
            Err(fault) => required_text(listing_of(entries@), asset) == Err::<Seq<char>, Fault>(
                fault,
            ),
        },
{
    let ghost listing = listing_of(entries@);
    match find_entry(names, asset.entry_name()) {
        None => Err(Fault::AssetMissing(asset)),
        Some(index) => {
            proof {
                let chosen = choose|k: int|
                    first_match(names_of(listing), asset.spec_entry_name(), k);
                lemma_first_match_unique(
                    names_of(listing),
                    asset.spec_entry_name(),
                    index as int,
                    chosen,
                );
            }
            match &entries[index].text {
                Some(text) => require_text(asset, text.clone()),
                None => Err(Fault::ArchiveCorrupt),
            }
        },
    }
}

/// Resolves the required assets from entries held in memory, in listing
/// order: by exact name, the first entry of that name, non-empty text.
pub fn resolve_listing(entries: &Vec<Entry>) -> (outcome: Result<Assets, Fault>)
    ensures
        outcome_view(outcome) == resolved_assets(listing_of(entries@)),
{
    let ghost listing = listing_of(entries@);
    let mut names: Vec<String> = Vec::new();
    let mut i: usize = 0;
    while i < entries.len()
        invariant
            i <= entries@.len(),
            listing == listing_of(entries@),
            names@.len() == i,
            forall|j: int| 0 <= j < i ==> (#[trigger] names@[j])@ == listing[j].name,
        decreases entries@.len() - i,
    {
        names.push(entries[i].name.clone());
        i += 1;
    }
    assert(names_view(names@) =~= names_of(listing));
    let script = match pick_required(entries, &names, RequiredAsset::EntryScript) {
        Ok(text) => text,
        Err(fault) => {
            return Err(fault);
        },
    };
    let source_map = match pick_required(entries, &names, RequiredAsset::SourceMap) {
        Ok(text) => text,
        Err(fault) => {
            return Err(fault);
        },
    };
    Ok(Assets { script, source_map })
}

/// Lists the names of an open archive, in order.
fn list_names(archive: &zip::ZipArchive<std::io::Cursor<Vec<u8>>>) -> (names: Vec<String>)
    ensures
        names_view(names@) == names_of(archive_listing(*archive)),
{
    let ghost listing = archive_listing(*archive);
    let count: usize = archive_len(archive);
    let mut names: Vec<String> = Vec::new();
    let mut i: usize = 0;
    while i < count
        invariant
            i <= count,
            count == listing.len(),
            listing == archive_listing(*archive),
            names@.len() == i,
            forall|j: int| 0 <= j < i ==> (#[trigger] names@[j])@ == listing[j].name,
        decreases count - i,
    {
        if let Some(name) = entry_name(archive, i) {
            names.push(name);
        }
        i += 1;
    }
    assert(names_view(names@) =~= names_of(listing));
    names
}

/// Resolves the required assets from an archive payload: opens it, lists
/// its entries, and reads `bundle.js` and `bundle.js.map` as text. Entries
/// of other names are listed and never opened.
pub fn resolve_assets(payload: Vec<u8>) -> (outcome: Result<Assets, Fault>)
    ensures
        outcome_view(outcome) == resolved_payload(payload@),
{
    let mut archive = match open_archive(payload) {
        Ok(archive) => archive,
        Err(_) => {
            return Err(Fault::ArchiveCorrupt);
        },
    };
    let names = list_names(&archive);
    let script = match read_required(&mut archive, &names, RequiredAsset::EntryScript) {
        Ok(text) => text,
        Err(fault) => {
            return Err(fault);
        },
    };
    let source_map = match read_required(&mut archive, &names, RequiredAsset::SourceMap) {
        Ok(text) => text,
        Err(fault) => {
            return Err(fault);
        },
    };
    Ok(Assets { script, source_map })
}

/// A missing `bundle.js` is reported as such, and a missing `bundle.js.map`
/// is reported as such whenever the entry script itself resolves.
pub proof fn lemma_missing_asset_is_named(listing: Seq<ListedEntry>)
    ensures
        !has_match(names_of(listing), RequiredAsset::EntryScript.spec_entry_name())
            ==> resolved_assets(listing) == Err::<AssetsView, Fault>(
            Fault::AssetMissing(RequiredAsset::EntryScript),
        ),
        required_text(listing, RequiredAsset::EntryScript) is Ok && !has_match(
            names_of(listing),
            RequiredAsset::SourceMap.spec_entry_name(),
        ) ==> resolved_assets(listing) == Err::<AssetsView, Fault>(
            Fault::AssetMissing(RequiredAsset::SourceMap),
        ),
{
}

} // verus!
