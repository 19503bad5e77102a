use std::io::Read;
use std::io::Write;

use asset_packer::archive::Compression;
use asset_packer::builder::{build_archive, zip_assets, AssetFile, ENTRY_PERMISSIONS};
use asset_packer::container::{load_embedded_assets, pack};
use asset_packer::fault::{exit_code, Fault, RequiredAsset};
use asset_packer::host::{conclude, load_bundle, Notice, ScriptOutcome, Verdict};
use asset_packer::report::report_parts;
use asset_packer::remap::{ScriptError, StackFrame};
use asset_packer::resolver::{find_entry, require_text, resolve_assets, resolve_listing, Entry};
use asset_packer::source_map::SourceMapping;

const EMPTY_MAP: &str = r#"{"version":3,"sources":["bundle.js"],"names":[],"mappings":""}"#;

fn asset(path: &str, bytes: &[u8]) -> AssetFile {
    AssetFile { path: path.to_string(), bytes: bytes.to_vec() }
}

fn listing(archive: &[u8]) -> Vec<(String, Vec<u8>)> {
    let mut zip = zip::ZipArchive::new(std::io::Cursor::new(archive.to_vec())).unwrap();
    let mut entries = Vec::new();
    for i in 0..zip.len() {
        let mut file = zip.by_index(i).unwrap();
        let mut bytes = Vec::new();
        file.read_to_end(&mut bytes).unwrap();
        entries.push((file.name().to_string(), bytes));
    }
    entries
}

fn archive_of(entries: &[(&str, &[u8])]) -> Vec<u8> {
    let files: Vec<AssetFile> = entries.iter().map(|(path, bytes)| asset(path, bytes)).collect();
    build_archive(&files).unwrap()
}

fn outcome(result: Result<asset_packer::resolver::Assets, Fault>) -> Result<(String, String), Fault> {
    result.map(|assets| (assets.script, assets.source_map))
}

#[test]
fn dummy_base_with_minimal_bundle() {
    let base = [7u8; 10];
    let assets = vec![asset("bundle.js", b"1+1"), asset("bundle.js.map", EMPTY_MAP.as_bytes())];
    let image = zip_assets(&base, &assets).unwrap();
    assert_eq!(&image[..10], &base);
    let bundle = load_bundle(&image).unwrap();
    assert_eq!(bundle.script, "1+1");
    assert!(bundle.source_map.lookup_token(0, 0).is_none());
    let payload = load_embedded_assets(&image).unwrap();
    let resolved = resolve_assets(payload).unwrap();
    assert_eq!(resolved.script, "1+1");
    assert_eq!(resolved.source_map, EMPTY_MAP);
    assert!(SourceMapping::from_slice(resolved.source_map.as_bytes()).is_ok());
}

#[test]
fn round_trip_lists_exactly_the_packed_files() {
    let files = vec![
        asset("bundle.js", b"console.log(1)"),
        asset("bundle.js.map", EMPTY_MAP.as_bytes()),
        asset("img\\logo.png", &[0x89, 0x50, 0x4e, 0x47, 0, 1, 2, 3, 255]),
        asset("deep/nested\\dir/file.bin", &[0u8; 5000]),
        asset("empty.txt", b""),
    ];
    let image = zip_assets(b"base executable", &files).unwrap();
    let archive = load_embedded_assets(&image).unwrap();
    let listed = listing(&archive);
    let expected: Vec<(String, Vec<u8>)> = vec![
        ("bundle.js".to_string(), b"console.log(1)".to_vec()),
        ("bundle.js.map".to_string(), EMPTY_MAP.as_bytes().to_vec()),
        ("img/logo.png".to_string(), vec![0x89, 0x50, 0x4e, 0x47, 0, 1, 2, 3, 255]),
        ("deep/nested/dir/file.bin".to_string(), vec![0u8; 5000]),
        ("empty.txt".to_string(), Vec::new()),
    ];
    assert_eq!(listed, expected);
}

#[test]
fn built_archive_is_a_deflated_zip_with_fixed_permissions() {
    let content = vec![b'a'; 4096];
    let archive = archive_of(&[("a.txt", &content)]);
    assert_eq!(&archive[..4], b"PK\x03\x04");
    assert!(archive.len() < content.len());
    let mut zip = zip::ZipArchive::new(std::io::Cursor::new(archive)).unwrap();
    assert_eq!(zip.len(), 1);
    let file = zip.by_index(0).unwrap();
    assert_eq!(file.compression(), zip::CompressionMethod::Deflated);
    assert_eq!(file.unix_mode().map(|mode| mode & 0o777), Some(0o644));
    assert_eq!(ENTRY_PERMISSIONS, 0o644);
    assert_eq!(file.size(), 4096);
    assert_ne!(Compression::Deflated, Compression::Stored);
}

#[test]
fn building_is_deterministic() {
    let files = vec![asset("bundle.js", b"x"), asset("y\\z", b"zz")];
    assert_eq!(build_archive(&files).unwrap(), build_archive(&files).unwrap());
    assert_eq!(zip_assets(b"b", &files).unwrap(), zip_assets(b"b", &files).unwrap());
}

#[test]
fn empty_asset_list_builds_an_empty_archive() {
    let archive = build_archive(&Vec::new()).unwrap();
    assert!(listing(&archive).is_empty());
    assert_eq!(outcome(resolve_assets(archive)), Err(Fault::AssetMissing(RequiredAsset::EntryScript)));
}

#[test]
fn duplicate_entry_is_refused_where_it_stands() {
    let files = vec![asset("a", b"1"), asset("b\\c", b"2"), asset("b/c", b"3")];
    assert_eq!(
        build_archive(&files),
        Err(asset_packer::builder::PackFault::EntryRefused(2))
    );
    assert_eq!(
        zip_assets(b"base", &files),
        Err(asset_packer::builder::PackFault::EntryRefused(2))
    );
}

#[test]
fn missing_source_map_is_named() {
    let archive = archive_of(&[("bundle.js", b"1+1")]);
    let fault = outcome(resolve_assets(archive)).unwrap_err();
    assert_eq!(fault, Fault::AssetMissing(RequiredAsset::SourceMap));
    assert_eq!(RequiredAsset::SourceMap.entry_name(), "bundle.js.map");
}

#[test]
fn missing_entry_script_is_named() {
    let archive = archive_of(&[("bundle.js.map", EMPTY_MAP.as_bytes())]);
    let fault = outcome(resolve_assets(archive)).unwrap_err();
    assert_eq!(fault, Fault::AssetMissing(RequiredAsset::EntryScript));
    assert_eq!(RequiredAsset::EntryScript.entry_name(), "bundle.js");
}

#[test]
fn empty_required_asset_is_missing() {
    let no_script = archive_of(&[("bundle.js", b""), ("bundle.js.map", EMPTY_MAP.as_bytes())]);
    assert_eq!(
        outcome(resolve_assets(no_script)),
        Err(Fault::AssetMissing(RequiredAsset::EntryScript))
    );
    let no_map = archive_of(&[("bundle.js", b"1"), ("bundle.js.map", b"")]);
    assert_eq!(outcome(resolve_assets(no_map)), Err(Fault::AssetMissing(RequiredAsset::SourceMap)));
}

#[test]
fn names_match_exactly() {
    let archive = archive_of(&[
        ("Bundle.js", b"no"),
        ("dir/bundle.js", b"no"),
        ("bundle.js.map", b"{}"),
        ("bundle.js ", b"no"),
    ]);
    assert_eq!(
        outcome(resolve_assets(archive)),
        Err(Fault::AssetMissing(RequiredAsset::EntryScript))
    );
}

#[test]
fn passthrough_entries_are_ignored() {
    let archive = archive_of(&[
        ("assets/logo.png", &[0xff, 0xfe, 0x00]),
        ("bundle.js.map", b"{map}"),
        ("bundle.js", b"script"),
    ]);
    assert_eq!(
        outcome(resolve_assets(archive)),
        Ok(("script".to_string(), "{map}".to_string()))
    );
}

#[test]
fn payload_that_is_no_archive_is_corrupt() {
    assert_eq!(outcome(resolve_assets(b"not a zip".to_vec())), Err(Fault::ArchiveCorrupt));
    assert_eq!(outcome(resolve_assets(Vec::new())), Err(Fault::ArchiveCorrupt));
}

#[test]
fn required_asset_that_is_not_text_is_corrupt() {
    let archive = archive_of(&[("bundle.js", &[0xff, 0xfe]), ("bundle.js.map", b"{}")]);
    assert_eq!(outcome(resolve_assets(archive)), Err(Fault::ArchiveCorrupt));
}

#[test]
fn stored_entries_resolve_too() {
    let mut writer = zip::ZipWriter::new(std::io::Cursor::new(Vec::new()));
    let options = zip::write::SimpleFileOptions::default()
        .compression_method(zip::CompressionMethod::Stored);
    writer.start_file("bundle.js", options).unwrap();
    writer.write_all(b"stored").unwrap();
    writer.start_file("bundle.js.map", options).unwrap();
    writer.write_all(b"{}").unwrap();
    let archive = writer.finish().unwrap().into_inner();
    assert_eq!(outcome(resolve_assets(archive)), Ok(("stored".to_string(), "{}".to_string())));
}

fn entry(name: &str, text: Option<&str>) -> Entry {
    Entry { name: name.to_string(), text: text.map(str::to_string) }
}

#[test]
fn listing_in_memory_resolves_like_an_archive() {
    let good = vec![entry("x", None), entry("bundle.js", Some("js")), entry("bundle.js.map", Some("m"))];
    assert_eq!(outcome(resolve_listing(&good)), Ok(("js".to_string(), "m".to_string())));
    let no_map = vec![entry("bundle.js", Some("js"))];
    assert_eq!(outcome(resolve_listing(&no_map)), Err(Fault::AssetMissing(RequiredAsset::SourceMap)));
    let no_script = vec![entry("bundle.js.map", Some("m"))];
    assert_eq!(
        outcome(resolve_listing(&no_script)),
        Err(Fault::AssetMissing(RequiredAsset::EntryScript))
    );
    assert_eq!(
        outcome(resolve_listing(&Vec::new())),
        Err(Fault::AssetMissing(RequiredAsset::EntryScript))
    );
    let binary_script = vec![entry("bundle.js", None), entry("bundle.js.map", Some("m"))];
    assert_eq!(outcome(resolve_listing(&binary_script)), Err(Fault::ArchiveCorrupt));
    let binary_map = vec![entry("bundle.js", Some("js")), entry("bundle.js.map", None)];
    assert_eq!(outcome(resolve_listing(&binary_map)), Err(Fault::ArchiveCorrupt));
    let empty_map = vec![entry("bundle.js", Some("js")), entry("bundle.js.map", Some(""))];
    assert_eq!(
        outcome(resolve_listing(&empty_map)),
        Err(Fault::AssetMissing(RequiredAsset::SourceMap))
    );
    let twice = vec![
        entry("bundle.js", Some("first")),
        entry("bundle.js", Some("second")),
        entry("bundle.js.map", Some("m")),
    ];
    assert_eq!(outcome(resolve_listing(&twice)), Ok(("first".to_string(), "m".to_string())));
}

#[test]
fn passthrough_entry_that_does_not_open_is_left_alone() {
    let mut archive = archive_of(&[
        ("blob.bin", &[1, 2, 3]),
        ("bundle.js", b"script"),
        ("bundle.js.map", b"{map}"),
    ]);
    // Give the first entry of the central directory a compression method no reader knows.
    let central = archive.windows(4).position(|w| w == b"PK\x01\x02").unwrap();
    archive[central + 10] = 0x55;
    archive[central + 11] = 0x00;
    let mut zip = zip::ZipArchive::new(std::io::Cursor::new(archive.clone())).unwrap();
    assert_eq!(zip.name_for_index(0), Some("blob.bin"));
    assert!(zip.by_index(0).is_err());
    assert_eq!(
        outcome(resolve_assets(archive)),
        Ok(("script".to_string(), "{map}".to_string()))
    );
}

#[test]
fn required_entry_that_does_not_open_is_corrupt() {
    let mut archive = archive_of(&[("bundle.js", b"script"), ("bundle.js.map", b"{map}")]);
    let central = archive.windows(4).position(|w| w == b"PK\x01\x02").unwrap();
    archive[central + 10] = 0x55;
    archive[central + 11] = 0x00;
    assert_eq!(outcome(resolve_assets(archive)), Err(Fault::ArchiveCorrupt));
}

#[test]
fn overlong_name_is_refused() {
    let limit = "a".repeat(0xffff);
    let archive = build_archive(&vec![asset(&limit, b"x")]).unwrap();
    assert_eq!(listing(&archive), vec![(limit.clone(), b"x".to_vec())]);
    let over = "a".repeat(0x1_0000);
    assert_eq!(
        build_archive(&vec![asset("ok", b"1"), asset(&over, b"x")]),
        Err(asset_packer::builder::PackFault::EntryRefused(1))
    );
    let wide = "é".repeat(0x8000);
    assert_eq!(
        zip_assets(b"base", &vec![asset(&wide, b"x")]),
        Err(asset_packer::builder::PackFault::EntryRefused(0))
    );
}

#[test]
fn empty_and_absolute_names_are_refused() {
    assert_eq!(
        build_archive(&vec![asset("", b"x")]),
        Err(asset_packer::builder::PackFault::EntryRefused(0))
    );
    assert_eq!(
        build_archive(&vec![asset("a", b"1"), asset("b", b"2"), asset("/etc/passwd", b"x")]),
        Err(asset_packer::builder::PackFault::EntryRefused(2))
    );
    assert_eq!(
        zip_assets(b"base", &vec![asset("\\share\\file", b"x")]),
        Err(asset_packer::builder::PackFault::EntryRefused(0))
    );
    assert!(build_archive(&vec![asset("dir/file", b"x"), asset("dir\\other", b"y")]).is_ok());
}

#[test]
fn packed_names_are_distinct_and_relative() {
    let files = vec![asset("a\\b", b"1"), asset("a/c", b"2"), asset("d", b"3")];
    let archive = build_archive(&files).unwrap();
    let names: Vec<String> = listing(&archive).into_iter().map(|(name, _)| name).collect();
    assert_eq!(names, vec!["a/b", "a/c", "d"]);
    for (i, name) in names.iter().enumerate() {
        assert!(!name.is_empty() && !name.starts_with('/') && !name.contains('\\'));
        assert!(!names[..i].contains(name));
    }
}

#[test]
fn first_exact_name_is_found() {
    let names: Vec<String> =
        ["a", "bundle.js.map", "bundle.js", "bundle.js"].iter().map(|s| s.to_string()).collect();
    assert_eq!(find_entry(&names, "bundle.js"), Some(2));
    assert_eq!(find_entry(&names, "bundle.js.map"), Some(1));
    assert_eq!(find_entry(&names, "a"), Some(0));
    assert_eq!(find_entry(&names, "bundle"), None);
    assert_eq!(find_entry(&Vec::new(), "a"), None);
}

#[test]
fn whitespace_is_text() {
    assert_eq!(require_text(RequiredAsset::EntryScript, " ".to_string()), Ok(" ".to_string()));
    assert_eq!(
        require_text(RequiredAsset::EntryScript, String::new()),
        Err(Fault::AssetMissing(RequiredAsset::EntryScript))
    );
    assert_eq!(
        require_text(RequiredAsset::SourceMap, String::new()),
        Err(Fault::AssetMissing(RequiredAsset::SourceMap))
    );
}

#[test]
fn loading_stops_at_the_first_failing_stage() {
    assert!(matches!(load_bundle(b"never packed"), Err(Fault::ArchiveNotFound)));
    let mut corrupt = b"ASST".to_vec();
    corrupt.extend_from_slice(&9u64.to_le_bytes());
    assert!(matches!(load_bundle(&corrupt), Err(Fault::ArchiveCorrupt)));
    assert!(matches!(load_bundle(&pack(b"base", b"no zip")), Err(Fault::ArchiveCorrupt)));
    let no_map = zip_assets(b"base", &vec![asset("bundle.js", b"1")]).unwrap();
    assert!(matches!(load_bundle(&no_map), Err(Fault::AssetMissing(RequiredAsset::SourceMap))));
    let bad_map =
        zip_assets(b"base", &vec![asset("bundle.js", b"1"), asset("bundle.js.map", b"][")]).unwrap();
    assert!(matches!(load_bundle(&bad_map), Err(Fault::SourceMapInvalid)));
}

#[test]
fn verdict_on_each_outcome() {
    let map = r#"{"version":3,"sources":["a.ts"],"names":["f"],"sourcesContent":["f()"],"mappings":"AAAAA"}"#;
    let smap = SourceMapping::from_slice(map.as_bytes()).unwrap();
    let clean = conclude(&ScriptOutcome::Completed, &smap);
    assert_eq!(clean, Verdict { fault: None, exit_code: 0, notice: Notice::Nothing });
    assert_eq!(clean.notice.to_text(), "");
    let error = ScriptError {
        name: Some("Error".to_string()),
        message: Some("bad".to_string()),
        frames: vec![StackFrame {
            line_number: Some(1),
            column_number: Some(1),
            function_name: Some("g".to_string()),
        }],
    };
    let thrown = conclude(&ScriptOutcome::Uncaught(error.clone()), &smap);
    assert_eq!(thrown.fault, Some(Fault::ScriptRuntimeError));
    assert_ne!(thrown.exit_code, 0);
    assert_eq!(thrown.notice, Notice::Trace(report_parts(&error, &smap)));
    assert_eq!(thrown.notice.to_text(), "Error: bad\n    at f (a.ts:1:1)\n\nf()\n^  ");
    let engine = conclude(&ScriptOutcome::EngineFailure("module not found".to_string()), &smap);
    assert_eq!(engine.fault, Some(Fault::ScriptLoadError));
    assert_ne!(engine.exit_code, 0);
    assert_eq!(engine.notice, Notice::Message("module not found".to_string()));
    assert_eq!(engine.notice.to_text(), "module not found");
}

#[test]
fn exit_codes() {
    assert_eq!(exit_code(None), 0);
    assert_eq!(exit_code(Some(Fault::NativeChannelClosed)), 0);
    for fault in [
        Fault::ArchiveNotFound,
        Fault::ArchiveCorrupt,
        Fault::AssetMissing(RequiredAsset::EntryScript),
        Fault::AssetMissing(RequiredAsset::SourceMap),
        Fault::SourceMapInvalid,
        Fault::ScriptLoadError,
        Fault::ScriptRuntimeError,
    ] {
        assert!(fault.is_fatal());
        assert_ne!(exit_code(Some(fault)), 0);
    }
    assert!(!Fault::NativeChannelClosed.is_fatal());
}

#[test]
fn diagnostics_name_the_missing_entry() {
    assert!(Fault::AssetMissing(RequiredAsset::EntryScript).message().ends_with(": bundle.js"));
    assert!(Fault::AssetMissing(RequiredAsset::SourceMap).message().ends_with(": bundle.js.map"));
    assert_eq!(
        Fault::ArchiveNotFound.message(),
        "Can't find embedded assets, make sure you use the build script."
    );
    assert_eq!(Fault::ArchiveCorrupt.message(), "embedded archive is corrupt");
    assert_eq!(Fault::SourceMapInvalid.message(), "source map could not be parsed");
    assert_eq!(Fault::ScriptLoadError.message(), "entry script could not be loaded");
    assert_eq!(Fault::ScriptRuntimeError.message(), "uncaught error in entry script");
    assert_eq!(
        Fault::NativeChannelClosed.message(),
        "native call got no reply; using the fallback value"
    );
}
