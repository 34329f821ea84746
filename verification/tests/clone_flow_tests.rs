use cargo_clone::errors::CloneError;
use cargo_clone::materialize::{marker_name, plan_entry, plan_tree, EntryKind, FsAction, TreeEntry};
use cargo_clone::orchestrate::{
    Orchestrator, Phase, SourceIdentity, SourceKind, StepAction, StepEvent,
};
use cargo_clone::resolve::PackageSummary;
use cargo_clone::version::SemVer;

#[test]
fn clones_latest_version_end_to_end() {
    let source = SourceIdentity {
        kind: SourceKind::Registry,
        location: String::from("registry.example"),
    };
    let mut m = Orchestrator::start(Some(String::from("foo")), source, None).unwrap();
    assert_eq!(m.phase, Phase::Refreshing);

    let a = m.step(StepEvent::Refreshed { ok: true }).unwrap();
    assert!(matches!(a, StepAction::Query));

    let summaries = vec![
        PackageSummary {
            name: String::from("foo"),
            version: SemVer { major: 1, minor: 0, patch: 0 },
        },
        PackageSummary {
            name: String::from("foo"),
            version: SemVer { major: 1, minor: 2, patch: 0 },
        },
        PackageSummary {
            name: String::from("foo"),
            version: SemVer { major: 1, minor: 1, patch: 0 },
        },
    ];
    let a = m.step(StepEvent::Queried { summaries }).unwrap();
    match a {
        StepAction::Download(id) => {
            assert_eq!(id.name, "foo");
            assert_eq!(id.version, SemVer { major: 1, minor: 2, patch: 0 });
        }
        _ => panic!("expected a download"),
    }

    let a = m
        .step(StepEvent::Downloaded { artifact_name: String::from("foo") })
        .unwrap();
    match a {
        StepAction::CheckDestination(n) => assert_eq!(n, "foo"),
        _ => panic!("expected a destination check"),
    }

    let a = m.step(StepEvent::DestinationChecked { present: false }).unwrap();
    assert!(matches!(a, StepAction::Materialize));

    let a = m.step(StepEvent::Materialized { ok: true }).unwrap();
    assert!(matches!(a, StepAction::Finished));
    assert_eq!(m.phase, Phase::Done);
}

#[test]
fn explicit_version_skips_the_query() {
    let source = SourceIdentity {
        kind: SourceKind::Registry,
        location: String::from("registry.example"),
    };
    let mut m = Orchestrator::start(
        Some(String::from("foo")),
        source,
        Some(String::from("1.2.3")),
    )
    .unwrap();
    let a = m.step(StepEvent::Refreshed { ok: true }).unwrap();
    match a {
        StepAction::Download(id) => {
            assert_eq!(id.name, "foo");
            assert_eq!(id.version, SemVer { major: 1, minor: 2, patch: 3 });
        }
        _ => panic!("an explicit version must go straight to download"),
    }
    assert_eq!(m.phase, Phase::Downloading);
}

#[test]
fn missing_version_at_download_is_not_found() {
    let source = SourceIdentity {
        kind: SourceKind::Registry,
        location: String::from("registry.example"),
    };
    let mut m = Orchestrator::start(
        Some(String::from("foo")),
        source,
        Some(String::from("2.0.0")),
    )
    .unwrap();
    let a = m.step(StepEvent::Refreshed { ok: true }).unwrap();
    assert!(matches!(a, StepAction::Download(_)));
    let r = m.step(StepEvent::DownloadFailed { not_found: true });
    assert!(matches!(r, Err(CloneError::PackageNotFound)));
    assert_eq!(m.phase, Phase::Failed);
}

#[test]
fn empty_query_answer_is_not_found() {
    let source = SourceIdentity {
        kind: SourceKind::Registry,
        location: String::from("registry.example"),
    };
    let mut m = Orchestrator::start(Some(String::from("foo")), source, None).unwrap();
    m.step(StepEvent::Refreshed { ok: true }).unwrap();
    let r = m.step(StepEvent::Queried { summaries: Vec::new() });
    assert!(matches!(r, Err(CloneError::PackageNotFound)));
}

#[test]
fn invalid_version_fails_before_any_download() {
    let source = SourceIdentity {
        kind: SourceKind::Registry,
        location: String::from("registry.example"),
    };
    let mut m = Orchestrator::start(
        Some(String::from("foo")),
        source,
        Some(String::from("not-a-version")),
    )
    .unwrap();
    let r = m.step(StepEvent::Refreshed { ok: true });
    assert!(matches!(r, Err(CloneError::InvalidVersion)));
    assert_eq!(m.phase, Phase::Failed);
}

#[test]
fn version_control_source_is_refused_without_network() {
    let source = SourceIdentity {
        kind: SourceKind::VersionControl,
        location: String::from("example.example/bar.git"),
    };
    let r = Orchestrator::start(Some(String::from("bar")), source, None);
    assert!(matches!(r, Err(CloneError::UnsupportedSourceKind)));
}

#[test]
fn path_source_is_refused_without_network() {
    let source = SourceIdentity {
        kind: SourceKind::Path,
        location: String::from("/tmp/bar"),
    };
    let r = Orchestrator::start(Some(String::from("bar")), source, None);
    assert!(matches!(r, Err(CloneError::UnsupportedSourceKind)));
}

#[test]
fn absent_package_name_is_refused() {
    let source = SourceIdentity {
        kind: SourceKind::Registry,
        location: String::from("registry.example"),
    };
    let r = Orchestrator::start(None, source, None);
    assert!(matches!(r, Err(CloneError::MissingPackageName)));
}

#[test]
fn empty_package_name_is_refused() {
    let source = SourceIdentity {
        kind: SourceKind::Registry,
        location: String::from("registry.example"),
    };
    let r = Orchestrator::start(Some(String::new()), source, None);
    assert!(matches!(r, Err(CloneError::MissingPackageName)));
}

#[test]
fn failed_refresh_is_source_unavailable() {
    let source = SourceIdentity {
        kind: SourceKind::Registry,
        location: String::from("registry.example"),
    };
    let mut m = Orchestrator::start(Some(String::from("foo")), source, None).unwrap();
    let r = m.step(StepEvent::Refreshed { ok: false });
    assert!(matches!(r, Err(CloneError::SourceUnavailable)));
}

#[test]
fn failed_query_is_source_unavailable() {
    let source = SourceIdentity {
        kind: SourceKind::Registry,
        location: String::from("registry.example"),
    };
    let mut m = Orchestrator::start(Some(String::from("foo")), source, None).unwrap();
    m.step(StepEvent::Refreshed { ok: true }).unwrap();
    let r = m.step(StepEvent::QueryFailed);
    assert!(matches!(r, Err(CloneError::SourceUnavailable)));
}

#[test]
fn failed_transport_is_download_failed() {
    let source = SourceIdentity {
        kind: SourceKind::Registry,
        location: String::from("registry.example"),
    };
    let mut m = Orchestrator::start(
        Some(String::from("foo")),
        source,
        Some(String::from("1.0.0")),
    )
    .unwrap();
    m.step(StepEvent::Refreshed { ok: true }).unwrap();
    let r = m.step(StepEvent::DownloadFailed { not_found: false });
    assert!(matches!(r, Err(CloneError::DownloadFailed)));
}

#[test]
fn occupied_destination_is_refused() {
    let source = SourceIdentity {
        kind: SourceKind::Registry,
        location: String::from("registry.example"),
    };
    let mut m = Orchestrator::start(
        Some(String::from("foo")),
        source,
        Some(String::from("1.0.0")),
    )
    .unwrap();
    m.step(StepEvent::Refreshed { ok: true }).unwrap();
    m.step(StepEvent::Downloaded { artifact_name: String::from("foo") })
        .unwrap();
    let r = m.step(StepEvent::DestinationChecked { present: true });
    assert!(matches!(r, Err(CloneError::DestinationExists)));
}

#[test]
fn failed_copy_is_copy_failed() {
    let source = SourceIdentity {
        kind: SourceKind::Registry,
        location: String::from("registry.example"),
    };
    let mut m = Orchestrator::start(
        Some(String::from("foo")),
        source,
        Some(String::from("1.0.0")),
    )
    .unwrap();
    m.step(StepEvent::Refreshed { ok: true }).unwrap();
    m.step(StepEvent::Downloaded { artifact_name: String::from("foo") })
        .unwrap();
    m.step(StepEvent::DestinationChecked { present: false }).unwrap();
    let r = m.step(StepEvent::Materialized { ok: false });
    assert!(matches!(r, Err(CloneError::CopyFailed)));
}

#[test]
fn marker_file_never_reaches_the_destination() {
    let entries = vec![
        TreeEntry { rel_path: vec![], kind: EntryKind::Dir },
        TreeEntry { rel_path: vec![String::from("src")], kind: EntryKind::Dir },
        TreeEntry {
            rel_path: vec![String::from("src"), String::from("lib.rs")],
            kind: EntryKind::File,
        },
        TreeEntry { rel_path: vec![String::from("Cargo.toml")], kind: EntryKind::File },
        TreeEntry { rel_path: vec![String::from(".cargo-ok")], kind: EntryKind::File },
    ];
    let plan = plan_tree(&entries);
    assert_eq!(
        plan,
        vec![
            FsAction::CreateDir,
            FsAction::CreateDir,
            FsAction::CopyFile,
            FsAction::CopyFile,
            FsAction::Skip,
        ]
    );
}

#[test]
fn nested_marker_file_is_skipped() {
    let e = TreeEntry {
        rel_path: vec![String::from("sub"), String::from(".cargo-ok")],
        kind: EntryKind::File,
    };
    assert_eq!(plan_entry(&e), FsAction::Skip);
}

#[test]
fn near_marker_name_is_copied() {
    let e = TreeEntry {
        rel_path: vec![String::from(".cargo-okay")],
        kind: EntryKind::File,
    };
    assert_eq!(plan_entry(&e), FsAction::CopyFile);
    assert_eq!(marker_name(), ".cargo-ok");
}

#[test]
fn error_messages_name_the_failure() {
    assert_eq!(
        CloneError::MissingPackageName.message(),
        "specify which package to clone"
    );
    assert_eq!(CloneError::PackageNotFound.message(), "package not found");
    assert_eq!(CloneError::InvalidVersion.message(), "invalid version string");
}
