//! Units: how they are installed, upgraded, removed and checked.

use vasal::agent::error::Error;
use vasal::agent::state::UnitRow;
use vasal::agent::unit::artifact::{
    archive_format, check_digest, check_download, check_unpacked, plan_unpack, show_code,
    verify_digest, ArchiveFormat, Unpack,
};
use vasal::agent::unit::health::{
    after_check, check_kind, judge_package, judge_sidecar, package_check, probe_passes, probe_step,
    CheckKind, CheckOutcome, Finding, ProbeStep,
};
use vasal::agent::unit::install::InstallRun;
use vasal::agent::unit::remove::RemoveRun;
use vasal::agent::unit::rows::{keep_config, socket_path_for, unit_to_row};
use vasal::agent::unit::steps::{UnitAction, UnitEvent};
use vasal::agent::unit::upgrade::UpgradeRun;
use vasal::json::Json;
use vasal::protocol::error::ProtocolError;
use vasal::protocol::jsonrpc::{RequestId, Response};
use vasal::protocol::sidecar::HealthStatus;
use vasal::protocol::task::RollbackSpec;
use vasal::protocol::unit::{Artifact, HealthCheck, ManagedUnit, UnitKind, UnitState};

const ABC: &str = "ba7816bf8f01cfea414140de5dae2223b00361a396177a9cb410ff61f20015ad";

fn object(members: &[(&str, Json)]) -> Json {
    Json::Object(members.iter().map(|(k, v)| (k.to_string(), v.clone())).collect())
}

fn unit(kind: UnitKind, url: &str) -> ManagedUnit {
    ManagedUnit {
        name: "u".into(),
        kind,
        version: "1.0".into(),
        artifact: Artifact { url: url.into(), sha256: ABC.into() },
        state: UnitState::Absent,
        health_check: None,
        config: None,
        socket_path: None,
    }
}

fn row(kind: &str, pid: Option<u32>) -> UnitRow {
    UnitRow {
        name: "u".into(),
        kind: kind.into(),
        version: "1.0".into(),
        state: "running".into(),
        health: None,
        health_error: None,
        pid,
        socket_path: None,
        config_json: None,
        updated_at: 1,
    }
}

fn downloaded(bytes: &[u8]) -> UnitEvent {
    UnitEvent::Downloaded { code: 200, status: "200 OK".into(), bytes: bytes.to_vec() }
}

#[test]
fn digests_are_compared() {
    assert!(verify_digest(b"abc", ABC).is_ok());
    let e = verify_digest(b"", ABC).unwrap_err();
    assert_eq!(
        e.to_text(),
        format!("SHA-256 mismatch: expected {ABC}, got e3b0c44298fc1c149afbf4c8996fb92427ae41e4649b934ca495991b7852b855")
    );
    assert!(check_digest(&[0x0f, 0xa0], "0fa0").is_ok());
    assert!(check_digest(&[0x0f, 0xa0], "0FA0").is_err());
    assert!(check_download("artifact", "u", 299, "299").is_ok());
    assert_eq!(
        check_download("artifact", "u", 404, "404 Not Found").unwrap_err().to_text(),
        "unit management: artifact download for u returned HTTP 404 Not Found"
    );
}

#[test]
fn archives_are_told_by_their_ending() {
    assert_eq!(archive_format("x.tar.gz"), Some(ArchiveFormat::TarGz));
    assert_eq!(archive_format("x.tgz"), Some(ArchiveFormat::TarGz));
    assert_eq!(archive_format("x.tar.xz"), Some(ArchiveFormat::TarXz));
    assert_eq!(archive_format("x.tbz2"), Some(ArchiveFormat::TarBz2));
    assert_eq!(archive_format("x.deb"), Some(ArchiveFormat::Deb));
    assert_eq!(archive_format("x.zip"), Some(ArchiveFormat::Zip));
    assert_eq!(archive_format("x"), None);
    match plan_unpack("https://h/X.TAR.GZ", "/c/u", "u", "1.0") {
        Unpack::Archive { file, program, args } => {
            assert_eq!(file, "/c/u/u-1.0.tar.gz");
            assert_eq!(program, "tar");
            assert_eq!(args, ["xzf", "/c/u/u-1.0.tar.gz", "-C", "/c/u"]);
        }
        other => panic!("{other:?}"),
    }
    match plan_unpack("https://h/x.deb", "/c/u", "u", "1.0") {
        Unpack::Archive { program, args, .. } => {
            assert_eq!(program, "dpkg-deb");
            assert_eq!(args, ["--extract", "/c/u/u-1.0.deb", "/c/u"]);
        }
        other => panic!("{other:?}"),
    }
    assert!(matches!(plan_unpack("https://h/x", "/c/u", "u", "1.0"),
        Unpack::Binary { file } if file == "/c/u/u"));
    assert!(check_unpacked("u", "tar", Some(0)).is_ok());
    assert_eq!(
        check_unpacked("u", "tar", Some(2)).unwrap_err().to_text(),
        "unit management: failed to extract artifact for u: tar exited with Some(2)"
    );
    assert_eq!(show_code(None), "None");
    assert_eq!(show_code(Some(-9)), "Some(-9)");
}

#[test]
fn sidecar_is_installed_started_and_stored() {
    let (mut run, action) = InstallRun::new(unit(UnitKind::Sidecar, "https://h/u"), "/c", "/run");
    assert!(matches!(action, UnitAction::Download { url } if url == "https://h/u"));
    assert!(matches!(run.on_event(downloaded(b"abc"), 5),
        UnitAction::Unpack { plan: Unpack::Binary { file }, bytes }
            if file == "/c/u/u" && bytes == b"abc"));
    match run.on_event(UnitEvent::Unpacked { code: Some(0) }, 5) {
        UnitAction::Start { binary, socket } => {
            assert_eq!(binary, "/c/u/u");
            assert_eq!(socket, "/run/u.sock");
        }
        other => panic!("{other:?}"),
    }
    match run.on_event(UnitEvent::Started(Some(42)), 5) {
        UnitAction::Save(row) => {
            assert_eq!(row.state, "running");
            assert_eq!(row.pid, Some(42));
            assert_eq!(row.socket_path.as_deref(), Some("/run/u.sock"));
            assert_eq!(row.updated_at, 5);
        }
        other => panic!("{other:?}"),
    }
    assert!(matches!(run.on_event(UnitEvent::Stored, 5), UnitAction::Finish));
    assert!(run.into_outcome().unwrap().is_ok());
}

#[test]
fn package_is_installed_without_a_process() {
    let (mut run, _) = InstallRun::new(unit(UnitKind::Package, "https://h/u.tgz"), "/c", "/run");
    run.on_event(downloaded(b"abc"), 5);
    match run.on_event(UnitEvent::Unpacked { code: Some(0) }, 5) {
        UnitAction::Save(row) => {
            assert_eq!(row.state, "installed");
            assert_eq!(row.pid, None);
        }
        other => panic!("{other:?}"),
    }
}

#[test]
fn bad_downloads_are_not_installed() {
    let (mut run, _) = InstallRun::new(unit(UnitKind::Package, "https://h/u"), "/c", "/run");
    assert!(matches!(run.on_event(downloaded(b"abd"), 5), UnitAction::Finish));
    assert!(matches!(run.into_outcome(), Some(Err(Error::Sha256Mismatch { .. }))));
    let (mut run, _) = InstallRun::new(unit(UnitKind::Package, "https://h/u.zip"), "/c", "/run");
    run.on_event(downloaded(b"abc"), 5);
    run.on_event(UnitEvent::Unpacked { code: None }, 5);
    assert_eq!(
        run.into_outcome().unwrap().unwrap_err().to_text(),
        "unit management: failed to extract artifact for u: unzip exited with None"
    );
    let (mut run, _) = InstallRun::new(unit(UnitKind::Package, "https://h/u"), "/c", "/run");
    run.on_event(UnitEvent::Failed(Error::Http("down".into())), 5);
    assert_eq!(run.into_outcome().unwrap().unwrap_err().to_text(), "HTTP: down");
}

fn upgrade(rollback: bool) -> UpgradeRun {
    let spec = RollbackSpec {
        version: "1.0".into(),
        artifact: Artifact { url: "https://h/old".into(), sha256: ABC.into() },
    };
    let back = if rollback { Some(spec) } else { None };
    UpgradeRun::new("u", "2.0", "https://h/new", ABC, back, "/c", "/run").0
}

#[test]
fn upgrade_stops_replaces_and_probes() {
    let mut run = upgrade(true);
    assert!(matches!(run.on_event(downloaded(b"abc"), 5),
        UnitAction::Load { name } if name == "u"));
    assert!(matches!(run.on_event(UnitEvent::Loaded(Some(row("sidecar", Some(7)))), 5),
        UnitAction::Stop { pid: 7, pause_sec: 2 }));
    assert!(matches!(run.on_event(UnitEvent::Stopped, 5), UnitAction::Unpack { .. }));
    assert!(matches!(
        run.on_event(UnitEvent::Unpacked { code: Some(0) }, 5),
        UnitAction::Start { .. }
    ));
    assert!(matches!(
        run.on_event(UnitEvent::Started(Some(8)), 5),
        UnitAction::Probe { timeout_sec: 10, .. }
    ));
    match run.on_event(UnitEvent::Probed(true), 5) {
        UnitAction::Save(row) => {
            assert_eq!(row.version, "2.0");
            assert_eq!(row.pid, Some(8));
        }
        other => panic!("{other:?}"),
    }
    run.on_event(UnitEvent::Stored, 5);
    assert!(run.into_outcome().unwrap().is_ok());
}

#[test]
fn upgrade_goes_back_when_not_well() {
    let mut run = upgrade(true);
    run.on_event(downloaded(b"abc"), 5);
    run.on_event(UnitEvent::Loaded(Some(row("sidecar", None))), 5);
    run.on_event(UnitEvent::Unpacked { code: Some(0) }, 5);
    run.on_event(UnitEvent::Started(Some(8)), 5);
    assert!(matches!(run.on_event(UnitEvent::Probed(false), 5),
        UnitAction::Stop { pid: 8, pause_sec: 1 }));
    assert!(matches!(run.on_event(UnitEvent::Stopped, 5),
        UnitAction::Download { url } if url == "https://h/old"));
    assert!(matches!(run.on_event(downloaded(b"abc"), 5), UnitAction::Unpack { .. }));
    run.on_event(UnitEvent::Unpacked { code: Some(0) }, 5);
    run.on_event(UnitEvent::Loaded(Some(row("sidecar", None))), 5);
    match run.on_event(UnitEvent::Started(Some(9)), 6) {
        UnitAction::Save(row) => {
            assert_eq!(row.version, "1.0");
            assert_eq!(row.pid, Some(9));
        }
        other => panic!("{other:?}"),
    }
    run.on_event(UnitEvent::Stored, 6);
    assert_eq!(
        run.into_outcome().unwrap().unwrap_err().to_text(),
        "unit management: health check failed after upgrade: u"
    );
}

#[test]
fn upgrade_without_a_way_back_just_fails() {
    let mut run = upgrade(false);
    run.on_event(downloaded(b"abc"), 5);
    run.on_event(UnitEvent::Loaded(Some(row("package", None))), 5);
    assert!(matches!(
        run.on_event(UnitEvent::Unpacked { code: Some(1) }, 5),
        UnitAction::Finish
    ));
    assert_eq!(
        run.into_outcome().unwrap().unwrap_err().to_text(),
        "unit management: failed to extract artifact for u"
    );
    let mut run = upgrade(false);
    run.on_event(downloaded(b"abc"), 5);
    run.on_event(UnitEvent::Loaded(None), 5);
    assert_eq!(
        run.into_outcome().unwrap().unwrap_err().to_text(),
        "unit management: unit not found: u"
    );
}

#[test]
fn removal_stops_forgets_and_purges() {
    let (mut run, action) = RemoveRun::new("u", true, "/c");
    assert!(matches!(action, UnitAction::Load { .. }));
    assert!(matches!(
        run.on_event(UnitEvent::Loaded(Some(row("sidecar", Some(3))))),
        UnitAction::Stop { pid: 3, .. }
    ));
    assert!(matches!(run.on_event(UnitEvent::Stopped), UnitAction::Delete { .. }));
    assert!(matches!(run.on_event(UnitEvent::Stored),
        UnitAction::Purge { dir } if dir == "/c/u"));
    assert!(matches!(run.on_event(UnitEvent::Purged), UnitAction::Finish));
    assert!(run.into_outcome().unwrap().is_ok());
    let (mut run, _) = RemoveRun::new("u", false, "/c");
    assert!(matches!(run.on_event(UnitEvent::Loaded(None)), UnitAction::Delete { .. }));
    assert!(matches!(run.on_event(UnitEvent::Stored), UnitAction::Finish));
}

#[test]
fn stored_check_is_found_again() {
    let mut u = unit(UnitKind::Package, "x");
    u.config = Some(object(&[("port", Json::unsigned(1))]));
    u.health_check = Some(HealthCheck { command: "true".into(), timeout_ms: 7 });
    let stored = unit_to_row(&u, 3);
    assert_eq!(
        stored.config_json.as_deref(),
        Some(r#"{"health_check":{"command":"true","timeout_ms":7},"port":1}"#)
    );
    let check = package_check(&stored.config_json).unwrap();
    assert_eq!(check.command, "true");
    assert_eq!(check.timeout_ms, 7);
    assert_eq!(stored.kind, "package");
    assert_eq!(stored.state, "absent");
    assert_eq!(stored.updated_at, 3);
    assert!(package_check(&Some("junk".into())).is_none());
    assert!(package_check(&None).is_none());
    let bare = package_check(&Some(r#"{"health_check":{"command":"x"}}"#.into())).unwrap();
    assert_eq!(bare.timeout_ms, 5_000);
    assert!(keep_config(&None, &None).is_none());
    u.config = Some(Json::text("port 1"));
    let stored = unit_to_row(&u, 3);
    assert_eq!(
        stored.config_json.as_deref(),
        Some(r#"{"config":"port 1","health_check":{"command":"true","timeout_ms":7}}"#)
    );
    assert_eq!(package_check(&stored.config_json).unwrap().command, "true");
    assert_eq!(socket_path_for("/run", "u"), "/run/u.sock");
}

fn answer(result: Option<Json>, error: Option<ProtocolError>) -> Result<Response, Error> {
    Ok(Response {
        jsonrpc: "2.0".into(),
        result,
        error: error.map(|e| e.into()),
        id: RequestId::Integer(1),
    })
}

#[test]
fn sidecars_are_judged_by_their_answer() {
    let said = |status: &str| {
        object(&[("status", Json::text(status)), ("error", Json::text("why"))])
    };
    let f = judge_sidecar(answer(Some(said("ok")), None));
    assert_eq!((f.status, f.error), (HealthStatus::Healthy, None));
    let f = judge_sidecar(answer(Some(said("degraded")), None));
    assert_eq!((f.status, f.error.as_deref()), (HealthStatus::Degraded, Some("why")));
    let f = judge_sidecar(answer(None, Some(ProtocolError::internal_error("boom"))));
    assert_eq!((f.status, f.error.as_deref()), (HealthStatus::Unhealthy, Some("boom")));
    let f = judge_sidecar(answer(Some(Json::Null), None));
    assert_eq!(f.status, HealthStatus::Healthy);
    let f = judge_sidecar(Err(Error::Io("refused".into())));
    assert_eq!(f.error.as_deref(), Some("I/O: refused"));
    assert!(!probe_passes(&f));
    assert!(probe_passes(&Finding { status: HealthStatus::Degraded, error: None }));
    assert_eq!(probe_step(9_999, 10), ProbeStep::Ask);
    assert_eq!(probe_step(10_000, 10), ProbeStep::GiveUp);
}

#[test]
fn packages_are_judged_by_their_command() {
    let ok = judge_package(CheckOutcome::Exited { code: Some(0), stderr: b"noise".to_vec() });
    assert_eq!((ok.status, ok.error), (HealthStatus::Healthy, None));
    let bad = judge_package(CheckOutcome::Exited { code: Some(3), stderr: b" down \n".to_vec() });
    assert_eq!(bad.error.as_deref(), Some("exit code Some(3): down"));
    let late = judge_package(CheckOutcome::TimedOut);
    assert_eq!(late.error.as_deref(), Some("health check timed out"));
    let lost = judge_package(CheckOutcome::Failed("no sh".into()));
    assert_eq!(lost.error.as_deref(), Some("no sh"));
    assert_eq!(check_kind(&row("sidecar", None)), CheckKind::Ipc);
    assert_eq!(check_kind(&row("package", None)), CheckKind::Command);
    assert_eq!(check_kind(&row("ship", None)), CheckKind::Skip);
    let mut stopped = row("sidecar", None);
    stopped.state = "stopped".into();
    assert_eq!(check_kind(&stopped), CheckKind::Skip);
}

#[test]
fn only_news_is_stored() {
    let finding = || Some(Finding { status: HealthStatus::Unhealthy, error: Some("e".into()) });
    let first = after_check(&row("sidecar", None), finding(), 9).unwrap();
    assert_eq!(first.health.as_deref(), Some("unhealthy"));
    assert_eq!(first.health_error.as_deref(), Some("e"));
    assert_eq!(first.updated_at, 9);
    assert!(after_check(&first, finding(), 10).is_none());
    let unknown = after_check(&first, None, 11).unwrap();
    assert_eq!(unknown.health, None);
    assert!(after_check(&unknown, None, 12).is_none());
}
