use tui_torrent::aria2_client::{attach_file_names, result_or_unknown, RpcParam, RpcRequest, TorrentStatus};
use tui_torrent::supervisor::{daemon_args, DaemonAction, DaemonEvent, DaemonPhase, Supervisor};

fn job(gid: &str, done: &str, total: &str) -> TorrentStatus {
    TorrentStatus {
        gid: gid.into(),
        status: "active".into(),
        total_length: total.into(),
        completed_length: done.into(),
        download_speed: "0".into(),
        info_hash: None,
        file_name: None,
    }
}

#[test]
fn daemon_missing_is_reported_without_spawning() {
    let (mut sup, act) = Supervisor::new();
    assert!(matches!(act, DaemonAction::Probe));
    assert!(matches!(sup.step(DaemonEvent::ProbeFailed), DaemonAction::CheckInstalled));
    match sup.step(DaemonEvent::InstallChecked(false)) {
        DaemonAction::GiveUp(m) => assert!(m.contains("Please install aria2")),
        _ => panic!("expected to give up"),
    }
    assert_eq!(sup.phase, DaemonPhase::Unavailable);
    assert!(matches!(sup.step(DaemonEvent::ProbeFailed), DaemonAction::Idle));
    assert!(matches!(sup.step(DaemonEvent::Spawned), DaemonAction::Idle));
    assert!(!sup.must_stop_on_shutdown());
    assert!(!sup.is_running());
}

#[test]
fn running_daemon_is_used_and_left_alone() {
    let (mut sup, _) = Supervisor::new();
    assert!(matches!(sup.step(DaemonEvent::ProbeSucceeded), DaemonAction::Ready));
    assert_eq!(sup.phase, DaemonPhase::Running { owned: false });
    assert!(sup.is_running());
    assert!(!sup.must_stop_on_shutdown());
}

#[test]
fn spawned_daemon_is_owned() {
    let (mut sup, _) = Supervisor::new();
    sup.step(DaemonEvent::ProbeFailed);
    assert!(matches!(sup.step(DaemonEvent::InstallChecked(true)), DaemonAction::PrepareDownloadDir));
    match sup.step(DaemonEvent::DirReady("/tmp/dl".into())) {
        DaemonAction::Spawn(args) => {
            assert_eq!(args.len(), 14);
            assert_eq!(args[0], "--enable-rpc");
            assert_eq!(args[10], "--dir");
            assert_eq!(args[11], "/tmp/dl");
        }
        _ => panic!("expected a spawn"),
    }
    assert!(matches!(sup.step(DaemonEvent::Spawned), DaemonAction::SettleThenProbe));
    assert!(matches!(sup.step(DaemonEvent::ProbeSucceeded), DaemonAction::Ready));
    assert!(sup.must_stop_on_shutdown());
}

#[test]
fn silent_spawned_daemon_is_killed() {
    let (mut sup, _) = Supervisor::new();
    sup.step(DaemonEvent::ProbeFailed);
    sup.step(DaemonEvent::InstallChecked(true));
    sup.step(DaemonEvent::DirReady("/d".into()));
    sup.step(DaemonEvent::Spawned);
    match sup.step(DaemonEvent::ProbeFailed) {
        DaemonAction::AbandonChild(m) => assert!(m.contains("not responding")),
        _ => panic!("expected to abandon the child"),
    }
    assert!(!sup.must_stop_on_shutdown());
}

#[test]
fn spawn_failures_are_described() {
    let (mut sup, _) = Supervisor::new();
    sup.step(DaemonEvent::ProbeFailed);
    sup.step(DaemonEvent::InstallChecked(true));
    sup.step(DaemonEvent::DirReady("/d".into()));
    match sup.step(DaemonEvent::SpawnFailed { not_found: false, message: "denied".into() }) {
        DaemonAction::GiveUp(m) => assert_eq!(m, "Failed to start aria2c: denied"),
        _ => panic!("expected to give up"),
    }
    let (mut sup, _) = Supervisor::new();
    sup.step(DaemonEvent::ProbeFailed);
    sup.step(DaemonEvent::InstallChecked(true));
    match sup.step(DaemonEvent::DirFailed("read-only".into())) {
        DaemonAction::GiveUp(m) => assert_eq!(m, "read-only"),
        _ => panic!("expected to give up"),
    }
    let (mut sup, _) = Supervisor::new();
    sup.step(DaemonEvent::ProbeFailed);
    sup.step(DaemonEvent::InstallChecked(true));
    sup.step(DaemonEvent::DirReady("/d".into()));
    match sup.step(DaemonEvent::SpawnFailed { not_found: true, message: "x".into() }) {
        DaemonAction::GiveUp(m) => assert!(m.starts_with("aria2c not found")),
        _ => panic!("expected to give up"),
    }
}

#[test]
fn daemon_args_name_the_directory() {
    let args = daemon_args("/home/u/Downloads");
    assert_eq!(args[11], "/home/u/Downloads");
    assert_eq!(args[13], "--allow-overwrite=false");
}

#[test]
fn rpc_request_shapes() {
    let r = RpcRequest::tell_status("abc");
    assert_eq!(r.method, "aria2.tellStatus");
    assert_eq!(r.id, "status_abc");
    assert!(matches!(&r.params[0], RpcParam::Text(g) if g == "abc"));
    let a = RpcRequest::add_uri("magnet:?xt=urn:btih:X");
    assert_eq!(a.method, "aria2.addUri");
    assert!(matches!(&a.params[0], RpcParam::List(l) if l == &vec!["magnet:?xt=urn:btih:X".to_string()]));
    assert_eq!(RpcRequest::tell_active().id, "active");
    assert!(RpcRequest::get_version("test").params.is_empty());
}

#[test]
fn missing_result_is_unknown() {
    assert_eq!(result_or_unknown(None), "unknown");
    assert_eq!(result_or_unknown(Some("2089b05ecca3d829".into())), "2089b05ecca3d829");
}

#[test]
fn progress_text_cases() {
    assert_eq!(job("g", "512", "1024").progress_text(), " (50.0%)");
    assert_eq!(job("g", "1", "3").progress_text(), " (33.3%)");
    assert_eq!(job("g", "5", "0").progress_text(), "");
    assert_eq!(job("g", "abc", "10").progress_text(), "");
}

#[test]
fn display_name_falls_back_to_id() {
    assert_eq!(job("0123456789abcdef", "0", "0").display_name(), "Download 01234567");
    assert_eq!(job("abc", "0", "0").display_name(), "Download abc");
    let named = job("abc", "0", "0").with_file_name(Some("ubuntu.iso".into()));
    assert_eq!(named.display_name(), "ubuntu.iso");
}

#[test]
fn file_names_join_by_position() {
    let jobs = vec![job("a", "0", "1"), job("b", "0", "1"), job("c", "0", "1")];
    let out = attach_file_names(&jobs, vec![Some("a.iso".into()), None]);
    assert_eq!(out.len(), 3);
    assert_eq!(out[0].file_name.as_deref(), Some("a.iso"));
    assert_eq!(out[1].file_name, None);
    assert_eq!(out[2].file_name, None);
    assert_eq!(out[2].gid, "c");
}
