use flatkvm_agent::clipboard::ClipboardSync;
use flatkvm_agent::commands::{ack_for_outcome, display_args, layout_args, mount_args, run_args,
    ExecOutcome};
use flatkvm_agent::message::{DirKind, DirSpec, RunSpec};
use flatkvm_agent::notifications::{NotificationService, FIRST_NOTIFICATION_ID};
use flatkvm_agent::paths::{creates_target, default_home, resolve_target};
use flatkvm_agent::supervisor::AppSupervisor;

fn dir(kind: DirKind, app_name: &str) -> DirSpec {
    DirSpec {
        kind,
        tag: String::from("testdir"),
        app_name: String::from(app_name),
    }
}

#[test]
fn default_home_is_fixed() {
    assert_eq!(default_home(), "/home/flatkvm");
}

#[test]
fn target_of_each_kind() {
    let home = "/home/user";
    assert_eq!(resolve_target(&dir(DirKind::SystemDir, ""), home), "/var/lib/flatpak");
    assert_eq!(
        resolve_target(&dir(DirKind::UserDir, ""), home),
        "/home/user/.local/share/flatpak"
    );
    assert_eq!(
        resolve_target(&dir(DirKind::AppDir, "org.example.App"), home),
        "/home/user/.var/app/org.example.App"
    );
    assert_eq!(resolve_target(&dir(DirKind::PublicDir, ""), home), "/home/user/Public");
    assert_eq!(resolve_target(&dir(DirKind::DownloadDir, ""), home), "/home/user/Downloads");
}

#[test]
fn target_resolution_is_deterministic() {
    let d = dir(DirKind::AppDir, "org.example.App");
    let first = resolve_target(&d, "/home/user");
    let second = resolve_target(&d, "/home/user");
    assert_eq!(first, second);
}

#[test]
fn only_the_system_target_is_not_created() {
    assert!(!creates_target(DirKind::SystemDir));
    assert!(creates_target(DirKind::UserDir));
    assert!(creates_target(DirKind::AppDir));
    assert!(creates_target(DirKind::PublicDir));
    assert!(creates_target(DirKind::DownloadDir));
}

#[test]
fn mount_words_of_plain_names() {
    let args = mount_args("testdir", "/var/lib/flatpak").expect("plain names split");
    assert_eq!(
        args,
        vec![
            "mount",
            "-t",
            "9p",
            "-o",
            "trans=virtio,version=9p2000.L",
            "testdir",
            "/var/lib/flatpak",
        ]
    );
}

#[test]
fn mount_words_of_an_erroneous_tag() {
    assert!(mount_args("unclosed\"quote", "/var/lib/flatpak").is_none());
}

#[test]
fn display_words_are_fixed() {
    let args = display_args().expect("the fixed line splits");
    assert_eq!(args, vec!["--output", "Virtual-1", "--auto"]);
}

#[test]
fn layout_words_carry_the_layout() {
    assert_eq!(layout_args("fr"), vec!["-layout", "fr"]);
}

#[test]
fn ack_is_the_exit_code_or_minus_one() {
    assert_eq!(ack_for_outcome(&ExecOutcome::Exited(0)), 0);
    assert_eq!(ack_for_outcome(&ExecOutcome::Exited(32)), 32);
    assert_eq!(ack_for_outcome(&ExecOutcome::NoStatus), -1);
    assert_eq!(ack_for_outcome(&ExecOutcome::Failed), -1);
}

fn run_spec(
    run_as_user: bool,
    allow_session_bus: bool,
    allow_audio_client: bool,
    allow_public_share: bool,
    allow_downloads: bool,
) -> RunSpec {
    RunSpec {
        app: String::from("org.example.App"),
        run_as_user,
        allow_session_bus,
        allow_audio_client,
        allow_public_share,
        allow_downloads,
    }
}

#[test]
fn run_words_with_no_flags() {
    let args = run_args(&run_spec(false, false, false, false, false));
    assert_eq!(
        args,
        vec!["run", "--nofilesystem=home", "--persist=.mozilla", "org.example.App"]
    );
}

#[test]
fn run_words_with_every_flag() {
    let args = run_args(&run_spec(true, true, true, true, true));
    assert_eq!(
        args,
        vec![
            "run",
            "--user",
            "--socket=session-bus",
            "--nosocket=pulseaudio",
            "--env=PULSE_SERVER=10.0.2.2",
            "--nofilesystem=home",
            "--filesystem=~/Public",
            "--filesystem=~/Downloads",
            "--persist=.mozilla",
            "org.example.App",
        ]
    );
}

#[test]
fn run_words_for_a_session_bus_audio_client() {
    let args = run_args(&run_spec(false, true, true, false, false));
    assert!(args.contains(&String::from("--socket=session-bus")));
    assert!(args.contains(&String::from("--nosocket=pulseaudio")));
    assert!(args.contains(&String::from("--env=PULSE_SERVER=10.0.2.2")));
    assert!(args.contains(&String::from("--nofilesystem=home")));
    assert!(!args.iter().any(|a| a == "--socket=pulseaudio" || a == "--filesystem=home"));
}

#[test]
fn notification_ids_start_at_the_floor_and_increase() {
    let mut service = NotificationService::new();
    let first = service.notify("App", 0, "icon", "Hi", "body", 5000);
    assert!(first.id >= FIRST_NOTIFICATION_ID);
    assert_eq!(first.id, FIRST_NOTIFICATION_ID);
    assert_eq!(first.summary, "Hi");
    assert_eq!(first.body, "body");
    assert_eq!(first.expire_timeout, 5000);
    let second = service.notify("Other", 2, "", "Again", "", 0);
    assert!(second.id > first.id);
    let third = service.notify("Third", 0, "", "More", "text", -1);
    assert!(third.id > second.id);
}

#[test]
fn close_notification_changes_nothing() {
    let mut service = NotificationService::new();
    service.close_notification(3);
    let n = service.notify("App", 0, "icon", "Hi", "body", 5000);
    assert_eq!(n.id, FIRST_NOTIFICATION_ID);
}

#[test]
fn capabilities_are_fixed() {
    let service = NotificationService::new();
    assert_eq!(
        service.get_capabilities(),
        vec![
            "actions",
            "body",
            "body-hyperlinks",
            "body-markup",
            "icon-static",
            "sound",
            "persistence",
            "action-icons",
        ]
    );
}

#[test]
fn server_information_is_placeholder() {
    let service = NotificationService::new();
    let (name, vendor, version, spec_version) = service.get_server_information();
    assert_eq!(name, "dummy");
    assert_eq!(vendor, "dummy");
    assert_eq!(version, "dummy");
    assert_eq!(spec_version, "dummy");
}

#[test]
fn a_genuine_local_change_is_reported() {
    let mut sync = ClipboardSync::new();
    assert!(sync.observe_local_change());
    assert!(sync.observe_local_change());
}

#[test]
fn the_echo_of_a_remote_store_is_suppressed_once() {
    let mut sync = ClipboardSync::new();
    sync.note_remote_store();
    assert!(!sync.observe_local_change());
    assert!(sync.observe_local_change());
}

#[test]
fn one_exit_is_owed_per_successful_spawn() {
    let mut supervisor = AppSupervisor::new();
    supervisor.note_spawn(true);
    supervisor.note_spawn(false);
    supervisor.note_spawn(true);
    assert_eq!(supervisor.spawned, 2);
    assert_eq!(supervisor.exited, 0);
    supervisor.note_exit();
    supervisor.note_exit();
    assert_eq!(supervisor.spawned, 2);
    assert_eq!(supervisor.exited, 2);
}

#[test]
fn interleaved_remote_stores_suppress_each_echo() {
    let mut sync = ClipboardSync::new();
    assert!(sync.observe_local_change());
    sync.note_remote_store();
    assert!(!sync.observe_local_change());
    assert!(sync.observe_local_change());
    sync.note_remote_store();
    sync.note_remote_store();
    assert!(!sync.observe_local_change());
    assert!(sync.observe_local_change());
}
