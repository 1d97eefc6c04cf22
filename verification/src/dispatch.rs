//! The dispatcher: the single consumer of the merged event stream and
//! the only component that writes to the host reply path or the local
//! clipboard store.
//!
//! The dispatcher thread consumes one event at a time and performs the
//! work planned here before accepting the next event, so all mutation
//! of the shared external resources is strictly serialised. The
//! planning itself is pure decision: the surrounding binary carries the
//! planned work out (writes, stores, executions) and feeds what the
//! outside world answered back through the finishing functions below.
//!
//! Failure policy: any failure writing to the host reply path or
//! storing into the local clipboard is fatal, those being required
//! invariants of the bridge; a failure of a requested action is
//! recovered locally and reported to the host as a negative
//! acknowledgement.

use vstd::prelude::*;
use crate::clipboard::ClipboardSync;
use crate::commands::{ack_for_outcome, ack_of, layout_args, layout_args_spec, mount_args,
    mount_line_spec, run_args, run_args_spec, shell_split, ExecOutcome};
use crate::message::{ClipboardEvent, DbusNotification, Message};
use crate::paths::{creates_target, creates_target_spec, resolve_target, target_path_spec};

verus! {

/// One message written to the host reply path.
pub enum HostReply {
    Ack(i32),
    ClipboardEvent(ClipboardEvent),
    DbusNotification(DbusNotification),
    ExitCode(i32),
}

/// The work the runtime owes for one consumed event. Each event plans
/// exactly one item of work.
pub enum Work {
    /// Write one message to the host reply path; a write failure is
    /// fatal.
    Reply(HostReply),
    /// Store `data` into the local clipboard; the suppress-echo flag
    /// has already been raised. A store failure is fatal.
    StoreClipboard { data: String },
    /// Emit the closed signal, with this id and reason, on the
    /// notification transport, so the desktop removes the on-screen
    /// notification.
    SignalClosed { id: u32, reason: u32 },
    /// Create `ensure_dir` if one is named, run `program` with `args`
    /// to completion, and acknowledge with `request_ack` of the
    /// outcome; a step that fails makes the outcome `Failed`, never a
    /// crash of the dispatcher.
    ExecThenAck { ensure_dir: Option<String>, program: String, args: Vec<String> },
    /// Spawn `program` with `args` and the one environment entry
    /// `env_name=env_value`, acknowledge the spawn at once with
    /// `spawn_ack`, and, for a successful spawn only, post the
    /// process's eventual end through `exit_message` exactly once.
    SpawnThenAck { program: String, args: Vec<String>, env_name: String, env_value: String },
}

/// How many acknowledgements the work item `w` sends to the host: a
/// planned execution or spawn acknowledges exactly once when finished,
/// a direct acknowledgement reply counts itself, nothing else ever
/// acknowledges.
pub open spec fn acks_owed(w: Work) -> nat {
    match w {
        Work::Reply(HostReply::Ack(_)) => 1,
        Work::ExecThenAck { .. } => 1,
        Work::SpawnThenAck { .. } => 1,
        _ => 0,
    }
}

/// Plan the work for one consumed event.
///
/// Exactly one acknowledgement is owed for each request event and none
/// for any other event, whatever the outcome of the planned work; a
/// remote clipboard value raises the suppress-echo flag before the
/// store it plans, and nothing else touches the flag.
pub fn plan_message(msg: Message, home: &str, sync: &mut ClipboardSync) -> (w: Work)
    ensures
        acks_owed(w) == if msg.is_request() { 1nat } else { 0nat },
        msg matches Message::RemoteClipboardEvent(_) ==> final(sync).suppress_echo,
        !(msg is RemoteClipboardEvent) ==> *final(sync) == *old(sync),
        msg matches Message::LocalClipboardEvent(ce)
            ==> w == Work::Reply(HostReply::ClipboardEvent(ce)),
        msg matches Message::RemoteClipboardEvent(ce)
            ==> w matches Work::StoreClipboard { data } && data == ce.data,
        msg matches Message::DbusNotification(dn)
            ==> w == Work::Reply(HostReply::DbusNotification(dn)),
        msg matches Message::DbusNotificationClosed(nc)
            ==> w matches Work::SignalClosed { id, reason } && id == nc.id && reason == nc.reason,
        msg matches Message::AppExit(code) ==> w == Work::Reply(HostReply::ExitCode(code)),
        msg matches Message::LayoutRequest(layout) ==> w matches Work::ExecThenAck {
            ensure_dir,
            program,
            args,
        } && ensure_dir is None && program@ == "setxkbmap"@ && args.deep_view()
            == layout_args_spec(layout@),
        msg matches Message::MountRequest(dir) ==> {
            let target = target_path_spec(dir.kind, dir.app_name@, home@);
            let words = shell_split(mount_line_spec(dir.tag@, target));
            &&& words is None ==> (w matches Work::Reply(HostReply::Ack(code)) && code == -1)
            &&& words matches Some(ws) ==> w matches Work::ExecThenAck {
                ensure_dir,
                program,
                args,
            } && program@ == "sudo"@ && args.deep_view() == ws && (if creates_target_spec(
                dir.kind,
            ) {
                ensure_dir matches Some(t) && t@ == target
            } else {
                ensure_dir is None
            })
        },
        msg matches Message::RunRequest(rr) ==> w matches Work::SpawnThenAck {
            program,
            args,
            env_name,
            env_value,
        } && program@ == "flatpak"@ && args.deep_view() == run_args_spec(rr) && env_name@
            == "DISPLAY"@ && env_value@ == ":0"@,
{
    match msg {
        Message::LocalClipboardEvent(ce) => Work::Reply(HostReply::ClipboardEvent(ce)),
        Message::RemoteClipboardEvent(ce) => {
            sync.note_remote_store();
            Work::StoreClipboard { data: ce.data }
        }
        Message::DbusNotification(dn) => Work::Reply(HostReply::DbusNotification(dn)),
        Message::DbusNotificationClosed(nc) => Work::SignalClosed {
            id: nc.id,
            reason: nc.reason,
        },
        Message::AppExit(code) => Work::Reply(HostReply::ExitCode(code)),
        Message::LayoutRequest(layout) => Work::ExecThenAck {
            ensure_dir: None,
            program: String::from_str("setxkbmap"),
            args: layout_args(layout.as_str()),
        },
        Message::MountRequest(dir) => {
            let target = resolve_target(&dir, home);
            match mount_args(dir.tag.as_str(), target.as_str()) {
                None => Work::Reply(HostReply::Ack(-1)),
                Some(args) => Work::ExecThenAck {
                    ensure_dir: if creates_target(dir.kind) {
                        Some(target)
                    } else {
                        None
                    },
                    program: String::from_str("sudo"),
                    args,
                },
            }
        }
        Message::RunRequest(rr) => Work::SpawnThenAck {
            program: String::from_str("flatpak"),
            args: run_args(&rr),
            env_name: String::from_str("DISPLAY"),
            env_value: String::from_str(":0"),
        },
    }
}

/// The acknowledgement for a request whose planned command ended as
/// `out`: exactly one acknowledgement, carrying the command's exit code
/// or `-1` when none is available.
pub fn request_ack(out: &ExecOutcome) -> (r: HostReply)
    ensures
        r matches HostReply::Ack(code) && code as int == ack_of(*out),
{
    HostReply::Ack(ack_for_outcome(out))
}

/// The acknowledgement code of a spawn: `0` for a successful spawn,
/// `-1` for a failed one.
pub open spec fn spawn_ack_code(spawned: bool) -> int {
    if spawned {
        0
    } else {
        -1
    }
}

/// The immediate acknowledgement for a run request: exactly one, `0`
/// when the application was spawned, `-1` when the spawn failed; it is
/// sent at once, independently of the eventual exit of the process.
pub fn spawn_ack(spawned: bool) -> (r: HostReply)
    ensures
        r matches HostReply::Ack(code) && code as int == spawn_ack_code(spawned),
{
    if spawned {
        HostReply::Ack(0)
    } else {
        HostReply::Ack(-1)
    }
}

/// The event the exit watcher of a spawned application posts into the
/// merged stream when the process ends: its exit code, or `-1` when the
/// process ended without one.
pub fn exit_message(status_code: Option<i32>) -> (m: Message)
    ensures
        m matches Message::AppExit(code) && (match status_code {
            Some(c) => code == c,
            None => code == -1,
        }),
{
    match status_code {
        Some(c) => Message::AppExit(c),
        None => Message::AppExit(-1),
    }
}

} // verus!
