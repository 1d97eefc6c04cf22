//! Data model of the agent: the requests the host may issue, the local
//! events the producer threads observe, and the merged event stream the
//! dispatcher consumes.

use vstd::prelude::*;

verus! {

/// Which host-shared directory a mount request refers to.
#[derive(Clone, Copy, PartialEq, Eq, Structural, Debug)]
pub enum DirKind {
    /// The system-wide application store; mounted at a fixed path.
    SystemDir,
    /// The per-user application store under the home directory.
    UserDir,
    /// The private data directory of one named application.
    AppDir,
    /// The shared `Public` directory under the home directory.
    PublicDir,
    /// The shared `Downloads` directory under the home directory.
    DownloadDir,
}

/// One host-shared directory to be mounted in the guest, named by the
/// transport tag the host exported it under. An `AppDir` request names
/// the application whose private directory is meant in `app_name`; the
/// other kinds pay it no attention.
pub struct DirSpec {
    pub kind: DirKind,
    pub tag: String,
    pub app_name: String,
}

/// Flags of a request to launch one sandboxed application.
///
/// The flags are independent booleans; no combination is illegal.
pub struct RunSpec {
    pub app: String,
    pub run_as_user: bool,
    pub allow_session_bus: bool,
    pub allow_audio_client: bool,
    pub allow_public_share: bool,
    pub allow_downloads: bool,
}

/// The text of one clipboard change, local or remote.
pub struct ClipboardEvent {
    pub data: String,
}

/// One desktop notification raised locally, to be relayed to the host.
pub struct DbusNotification {
    pub id: u32,
    pub summary: String,
    pub body: String,
    pub expire_timeout: i32,
}

/// Notice from the host that a relayed notification was closed there.
pub struct DbusNotificationClosed {
    pub id: u32,
    pub reason: u32,
}

/// One item of the merged event stream: every producer thread pushes
/// values of this type into one shared channel, and the dispatcher is
/// the sole consumer.
pub enum Message {
    LocalClipboardEvent(ClipboardEvent),
    RemoteClipboardEvent(ClipboardEvent),
    DbusNotification(DbusNotification),
    DbusNotificationClosed(DbusNotificationClosed),
    MountRequest(DirSpec),
    RunRequest(RunSpec),
    LayoutRequest(String),
    AppExit(i32),
}

impl Message {
    /// The request messages: each owes the host exactly one
    /// acknowledgement, whatever the outcome of the requested action.
    pub open spec fn is_request(self) -> bool {
        self is MountRequest || self is RunRequest || self is LayoutRequest
    }
}

} // verus!
