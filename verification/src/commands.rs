//! Construction of the operating-system invocations the agent issues:
//! the virtio/9p mount line, the sandboxed-application launcher
//! arguments, the keyboard-layout change and the display
//! reconfiguration, and the acknowledgement code derived from how a
//! command ended.

use vstd::prelude::*;
use crate::message::RunSpec;

verus! {

/// How an issued command ended: with an exit code, without one (for
/// instance killed by a signal), or not run at all (the program could
/// not be executed, or a directory it needed could not be created).
pub enum ExecOutcome {
    Exited(i32),
    NoStatus,
    Failed,
}

/// The acknowledgement code for a request whose command ended as `out`:
/// the command's own exit code, and `-1` when no exit status is
/// available or the command could not be run.
pub open spec fn ack_of(out: ExecOutcome) -> int {
    match out {
        ExecOutcome::Exited(code) => code as int,
        ExecOutcome::NoStatus => -1,
        ExecOutcome::Failed => -1,
    }
}

/// Turn the way a command ended into the acknowledgement code owed to
/// the host.
pub fn ack_for_outcome(out: &ExecOutcome) -> (r: i32)
    ensures
        r as int == ack_of(*out),
{
    match out {
        ExecOutcome::Exited(code) => *code,
        ExecOutcome::NoStatus => -1,
        ExecOutcome::Failed => -1,
    }
}

/// What `shlex::split` makes of a line: its POSIX-shell words, or
/// nothing when the line is erroneous.
pub uninterp spec fn shell_split(line: Seq<char>) -> Option<Seq<Seq<char>>>;

/// Relies on `shlex::split`: splits `line` into words by POSIX-shell
/// syntax, returning `None` exactly when the line is erroneous (an
/// unclosed quote); the result depends on the line alone.
#[verifier::external_body]
fn split_line(line: &str) -> (r: Option<Vec<String>>)
    ensures
        r is Some <==> shell_split(line@) is Some,
        r matches Some(words) ==> shell_split(line@) == Some(words.deep_view()),
{
    shlex::split(line)
}

/// The mount line for transport tag `tag` and mount point `target`: a
/// 9p filesystem over the fixed virtio transport configuration.
pub open spec fn mount_line_spec(tag: Seq<char>, target: Seq<char>) -> Seq<char> {
    "mount -t 9p -o trans=virtio,version=9p2000.L "@ + tag + " "@ + target
}

/// The words of the mount invocation for `tag` and `target`, or `None`
/// when the two names make the line unsplittable (the request then
/// fails; nothing is run).
pub fn mount_args(tag: &str, target: &str) -> (r: Option<Vec<String>>)
    ensures
        r is Some <==> shell_split(mount_line_spec(tag@, target@)) is Some,
        r matches Some(args) ==> shell_split(mount_line_spec(tag@, target@))
            == Some(args.deep_view()),
{
    let mut line = String::from_str("mount -t 9p -o trans=virtio,version=9p2000.L ");
    line.append(tag);
    line.append(" ");
    line.append(target);
    split_line(line.as_str())
}

/// The fixed display-reconfiguration line: auto-detect the resolution
/// of the virtual output.
pub open spec fn display_line_spec() -> Seq<char> {
    "--output Virtual-1 --auto"@
}

/// The words of the display-reconfiguration invocation, or `None` when
/// the fixed line does not split (then nothing is run).
pub fn display_args() -> (r: Option<Vec<String>>)
    ensures
        r is Some <==> shell_split(display_line_spec()) is Some,
        r matches Some(args) ==> shell_split(display_line_spec()) == Some(args.deep_view()),
{
    split_line("--output Virtual-1 --auto")
}

/// The arguments of the keyboard-layout change invocation.
pub open spec fn layout_args_spec(layout: Seq<char>) -> Seq<Seq<char>> {
    seq!["-layout"@, layout]
}

/// Build the keyboard-layout change arguments for `layout`.
pub fn layout_args(layout: &str) -> (r: Vec<String>)
    ensures
        r.deep_view() == layout_args_spec(layout@),
{
    let mut args: Vec<String> = Vec::new();
    args.push(String::from_str("-layout"));
    args.push(String::from_str(layout));
    proof {
        assert(args.deep_view() =~= layout_args_spec(layout@));
    }
    args
}

/// The launcher arguments for a run request `r`, in order: the launch
/// verb; per-user installation when asked; the guest's own session bus
/// when asked (notifications to the host are filtered and relayed by
/// the agent itself); for audio clients, the launcher's own audio
/// socket is withheld and a remote audio-server endpoint is injected
/// instead; the home directory is never shared, so the application
/// persists its data in its own isolated directory; narrow exceptions
/// for the public and download shares when asked; one unconditional
/// persistence exception for a named hidden directory, for an
/// application family that otherwise escapes its sandbox to write into
/// the home directory; and the application identifier itself.
pub open spec fn run_args_spec(r: RunSpec) -> Seq<Seq<char>> {
    let a0 = seq!["run"@];
    let a1 = if r.run_as_user { a0.push("--user"@) } else { a0 };
    let a2 = if r.allow_session_bus { a1.push("--socket=session-bus"@) } else { a1 };
    let a3 = if r.allow_audio_client {
        a2.push("--nosocket=pulseaudio"@).push("--env=PULSE_SERVER=10.0.2.2"@)
    } else {
        a2
    };
    let a4 = a3.push("--nofilesystem=home"@);
    let a5 = if r.allow_public_share { a4.push("--filesystem=~/Public"@) } else { a4 };
    let a6 = if r.allow_downloads { a5.push("--filesystem=~/Downloads"@) } else { a5 };
    a6.push("--persist=.mozilla"@).push(r.app@)
}

/// Build the launcher arguments for the run request `r`.
pub fn run_args(r: &RunSpec) -> (args: Vec<String>)
    ensures
        args.deep_view() == run_args_spec(*r),
{
    let mut args: Vec<String> = Vec::new();
    args.push(String::from_str("run"));
    if r.run_as_user {
        args.push(String::from_str("--user"));
    }
    if r.allow_session_bus {
        args.push(String::from_str("--socket=session-bus"));
    }
    if r.allow_audio_client {
        args.push(String::from_str("--nosocket=pulseaudio"));
        args.push(String::from_str("--env=PULSE_SERVER=10.0.2.2"));
    }
    args.push(String::from_str("--nofilesystem=home"));
    if r.allow_public_share {
        args.push(String::from_str("--filesystem=~/Public"));
    }
    if r.allow_downloads {
        args.push(String::from_str("--filesystem=~/Downloads"));
    }
    args.push(String::from_str("--persist=.mozilla"));
    args.push(r.app.clone());
    proof {
        assert(args.deep_view() =~= run_args_spec(*r));
    }
    args
}

/// Membership in a sequence extended by one element: the extension
/// holds exactly the old elements and the new one.
proof fn lemma_push_contains<A>(s: Seq<A>, x: A, y: A)
    ensures
        s.push(x).contains(y) <==> (s.contains(y) || x == y),
{
    if s.contains(y) {
        let i = choose|i: int| 0 <= i < s.len() && s[i] == y;
        assert(s.push(x)[i] == y);
    }
    if x == y {
        assert(s.push(x)[s.len() as int] == y);
    }
    if s.push(x).contains(y) && x != y {
        let i = choose|i: int| 0 <= i < s.push(x).len() && s.push(x)[i] == y;
        assert(s[i] == y);
    }
}

/// The sandbox shape of every launcher invocation: the home directory
/// is never shared and the named persistence exception is always
/// granted; when the session bus is allowed it is exposed; when audio
/// clients are allowed, the launcher's own audio socket is withheld and
/// the remote audio-server endpoint is injected in its place.
pub proof fn lemma_run_args_sandbox(r: RunSpec)
    ensures
        run_args_spec(r).contains("--nofilesystem=home"@),
        run_args_spec(r).contains("--persist=.mozilla"@),
        r.allow_session_bus ==> run_args_spec(r).contains("--socket=session-bus"@),
        r.allow_audio_client ==> run_args_spec(r).contains("--nosocket=pulseaudio"@)
            && run_args_spec(r).contains("--env=PULSE_SERVER=10.0.2.2"@),
{
    let a0 = seq!["run"@];
    let a1 = if r.run_as_user { a0.push("--user"@) } else { a0 };
    let a2 = if r.allow_session_bus { a1.push("--socket=session-bus"@) } else { a1 };
    let a3 = if r.allow_audio_client {
        a2.push("--nosocket=pulseaudio"@).push("--env=PULSE_SERVER=10.0.2.2"@)
    } else {
        a2
    };
    let a4 = a3.push("--nofilesystem=home"@);
    let a5 = if r.allow_public_share { a4.push("--filesystem=~/Public"@) } else { a4 };
    let a6 = if r.allow_downloads { a5.push("--filesystem=~/Downloads"@) } else { a5 };
    let a7 = a6.push("--persist=.mozilla"@);
    let a8 = a7.push(r.app@);
    assert(run_args_spec(r) == a8);
    assert forall|y: Seq<char>|
        a4.contains(y) || y == "--persist=.mozilla"@ implies #[trigger] a8.contains(y) by {
        lemma_push_contains(a4, "--filesystem=~/Public"@, y);
        lemma_push_contains(a5, "--filesystem=~/Downloads"@, y);
        lemma_push_contains(a6, "--persist=.mozilla"@, y);
        lemma_push_contains(a7, r.app@, y);
    }
    lemma_push_contains(a3, "--nofilesystem=home"@, "--nofilesystem=home"@);
    if r.allow_session_bus {
        lemma_push_contains(a1, "--socket=session-bus"@, "--socket=session-bus"@);
        lemma_push_contains(a2, "--nosocket=pulseaudio"@, "--socket=session-bus"@);
        if r.allow_audio_client {
            lemma_push_contains(
                a2.push("--nosocket=pulseaudio"@),
                "--env=PULSE_SERVER=10.0.2.2"@,
                "--socket=session-bus"@,
            );
        }
        lemma_push_contains(a3, "--nofilesystem=home"@, "--socket=session-bus"@);
    }
    if r.allow_audio_client {
        lemma_push_contains(a2, "--nosocket=pulseaudio"@, "--nosocket=pulseaudio"@);
        lemma_push_contains(
            a2.push("--nosocket=pulseaudio"@),
            "--env=PULSE_SERVER=10.0.2.2"@,
            "--nosocket=pulseaudio"@,
        );
        lemma_push_contains(
            a2.push("--nosocket=pulseaudio"@),
            "--env=PULSE_SERVER=10.0.2.2"@,
            "--env=PULSE_SERVER=10.0.2.2"@,
        );
        lemma_push_contains(a3, "--nofilesystem=home"@, "--nosocket=pulseaudio"@);
        lemma_push_contains(a3, "--nofilesystem=home"@, "--env=PULSE_SERVER=10.0.2.2"@);
    }
}

} // verus!
