//! Clipboard synchronisation between guest and host, and the
//! suppression of echoes.
//!
//! Storing a remotely-received clipboard value into the local clipboard
//! raises an ownership-change notification that the local watcher
//! cannot tell from a genuine local change. The dispatcher therefore
//! raises a shared suppress-echo flag just before each remote store,
//! and the watcher consumes the flag before reporting a change: a
//! change observed with the flag raised is swallowed and the flag
//! cleared. The dispatcher is the flag's only producer, the watcher its
//! only consumer, so a single boolean with atomic reads and writes
//! suffices; the surrounding binary holds it in an atomic cell shared
//! between the two threads.

use vstd::prelude::*;

verus! {

/// The shared suppress-echo flag, as the two sides of the clipboard
/// synchronisation see it.
pub struct ClipboardSync {
    pub suppress_echo: bool,
}

impl ClipboardSync {
    /// A fresh flag: nothing to suppress yet.
    pub fn new() -> (s: ClipboardSync)
        ensures
            !s.suppress_echo,
    {
        ClipboardSync { suppress_echo: false }
    }

    /// The dispatcher is about to store a remote value into the local
    /// clipboard: raise the flag so the resulting ownership change is
    /// not reported back to the host.
    pub fn note_remote_store(&mut self)
        ensures
            final(self).suppress_echo,
    {
        self.suppress_echo = true;
    }

    /// The watcher observed a local ownership change. Returns whether
    /// the change is to be reported to the host: it is, unless the flag
    /// was raised by a just-applied remote store; either way the flag
    /// is consumed.
    pub fn observe_local_change(&mut self) -> (report: bool)
        ensures
            report == !old(self).suppress_echo,
            !final(self).suppress_echo,
    {
        let report = !self.suppress_echo;
        self.suppress_echo = false;
        report
    }
}

/// One step of the clipboard synchronisation, as the flag sees it:
/// either the dispatcher applies a remote value to the local clipboard,
/// or the watcher observes a local ownership change.
pub enum ClipboardStep {
    RemoteApplied,
    LocalObserved,
}

/// The state of the suppress-echo flag after the steps `tr`, starting
/// from `init`: a remote store raises it, an observation consumes it.
pub open spec fn flag_after(init: bool, tr: Seq<ClipboardStep>) -> bool
    decreases tr.len(),
{
    if tr.len() == 0 {
        init
    } else {
        match tr.last() {
            ClipboardStep::RemoteApplied => true,
            ClipboardStep::LocalObserved => false,
        }
    }
}

/// Whether the step at position `i` of `tr` reports a local clipboard
/// change to the host: only an observation made with the flag down is
/// reported.
pub open spec fn reports_at(init: bool, tr: Seq<ClipboardStep>, i: int) -> bool {
    tr[i] is LocalObserved && !flag_after(init, tr.take(i))
}

/// No feedback loop: under any interleaving of remote stores and local
/// observations, an observation made immediately after a remote store —
/// the one that can only be the echo of that store's own write — is
/// never reported to the host.
pub proof fn lemma_no_echo(init: bool, tr: Seq<ClipboardStep>, i: int)
    requires
        0 < i < tr.len(),
        tr[i] is LocalObserved,
        tr[i - 1] is RemoteApplied,
    ensures
        !reports_at(init, tr, i),
{
    assert(tr.take(i).last() == tr[i - 1]);
}

/// A genuine local change is reported: an observation that does not
/// immediately follow a remote store — the step before it, if any, was
/// itself an observation — is always reported to the host.
pub proof fn lemma_genuine_change_reported(init: bool, tr: Seq<ClipboardStep>, i: int)
    requires
        0 <= i < tr.len(),
        tr[i] is LocalObserved,
        i == 0 ==> !init,
        i > 0 ==> tr[i - 1] is LocalObserved,
    ensures
        reports_at(init, tr, i),
{
    if i > 0 {
        assert(tr.take(i).last() == tr[i - 1]);
    }
}

} // verus!
