//! The local notification service: the capability surface offered to
//! the desktop's notification transport, and the process-wide allocator
//! of notification ids.
//!
//! The service is a relay: it does not render notifications itself, it
//! assigns each inbound notification a fresh id and forwards it to the
//! host. Ids are handed out strictly increasingly and never reused, and
//! they start above a reserved low range so they cannot collide with
//! statically-known ids.

use vstd::prelude::*;
use crate::message::DbusNotification;

verus! {

/// The lowest id the service ever hands out; everything below is
/// reserved.
pub const FIRST_NOTIFICATION_ID: u32 = 5;

/// The notification service's only state: the id the next notification
/// will receive. Owned exclusively by the service; the surrounding
/// binary holds it behind an atomic counter because the transport
/// listener raises notifications outside the dispatcher thread.
pub struct NotificationService {
    pub next_id: u32,
}

impl NotificationService {
    /// Every id handed out so far was below `next_id`, and `next_id`
    /// never falls back into the reserved range.
    pub open spec fn wf(self) -> bool {
        self.next_id >= FIRST_NOTIFICATION_ID
    }

    /// The state after one notification has been raised.
    pub open spec fn after_notify(self) -> NotificationService {
        NotificationService { next_id: (self.next_id + 1) as u32 }
    }

    /// A fresh service, with the whole unreserved id space ahead of it.
    pub fn new() -> (s: NotificationService)
        ensures
            s.wf(),
            s.next_id == FIRST_NOTIFICATION_ID,
    {
        NotificationService { next_id: FIRST_NOTIFICATION_ID }
    }

    /// Service one inbound notification: allocate the next id and build
    /// the event to relay to the host. The id returned to the caller is
    /// the event's id; the summary, body and timeout are carried over
    /// unchanged. `app_name`, `replaces_id` and `app_icon` are accepted
    /// for the capability surface but play no further part: the relay
    /// neither replaces nor renders anything.
    pub fn notify(
        &mut self,
        app_name: &str,
        replaces_id: u32,
        app_icon: &str,
        summary: &str,
        body: &str,
        expire_timeout: i32,
    ) -> (n: DbusNotification)
        requires
            old(self).wf(),
            old(self).next_id < u32::MAX,
        ensures
            final(self).wf(),
            *final(self) == old(self).after_notify(),
            n.id == old(self).next_id,
            n.summary@ == summary@,
            n.body@ == body@,
            n.expire_timeout == expire_timeout,
    {
        let id = self.next_id;
        self.next_id = self.next_id + 1;
        DbusNotification {
            id,
            summary: String::from_str(summary),
            body: String::from_str(body),
            expire_timeout,
        }
    }

    /// Acknowledge a local request to close a notification. Closing is
    /// driven by the host, not by the local service, so this accepts
    /// the call and changes nothing.
    pub fn close_notification(&self, _id: u32) {
    }

    /// The fixed capability list the service advertises.
    pub fn get_capabilities(&self) -> (caps: Vec<String>)
        ensures
            caps.deep_view() == capabilities_spec(),
    {
        let mut caps: Vec<String> = Vec::new();
        caps.push(String::from_str("actions"));
        caps.push(String::from_str("body"));
        caps.push(String::from_str("body-hyperlinks"));
        caps.push(String::from_str("body-markup"));
        caps.push(String::from_str("icon-static"));
        caps.push(String::from_str("sound"));
        caps.push(String::from_str("persistence"));
        caps.push(String::from_str("action-icons"));
        proof {
            assert(caps.deep_view() =~= capabilities_spec());
        }
        caps
    }

    /// The fixed placeholder identity: the service does not claim to be
    /// a real notification server, it is a relay.
    pub fn get_server_information(&self) -> (info: (String, String, String, String))
        ensures
            info.0@ == "dummy"@,
            info.1@ == "dummy"@,
            info.2@ == "dummy"@,
            info.3@ == "dummy"@,
    {
        (
            String::from_str("dummy"),
            String::from_str("dummy"),
            String::from_str("dummy"),
            String::from_str("dummy"),
        )
    }
}

/// The capabilities the service advertises, in order.
pub open spec fn capabilities_spec() -> Seq<Seq<char>> {
    seq![
        "actions"@,
        "body"@,
        "body-hyperlinks"@,
        "body-markup"@,
        "icon-static"@,
        "sound"@,
        "persistence"@,
        "action-icons"@,
    ]
}

/// The id handed out by the `k`-th notification after state `s`: ids
/// are consecutive from `s.next_id` on.
pub open spec fn id_of_nth(s: NotificationService, k: nat) -> int {
    s.next_id + k
}

/// Notification ids are strictly increasing across the lifetime of the
/// service: of any two notifications raised after state `s`, the
/// earlier one carries the strictly smaller id, so no two ever carry
/// the same id; and every id stays at or above the reserved floor.
pub proof fn lemma_ids_strictly_increase(s: NotificationService, j: nat, k: nat)
    requires
        s.wf(),
        j < k,
    ensures
        id_of_nth(s, j) < id_of_nth(s, k),
        id_of_nth(s, j) >= FIRST_NOTIFICATION_ID,
{
}

} // verus!
