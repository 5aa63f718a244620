//! The process-wide resource slots: at most one broadcaster, one discovery
//! watch and one command-server listener, each independently nullable. A
//! ghost log records every observable lifecycle step, so that ordering
//! guarantees can be stated and proved.
use crate::record::{RecordView, ServiceRecord};
use vstd::prelude::*;

verus! {

/// One observable lifecycle step.
pub enum LifecycleEvent {
    /// An advertisement with this record began broadcasting.
    AdvertStarted(RecordView),
    /// A withdrawal of the advertisement with this record was attempted.
    AdvertWithdrawn(RecordView),
    /// A discovery watch began.
    DiscoveryStarted,
    /// A stop of the discovery watch was attempted.
    DiscoveryStopped,
    /// The command server began listening on this port.
    ServerStarted(u16),
    /// The command-server task was stopped.
    ServerStopped,
}

/// The application context: every resource slot lives here, never in ambient
/// global state. A caller that needs the slots from several tasks wraps the
/// whole state in its own lock; no operation here suspends while holding it.
pub struct ServerState {
    /// The live advertisement's handle, if one is broadcasting.
    pub broadcaster: Option<searchlight::broadcast::BroadcasterHandle>,
    /// The live discovery watch's handle, if one is running.
    pub discovery: Option<searchlight::discovery::DiscoveryHandle>,
    /// The command server's bound port, if it is running.
    pub socket_port: Option<u16>,
    /// The command server's accept-loop task, if it is running.
    pub socket_task: Option<tokio::task::JoinHandle<()>>,
    /// The record of the live advertisement, kept for the goodbye sequence.
    pub last_record: Option<ServiceRecord>,
    /// The audit log of lifecycle steps.
    pub log: Ghost<Seq<LifecycleEvent>>,
}

/// The mathematical value of a [`ServerState`].
pub struct StateView {
    pub broadcaster_live: bool,
    pub discovery_live: bool,
    pub socket_port: Option<u16>,
    pub socket_task_live: bool,
    pub advertised: Option<RecordView>,
    pub log: Seq<LifecycleEvent>,
}

impl View for ServerState {
    type V = StateView;

    open spec fn view(&self) -> StateView {
        StateView {
            broadcaster_live: self.broadcaster is Some,
            discovery_live: self.discovery is Some,
            socket_port: self.socket_port,
            socket_task_live: self.socket_task is Some,
            advertised: match self.last_record {
                Some(r) => Some(r@),
                None => None,
            },
            log: self.log@,
        }
    }
}

impl ServerState {
    /// A record is stored exactly while a broadcaster is live, and a port is
    /// stored exactly while the server task is live.
    pub open spec fn wf(&self) -> bool {
        &&& self.broadcaster is Some <==> self.last_record is Some
        &&& self.socket_port is Some <==> self.socket_task is Some
    }

    /// A fresh state: nothing live, nothing logged.
    pub fn new() -> (r: ServerState)
        ensures
            r.wf(),
            !r@.broadcaster_live,
            !r@.discovery_live,
            r@.socket_port is None,
            !r@.socket_task_live,
            r@.advertised is None,
            r@.log == Seq::<LifecycleEvent>::empty(),
    {
        ServerState {
            broadcaster: None,
            discovery: None,
            socket_port: None,
            socket_task: None,
            last_record: None,
            log: Ghost(Seq::empty()),
        }
    }
}

/// The presence side's externally visible state.
#[derive(Debug, Clone, Copy, PartialEq, Eq, Structural)]
pub struct PresenceStatus {
    pub broadcaster_active: bool,
    pub discovery_active: bool,
}

impl ServerState {
    /// Whether an advertisement and a discovery watch are live.
    pub fn status(&self) -> (s: PresenceStatus)
        ensures
            s.broadcaster_active == self@.broadcaster_live,
            s.discovery_active == self@.discovery_live,
    {
        PresenceStatus {
            broadcaster_active: self.broadcaster.is_some(),
            discovery_active: self.discovery.is_some(),
        }
    }
}

/// How many of the three resources are live in `v`.
pub open spec fn live_count(v: StateView) -> int {
    (if v.socket_task_live {
        1int
    } else {
        0int
    }) + (if v.broadcaster_live {
        1int
    } else {
        0int
    }) + (if v.discovery_live {
        1int
    } else {
        0int
    })
}

/// The lifecycle steps that one cleanup pass over `v` records: the server
/// stop, then the advertisement withdrawal, then the discovery stop, each
/// only where that resource was live.
pub open spec fn cleanup_events(v: StateView) -> Seq<LifecycleEvent> {
    (if v.socket_task_live {
        seq![LifecycleEvent::ServerStopped]
    } else {
        Seq::empty()
    }) + (match v.advertised {
        Some(r) => seq![LifecycleEvent::AdvertWithdrawn(r)],
        None => Seq::empty(),
    }) + (if v.discovery_live {
        seq![LifecycleEvent::DiscoveryStopped]
    } else {
        Seq::empty()
    })
}

/// What one cleanup pass does: all three resource slots and the stored record
/// are cleared, the log gains the teardown steps, and the tally stays within
/// what was live. A pass over a state with nothing live changes nothing.
pub open spec fn cleanup_post(pre: StateView, post: StateView, cleaned: usize) -> bool {
    &&& !post.broadcaster_live
    &&& !post.discovery_live
    &&& post.socket_port is None
    &&& !post.socket_task_live
    &&& post.advertised is None
    &&& post.log == pre.log + cleanup_events(pre)
    &&& cleaned <= live_count(pre)
    &&& (pre.socket_task_live ==> cleaned >= 1)
    &&& (live_count(pre) == 0 ==> cleaned == 0 && post == pre)
}

/// Cleanup leaves nothing live, so a second pass, from whichever trigger
/// reaches it next, cleans zero resources and changes nothing at all.
pub proof fn lemma_cleanup_idempotent(
    pre: StateView,
    s1: StateView,
    c1: usize,
    s2: StateView,
    c2: usize,
)
    requires
        cleanup_post(pre, s1, c1),
        cleanup_post(s1, s2, c2),
    ensures
        c2 == 0,
        s2 == s1,
{
    assert(live_count(s1) == 0);
}

impl ServerState {
    /// Ordered teardown of everything that is live: the command server is
    /// stopped and its port cleared, the advertisement is withdrawn directly
    /// (without the extended goodbye sequence), and the discovery watch is
    /// stopped. Every step is attempted whether or not the previous ones
    /// succeeded. Returns how many resources were actually torn down; a
    /// withdrawal that reports an error is attempted but not counted.
    pub fn cleanup(&mut self) -> (cleaned: usize)
        requires
            old(self).wf(),
        ensures
            final(self).wf(),
            cleanup_post(old(self)@, final(self)@, cleaned),
    {
        let ghost pre = self@;
        let mut cleaned: usize = 0;
        if let Some(task) = self.socket_task.take() {
            task.abort();
            self.log = Ghost(self.log@.push(LifecycleEvent::ServerStopped));
            cleaned = cleaned + 1;
        }
        self.socket_port = None;
        if let Some(handle) = self.broadcaster.take() {
            self.log = Ghost(self.log@.push(LifecycleEvent::AdvertWithdrawn(pre.advertised->Some_0)));
            match crate::mdns::broadcaster_shutdown(handle) {
                Ok(()) => {
                    cleaned = cleaned + 1;
                },
                Err(_) => {},
            }
        }
        self.last_record = None;
        if let Some(handle) = self.discovery.take() {
            self.log = Ghost(self.log@.push(LifecycleEvent::DiscoveryStopped));
            match crate::mdns::discovery_shutdown(handle) {
                Ok(()) => {
                    cleaned = cleaned + 1;
                },
                Err(_) => {},
            }
        }
        proof {
            assert(self@.log =~= pre.log + cleanup_events(pre));
        }
        cleaned
    }
}

} // verus!
