//! The command server's slot handling: one listener on one ephemeral port,
//! idempotent start, prompt stop. The accept loop itself is asynchronous
//! plumbing owned by the caller; this module decides when to spawn it, stores
//! its task handle, and stops it.
use crate::state::{LifecycleEvent, ServerState};
use vstd::prelude::*;

verus! {

#[verifier::external_type_specification]
#[verifier::external_body]
#[verifier::reject_recursive_types(T)]
pub struct ExJoinHandle<T>(tokio::task::JoinHandle<T>);

#[verifier::external_type_specification]
#[verifier::external_body]
pub struct ExJoinError(tokio::task::JoinError);

/// Relies on `tokio::task::JoinHandle::abort`: it asks the task to be
/// cancelled promptly, without waiting for it.
pub assume_specification<T>[ tokio::task::JoinHandle::<T>::abort ](handle: &tokio::task::JoinHandle<T>)
;

/// Relies on `portpicker::pick_unused_port`: which port comes back, if any,
/// depends on what is free on the machine; nothing more can be promised of
/// it.
#[verifier::external_body]
fn pick_port() -> Option<u16> {
    portpicker::pick_unused_port()
}

/// What a request to start the command server amounts to.
#[derive(Debug, Clone, Copy, PartialEq, Eq, Structural)]
pub enum ServerStartPlan {
    /// The server already runs on this port; nothing is to be opened.
    AlreadyRunning(u16),
    /// No server runs; a listener is to be bound on this free port.
    Spawn(u16),
    /// No server runs and no free port could be obtained.
    NoPort,
}

/// The command server's externally visible state.
#[derive(Debug, Clone, Copy, PartialEq, Eq, Structural)]
pub struct ServerStatus {
    pub running: bool,
    pub port: Option<u16>,
}

impl ServerState {
    /// Decides a start request against the given port candidate: a running
    /// server short-circuits to its existing port, so starting twice yields
    /// the same port and opens no second listener.
    pub fn server_start_plan(&self, picked: Option<u16>) -> (r: ServerStartPlan)
        ensures
            match self@.socket_port {
                Some(p) => r == ServerStartPlan::AlreadyRunning(p),
                None => match picked {
                    Some(p) => r == ServerStartPlan::Spawn(p),
                    None => r == ServerStartPlan::NoPort,
                },
            },
    {
        match self.socket_port {
            Some(p) => ServerStartPlan::AlreadyRunning(p),
            None => match picked {
                Some(p) => ServerStartPlan::Spawn(p),
                None => ServerStartPlan::NoPort,
            },
        }
    }

    /// Decides a start request, asking the machine for a free ephemeral port
    /// only when no server runs yet.
    pub fn plan_server_start(&self) -> (r: ServerStartPlan)
        ensures
            match self@.socket_port {
                Some(p) => r == ServerStartPlan::AlreadyRunning(p),
                None => r is Spawn || r == ServerStartPlan::NoPort,
            },
    {
        match self.socket_port {
            Some(p) => ServerStartPlan::AlreadyRunning(p),
            None => self.server_start_plan(pick_port()),
        }
    }

    /// Stores the bound port and the accept-loop task of a freshly spawned
    /// server.
    pub fn commit_server_start(&mut self, port: u16, task: tokio::task::JoinHandle<()>)
        requires
            old(self).wf(),
            old(self)@.socket_port is None,
        ensures
            final(self).wf(),
            final(self)@.socket_port == Some(port),
            final(self)@.socket_task_live,
            final(self)@.broadcaster_live == old(self)@.broadcaster_live,
            final(self)@.discovery_live == old(self)@.discovery_live,
            final(self)@.advertised == old(self)@.advertised,
            final(self)@.log == old(self)@.log.push(LifecycleEvent::ServerStarted(port)),
    {
        self.socket_port = Some(port);
        self.socket_task = Some(task);
        self.log = Ghost(self.log@.push(LifecycleEvent::ServerStarted(port)));
    }

    /// Stops the command server: cancels the accept loop and every
    /// outstanding connection task with it, and clears the stored port.
    /// Stopping a server that does not run changes nothing and is no error.
    pub fn stop_server(&mut self)
        requires
            old(self).wf(),
        ensures
            final(self).wf(),
            final(self)@.socket_port is None,
            !final(self)@.socket_task_live,
            final(self)@.broadcaster_live == old(self)@.broadcaster_live,
            final(self)@.discovery_live == old(self)@.discovery_live,
            final(self)@.advertised == old(self)@.advertised,
            !old(self)@.socket_task_live ==> final(self)@ == old(self)@,
            old(self)@.socket_task_live ==> final(self)@.log == old(self)@.log.push(
                LifecycleEvent::ServerStopped,
            ),
    {
        if let Some(task) = self.socket_task.take() {
            task.abort();
            self.log = Ghost(self.log@.push(LifecycleEvent::ServerStopped));
        }
        self.socket_port = None;
    }

    /// The command server's state: whether it runs, and on which port.
    pub fn server_status(&self) -> (s: ServerStatus)
        ensures
            s.running == (self@.socket_port is Some),
            s.port == self@.socket_port,
    {
        ServerStatus { running: self.socket_port.is_some(), port: self.socket_port }
    }
}

} // verus!
