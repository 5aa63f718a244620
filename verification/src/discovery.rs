//! The discovery watcher: at most one watch is active; starting is
//! idempotent, stopping a watch that does not run is a no-op. The watch's
//! event loop runs in the network layer; the caller runs the built watch and
//! hands its handle back here.
use crate::errors::LinkError;
use crate::mdns::{accepts_service_type, discovery_build, discovery_builder_new,
    discovery_builder_service, discovery_shutdown};
use crate::record::DiscoveredDevice;
use crate::state::{LifecycleEvent, ServerState};
use vstd::prelude::*;

verus! {

/// The kind of a discovery event.
#[derive(Debug, Clone, Copy, PartialEq, Eq, Structural)]
pub enum DiscoveryEventKind {
    /// A device began answering.
    Found,
    /// A device stopped answering for long enough to be considered gone.
    Lost,
    /// A device's answer was received again, changed or not.
    Updated,
}

/// One event handed to the host application's sink.
#[derive(Debug, Clone)]
pub struct DeviceEvent {
    pub kind: DiscoveryEventKind,
    pub device: DiscoveredDevice,
}

impl ServerState {
    /// Begins starting a watch for `service_type`. With a watch already
    /// running this returns `Ok(None)`: success, nothing to restart. Else the
    /// built watch comes back; the caller runs it with its event sink and
    /// hands the handle to [`ServerState::finish_start_discovery`].
    pub fn begin_start_discovery(&self, service_type: &str) -> (r: Result<
        Option<searchlight::discovery::Discovery>,
        LinkError,
    >)
        ensures
            self@.discovery_live ==> (r matches Ok(d) && d is None),
            !self@.discovery_live ==> match r {
                Ok(d) => d is Some && accepts_service_type(service_type@),
                Err(e) => (e == LinkError::InvalidServiceParams && !accepts_service_type(
                    service_type@,
                )) || (e matches LinkError::BuildFailed(_) && accepts_service_type(service_type@)),
            },
    {
        if self.discovery.is_some() {
            return Ok(None);
        }
        let builder = discovery_builder_new();
        let builder = match discovery_builder_service(builder, service_type) {
            Some(b) => b,
            None => {
                return Err(LinkError::InvalidServiceParams);
            },
        };
        match discovery_build(builder) {
            Ok(d) => Ok(Some(d)),
            Err(m) => Err(LinkError::BuildFailed(m)),
        }
    }

    /// Stores the handle of a freshly started watch.
    pub fn finish_start_discovery(&mut self, handle: searchlight::discovery::DiscoveryHandle)
        requires
            old(self).wf(),
            !old(self)@.discovery_live,
        ensures
            final(self).wf(),
            final(self)@.discovery_live,
            final(self)@.broadcaster_live == old(self)@.broadcaster_live,
            final(self)@.advertised == old(self)@.advertised,
            final(self)@.socket_port == old(self)@.socket_port,
            final(self)@.socket_task_live == old(self)@.socket_task_live,
            final(self)@.log == old(self)@.log.push(LifecycleEvent::DiscoveryStarted),
    {
        self.discovery = Some(handle);
        self.log = Ghost(self.log@.push(LifecycleEvent::DiscoveryStarted));
    }

    /// Stops the watch. Stopping a watch that does not run changes nothing
    /// and is success; a withdrawal error comes back as `ShutdownFailed`, the
    /// slot cleared regardless.
    pub fn stop_discovery(&mut self) -> (r: Result<(), LinkError>)
        requires
            old(self).wf(),
        ensures
            final(self).wf(),
            !final(self)@.discovery_live,
            final(self)@.broadcaster_live == old(self)@.broadcaster_live,
            final(self)@.advertised == old(self)@.advertised,
            final(self)@.socket_port == old(self)@.socket_port,
            final(self)@.socket_task_live == old(self)@.socket_task_live,
            !old(self)@.discovery_live ==> r is Ok && final(self)@ == old(self)@,
            old(self)@.discovery_live ==> final(self)@.log == old(self)@.log.push(
                LifecycleEvent::DiscoveryStopped,
            ) && (r matches Err(e) ==> e matches LinkError::ShutdownFailed(_)),
    {
        match self.discovery.take() {
            None => Ok(()),
            Some(handle) => {
                self.log = Ghost(self.log@.push(LifecycleEvent::DiscoveryStopped));
                match discovery_shutdown(handle) {
                    Ok(()) => Ok(()),
                    Err(m) => Err(LinkError::ShutdownFailed(m)),
                }
            },
        }
    }
}

} // verus!
