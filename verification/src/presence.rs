//! The presence broadcaster: registering, replacing and unregistering the one
//! live advertisement. Re-registration withdraws the previous advertisement
//! before the new one starts, and the ghost log shows that order.
use crate::errors::LinkError;
use crate::mdns::{
    accepts_service_coords, broadcaster_build, broadcaster_builder_add_service,
    broadcaster_builder_new, broadcaster_run, broadcaster_shutdown, service_build,
    service_builder_add_ip, service_builder_add_txt, service_builder_new,
};
use crate::record::{RecordView, ServiceRecord};
use crate::state::{LifecycleEvent, ServerState, StateView};
use crate::text::{socket_port_entry, spec_socket_port_entry};
use vstd::prelude::*;

verus! {

/// The caller's TXT entries, with a `socketPort=<port>` entry appended when a
/// command server is active.
pub open spec fn enhanced_txt(txt: Seq<Seq<char>>, socket_port: Option<u16>) -> Seq<Seq<char>> {
    match socket_port {
        Some(p) => txt.push(spec_socket_port_entry(p)),
        None => txt,
    }
}

/// The record that registration advertises and stores.
pub open spec fn enhanced_record_view(
    service_type: Seq<char>,
    instance_name: Seq<char>,
    port: u16,
    txt: Seq<Seq<char>>,
    socket_port: Option<u16>,
) -> RecordView {
    RecordView {
        service_type: service_type,
        instance_name: instance_name,
        port: port,
        txt: enhanced_txt(txt, socket_port),
    }
}

/// Builds the service record to advertise: the caller's TXT entries are kept
/// in order, and the command-channel port is announced after them when a
/// command server is active.
pub fn enhanced_record(
    service_type: &str,
    instance_name: &str,
    port: u16,
    txt: &Vec<String>,
    socket_port: Option<u16>,
) -> (r: ServiceRecord)
    ensures
        r@ == enhanced_record_view(
            service_type@,
            instance_name@,
            port,
            txt.deep_view(),
            socket_port,
        ),
{
    let mut txt_out = txt.clone();
    proof {
        assert(txt_out.deep_view() =~= txt.deep_view());
    }
    if let Some(p) = socket_port {
        txt_out.push(socket_port_entry(p));
        proof {
            assert(txt_out.deep_view() =~= txt.deep_view().push(spec_socket_port_entry(p)));
        }
    }
    let r = ServiceRecord {
        service_type: service_type.to_owned(),
        instance_name: instance_name.to_owned(),
        port,
        txt: txt_out,
    };
    r
}

/// Builds an advertisement for `record` on the given addresses, ready to run:
/// no address yields `NoLocalAddress`; names the format rejects yield
/// `InvalidServiceParams`; whatever the network layer refuses beyond that
/// comes back as `BuildFailed` with its description.
pub fn build_advertisement(record: &ServiceRecord, addresses: &Vec<String>) -> (r: Result<
    searchlight::broadcast::Broadcaster,
    LinkError,
>)
    ensures
        (r == Err::<searchlight::broadcast::Broadcaster, LinkError>(LinkError::NoLocalAddress))
            <==> addresses@.len() == 0,
        addresses@.len() > 0 ==> ((r == Err::<searchlight::broadcast::Broadcaster, LinkError>(
            LinkError::InvalidServiceParams,
        )) <==> !accepts_service_coords(record@.service_type, record@.instance_name)),
        r is Ok ==> addresses@.len() > 0 && accepts_service_coords(
            record@.service_type,
            record@.instance_name,
        ),
        r matches Err(e) ==> (e == LinkError::NoLocalAddress || e == LinkError::InvalidServiceParams
            || e matches LinkError::BuildFailed(_)),
{
    if addresses.len() == 0 {
        return Err(LinkError::NoLocalAddress);
    }
    let mut builder = match service_builder_new(
        record.service_type.as_str(),
        record.instance_name.as_str(),
        record.port,
    ) {
        Some(b) => b,
        None => {
            return Err(LinkError::InvalidServiceParams);
        },
    };
    let mut i: usize = 0;
    while i < addresses.len()
        invariant
            i <= addresses@.len(),
        decreases addresses@.len() - i,
    {
        builder = service_builder_add_ip(builder, &addresses[i]);
        i = i + 1;
    }
    let mut j: usize = 0;
    while j < record.txt.len()
        invariant
            j <= record.txt@.len(),
        decreases record.txt@.len() - j,
    {
        builder = service_builder_add_txt(builder, &record.txt[j]);
        j = j + 1;
    }
    let service = match service_build(builder) {
        Ok(s) => s,
        Err(m) => {
            return Err(LinkError::BuildFailed(m));
        },
    };
    let bb = broadcaster_builder_new();
    let bb = broadcaster_builder_add_service(bb, service);
    match broadcaster_build(bb) {
        Ok(b) => Ok(b),
        Err(m) => Err(LinkError::BuildFailed(m)),
    }
}

/// Builds and starts a short-lived advertisement for `record`, as the goodbye
/// sequence repeats it. The handle must be withdrawn by the caller.
pub fn start_transient_advertisement(record: &ServiceRecord, addresses: &Vec<String>) -> (r: Result<
    searchlight::broadcast::BroadcasterHandle,
    LinkError,
>)
    ensures
        (r matches Err(e) && e == LinkError::NoLocalAddress) <==> addresses@.len() == 0,
        addresses@.len() > 0 ==> ((r matches Err(e) && e == LinkError::InvalidServiceParams) <==> !accepts_service_coords(
            record@.service_type,
            record@.instance_name,
        )),
        r matches Err(e) ==> (e == LinkError::NoLocalAddress || e == LinkError::InvalidServiceParams
            || e matches LinkError::BuildFailed(_)),
{
    match build_advertisement(record, addresses) {
        Ok(built) => Ok(broadcaster_run(built)),
        Err(e) => Err(e),
    }
}

/// Withdraws a running advertisement; an error from the withdrawal comes back
/// as `ShutdownFailed` with its description.
pub fn withdraw_advertisement(handle: searchlight::broadcast::BroadcasterHandle) -> (r: Result<
    (),
    LinkError,
>)
    ensures
        r matches Err(e) ==> e matches LinkError::ShutdownFailed(_),
{
    match broadcaster_shutdown(handle) {
        Ok(()) => Ok(()),
        Err(m) => Err(LinkError::ShutdownFailed(m)),
    }
}

/// The lifecycle steps of a successful registration: the previous
/// advertisement, if any, is withdrawn strictly before the new one starts.
pub open spec fn register_events(prev: Option<RecordView>, new: RecordView) -> Seq<LifecycleEvent> {
    match prev {
        Some(p) => seq![
            LifecycleEvent::AdvertWithdrawn(p),
            LifecycleEvent::AdvertStarted(new),
        ],
        None => seq![LifecycleEvent::AdvertStarted(new)],
    }
}

/// What a successful registration of `new` does to the state: exactly `new`
/// is advertised afterwards, the other slots are untouched, and the log gains
/// the registration steps in order.
pub open spec fn register_success_post(pre: StateView, post: StateView, new: RecordView) -> bool {
    &&& post.advertised == Some(new)
    &&& post.broadcaster_live
    &&& post.discovery_live == pre.discovery_live
    &&& post.socket_port == pre.socket_port
    &&& post.socket_task_live == pre.socket_task_live
    &&& post.log == pre.log + register_events(pre.advertised, new)
}

/// What `unregister` reports.
#[derive(Debug)]
pub enum UnregisterOutcome {
    /// No service was registered; nothing was done. This is success, not an
    /// error.
    NotRegistered,
    /// The advertisement with this record was withdrawn; the goodbye sequence
    /// should now be run for it.
    Withdrawn(ServiceRecord),
    /// The withdrawal reported this error; the record was cleared anyway.
    WithdrawFailed(ServiceRecord, String),
}

impl ServerState {
    /// Registers the service built from the given parameters, replacing a
    /// previous advertisement if one is live: the previous one is withdrawn
    /// (best effort) strictly before the new one starts. On any error the
    /// state is left as it was.
    pub fn register_with_addresses(
        &mut self,
        service_type: &str,
        instance_name: &str,
        port: u16,
        txt: &Vec<String>,
        addresses: &Vec<String>,
    ) -> (r: Result<(), LinkError>)
        requires
            old(self).wf(),
        ensures
            final(self).wf(),
            (r == Err::<(), LinkError>(LinkError::NoLocalAddress)) <==> addresses@.len() == 0,
            addresses@.len() > 0 ==> ((r == Err::<(), LinkError>(LinkError::InvalidServiceParams))
                <==> !accepts_service_coords(service_type@, instance_name@)),
            r matches Err(e) ==> final(self)@ == old(self)@ && (e == LinkError::NoLocalAddress || e
                == LinkError::InvalidServiceParams || e matches LinkError::BuildFailed(_)),
            r is Ok ==> register_success_post(
                old(self)@,
                final(self)@,
                enhanced_record_view(
                    service_type@,
                    instance_name@,
                    port,
                    txt.deep_view(),
                    old(self)@.socket_port,
                ),
            ),
    {
        let ghost pre = self@;
        let record = enhanced_record(service_type, instance_name, port, txt, self.socket_port);
        let built = match build_advertisement(&record, addresses) {
            Ok(b) => b,
            Err(e) => {
                return Err(e);
            },
        };
        let ghost new_view = record@;
        // Replace before start: the previous advertisement is withdrawn first.
        if let Some(prev) = self.broadcaster.take() {
            let _ = broadcaster_shutdown(prev);
            self.log = Ghost(self.log@.push(LifecycleEvent::AdvertWithdrawn(pre.advertised->Some_0)));
        }
        let handle = broadcaster_run(built);
        self.broadcaster = Some(handle);
        self.last_record = Some(record);
        self.log = Ghost(self.log@.push(LifecycleEvent::AdvertStarted(new_view)));
        proof {
            assert(self@.log =~= pre.log + register_events(pre.advertised, new_view));
        }
        Ok(())
    }

    /// Registers the service on the machine's non-loopback addresses, as
    /// [`ServerState::register_with_addresses`] does on a given list. Which
    /// addresses the machine lists cannot be pinned down here, so the error
    /// cases are stated one-sidedly.
    pub fn register(
        &mut self,
        service_type: &str,
        instance_name: &str,
        port: u16,
        txt: &Vec<String>,
    ) -> (r: Result<(), LinkError>)
        requires
            old(self).wf(),
        ensures
            final(self).wf(),
            r matches Err(e) ==> final(self)@ == old(self)@ && (e == LinkError::NoLocalAddress || e
                == LinkError::InvalidServiceParams || e matches LinkError::BuildFailed(_)),
            !accepts_service_coords(service_type@, instance_name@) ==> r is Err,
            r is Ok ==> register_success_post(
                old(self)@,
                final(self)@,
                enhanced_record_view(
                    service_type@,
                    instance_name@,
                    port,
                    txt.deep_view(),
                    old(self)@.socket_port,
                ),
            ),
    {
        let addresses = crate::addresses::local_addresses();
        self.register_with_addresses(service_type, instance_name, port, txt, &addresses)
    }

    /// Withdraws the live advertisement and clears the stored record. With no
    /// registered service this is a no-op and success. The returned record is
    /// what the goodbye sequence should announce; a failed withdrawal still
    /// clears the slot, so teardown is always attempted exactly once.
    pub fn unregister(&mut self) -> (r: UnregisterOutcome)
        requires
            old(self).wf(),
        ensures
            final(self).wf(),
            !final(self)@.broadcaster_live,
            final(self)@.advertised is None,
            final(self)@.discovery_live == old(self)@.discovery_live,
            final(self)@.socket_port == old(self)@.socket_port,
            final(self)@.socket_task_live == old(self)@.socket_task_live,
            old(self)@.advertised is None ==> r is NotRegistered && final(self)@ == old(self)@,
            old(self)@.advertised matches Some(v) ==> (match r {
                UnregisterOutcome::NotRegistered => false,
                UnregisterOutcome::Withdrawn(rec) => rec@ == v,
                UnregisterOutcome::WithdrawFailed(rec, _) => rec@ == v,
            }) && final(self)@.log == old(self)@.log.push(LifecycleEvent::AdvertWithdrawn(v)),
    {
        let ghost pre = self@;
        match self.broadcaster.take() {
            None => UnregisterOutcome::NotRegistered,
            Some(handle) => {
                let record = match self.last_record.take() {
                    Some(rc) => rc,
                    None => vstd::pervasive::unreached(),
                };
                self.log = Ghost(
                    self.log@.push(LifecycleEvent::AdvertWithdrawn(pre.advertised->Some_0)),
                );
                match broadcaster_shutdown(handle) {
                    Ok(()) => UnregisterOutcome::Withdrawn(record),
                    Err(m) => UnregisterOutcome::WithdrawFailed(record, m),
                }
            },
        }
    }
}

/// Registering twice in succession leaves exactly one live advertisement,
/// the second one, and the log shows the first advertisement's withdrawal
/// strictly before the second one's start.
pub proof fn lemma_register_twice(
    s0: StateView,
    s1: StateView,
    s2: StateView,
    r1: RecordView,
    r2: RecordView,
)
    requires
        register_success_post(s0, s1, r1),
        register_success_post(s1, s2, r2),
    ensures
        s2.advertised == Some(r2),
        s2.broadcaster_live,
        s2.log.len() >= 2,
        s2.log[s2.log.len() - 2] == LifecycleEvent::AdvertWithdrawn(r1),
        s2.log[s2.log.len() - 1] == LifecycleEvent::AdvertStarted(r2),
{
    assert(s1.advertised == Some(r1));
    assert(register_events(s1.advertised, r2) == seq![
        LifecycleEvent::AdvertWithdrawn(r1),
        LifecycleEvent::AdvertStarted(r2),
    ]);
}

} // verus!
