//! The trusted boundary to the mDNS layer (`searchlight`): type declarations
//! and one wrapper per outside function. The builders and handles are opaque
//! here; every decision around them is made by the verified callers.
use vstd::prelude::*;

verus! {

#[verifier::external_type_specification]
#[verifier::external_body]
pub struct ExServiceBuilder(searchlight::broadcast::ServiceBuilder);

#[verifier::external_type_specification]
#[verifier::external_body]
pub struct ExService(searchlight::broadcast::Service);

#[verifier::external_type_specification]
#[verifier::external_body]
pub struct ExBroadcasterBuilder(searchlight::broadcast::BroadcasterBuilder);

#[verifier::external_type_specification]
#[verifier::external_body]
pub struct ExBroadcaster(searchlight::broadcast::Broadcaster);

#[verifier::external_type_specification]
#[verifier::external_body]
pub struct ExBroadcasterHandle(searchlight::broadcast::BroadcasterHandle);

#[verifier::external_type_specification]
#[verifier::external_body]
pub struct ExDiscoveryBuilder(searchlight::discovery::DiscoveryBuilder);

#[verifier::external_type_specification]
#[verifier::external_body]
pub struct ExDiscovery(searchlight::discovery::Discovery);

#[verifier::external_type_specification]
#[verifier::external_body]
pub struct ExDiscoveryHandle(searchlight::discovery::DiscoveryHandle);

/// Whether the advertisement format accepts the pair of a service type and an
/// instance name. `searchlight::broadcast::ServiceBuilder::new` decides this
/// by parsing both as DNS names, together with their combinations; the
/// outcome depends on the two names alone.
pub uninterp spec fn accepts_service_coords(service_type: Seq<char>, instance_name: Seq<char>) -> bool;

/// Whether the advertisement format accepts a service type on its own.
/// `searchlight::discovery::DiscoveryBuilder::service` decides this by
/// parsing it as a DNS name; the outcome depends on the name alone.
pub uninterp spec fn accepts_service_type(service_type: Seq<char>) -> bool;

/// Relies on `searchlight::broadcast::ServiceBuilder::new`: it returns `Ok`
/// exactly when the two names and their combinations parse as DNS names (the
/// port takes no part in the validation).
#[verifier::external_body]
pub(crate) fn service_builder_new(service_type: &str, instance_name: &str, port: u16) -> (r: Option<
    searchlight::broadcast::ServiceBuilder,
>)
    ensures
        r is Some <==> accepts_service_coords(service_type@, instance_name@),
{
    searchlight::broadcast::ServiceBuilder::new(service_type, instance_name, port).ok()
}

/// Relies on `searchlight::broadcast::ServiceBuilder::add_ip_address`. The
/// textual address is parsed first; one that is not an IP address leaves the
/// builder as it was.
#[verifier::external_body]
pub(crate) fn service_builder_add_ip(
    builder: searchlight::broadcast::ServiceBuilder,
    address: &String,
) -> searchlight::broadcast::ServiceBuilder {
    match address.parse() {
        Ok(ip) => builder.add_ip_address(ip),
        Err(_) => builder,
    }
}

/// Relies on `searchlight::broadcast::ServiceBuilder::add_txt_truncated`.
#[verifier::external_body]
pub(crate) fn service_builder_add_txt(
    builder: searchlight::broadcast::ServiceBuilder,
    entry: &String,
) -> searchlight::broadcast::ServiceBuilder {
    builder.add_txt_truncated(entry.clone())
}

/// Relies on `searchlight::broadcast::ServiceBuilder::build`; its error is
/// returned as its description.
#[verifier::external_body]
pub(crate) fn service_build(builder: searchlight::broadcast::ServiceBuilder) -> Result<
    searchlight::broadcast::Service,
    String,
> {
    builder.build().map_err(|e| format!("{e}"))
}

/// Relies on `searchlight::broadcast::BroadcasterBuilder::new`.
#[verifier::external_body]
pub(crate) fn broadcaster_builder_new() -> searchlight::broadcast::BroadcasterBuilder {
    searchlight::broadcast::BroadcasterBuilder::new()
}

/// Relies on `searchlight::broadcast::BroadcasterBuilder::add_service`.
#[verifier::external_body]
pub(crate) fn broadcaster_builder_add_service(
    builder: searchlight::broadcast::BroadcasterBuilder,
    service: searchlight::broadcast::Service,
) -> searchlight::broadcast::BroadcasterBuilder {
    builder.add_service(service)
}

/// Relies on `searchlight::broadcast::BroadcasterBuilder::build`, asked for
/// both IP versions; its error is returned as its description.
#[verifier::external_body]
pub(crate) fn broadcaster_build(builder: searchlight::broadcast::BroadcasterBuilder) -> Result<
    searchlight::broadcast::Broadcaster,
    String,
> {
    builder.build(searchlight::net::IpVersion::Both).map_err(|e| format!("{e}"))
}

/// Relies on `searchlight::broadcast::Broadcaster::run_in_background`: the
/// advertisement starts on its own background thread.
#[verifier::external_body]
pub(crate) fn broadcaster_run(
    broadcaster: searchlight::broadcast::Broadcaster,
) -> searchlight::broadcast::BroadcasterHandle {
    broadcaster.run_in_background()
}

/// Relies on `searchlight::broadcast::BroadcasterHandle::shutdown`: it stops
/// the background thread and blocks until it is gone; its error is returned
/// as its description.
#[verifier::external_body]
pub(crate) fn broadcaster_shutdown(handle: searchlight::broadcast::BroadcasterHandle) -> Result<
    (),
    String,
> {
    handle.shutdown().map_err(|e| format!("{e}"))
}

/// Relies on `searchlight::discovery::DiscoveryBuilder::new`.
#[verifier::external_body]
pub(crate) fn discovery_builder_new() -> searchlight::discovery::DiscoveryBuilder {
    searchlight::discovery::DiscoveryBuilder::new()
}

/// Relies on `searchlight::discovery::DiscoveryBuilder::service`: it returns
/// `Ok` exactly when the service type parses as a DNS name.
#[verifier::external_body]
pub(crate) fn discovery_builder_service(
    builder: searchlight::discovery::DiscoveryBuilder,
    service_type: &str,
) -> (r: Option<searchlight::discovery::DiscoveryBuilder>)
    ensures
        r is Some <==> accepts_service_type(service_type@),
{
    builder.service(service_type).ok()
}

/// Relies on `searchlight::discovery::DiscoveryBuilder::build`, asked for
/// both IP versions; its error is returned as its description.
#[verifier::external_body]
pub(crate) fn discovery_build(builder: searchlight::discovery::DiscoveryBuilder) -> Result<
    searchlight::discovery::Discovery,
    String,
> {
    builder.build(searchlight::net::IpVersion::Both).map_err(|e| format!("{e}"))
}

/// Relies on `searchlight::discovery::DiscoveryHandle::shutdown`: it stops
/// the background watch and blocks until it is gone; its error is returned as
/// its description.
#[verifier::external_body]
pub(crate) fn discovery_shutdown(handle: searchlight::discovery::DiscoveryHandle) -> Result<
    (),
    String,
> {
    handle.shutdown().map_err(|e| format!("{e}"))
}

} // verus!
