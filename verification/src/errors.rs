//! Error kinds surfaced by the foreground operations.
use vstd::prelude::*;
use vstd::string::StringExecFns;

verus! {

/// What a foreground operation can fail with. Background failures are never
/// surfaced here: they end only the affected background unit.
#[derive(Debug, Clone, PartialEq, Eq)]
pub enum LinkError {
    /// No non-loopback local address was found for advertisement.
    NoLocalAddress,
    /// The service type or instance name was rejected by the advertisement
    /// format.
    InvalidServiceParams,
    /// The network layer rejected the advertisement or watch construction;
    /// carries its description.
    BuildFailed(String),
    /// A withdrawal reported an error; carries its description.
    ShutdownFailed(String),
    /// No ephemeral port could be obtained for the command server.
    PortUnavailable,
}

impl LinkError {
    /// A short description of the error, for surfacing to a caller.
    pub fn describe(&self) -> (r: String)
        ensures
            r@ == self.spec_describe(),
    {
        match self {
            LinkError::NoLocalAddress => "no non-loopback local address found".to_owned(),
            LinkError::InvalidServiceParams => "invalid service type or instance name".to_owned(),
            LinkError::BuildFailed(d) => "network layer build failed: ".to_owned().concat(
                d.as_str(),
            ),
            LinkError::ShutdownFailed(d) => "shutdown failed: ".to_owned().concat(d.as_str()),
            LinkError::PortUnavailable => "no unused port available".to_owned(),
        }
    }

    /// The characters of the description of this error.
    pub open spec fn spec_describe(&self) -> Seq<char> {
        match self {
            LinkError::NoLocalAddress => "no non-loopback local address found"@,
            LinkError::InvalidServiceParams => "invalid service type or instance name"@,
            LinkError::BuildFailed(d) => "network layer build failed: "@ + d@,
            LinkError::ShutdownFailed(d) => "shutdown failed: "@ + d@,
            LinkError::PortUnavailable => "no unused port available"@,
        }
    }
}

} // verus!
