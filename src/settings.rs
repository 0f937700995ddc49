use vstd::prelude::*;

verus! {

/// An IP address, held as the integer that its octets or segments spell out
/// (most significant first).
#[derive(Clone, Copy, Debug, PartialEq, Eq)]
pub enum IpAddress {
    V4 { bits: u32 },
    V6 { bits: u128 },
}

/// The address a listener binds.
#[derive(Clone, Copy, Debug, PartialEq, Eq)]
pub struct SocketAddress {
    pub ip: IpAddress,
    pub port: u16,
}

/// Cross-origin policy of the HTTP listener.
#[derive(Clone, Debug, PartialEq, Eq)]
pub struct CorsSettings {
    pub enabled: bool,
    pub allowed_origin: String,
    pub allowed_methods: String,
    pub allowed_credentials: bool,
    pub max_age: usize,
    pub block_on_origin_mismatch: bool,
    pub send_wildcard: bool,
}

#[derive(Clone, Debug, PartialEq, Eq)]
pub struct HttpServerSettings {
    pub enabled: bool,
    pub addr: SocketAddress,
    /// Largest accepted JSON request body, in bytes.
    pub max_body_size: usize,
    pub cors: CorsSettings,
}

#[derive(Clone, Copy, Debug, PartialEq, Eq)]
pub struct GrpcServerSettings {
    pub enabled: bool,
    pub addr: SocketAddress,
}

#[derive(Clone, Debug, PartialEq, Eq)]
pub struct ServerSettings {
    pub http: HttpServerSettings,
    pub grpc: GrpcServerSettings,
}

#[derive(Clone, Debug, PartialEq, Eq)]
pub struct MetricsSettings {
    pub enabled: bool,
    pub addr: SocketAddress,
    /// Path under which the metrics are exposed.
    pub route: String,
}

/// Everything one launch reads; the caller owns it for the whole launch.
#[derive(Clone, Debug, PartialEq, Eq)]
pub struct LaunchSettings {
    pub service_name: String,
    pub server: ServerSettings,
    pub metrics: MetricsSettings,
}

} // verus!
