use vstd::prelude::*;
use crate::settings::{GrpcServerSettings, HttpServerSettings, MetricsSettings, SocketAddress};

verus! {

/// A middleware layer of the HTTP server.
#[derive(Clone, Copy, Debug, PartialEq, Eq)]
pub enum HttpLayer {
    /// Structured request logging.
    Tracing,
    /// Request counters and latency histograms.
    Metrics,
    /// Cross-origin policy.
    Cors,
    /// Rejects JSON bodies longer than this many bytes.
    BodyLimit(usize),
}

/// The layers of the HTTP server, in the order they are applied: logging,
/// then metrics when they are on, then CORS when it is on, then the body-size
/// limit.
pub open spec fn http_layers(metrics: bool, cors: bool, body_limit: usize) -> Seq<HttpLayer> {
    seq![HttpLayer::Tracing] + (if metrics {
        seq![HttpLayer::Metrics]
    } else {
        seq![]
    }) + (if cors {
        seq![HttpLayer::Cors]
    } else {
        seq![]
    }) + seq![HttpLayer::BodyLimit(body_limit)]
}

/// How to build and run the HTTP listener.
#[derive(Debug, PartialEq, Eq)]
pub struct HttpServerPlan {
    pub addr: SocketAddress,
    pub layers: Vec<HttpLayer>,
    /// Seconds in-flight requests get once a stop is asked for.
    pub shutdown_timeout_secs: u64,
    /// Whether a watcher stops the server when the shutdown signal fires.
    pub stop_on_signal: bool,
}

/// Plans the HTTP listener from its settings, whether metrics are collected,
/// whether a shutdown signal was supplied, and the shutdown window.
pub fn plan_http_server(
    settings: &HttpServerSettings,
    with_metrics: bool,
    with_shutdown: bool,
    shutdown_timeout_secs: u64,
) -> (p: HttpServerPlan)
    ensures
        p.addr == settings.addr,
        p.layers@ == http_layers(with_metrics, settings.cors.enabled, settings.max_body_size),
        p.shutdown_timeout_secs == shutdown_timeout_secs,
        p.stop_on_signal == with_shutdown,
{
    let mut layers: Vec<HttpLayer> = Vec::new();
    layers.push(HttpLayer::Tracing);
    if with_metrics {
        layers.push(HttpLayer::Metrics);
    }
    if settings.cors.enabled {
        layers.push(HttpLayer::Cors);
    }
    layers.push(HttpLayer::BodyLimit(settings.max_body_size));
    assert(layers@ == http_layers(with_metrics, settings.cors.enabled, settings.max_body_size));
    HttpServerPlan {
        addr: settings.addr,
        layers,
        shutdown_timeout_secs,
        stop_on_signal: with_shutdown,
    }
}

/// How to run the gRPC or the metrics listener.
#[derive(Clone, Copy, Debug, PartialEq, Eq)]
pub struct ServePlan {
    pub addr: SocketAddress,
    /// Whether the server stops serving when the shutdown signal fires;
    /// otherwise it serves until it fails or is aborted.
    pub stop_on_signal: bool,
}

/// Plans the gRPC listener.
pub fn plan_grpc_server(settings: &GrpcServerSettings, with_shutdown: bool) -> (p: ServePlan)
    ensures
        p == (ServePlan { addr: settings.addr, stop_on_signal: with_shutdown }),
{
    ServePlan { addr: settings.addr, stop_on_signal: with_shutdown }
}

/// Plans the metrics listener.
pub fn plan_metrics_server(settings: &MetricsSettings, with_shutdown: bool) -> (p: ServePlan)
    ensures
        p == (ServePlan { addr: settings.addr, stop_on_signal: with_shutdown }),
{
    ServePlan { addr: settings.addr, stop_on_signal: with_shutdown }
}

} // verus!
