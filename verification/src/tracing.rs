//! Where the services send their traces.

use vstd::prelude::*;
use crate::settings::{setting_or, setting_or_default, setting_text};

verus! {

/// The collector, as `host:port`, where `OTEL_EXPORTER_JAEGER_ENDPOINT` is
/// not set.
pub open spec fn default_collector_text() -> Seq<char> {
    "localhost:14268"@
}

/// The address at which the collector at `host` takes traces.
pub open spec fn collector_endpoint_text(host: Seq<char>) -> Seq<char> {
    "http://"@ + host + "/api/traces"@
}

/// The address to send traces to, from the `OTEL_EXPORTER_JAEGER_ENDPOINT`
/// setting (the collector's `host:port`).
pub fn get_collector_endpoint(setting: Option<&str>) -> (res: String)
    ensures
        res@ == collector_endpoint_text(setting_or(setting_text(setting), default_collector_text())),
{
    let host = setting_or_default(setting, "localhost:14268");
    let mut endpoint = String::from_str("http://");
    endpoint.append(host);
    endpoint.append("/api/traces");
    endpoint
}

} // verus!
