//! What the configuration says where the file is silent.

use vstd::prelude::*;
use vstd::string::*;

verus! {

/// Where the agent keeps its state.
pub fn data_dir() -> (r: String)
    ensures
        r@ == "/var/lib/vasal"@,
{
    "/var/lib/vasal".to_owned()
}

/// Where the sidecars' sockets are.
pub fn socket_dir() -> (r: String)
    ensures
        r@ == "/run/vasal"@,
{
    "/run/vasal".to_owned()
}

/// What is logged.
pub fn log_level() -> (r: String)
    ensures
        r@ == "info"@,
{
    "info".to_owned()
}

/// Seconds between two polls for tasks.
pub fn poll_interval_sec() -> (r: u64)
    ensures
        r == 10,
{
    10
}

/// Seconds between two attempts to connect.
pub fn reconnect_interval_sec() -> (r: u64)
    ensures
        r == 5,
{
    5
}

/// Seconds between two heartbeats.
pub fn heartbeat_interval_sec() -> (r: u64)
    ensures
        r == 10,
{
    10
}

/// Events in a batch.
pub fn audit_batch_size() -> (r: usize)
    ensures
        r == 50,
{
    50
}

/// Seconds between two batches.
pub fn audit_flush_interval_sec() -> (r: u64)
    ensures
        r == 5,
{
    5
}

/// Where the tokens are kept.
pub fn token_file() -> (r: String)
    ensures
        r@ == "/var/lib/vasal/token.json"@,
{
    "/var/lib/vasal/token.json".to_owned()
}

/// Milliseconds a shell task may take.
pub fn shell_timeout_ms() -> (r: u64)
    ensures
        r == 300_000,
{
    300_000
}

/// Tasks that run at the same time.
pub fn max_concurrent() -> (r: usize)
    ensures
        r == 4,
{
    4
}

/// Where shell tasks run.
pub fn working_dir() -> (r: String)
    ensures
        r@ == "/tmp/vasal"@,
{
    "/tmp/vasal".to_owned()
}

/// Where artifacts are unpacked.
pub fn artifact_cache_dir() -> (r: String)
    ensures
        r@ == "/var/cache/vasal"@,
{
    "/var/cache/vasal".to_owned()
}

/// Seconds between two rounds of health checks.
pub fn health_check_interval_sec() -> (r: u64)
    ensures
        r == 30,
{
    30
}

/// Where traces go.
pub fn otlp_endpoint() -> (r: String)
    ensures
        r@ == "http://localhost:4318"@,
{
    "http://localhost:4318".to_owned()
}

/// Under which name they go.
pub fn service_name() -> (r: String)
    ensures
        r@ == "vasal"@,
{
    "vasal".to_owned()
}

} // verus!
