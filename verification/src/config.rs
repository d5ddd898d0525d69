//! The fixed data of the bootstrap: the liveness endpoint, the argument
//! list of the spawned backend, the chrome of the shell window, and the
//! diagnostic line reported for each terminal outcome. All of it is
//! constant by design — the host applies it, it never computes it.

use vstd::prelude::*;
use crate::supervisor::Outcome;

verus! {

/// Chrome of the shell window: no decorations, no shadow, always on top,
/// absent from the task switcher, and both the minimum and the maximum
/// size clamped to the one fixed dimension `width` by `height`.
#[derive(Clone, Copy, PartialEq, Eq, Structural, Debug)]
pub struct WindowConfig {
    pub width: u32,
    pub height: u32,
    pub decorations: bool,
    pub shadow: bool,
    pub always_on_top: bool,
    pub skip_taskbar: bool,
}

/// The one window configuration the bootstrap applies.
pub open spec fn window_config_spec() -> WindowConfig {
    WindowConfig {
        width: 460,
        height: 460,
        decorations: false,
        shadow: false,
        always_on_top: true,
        skip_taskbar: true,
    }
}

/// The window configuration applied once at startup.
pub fn window_config() -> (r: WindowConfig)
    ensures
        r == window_config_spec(),
        r.width == r.height,
{
    WindowConfig {
        width: 460,
        height: 460,
        decorations: false,
        shadow: false,
        always_on_top: true,
        skip_taskbar: true,
    }
}

/// Cadence of the polling loop: the fixed pause, in seconds, before each
/// polling probe. Constant by design — there is no backoff.
pub const POLL_INTERVAL_SECS: u64 = 1;

/// The pause before each polling probe: exactly one second.
pub fn poll_interval_secs() -> (r: u64)
    ensures
        r == POLL_INTERVAL_SECS,
        r == 1,
{
    POLL_INTERVAL_SECS
}

/// Whether an HTTP status code is success-class: the liveness probe
/// reports the backend ready only on such a response.
pub open spec fn is_success_status_spec(code: u16) -> bool {
    200 <= code < 300
}

/// The success-class test applied to a probe response's status code; any
/// other code, like any transport failure, means not ready.
pub fn is_success_status(code: u16) -> (r: bool)
    ensures
        r == is_success_status_spec(code),
{
    200 <= code && code < 300
}

/// The local endpoint one liveness probe is issued against.
pub open spec fn health_endpoint_spec() -> Seq<char> {
    "http://localhost:8000/api/voice/status"@
}

pub fn health_endpoint() -> (r: &'static str)
    ensures
        r@ == health_endpoint_spec(),
{
    "http://localhost:8000/api/voice/status"
}

/// The flag selecting module invocation of the backend's entry module.
pub open spec fn module_flag_spec() -> Seq<char> {
    "-m"@
}

/// The backend's entry module, named for module invocation.
pub open spec fn entry_module_name_spec() -> Seq<char> {
    "backend.main"@
}

/// The argument list of the spawned backend: module invocation of its
/// entry module, nothing else. The working directory must be the resolved
/// project root for the module name to resolve.
pub fn spawn_args() -> (r: Vec<String>)
    ensures
        r@.len() == 2,
        r@[0]@ == module_flag_spec(),
        r@[1]@ == entry_module_name_spec(),
{
    let mut r: Vec<String> = Vec::new();
    r.push("-m".to_string());
    r.push("backend.main".to_string());
    r
}

/// The diagnostic line for each terminal outcome.
pub open spec fn diagnostic_spec(o: Outcome) -> Seq<char> {
    match o {
        Outcome::AlreadyRunning => "Backend already running"@,
        Outcome::Ready => "Backend started successfully"@,
        Outcome::TimedOut => "Backend failed to start within 30 seconds"@,
        Outcome::SpawnFailed => "Failed to start backend"@,
    }
}

/// The one line a terminal outcome is reported as; failures are logged,
/// never surfaced through the window.
pub fn diagnostic(o: Outcome) -> (r: &'static str)
    ensures
        r@ == diagnostic_spec(o),
{
    match o {
        Outcome::AlreadyRunning => "Backend already running",
        Outcome::Ready => "Backend started successfully",
        Outcome::TimedOut => "Backend failed to start within 30 seconds",
        Outcome::SpawnFailed => "Failed to start backend",
    }
}

} // verus!
