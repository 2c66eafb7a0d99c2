use vstd::prelude::*;
use crate::addr::{loopback_addr, loopback_addr_spec};
use crate::csp::{normalize_csp, normalized_csp};
use crate::error::{Error, TappletServerError};

verus! {

/// The lifecycle of one tapplet server.
#[derive(Clone, Copy, PartialEq, Eq, Structural, Debug)]
pub enum ServerPhase {
    Allocating,
    Binding,
    Running,
    Draining,
    Stopped,
}

/// What the surrounding runtime reports back to the supervisor.
#[derive(Clone, Copy, PartialEq, Eq, Structural, Debug)]
pub enum ServerEvent {
    PortAssigned,
    AllocationFailed,
    BindSucceeded,
    BindFailed,
    CancelRequested,
    ServeFailed,
    Drained,
}

/// The supervisor's transition relation: allocation or bind failure goes
/// straight to `Stopped`; only the cancel handle moves a running server
/// into `Draining`; a drained server stops; everything else is ignored.
pub open spec fn phase_after(p: ServerPhase, e: ServerEvent) -> ServerPhase {
    match p {
        ServerPhase::Allocating => match e {
            ServerEvent::PortAssigned => ServerPhase::Binding,
            ServerEvent::AllocationFailed => ServerPhase::Stopped,
            _ => ServerPhase::Allocating,
        },
        ServerPhase::Binding => match e {
            ServerEvent::BindSucceeded => ServerPhase::Running,
            ServerEvent::BindFailed => ServerPhase::Stopped,
            _ => ServerPhase::Binding,
        },
        ServerPhase::Running => match e {
            ServerEvent::CancelRequested => ServerPhase::Draining,
            ServerEvent::ServeFailed => ServerPhase::Stopped,
            _ => ServerPhase::Running,
        },
        ServerPhase::Draining => match e {
            ServerEvent::Drained => ServerPhase::Stopped,
            _ => ServerPhase::Draining,
        },
        ServerPhase::Stopped => ServerPhase::Stopped,
    }
}

/// Advances a server's phase on an observed event.
pub fn advance_phase(p: ServerPhase, e: ServerEvent) -> (r: ServerPhase)
    ensures
        r == phase_after(p, e),
{
    match p {
        ServerPhase::Allocating => match e {
            ServerEvent::PortAssigned => ServerPhase::Binding,
            ServerEvent::AllocationFailed => ServerPhase::Stopped,
            _ => ServerPhase::Allocating,
        },
        ServerPhase::Binding => match e {
            ServerEvent::BindSucceeded => ServerPhase::Running,
            ServerEvent::BindFailed => ServerPhase::Stopped,
            _ => ServerPhase::Binding,
        },
        ServerPhase::Running => match e {
            ServerEvent::CancelRequested => ServerPhase::Draining,
            ServerEvent::ServeFailed => ServerPhase::Stopped,
            _ => ServerPhase::Running,
        },
        ServerPhase::Draining => match e {
            ServerEvent::Drained => ServerPhase::Stopped,
            _ => ServerPhase::Draining,
        },
        ServerPhase::Stopped => ServerPhase::Stopped,
    }
}

/// Law: the drain phase is entered only when the cancel handle fires on a
/// running server; no other phase or event reaches it.
pub proof fn lemma_draining_only_by_cancel(p: ServerPhase, e: ServerEvent)
    ensures
        phase_after(p, e) == ServerPhase::Draining ==> (p == ServerPhase::Running
            && e == ServerEvent::CancelRequested) || (p == ServerPhase::Draining
            && e != ServerEvent::Drained),
{
}

/// Law: `Stopped` is terminal.
pub proof fn lemma_stopped_is_terminal(e: ServerEvent)
    ensures
        phase_after(ServerPhase::Stopped, e) == ServerPhase::Stopped,
{
}

/// Everything a launch fixes before the listener is bound: the loopback
/// address to bind and the CSP header value the server will serve.
pub struct LaunchPlan {
    pub bind_addr: String,
    pub csp_header: String,
}

/// Prepares a tapplet server launch: the bind address is the loopback
/// address of the allocated port, and the CSP captured for the life of the
/// server is the declared CSP, trimmed of surrounding quotes and replaced
/// by the safe default when it cannot stand in an HTTP header.
pub fn prepare_tapplet_server(csp: &str, port: u16) -> (r: LaunchPlan)
    ensures
        r.bind_addr@ == loopback_addr_spec(port),
        r.csp_header@ == normalized_csp(csp@),
{
    LaunchPlan { bind_addr: loopback_addr(port), csp_header: normalize_csp(csp) }
}

/// What a launch reports, given the runtime's bind outcome: a failed bind
/// surfaces `BindPortError` with the requested address; a bound listener
/// whose local address cannot be read surfaces
/// `FailedToObtainLocalAddress`; otherwise the caller receives the
/// listener's actual local address, never the requested one.
pub fn serve_outcome(bind_ok: bool, requested_addr: String, local_addr: Option<String>) -> (r:
    Result<String, Error>)
    ensures
        !bind_ok ==> r == Err::<String, Error>(
            Error::TappletServerError(TappletServerError::BindPortError { port: requested_addr }),
        ),
        bind_ok && local_addr is None ==> r == Err::<String, Error>(
            Error::TappletServerError(TappletServerError::FailedToObtainLocalAddress),
        ),
        bind_ok && local_addr is Some ==> r == Ok::<String, Error>(local_addr->Some_0),
{
    if !bind_ok {
        Err(Error::TappletServerError(TappletServerError::BindPortError { port: requested_addr }))
    } else {
        match local_addr {
            None => Err(Error::TappletServerError(TappletServerError::FailedToObtainLocalAddress)),
            Some(a) => Ok(a),
        }
    }
}

/// A tapplet's on-disk configuration, as the manifest loader surfaces it.
pub struct TappletConfig {
    pub csp: String,
    pub display_name: String,
    pub permissions: Vec<String>,
}

/// A tapplet's distribution manifest.
pub struct TappletManifest {
    pub package_name: String,
    pub version: String,
}

/// What loading `tapplet.config.json` returns, given whether the file
/// exists and what parsing its contents produced: a missing file is
/// `TappletConfigNotFound`, a failed parse surfaces the parser's
/// diagnostic, and otherwise the fully populated record is handed through
/// unchanged.
pub fn interpret_config_read(file_exists: bool, parsed: Result<TappletConfig, String>) -> (r:
    Result<TappletConfig, Error>)
    ensures
        !file_exists ==> r == Err::<TappletConfig, Error>(Error::TappletConfigNotFound),
        file_exists ==> match parsed {
            Ok(c) => r == Ok::<TappletConfig, Error>(c),
            Err(d) => r == Err::<TappletConfig, Error>(Error::JsonParsingError(d)),
        },
{
    if !file_exists {
        Err(Error::TappletConfigNotFound)
    } else {
        match parsed {
            Ok(c) => Ok(c),
            Err(d) => Err(Error::JsonParsingError(d)),
        }
    }
}

/// What loading the tapplet's on-disk bundle description returns, under
/// the same policy as the configuration file.
pub fn interpret_manifest_read(file_exists: bool, parsed: Result<TappletManifest, String>) -> (r:
    Result<TappletManifest, Error>)
    ensures
        !file_exists ==> r == Err::<TappletManifest, Error>(Error::TappletConfigNotFound),
        file_exists ==> match parsed {
            Ok(m) => r == Ok::<TappletManifest, Error>(m),
            Err(d) => r == Err::<TappletManifest, Error>(Error::JsonParsingError(d)),
        },
{
    if !file_exists {
        Err(Error::TappletConfigNotFound)
    } else {
        match parsed {
            Ok(m) => Ok(m),
            Err(d) => Err(Error::JsonParsingError(d)),
        }
    }
}

} // verus!
