//! Listener acquisition: the rules that pick between socket-activated and
//! persistent mode, validate the activation environment, choose a bound
//! listener, and bound how many connections each mode serves. The sockets
//! themselves live outside; this module makes every decision about them.

use vstd::prelude::*;

verus! {

/// The two mutually exclusive ways to obtain a listening socket.
#[derive(Clone, Copy, Debug, PartialEq, Eq, Structural)]
pub enum ListenMode {
    /// An externally bound socket inherited at startup; serve one connection.
    SocketActivated,
    /// Bind our own socket; serve connections indefinitely.
    Persistent,
}

/// Why startup failed; every one of these aborts startup.
#[derive(Clone, Copy, Debug, PartialEq, Eq, Structural)]
pub enum StartupError {
    /// Neither a socket name nor a listen address was configured.
    MissingListenSpec,
    /// Both a socket name and a listen address were configured.
    AmbiguousListenSpec,
    /// The activation environment did not hand over exactly one socket.
    ActivationUnavailable,
    /// No configured address could be bound.
    BindFailed,
}

/// Pick the listen mode from the configuration: exactly one of the two
/// specifications must be present.
pub fn select_mode(socket_name: &Option<String>, listen_addr: &Option<String>) -> (r: Result<
    ListenMode,
    StartupError,
>)
    ensures
        socket_name is Some && listen_addr is None ==> (r matches Ok(m) && m
            == ListenMode::SocketActivated),
        socket_name is None && listen_addr is Some ==> (r matches Ok(m) && m
            == ListenMode::Persistent),
        socket_name is None && listen_addr is None ==> (r matches Err(e) && e
            == StartupError::MissingListenSpec),
        socket_name is Some && listen_addr is Some ==> (r matches Err(e) && e
            == StartupError::AmbiguousListenSpec),
{
    match (socket_name, listen_addr) {
        (Some(_), None) => Ok(ListenMode::SocketActivated),
        (None, Some(_)) => Ok(ListenMode::Persistent),
        (None, None) => Err(StartupError::MissingListenSpec),
        (Some(_), Some(_)) => Err(StartupError::AmbiguousListenSpec),
    }
}

/// The well-known descriptor slot an activated socket is inherited on.
pub fn inherited_socket_slot() -> (r: i32)
    ensures
        r == 3,
{
    3
}

/// Socket-activated startup: the environment flag must show exactly one
/// inherited socket (the flag's value is the byte string `1`); then the
/// listener sits on the well-known descriptor slot. Anything else is a fatal
/// startup error, never a fallback to binding.
pub fn startup_systemd(listen_fds: &Option<Vec<u8>>) -> (r: Result<i32, StartupError>)
    ensures
        (listen_fds matches Some(v) && v@ == seq![49u8]) ==> (r matches Ok(fd) && fd == 3),
        !(listen_fds matches Some(v) && v@ == seq![49u8]) ==> (r matches Err(e) && e
            == StartupError::ActivationUnavailable),
{
    match listen_fds {
        Some(v) => {
            if v.len() == 1 && v[0] == 49u8 {
                assert(v@ =~= seq![49u8]);
                Ok(inherited_socket_slot())
            } else {
                Err(StartupError::ActivationUnavailable)
            }
        },
        None => Err(StartupError::ActivationUnavailable),
    }
}

/// Persistent startup: among the resolved addresses, keep the first whose bind
/// succeeded; when none succeeded (or none resolved), startup fails.
pub fn startup_persistent_server(bind_outcomes: &Vec<bool>) -> (r: Result<usize, StartupError>)
    ensures
        r matches Ok(i) ==> 0 <= i < bind_outcomes@.len() && bind_outcomes@[i as int] && (forall|
            j: int,
        |
            0 <= j < i ==> !bind_outcomes@[j]),
        r matches Err(e) ==> e == StartupError::BindFailed && (forall|j: int|
            0 <= j < bind_outcomes@.len() ==> !bind_outcomes@[j]),
{
    let mut i: usize = 0;
    while i < bind_outcomes.len()
        invariant
            i <= bind_outcomes@.len(),
            forall|j: int| 0 <= j < i ==> !bind_outcomes@[j],
        decreases bind_outcomes@.len() - i,
    {
        if bind_outcomes[i] {
            return Ok(i);
        }
        i = i + 1;
    }
    Err(StartupError::BindFailed)
}

/// Whether the accept loop takes another connection: persistent mode always
/// does; socket-activated mode serves exactly one and then terminates.
pub fn serve_another(mode: &ListenMode, served: u64) -> (r: bool)
    ensures
        r == (mode is Persistent || served == 0),
{
    match mode {
        ListenMode::Persistent => true,
        ListenMode::SocketActivated => served == 0,
    }
}

} // verus!
