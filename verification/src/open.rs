//! In which order the ways to Xenstore are tried.

use vstd::prelude::*;

verus! {

/// Where the daemon listens, unless told otherwise.
pub const DEFAULT_SOCKET_PATH: &'static str = "/run/xenstored/socket";

/// A connection to Xenstore.
#[derive(Debug)]
pub enum XsConnection<S, D> {
    /// By the Unix domain socket of the daemon.
    Socket(S),
    /// By the xenbus device.
    Device(D),
}

/// What to do next in order to reach Xenstore.
#[derive(Debug)]
pub enum XsOpenStep<S, D, E> {
    /// Connect to the Unix domain socket at this path.
    ConnectSocket(String),
    /// Open the xenbus device.
    OpenDevice,
    /// Serve this connection.
    Launch(XsConnection<S, D>),
    /// Report this error.
    Fail(E),
}

/// The path of the daemon's socket: the configured one, else the usual one.
pub open spec fn socket_path(configured: Option<String>) -> Seq<char> {
    match configured {
        Some(path) => path@,
        None => DEFAULT_SOCKET_PATH@,
    }
}

/// What is done once the daemon's socket was tried.
pub open spec fn after_socket<S, D, E>(outcome: Result<S, E>) -> XsOpenStep<S, D, E> {
    match outcome {
        Ok(socket) => XsOpenStep::Launch(XsConnection::Socket(socket)),
        Err(_) => XsOpenStep::OpenDevice,
    }
}

/// What is done once the xenbus device was tried.
pub open spec fn after_device<S, D, E>(outcome: Result<D, E>) -> XsOpenStep<S, D, E> {
    match outcome {
        Ok(device) => XsOpenStep::Launch(XsConnection::Device(device)),
        Err(error) => XsOpenStep::Fail(error),
    }
}

/// Decides what to do first: the daemon's socket is tried before anything else.
fn first_step<S, D, E>(xsd_path: Option<String>) -> (step: XsOpenStep<S, D, E>)
    ensures
        step matches XsOpenStep::ConnectSocket(path) && path@ == socket_path(xsd_path),
{
    match xsd_path {
        Some(path) => XsOpenStep::ConnectSocket(path),
        None => XsOpenStep::ConnectSocket(DEFAULT_SOCKET_PATH.to_owned()),
    }
}

/// Decides what to do once the daemon's socket was tried: why it cannot be reached does not
/// matter, the device is tried then.
pub fn socket_tried<S, D, E>(outcome: Result<S, E>) -> (step: XsOpenStep<S, D, E>)
    ensures
        step == after_socket::<S, D, E>(outcome),
{
    match outcome {
        Ok(socket) => XsOpenStep::Launch(XsConnection::Socket(socket)),
        Err(_) => XsOpenStep::OpenDevice,
    }
}

/// Decides what to do once the xenbus device was tried: there is nothing else to try, so the
/// reason why it cannot be opened is reported.
pub fn device_tried<S, D, E>(outcome: Result<D, E>) -> (step: XsOpenStep<S, D, E>)
    ensures
        step == after_device::<S, D, E>(outcome),
{
    match outcome {
        Ok(device) => XsOpenStep::Launch(XsConnection::Device(device)),
        Err(error) => XsOpenStep::Fail(error),
    }
}

/// Xenstore on a Tokio runtime.
#[derive(Clone, Debug)]
pub struct XsTokio;

impl XsTokio {
    /// Sets out to reach Xenstore: first by the socket at the configured path, or the usual one
    /// where none is configured, then by the xenbus device.
    pub fn new<S, D, E>(xsd_path: Option<String>) -> (step: XsOpenStep<S, D, E>)
        ensures
            step matches XsOpenStep::ConnectSocket(path) && path@ == socket_path(xsd_path),
    {
        first_step(xsd_path)
    }
}

/// Xenstore on a smol executor.
#[derive(Clone, Debug)]
pub struct XsSmol;

impl XsSmol {
    /// Sets out to reach Xenstore: first by the socket at the configured path, or the usual one
    /// where none is configured, then by the xenbus device.
    pub fn new<S, D, E>(xsd_path: Option<String>) -> (step: XsOpenStep<S, D, E>)
        ensures
            step matches XsOpenStep::ConnectSocket(path) && path@ == socket_path(xsd_path),
    {
        first_step(xsd_path)
    }
}

/// What comes of opening in the end, given what comes of trying the socket and what would come of
/// trying the device: the connection that is served, or the error that is reported.
pub open spec fn opened<S, D, E>(socket: Result<S, E>, device: Result<D, E>) -> Result<
    XsConnection<S, D>,
    E,
> {
    match after_socket::<S, D, E>(socket) {
        XsOpenStep::Launch(connection) => Ok(connection),
        _ => match after_device::<S, D, E>(device) {
            XsOpenStep::Launch(connection) => Ok(connection),
            XsOpenStep::Fail(error) => Err(error),
            _ => arbitrary(),
        },
    }
}

/// The socket is served wherever it can be reached, and the device is not even tried then. The
/// device is served where only it can be reached. Opening fails exactly where neither can, with
/// the error of the device; the error of the socket is dropped.
pub proof fn law_socket_before_device<S, D, E>(socket: Result<S, E>, device: Result<D, E>)
    ensures
        after_socket::<S, D, E>(socket) is OpenDevice <==> socket is Err,
        opened(socket, device) is Ok <==> socket is Ok || device is Ok,
        socket matches Ok(s) ==> opened(socket, device) == Ok::<XsConnection<S, D>, E>(
            XsConnection::Socket(s),
        ),
        socket is Err ==> (device matches Ok(d) ==> opened(socket, device) == Ok::<
            XsConnection<S, D>,
            E,
        >(XsConnection::Device(d))),
        socket is Err ==> (device matches Err(e) ==> opened(socket, device) == Err::<
            XsConnection<S, D>,
            E,
        >(e)),
{
}

/// For every configured path, the socket that is tried first is the one at exactly that path. The
/// usual path is tried exactly where none is configured.
pub proof fn law_configured_socket_is_tried_first<S, D, E>(
    configured: Option<String>,
    tokio: XsOpenStep<S, D, E>,
    smol: XsOpenStep<S, D, E>,
)
    requires
        call_ensures(XsTokio::new::<S, D, E>, (configured,), tokio),
        call_ensures(XsSmol::new::<S, D, E>, (configured,), smol),
    ensures
        tokio is ConnectSocket,
        smol is ConnectSocket,
        configured matches Some(path) ==> {
            &&& socket_path(configured) == path@
            &&& tokio->ConnectSocket_0@ == path@
            &&& smol->ConnectSocket_0@ == path@
        },
        configured is None ==> {
            &&& socket_path(configured) == "/run/xenstored/socket"@
            &&& tokio->ConnectSocket_0@ == "/run/xenstored/socket"@
            &&& smol->ConnectSocket_0@ == "/run/xenstored/socket"@
        },
{
}

/// No two configured paths are mistaken for one another: the sockets that are tried first are at
/// the same path exactly if the configured paths are the same.
pub proof fn law_configured_paths_are_told_apart<S, D, E>(
    one: String,
    other: String,
    first: XsOpenStep<S, D, E>,
    second: XsOpenStep<S, D, E>,
)
    requires
        call_ensures(XsTokio::new::<S, D, E>, (Some(one),), first),
        call_ensures(XsSmol::new::<S, D, E>, (Some(other),), second),
    ensures
        first->ConnectSocket_0@ == second->ConnectSocket_0@ <==> one@ == other@,
{
}

/// A socket or a device that was reached is served, and just that one. A socket that was not
/// leads to the device, whatever the reason, and a device that was not ends in its own error.
pub proof fn law_what_was_reached_is_served<S, D, E>(
    socket: Result<S, E>,
    device: Result<D, E>,
    after_first: XsOpenStep<S, D, E>,
    after_second: XsOpenStep<S, D, E>,
)
    requires
        call_ensures(socket_tried::<S, D, E>, (socket,), after_first),
        call_ensures(device_tried::<S, D, E>, (device,), after_second),
    ensures
        socket matches Ok(s) ==> after_first == XsOpenStep::<S, D, E>::Launch(
            XsConnection::Socket(s),
        ),
        socket is Err ==> after_first is OpenDevice,
        device matches Ok(d) ==> after_second == XsOpenStep::<S, D, E>::Launch(
            XsConnection::Device(d),
        ),
        device matches Err(e) ==> after_second == XsOpenStep::<S, D, E>::Fail(e),
{
}

} // verus!
