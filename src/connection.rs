use vstd::prelude::*;

use crate::api::{error_view, ApiError, ErrorKind};

verus! {

/// The environment variable that names the daemon's socket.
pub const SOCKET_ENV: &'static str = "KEYMAPP_SOCKET";

/// The directory, under the user's configuration directory, that holds the socket.
pub const SOCKET_DIR: &'static str = ".keymapp/";

/// The file name of the daemon's socket.
pub const SOCKET_FILE: &'static str = "keymapp.sock";

/// The address the channel is opened for when it runs over the socket.
pub const SOCKET_ENDPOINT: &'static str = "http://[::]:50051";

/// The environment variable that names the daemon's TCP port.
pub const PORT_ENV: &'static str = "KEYMAPP_PORT";

/// The TCP port the daemon listens on unless told otherwise.
pub const DEFAULT_PORT: &'static str = "50051";

/// How long a TCP connection attempt may take, in seconds.
pub const CONNECT_TIMEOUT_SECS: u64 = 5;

/// Where the daemon's socket is looked for.
#[derive(Debug, Clone)]
pub enum SocketLocation {
    /// A path given by the caller or by the environment.
    Path(String),
    /// `SOCKET_DIR` and `SOCKET_FILE` under the user's configuration directory.
    ConfigDir,
}

/// Picks where to look for the socket: the path given, else the one the
/// environment names, else the default under the configuration directory.
pub fn socket_location(given: Option<String>, from_env: Option<String>) -> (r: SocketLocation)
    ensures
        given matches Some(p) ==> r matches SocketLocation::Path(q) && q@ == p@,
        given is None ==> (from_env matches Some(p) ==> r matches SocketLocation::Path(q) && q@
            == p@),
        given is None && from_env is None ==> r is ConfigDir,
{
    match given {
        Some(p) => SocketLocation::Path(p),
        None => match from_env {
            Some(p) => SocketLocation::Path(p),
            None => SocketLocation::ConfigDir,
        },
    }
}

/// The error of a user without a configuration directory.
pub fn config_dir_error() -> (e: ApiError)
    ensures
        error_view(e) == (ErrorKind::ConnectionUnavailable, "Failed to get config directory"@),
{
    ApiError {
        kind: ErrorKind::ConnectionUnavailable,
        message: String::from_str("Failed to get config directory"),
    }
}

/// The message of a socket that does not exist at `path`.
pub open spec fn socket_missing_message(path: Seq<char>) -> Seq<char> {
    "Keymapp socket not found at "@ + path
        + ", make sure Keymapp is running and the API is started."@
}

/// Whether the socket may be connected to: it must exist at `path`, as nothing waits
/// for it to appear.
pub fn check_socket(path: &str, exists: bool) -> (r: Result<(), ApiError>)
    ensures
        r is Ok <==> exists,
        r matches Err(e) ==> error_view(e) == (
            ErrorKind::ConnectionUnavailable,
            socket_missing_message(path@),
        ),
{
    if exists {
        Ok(())
    } else {
        let mut message = String::from_str("Keymapp socket not found at ");
        message.append(path);
        message.append(", make sure Keymapp is running and the API is started.");
        assert(message@ =~= socket_missing_message(path@));
        Err(ApiError { kind: ErrorKind::ConnectionUnavailable, message })
    }
}

/// The channel over the socket, or the error of the step that failed: building the
/// endpoint, or connecting through it.
pub fn socket_channel<C>(attempt: Result<C, (bool, String)>) -> (r: Result<C, ApiError>)
    ensures
        attempt matches Ok(c) ==> r == Ok::<C, ApiError>(c),
        attempt matches Err((at_endpoint, m)) ==> r matches Err(e) && error_view(e) == (
            ErrorKind::ConnectionFailed,
            if at_endpoint {
                "Failed to create api client: "@ + m@
            } else {
                "Failed to connect to keymapp: "@ + m@
            },
        ),
{
    match attempt {
        Ok(c) => Ok(c),
        Err((at_endpoint, m)) => {
            let mut message = if at_endpoint {
                String::from_str("Failed to create api client: ")
            } else {
                String::from_str("Failed to connect to keymapp: ")
            };
            message.append(m.as_str());
            Err(ApiError { kind: ErrorKind::ConnectionFailed, message })
        },
    }
}

/// Picks the TCP port: the one given, else the one the environment names, else
/// `DEFAULT_PORT`.
pub fn tcp_port(given: Option<String>, from_env: Option<String>) -> (r: String)
    ensures
        given matches Some(p) ==> r@ == p@,
        given is None ==> (from_env matches Some(p) ==> r@ == p@),
        given is None && from_env is None ==> r@ == DEFAULT_PORT@,
{
    match given {
        Some(p) => p,
        None => match from_env {
            Some(p) => p,
            None => String::from_str(DEFAULT_PORT),
        },
    }
}

/// The address of the daemon on the local machine at `port`.
pub fn tcp_address(port: &str) -> (r: String)
    ensures
        r@ == "http://localhost:"@ + port@,
{
    let mut r = String::from_str("http://localhost:");
    r.append(port);
    r
}

/// The client connected over TCP at `port`, or the error of the attempt: `None`
/// when it did not finish within `CONNECT_TIMEOUT_SECS`.
pub fn tcp_client<C>(port: &str, attempt: Option<Result<C, String>>) -> (r: Result<C, ApiError>)
    ensures
        attempt matches Some(Ok(c)) ==> r == Ok::<C, ApiError>(c),
        attempt is None ==> (r matches Err(e) && error_view(e) == (
            ErrorKind::ConnectionTimedOut,
            "Connection to Keymapp timed out, make sure the api is running and listening to port "@
                + port@,
        )),
        attempt matches Some(Err(m)) ==> r matches Err(e) && error_view(e) == (
            ErrorKind::ConnectionFailed,
            "Connection to Keymapp failed, with error "@ + m@,
        ),
{
    match attempt {
        Some(Ok(c)) => Ok(c),
        None => {
            let mut message = String::from_str(
                "Connection to Keymapp timed out, make sure the api is running and listening to port ",
            );
            message.append(port);
            Err(ApiError { kind: ErrorKind::ConnectionTimedOut, message })
        },
        Some(Err(m)) => {
            let mut message = String::from_str("Connection to Keymapp failed, with error ");
            message.append(m.as_str());
            Err(ApiError { kind: ErrorKind::ConnectionFailed, message })
        },
    }
}

} // verus!
