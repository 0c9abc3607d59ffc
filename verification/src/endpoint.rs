//! Where the daemon's control channel listens and how clients reach it.

use vstd::prelude::*;

use crate::text::{trim_char, trim_end_char, trimmed};

verus! {

/// How an endpoint is reached.
#[derive(Debug, Clone, Copy, PartialEq, Eq, Structural)]
pub enum IpcEndpointKind {
    WindowsNamedPipe,
    UnixSocket,
    Manual,
}

/// The systems that have a default endpoint.
#[derive(Debug, Clone, Copy, PartialEq, Eq, Structural)]
pub enum IpcOperatingSystem {
    Windows,
    Linux,
    Macos,
}

/// The address of a control channel.
#[derive(Debug, PartialEq, Eq)]
pub struct IpcEndpoint {
    pub kind: IpcEndpointKind,
    pub address: String,
}

impl Clone for IpcEndpoint {
    fn clone(&self) -> (result: Self)
        ensures
            result == *self,
    {
        IpcEndpoint { kind: self.kind, address: self.address.clone() }
    }
}

/// Why no endpoint could be made.
#[derive(Debug, Clone, Copy, PartialEq, Eq)]
pub enum IpcEndpointError {
    UnsupportedOperatingSystem,
    MissingUserId,
    MissingXdgRuntimeDir,
    MissingHomeDir,
    EmptyValue { field: &'static str },
}

impl IpcEndpointError {
    pub open spec fn text(&self) -> Seq<char> {
        match self {
            IpcEndpointError::UnsupportedOperatingSystem => {
                "unsupported operating system for local IPC"@
            },
            IpcEndpointError::MissingUserId => "missing user id for Windows named pipe"@,
            IpcEndpointError::MissingXdgRuntimeDir => {
                "missing XDG_RUNTIME_DIR for Linux Unix socket"@
            },
            IpcEndpointError::MissingHomeDir => "missing home directory for macOS Unix socket"@,
            IpcEndpointError::EmptyValue { field } => "empty endpoint "@ + field@,
        }
    }

    /// The error in words.
    pub fn message(&self) -> (result: String)
        ensures
            result@ == self.text(),
    {
        match self {
            IpcEndpointError::UnsupportedOperatingSystem => {
                "unsupported operating system for local IPC".to_owned()
            },
            IpcEndpointError::MissingUserId => "missing user id for Windows named pipe".to_owned(),
            IpcEndpointError::MissingXdgRuntimeDir => {
                "missing XDG_RUNTIME_DIR for Linux Unix socket".to_owned()
            },
            IpcEndpointError::MissingHomeDir => {
                "missing home directory for macOS Unix socket".to_owned()
            },
            IpcEndpointError::EmptyValue { field } => "empty endpoint ".to_owned().concat(*field),
        }
    }
}

/// The value without whitespace at its ends, where something is left of it.
pub fn require_non_empty<'a>(field: &'static str, value: &'a str) -> (result: Result<
    &'a str,
    IpcEndpointError,
>)
    ensures
        match result {
            Ok(rest) => rest@ == crate::text::trim(value@) && rest@.len() > 0,
            Err(error) => {
                &&& crate::text::trim(value@).len() == 0
                &&& error == (IpcEndpointError::EmptyValue { field })
            },
        },
{
    let value: &str = trimmed(value);
    if value.is_empty() {
        Err(IpcEndpointError::EmptyValue { field })
    } else {
        Ok(value)
    }
}

impl IpcEndpoint {
    /// The named pipe of a Windows user.
    pub fn windows_named_pipe(user_id: &str) -> (result: Result<Self, IpcEndpointError>)
        ensures
            match result {
                Ok(endpoint) => {
                    &&& crate::text::trim(user_id@).len() > 0
                    &&& endpoint.kind == IpcEndpointKind::WindowsNamedPipe
                    &&& endpoint.address@ == "\\\\.\\pipe\\akrazd-"@ + crate::text::trim(user_id@)
                },
                Err(error) => {
                    &&& crate::text::trim(user_id@).len() == 0
                    &&& error == (IpcEndpointError::EmptyValue { field: "user_id" })
                },
            },
    {
        match require_non_empty("user_id", user_id) {
            Ok(user_id) => Ok(
                IpcEndpoint {
                    kind: IpcEndpointKind::WindowsNamedPipe,
                    address: "\\\\.\\pipe\\akrazd-".to_owned().concat(user_id),
                },
            ),
            Err(error) => Err(error),
        }
    }

    /// A Unix socket at a path, which is kept as it is.
    pub fn unix_socket(path: &str) -> (result: Result<Self, IpcEndpointError>)
        ensures
            match result {
                Ok(endpoint) => {
                    &&& crate::text::trim(path@).len() > 0
                    &&& endpoint.kind == IpcEndpointKind::UnixSocket
                    &&& endpoint.address@ == path@
                },
                Err(error) => {
                    &&& crate::text::trim(path@).len() == 0
                    &&& error == (IpcEndpointError::EmptyValue { field: "path" })
                },
            },
    {
        match require_non_empty("path", path) {
            Ok(_) => Ok(
                IpcEndpoint { kind: IpcEndpointKind::UnixSocket, address: path.to_owned() },
            ),
            Err(error) => Err(error),
        }
    }

    /// An address that was given by hand, which is kept as it is.
    pub fn manual(address: &str) -> (result: Result<Self, IpcEndpointError>)
        ensures
            match result {
                Ok(endpoint) => {
                    &&& crate::text::trim(address@).len() > 0
                    &&& endpoint.kind == IpcEndpointKind::Manual
                    &&& endpoint.address@ == address@
                },
                Err(error) => {
                    &&& crate::text::trim(address@).len() == 0
                    &&& error == (IpcEndpointError::EmptyValue { field: "address" })
                },
            },
    {
        match require_non_empty("address", address) {
            Ok(_) => Ok(IpcEndpoint { kind: IpcEndpointKind::Manual, address: address.to_owned() }),
            Err(error) => Err(error),
        }
    }
}

/// Facts about the environment that decide the default endpoint.
#[derive(Debug, PartialEq, Eq)]
pub struct IpcEndpointEnvironment {
    pub operating_system: Option<IpcOperatingSystem>,
    pub user_id: Option<String>,
    pub xdg_runtime_dir: Option<String>,
    pub home_dir: Option<String>,
}

impl Default for IpcEndpointEnvironment {
    fn default() -> (result: Self)
        ensures
            result.operating_system is None,
            result.user_id is None,
            result.xdg_runtime_dir is None,
            result.home_dir is None,
    {
        IpcEndpointEnvironment {
            operating_system: None,
            user_id: None,
            xdg_runtime_dir: None,
            home_dir: None,
        }
    }
}

/// A path without trailing slashes, then each segment behind one slash and without its own.
pub open spec fn unix_path(root: Seq<char>, segments: Seq<Seq<char>>) -> Seq<char>
    decreases segments.len(),
{
    if segments.len() == 0 {
        crate::text::strip_trailing(root, '/')
    } else {
        unix_path(root, segments.drop_last()).push('/') + crate::text::strip_both(
            segments.last(),
            '/',
        )
    }
}

/// Join a path from its root and segments.
pub fn join_unix_path(root: &str, segments: &[&str]) -> (result: String)
    ensures
        result@ == unix_path(root@, crate::text::views(segments@)),
{
    let mut path: String = trim_end_char(root, '/').to_owned();
    let ghost all = crate::text::views(segments@);
    let mut i: usize = 0;
    while i < segments.len()
        invariant
            i <= segments@.len(),
            all == crate::text::views(segments@),
            path@ == unix_path(root@, all.subrange(0, i as int)),
        decreases segments@.len() - i,
    {
        proof {
            let longer = all.subrange(0, i + 1);
            assert(longer.drop_last() =~= all.subrange(0, i as int));
            assert(longer.last() == segments@[i as int]@);
        }
        path.push('/');
        path.append(trim_char(segments[i], '/'));
        i = i + 1;
    }
    proof {
        assert(all.subrange(0, i as int) =~= all);
    }
    path
}

/// The socket of a Linux user's runtime directory.
pub open spec fn linux_socket(runtime_dir: Seq<char>) -> Seq<char> {
    unix_path(runtime_dir, seq!["akraz"@, "akrazd.sock"@])
}

/// The socket of a macOS user's home directory.
pub open spec fn macos_socket(home_dir: Seq<char>) -> Seq<char> {
    unix_path(home_dir, seq!["Library"@, "Application Support"@, "Akraz"@, "akrazd.sock"@])
}

/// Whether a socket path leads to an endpoint with it as its address.
pub open spec fn is_socket_at(result: Result<IpcEndpoint, IpcEndpointError>, path: Seq<char>) -> bool {
    match result {
        Ok(endpoint) => {
            &&& crate::text::trim(path).len() > 0
            &&& endpoint.kind == IpcEndpointKind::UnixSocket
            &&& endpoint.address@ == path
        },
        Err(error) => {
            &&& crate::text::trim(path).len() == 0
            &&& error == (IpcEndpointError::EmptyValue { field: "path" })
        },
    }
}

/// The default endpoint: a named pipe on Windows, a socket under the runtime directory on Linux and
/// under the home directory on macOS. The first fact that is missing is the error.
pub fn resolve_default_endpoint(environment: &IpcEndpointEnvironment) -> (result: Result<
    IpcEndpoint,
    IpcEndpointError,
>)
    ensures
        match environment.operating_system {
            None => result == Err::<IpcEndpoint, IpcEndpointError>(
                IpcEndpointError::UnsupportedOperatingSystem,
            ),
            Some(IpcOperatingSystem::Windows) => match environment.user_id {
                None => result == Err::<IpcEndpoint, IpcEndpointError>(
                    IpcEndpointError::MissingUserId,
                ),
                Some(user_id) => match result {
                    Ok(endpoint) => {
                        &&& crate::text::trim(user_id@).len() > 0
                        &&& endpoint.kind == IpcEndpointKind::WindowsNamedPipe
                        &&& endpoint.address@ == "\\\\.\\pipe\\akrazd-"@ + crate::text::trim(user_id@)
                    },
                    Err(error) => {
                        &&& crate::text::trim(user_id@).len() == 0
                        &&& error == (IpcEndpointError::EmptyValue { field: "user_id" })
                    },
                },
            },
            Some(IpcOperatingSystem::Linux) => match environment.xdg_runtime_dir {
                None => result == Err::<IpcEndpoint, IpcEndpointError>(
                    IpcEndpointError::MissingXdgRuntimeDir,
                ),
                Some(runtime_dir) => is_socket_at(result, linux_socket(runtime_dir@)),
            },
            Some(IpcOperatingSystem::Macos) => match environment.home_dir {
                None => result == Err::<IpcEndpoint, IpcEndpointError>(
                    IpcEndpointError::MissingHomeDir,
                ),
                Some(home_dir) => is_socket_at(result, macos_socket(home_dir@)),
            },
        },
{
    match environment.operating_system {
        Some(IpcOperatingSystem::Windows) => match &environment.user_id {
            Some(user_id) => IpcEndpoint::windows_named_pipe(user_id.as_str()),
            None => Err(IpcEndpointError::MissingUserId),
        },
        Some(IpcOperatingSystem::Linux) => match &environment.xdg_runtime_dir {
            Some(runtime_dir) => {
                let segments: [&str; 2] = ["akraz", "akrazd.sock"];
                let path = join_unix_path(runtime_dir.as_str(), segments.as_slice());
                proof {
                    assert(crate::text::views(segments@) =~= seq!["akraz"@, "akrazd.sock"@]);
                }
                IpcEndpoint::unix_socket(path.as_str())
            },
            None => Err(IpcEndpointError::MissingXdgRuntimeDir),
        },
        Some(IpcOperatingSystem::Macos) => match &environment.home_dir {
            Some(home_dir) => {
                let segments: [&str; 4] = ["Library", "Application Support", "Akraz", "akrazd.sock"];
                let path = join_unix_path(home_dir.as_str(), segments.as_slice());
                proof {
                    assert(crate::text::views(segments@) =~= seq![
                        "Library"@,
                        "Application Support"@,
                        "Akraz"@,
                        "akrazd.sock"@,
                    ]);
                }
                IpcEndpoint::unix_socket(path.as_str())
            },
            None => Err(IpcEndpointError::MissingHomeDir),
        },
        None => Err(IpcEndpointError::UnsupportedOperatingSystem),
    }
}

/// Why a request got no answer.
#[derive(Debug, PartialEq, Eq)]
pub enum IpcTransportError {
    EndpointUnavailable { endpoint: IpcEndpoint, message: String },
    RequestFailed { message: String },
}

impl IpcTransportError {
    pub fn endpoint_unavailable(endpoint: IpcEndpoint, message: &str) -> (result: Self)
        ensures
            result matches IpcTransportError::EndpointUnavailable { endpoint: e, message: m } && e
                == endpoint && m@ == message@,
    {
        IpcTransportError::EndpointUnavailable { endpoint, message: message.to_owned() }
    }

    pub fn request_failed(message: &str) -> (result: Self)
        ensures
            result matches IpcTransportError::RequestFailed { message: m } && m@ == message@,
    {
        IpcTransportError::RequestFailed { message: message.to_owned() }
    }

    pub open spec fn text(&self) -> Seq<char> {
        match self {
            IpcTransportError::EndpointUnavailable { endpoint, message } => {
                "IPC endpoint unavailable at "@ + endpoint.address@ + ": "@ + message@
            },
            IpcTransportError::RequestFailed { message } => "IPC request failed: "@ + message@,
        }
    }

    /// The error in words.
    pub fn message(&self) -> (result: String)
        ensures
            result@ == self.text(),
    {
        match self {
            IpcTransportError::EndpointUnavailable { endpoint, message } => {
                "IPC endpoint unavailable at ".to_owned().concat(endpoint.address.as_str()).concat(
                    ": ",
                ).concat(message.as_str())
            },
            IpcTransportError::RequestFailed { message } => {
                "IPC request failed: ".to_owned().concat(message.as_str())
            },
        }
    }
}

/// The error that the daemon prints when it cannot serve its control channel.
pub open spec fn daemon_ipc_error_text(error: IpcTransportError) -> Seq<char> {
    match error {
        IpcTransportError::EndpointUnavailable { endpoint, message } => {
            "failed to open daemon IPC endpoint at "@ + endpoint.address@
                + ". Another akraz-daemon may already be running, or the endpoint path may be unavailable. Details: "@
                + message@
        },
        IpcTransportError::RequestFailed { message } => {
            "daemon IPC request failed. Details: "@ + message@
        },
    }
}

/// The error that the daemon prints when it cannot serve its control channel.
pub fn format_daemon_ipc_error(error: &IpcTransportError) -> (result: String)
    ensures
        result@ == daemon_ipc_error_text(*error),
{
    match error {
        IpcTransportError::EndpointUnavailable { endpoint, message } => {
            "failed to open daemon IPC endpoint at ".to_owned().concat(
                endpoint.address.as_str(),
            ).concat(
                ". Another akraz-daemon may already be running, or the endpoint path may be unavailable. Details: ",
            ).concat(message.as_str())
        },
        IpcTransportError::RequestFailed { message } => {
            "daemon IPC request failed. Details: ".to_owned().concat(message.as_str())
        },
    }
}

/// The families of operating systems that a transport is built for.
#[derive(Debug, Clone, Copy, PartialEq, Eq, Structural)]
pub enum TransportFamily {
    Unix,
    Windows,
    Other,
}

/// Why a family cannot reach a kind of endpoint, where it cannot.
pub open spec fn unreachable_reason(family: TransportFamily, kind: IpcEndpointKind) -> Option<
    Seq<char>,
> {
    match family {
        TransportFamily::Unix => if kind == IpcEndpointKind::WindowsNamedPipe {
            Some("Windows named pipes are not available on this platform"@)
        } else {
            None
        },
        TransportFamily::Windows => if kind == IpcEndpointKind::UnixSocket {
            Some("Unix sockets are not available on this platform"@)
        } else {
            None
        },
        TransportFamily::Other => Some("OS local IPC is not available on this platform"@),
    }
}

/// Refuse an endpoint that this family of systems cannot reach.
pub fn require_reachable(family: TransportFamily, endpoint: &IpcEndpoint) -> (result: Result<
    (),
    IpcTransportError,
>)
    ensures
        match unreachable_reason(family, endpoint.kind) {
            None => result is Ok,
            Some(reason) => result matches Err(
                IpcTransportError::EndpointUnavailable { endpoint: e, message: m },
            ) && e == *endpoint && m@ == reason,
        },
{
    match family {
        TransportFamily::Unix => match endpoint.kind {
            IpcEndpointKind::UnixSocket | IpcEndpointKind::Manual => Ok(()),
            IpcEndpointKind::WindowsNamedPipe => Err(
                IpcTransportError::endpoint_unavailable(
                    endpoint.clone(),
                    "Windows named pipes are not available on this platform",
                ),
            ),
        },
        TransportFamily::Windows => match endpoint.kind {
            IpcEndpointKind::WindowsNamedPipe | IpcEndpointKind::Manual => Ok(()),
            IpcEndpointKind::UnixSocket => Err(
                IpcTransportError::endpoint_unavailable(
                    endpoint.clone(),
                    "Unix sockets are not available on this platform",
                ),
            ),
        },
        TransportFamily::Other => Err(
            IpcTransportError::endpoint_unavailable(
                endpoint.clone(),
                "OS local IPC is not available on this platform",
            ),
        ),
    }
}

/// What stands at a socket path before the daemon binds it.
#[derive(Debug, PartialEq, Eq)]
pub enum SocketPathState {
    Missing,
    Socket,
    Occupied,
    Unreadable { detail: String },
}

/// Whether a left-over socket has to be removed before binding, or why binding cannot succeed.
pub fn prepare_socket_path(endpoint: &IpcEndpoint, state: SocketPathState) -> (result: Result<
    bool,
    IpcTransportError,
>)
    ensures
        match state {
            SocketPathState::Missing => result == Ok::<bool, IpcTransportError>(false),
            SocketPathState::Socket => result == Ok::<bool, IpcTransportError>(true),
            SocketPathState::Occupied => result matches Err(
                IpcTransportError::EndpointUnavailable { endpoint: e, message: m },
            ) && e == *endpoint && m@ == "socket path exists and is not a Unix socket"@,
            SocketPathState::Unreadable { detail } => result matches Err(
                IpcTransportError::EndpointUnavailable { endpoint: e, message: m },
            ) && e == *endpoint && m@ == detail@,
        },
{
    match state {
        SocketPathState::Missing => Ok(false),
        SocketPathState::Socket => Ok(true),
        SocketPathState::Occupied => Err(
            IpcTransportError::endpoint_unavailable(
                endpoint.clone(),
                "socket path exists and is not a Unix socket",
            ),
        ),
        SocketPathState::Unreadable { detail } => Err(
            IpcTransportError::endpoint_unavailable(endpoint.clone(), detail.as_str()),
        ),
    }
}

/// A line that was read from the channel: a stream that ended before any byte carries none.
pub fn accept_ipc_line(line: String, bytes_read: usize, label: &str) -> (result: Result<
    String,
    IpcTransportError,
>)
    ensures
        if bytes_read == 0 {
            result matches Err(IpcTransportError::RequestFailed { message: m }) && m@ == "IPC "@
                + label@ + " stream closed before a line was received"@
        } else {
            result == Ok::<String, IpcTransportError>(line)
        },
{
    if bytes_read == 0 {
        Err(
            IpcTransportError::RequestFailed {
                message: "IPC ".to_owned().concat(label).concat(
                    " stream closed before a line was received",
                ),
            },
        )
    } else {
        Ok(line)
    }
}

/// Answers request lines.
pub trait LocalIpcServer: Sized {
    /// What a request line may be answered with, and what answering it leaves behind.
    open spec fn answers(
        before: Self,
        request_line: Seq<char>,
        answer: Result<String, IpcTransportError>,
        after: Self,
    ) -> bool {
        true
    }

    fn handle_request_line(&mut self, request_line: &str) -> (answer: Result<
        String,
        IpcTransportError,
    >)
        ensures
            Self::answers(*old(self), request_line@, answer, *final(self)),
    ;
}

/// Sends request lines to a server.
pub trait LocalIpcClient: Sized {
    /// What sending a request line may give, and what sending it leaves behind.
    open spec fn gets(
        before: Self,
        request_line: Seq<char>,
        answer: Result<String, IpcTransportError>,
        after: Self,
    ) -> bool {
        true
    }

    /// Whether this may be the endpoint that is called.
    open spec fn calls(&self, endpoint: IpcEndpoint) -> bool {
        true
    }

    fn endpoint(&self) -> (result: &IpcEndpoint)
        ensures
            self.calls(*result),
    ;

    fn send_request_line(&mut self, request_line: &str) -> (answer: Result<
        String,
        IpcTransportError,
    >)
        ensures
            Self::gets(*old(self), request_line@, answer, *final(self)),
    ;
}

/// A client whose server is part of the same process.
#[derive(Debug)]
pub struct InProcessIpcClient<S> {
    pub endpoint: IpcEndpoint,
    pub server: S,
}

impl<S> InProcessIpcClient<S> {
    pub fn new(endpoint: IpcEndpoint, server: S) -> (result: Self)
        ensures
            result == (InProcessIpcClient { endpoint, server }),
    {
        InProcessIpcClient { endpoint, server }
    }
}

impl<S: LocalIpcServer> LocalIpcClient for InProcessIpcClient<S> {
    open spec fn gets(
        before: Self,
        request_line: Seq<char>,
        answer: Result<String, IpcTransportError>,
        after: Self,
    ) -> bool {
        &&& after.endpoint == before.endpoint
        &&& S::answers(before.server, request_line, answer, after.server)
    }

    open spec fn calls(&self, endpoint: IpcEndpoint) -> bool {
        endpoint == self.endpoint
    }

    fn endpoint(&self) -> (result: &IpcEndpoint) {
        &self.endpoint
    }

    fn send_request_line(&mut self, request_line: &str) -> (answer: Result<
        String,
        IpcTransportError,
    >) {
        self.server.handle_request_line(request_line)
    }
}

/// A client that reaches its server through the operating system.
#[derive(Debug, PartialEq, Eq)]
pub struct OsLocalIpcClient {
    pub endpoint: IpcEndpoint,
}

impl OsLocalIpcClient {
    pub fn new(endpoint: IpcEndpoint) -> (result: Self)
        ensures
            result == (OsLocalIpcClient { endpoint }),
    {
        OsLocalIpcClient { endpoint }
    }
}

/// An endpoint is of the kind that it was made as and keeps the address that it was made with; one
/// without an address is refused, by the name of what is missing.
pub proof fn endpoints_keep_their_addresses(
    text: &str,
    pipe: Result<IpcEndpoint, IpcEndpointError>,
    socket: Result<IpcEndpoint, IpcEndpointError>,
    manual: Result<IpcEndpoint, IpcEndpointError>,
)
    requires
        call_ensures(IpcEndpoint::windows_named_pipe, (text,), pipe),
        call_ensures(IpcEndpoint::unix_socket, (text,), socket),
        call_ensures(IpcEndpoint::manual, (text,), manual),
    ensures
        crate::text::trim(text@).len() > 0 ==> {
            &&& pipe is Ok && pipe->Ok_0.kind is WindowsNamedPipe
            &&& crate::text::has_prefix(pipe->Ok_0.address@, "\\\\.\\pipe\\akrazd-"@)
            &&& crate::text::has_suffix(pipe->Ok_0.address@, crate::text::trim(text@))
            &&& pipe->Ok_0.address@.len() == "\\\\.\\pipe\\akrazd-"@.len() + crate::text::trim(
                text@,
            ).len()
            &&& socket is Ok && socket->Ok_0.kind is UnixSocket && socket->Ok_0.address@ == text@
            &&& manual is Ok && manual->Ok_0.kind is Manual && manual->Ok_0.address@ == text@
        },
        crate::text::trim(text@).len() == 0 ==> {
            &&& pipe matches Err(IpcEndpointError::EmptyValue { field }) && field@ == "user_id"@
            &&& socket matches Err(IpcEndpointError::EmptyValue { field }) && field@ == "path"@
            &&& manual matches Err(IpcEndpointError::EmptyValue { field }) && field@ == "address"@
        },
{
    if crate::text::trim(text@).len() > 0 {
        let head = "\\\\.\\pipe\\akrazd-"@;
        let tail = crate::text::trim(text@);
        let whole = pipe->Ok_0.address@;
        assert(whole.subrange(0, head.len() as int) =~= head);
        assert(whole.subrange(whole.len() - tail.len(), whole.len() as int) =~= tail);
    }
}

proof fn lemma_path_below(root: Seq<char>, segments: Seq<Seq<char>>, last: Seq<char>)
    requires
        last.len() > 0,
        last[0] != '/',
        last.last() != '/',
    ensures
        unix_path(root, segments.push(last)) == unix_path(root, segments) + seq!['/'] + last,
{
    assert(segments.push(last).drop_last() =~= segments);
    assert(crate::text::strip_both(last, '/') == last);
    assert(unix_path(root, segments).push('/') + last =~= unix_path(root, segments) + seq!['/']
        + last);
}

proof fn lemma_holds_no_space(path: Seq<char>, i: int)
    requires
        0 <= i < path.len(),
        path[i] == '/',
    ensures
        crate::text::trim(path).len() > 0,
{
    crate::text::trimming_takes_off_space_only(path);
    crate::text::whitespace_in_plain_text('/');
    assert(!crate::text::is_whitespace(path[i]));
}

proof fn lemma_linux_socket(runtime_dir: Seq<char>)
    ensures
        linux_socket(runtime_dir) == crate::text::strip_trailing(runtime_dir, '/')
            + "/akraz/akrazd.sock"@,
        crate::text::trim(linux_socket(runtime_dir)).len() > 0,
{
    reveal_strlit("akraz");
    reveal_strlit("akrazd.sock");
    reveal_strlit("/akraz/akrazd.sock");
    let none = Seq::<Seq<char>>::empty();
    let root = crate::text::strip_trailing(runtime_dir, '/');
    lemma_path_below(runtime_dir, none, "akraz"@);
    lemma_path_below(runtime_dir, none.push("akraz"@), "akrazd.sock"@);
    assert(none.push("akraz"@).push("akrazd.sock"@) =~= seq!["akraz"@, "akrazd.sock"@]);
    assert(seq!['/'] + "akraz"@ + seq!['/'] + "akrazd.sock"@ =~= "/akraz/akrazd.sock"@);
    assert(linux_socket(runtime_dir) =~= root + (seq!['/'] + "akraz"@ + seq!['/']
        + "akrazd.sock"@));
    lemma_holds_no_space(linux_socket(runtime_dir), root.len() as int);
}

proof fn lemma_macos_socket(home_dir: Seq<char>)
    ensures
        macos_socket(home_dir) == crate::text::strip_trailing(home_dir, '/')
            + "/Library/Application Support/Akraz/akrazd.sock"@,
        crate::text::trim(macos_socket(home_dir)).len() > 0,
{
    reveal_strlit("Library");
    reveal_strlit("Application Support");
    reveal_strlit("Akraz");
    reveal_strlit("akrazd.sock");
    reveal_strlit("/Library/Application Support/Akraz/akrazd.sock");
    let none = Seq::<Seq<char>>::empty();
    let root = crate::text::strip_trailing(home_dir, '/');
    let one = none.push("Library"@);
    let two = one.push("Application Support"@);
    let three = two.push("Akraz"@);
    lemma_path_below(home_dir, none, "Library"@);
    lemma_path_below(home_dir, one, "Application Support"@);
    lemma_path_below(home_dir, two, "Akraz"@);
    lemma_path_below(home_dir, three, "akrazd.sock"@);
    assert(three.push("akrazd.sock"@) =~= seq![
        "Library"@,
        "Application Support"@,
        "Akraz"@,
        "akrazd.sock"@,
    ]);
    assert(seq!['/'] + "Library"@ + seq!['/'] + "Application Support"@ + seq!['/'] + "Akraz"@
        + seq!['/'] + "akrazd.sock"@ =~= "/Library/Application Support/Akraz/akrazd.sock"@);
    assert(macos_socket(home_dir) =~= root + (seq!['/'] + "Library"@ + seq!['/']
        + "Application Support"@ + seq!['/'] + "Akraz"@ + seq!['/'] + "akrazd.sock"@));
    lemma_holds_no_space(macos_socket(home_dir), root.len() as int);
}

/// The default endpoint is a pipe on Windows and a socket elsewhere. Its name tells the users apart: it
/// is made from the user's id, runtime directory or home directory. Where that is not known, the error
/// names what is missing.
pub proof fn the_default_endpoint_is_the_users_own(
    environment: IpcEndpointEnvironment,
    result: Result<IpcEndpoint, IpcEndpointError>,
)
    requires
        call_ensures(resolve_default_endpoint, (&environment,), result),
    ensures
        environment.operating_system is None ==> result is Err && result->Err_0
            is UnsupportedOperatingSystem,
        environment.operating_system matches Some(IpcOperatingSystem::Windows) ==> {
            &&& environment.user_id is None ==> result is Err && result->Err_0 is MissingUserId
            &&& result matches Ok(endpoint) ==> {
                &&& endpoint.kind is WindowsNamedPipe
                &&& endpoint.address@ == "\\\\.\\pipe\\akrazd-"@ + crate::text::trim(
                    environment.user_id->Some_0@,
                )
            }
            &&& environment.user_id is Some && crate::text::trim(
                environment.user_id->Some_0@,
            ).len() > 0 ==> result is Ok
        },
        environment.operating_system matches Some(IpcOperatingSystem::Linux) ==> {
            &&& environment.xdg_runtime_dir is None ==> result is Err && result->Err_0
                is MissingXdgRuntimeDir
            &&& result matches Ok(endpoint) ==> {
                &&& endpoint.kind is UnixSocket
                &&& endpoint.address@ == crate::text::strip_trailing(
                    environment.xdg_runtime_dir->Some_0@,
                    '/',
                ) + "/akraz/akrazd.sock"@
            }
            &&& environment.xdg_runtime_dir is Some ==> result is Ok
        },
        environment.operating_system matches Some(IpcOperatingSystem::Macos) ==> {
            &&& environment.home_dir is None ==> result is Err && result->Err_0 is MissingHomeDir
            &&& result matches Ok(endpoint) ==> {
                &&& endpoint.kind is UnixSocket
                &&& endpoint.address@ == crate::text::strip_trailing(
                    environment.home_dir->Some_0@,
                    '/',
                ) + "/Library/Application Support/Akraz/akrazd.sock"@
            }
            &&& environment.home_dir is Some ==> result is Ok
        },
{
    if let Some(runtime_dir) = environment.xdg_runtime_dir {
        lemma_linux_socket(runtime_dir@);
    }
    if let Some(home_dir) = environment.home_dir {
        lemma_macos_socket(home_dir@);
    }
}

/// Each system reaches its own kind of endpoint and every one that was given by hand, and not that of
/// the others.
pub proof fn systems_reach_their_own_endpoints(
    family: TransportFamily,
    endpoint: IpcEndpoint,
    result: Result<(), IpcTransportError>,
)
    requires
        call_ensures(require_reachable, (family, &endpoint), result),
    ensures
        result is Ok <==> (family is Unix && !(endpoint.kind is WindowsNamedPipe)) || (family
            is Windows && !(endpoint.kind is UnixSocket)),
        result matches Err(error) ==> error is EndpointUnavailable
            && error->EndpointUnavailable_endpoint == endpoint,
{
}

/// A socket that was left behind is taken away before the daemon binds its path, and nothing else is:
/// what is no socket stays, and the daemon does not start over it.
pub proof fn only_sockets_are_taken_away(
    endpoint: IpcEndpoint,
    state: SocketPathState,
    result: Result<bool, IpcTransportError>,
)
    requires
        call_ensures(prepare_socket_path, (&endpoint, state), result),
    ensures
        result == Ok::<bool, IpcTransportError>(true) <==> state is Socket,
        result == Ok::<bool, IpcTransportError>(false) <==> state is Missing,
        result matches Err(error) ==> error is EndpointUnavailable
            && error->EndpointUnavailable_endpoint == endpoint,
{
}

/// A line that was received is handed on as it is; a stream that ended without one is an error.
pub proof fn a_received_line_is_handed_on(
    line: String,
    bytes_read: usize,
    label: &str,
    result: Result<String, IpcTransportError>,
)
    requires
        call_ensures(accept_ipc_line, (line, bytes_read, label), result),
    ensures
        bytes_read > 0 ==> result is Ok && result->Ok_0 == line,
        bytes_read == 0 ==> result is Err && result->Err_0 is RequestFailed,
        bytes_read == 0 ==> result->Err_0->RequestFailed_message@ == "IPC "@ + label@
            + " stream closed before a line was received"@,
{
}

/// An error tells where it happened and why.
pub proof fn transport_errors_tell_where_and_why(
    endpoint: IpcEndpoint,
    why: &str,
    unavailable: IpcTransportError,
    failed: IpcTransportError,
    first: String,
    second: String,
    printed: String,
    printed_too: String,
)
    requires
        call_ensures(IpcTransportError::endpoint_unavailable, (endpoint, why), unavailable),
        call_ensures(IpcTransportError::request_failed, (why,), failed),
        call_ensures(IpcTransportError::message, (&unavailable,), first),
        call_ensures(IpcTransportError::message, (&failed,), second),
        call_ensures(format_daemon_ipc_error, (&unavailable,), printed),
        call_ensures(format_daemon_ipc_error, (&failed,), printed_too),
    ensures
        unavailable is EndpointUnavailable,
        failed is RequestFailed,
        first@ == "IPC endpoint unavailable at "@ + endpoint.address@ + ": "@ + why@,
        second@ == "IPC request failed: "@ + why@,
        printed@ == "failed to open daemon IPC endpoint at "@ + endpoint.address@
            + ". Another akraz-daemon may already be running, or the endpoint path may be unavailable. Details: "@
            + why@,
        printed_too@ == "daemon IPC request failed. Details: "@ + why@,
{
}

/// A client in the same process hands a line to its server as it is, and gives back what it answers.
pub proof fn a_client_in_process_asks_its_server<S: LocalIpcServer>(
    endpoint: IpcEndpoint,
    server: S,
    client: &mut InProcessIpcClient<S>,
    called: &IpcEndpoint,
    line: &str,
    answer: Result<String, IpcTransportError>,
)
    requires
        call_ensures(InProcessIpcClient::<S>::new, (endpoint, server), *old(client)),
        call_ensures(
            <InProcessIpcClient<S> as LocalIpcClient>::endpoint,
            (&*old(client),),
            called,
        ),
        call_ensures(
            <InProcessIpcClient<S> as LocalIpcClient>::send_request_line,
            (client, line),
            answer,
        ),
    ensures
        *called == endpoint,
        final(client).endpoint == endpoint,
        S::answers(server, line@, answer, final(client).server),
{
}

/// A value that has to be there is taken without the space around it, and missed where it is nothing
/// but space.
pub proof fn a_needed_value_is_taken_without_space(
    field: &'static str,
    value: &str,
    needed: Result<&str, IpcEndpointError>,
)
    requires
        call_ensures(require_non_empty, (field, value), needed),
    ensures
        needed is Err <==> forall|k: int|
            0 <= k < value@.len() ==> crate::text::is_whitespace(#[trigger] value@[k]),
        needed matches Ok(rest) ==> crate::text::is_without_space_around(value@, rest@),
{
    crate::text::trimming_takes_off_space_only(value@);
}

} // verus!
