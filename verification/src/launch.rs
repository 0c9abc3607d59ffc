//! How the desktop application starts the daemon.

use vstd::prelude::*;

use crate::settings::{
    normalize_optional_session_address, normalize_peer_id, AppSettings, DaemonEdgeBindingOption,
    DaemonScreenEdgeOption, EdgeModel, ManualPeerAddressSetting,
};
use crate::text::{same, to_lowercase, trimmed};

verus! {

pub const DAEMON_PATH_ENV: &'static str = "AKRAZ_DAEMON_PATH";

pub const DAEMON_CAPTURE_INPUT_ENV: &'static str = "AKRAZ_DAEMON_CAPTURE_INPUT";

pub const DAEMON_SIDECAR_NAME: &'static str = "akraz-daemon";

pub const DAEMON_SERVE_ARG: &'static str = "--serve";

pub const DAEMON_CAPTURE_INPUT_ARG: &'static str = "--capture-input";

pub const DAEMON_EDGE_BINDING_ARG: &'static str = "--edge-binding";

pub const DAEMON_PEER_LISTEN_ARG: &'static str = "--peer-listen";

pub const DAEMON_IDENTITY_STORE_ARG: &'static str = "--identity-store";

pub const DAEMON_IDENTITY_DISPLAY_NAME_ARG: &'static str = "--identity-display-name";

pub const DAEMON_CRASH_MARKER_ARG: &'static str = "--crash-marker";

/// The name that the identity of the desktop application shows.
pub const DAEMON_IDENTITY_DISPLAY_NAME: &'static str = "Akraz Desktop";

pub const DAEMON_LIFECYCLE_SMOKE_FLAG: &'static str = "--akraz-smoke-daemon-lifecycle";

pub const DAEMON_SETTINGS_START_SMOKE_FLAG: &'static str = "--akraz-smoke-settings-start";

/// Whether an argument is there, letter for letter.
pub fn has_exact_arg(args: &Vec<String>, expected: &str) -> (result: bool)
    ensures
        result == crate::text::string_views(args@).contains(expected@),
{
    let ghost views = crate::text::string_views(args@);
    let mut i: usize = 0;
    while i < args.len()
        invariant
            i <= args@.len(),
            views == crate::text::string_views(args@),
            views.len() == args@.len(),
            forall|k: int| 0 <= k < i ==> views[k] != expected@,
        decreases args@.len() - i,
    {
        proof {
            assert(views[i as int] == args@[i as int]@);
        }
        if same(args[i].as_str(), expected) {
            return true;
        }
        i = i + 1;
    }
    false
}

/// What the desktop application does.
#[derive(Debug, Clone, Copy, PartialEq, Eq, Structural)]
pub enum AppCommand {
    SettingsStartSmoke,
    LifecycleSmoke,
    Window,
}

/// What the desktop application does on these arguments.
pub open spec fn app_command(args: Seq<Seq<char>>) -> AppCommand {
    if args.contains(DAEMON_SETTINGS_START_SMOKE_FLAG@) {
        AppCommand::SettingsStartSmoke
    } else if args.contains(DAEMON_LIFECYCLE_SMOKE_FLAG@) {
        AppCommand::LifecycleSmoke
    } else {
        AppCommand::Window
    }
}

/// Choose what the desktop application does.
pub fn choose_app_command(args: &Vec<String>) -> (result: AppCommand)
    ensures
        result == app_command(crate::text::string_views(args@)),
{
    if has_exact_arg(args, DAEMON_SETTINGS_START_SMOKE_FLAG) {
        AppCommand::SettingsStartSmoke
    } else if has_exact_arg(args, DAEMON_LIFECYCLE_SMOKE_FLAG) {
        AppCommand::LifecycleSmoke
    } else {
        AppCommand::Window
    }
}

/// How the daemon is to be started. What is left open is taken from the environment.
#[derive(Debug, PartialEq, Eq)]
pub struct DaemonStartOptions {
    pub capture_input: Option<bool>,
    pub peer_listen_address: Option<String>,
    pub edge_bindings: Vec<DaemonEdgeBindingOption>,
}

/// How the daemon is to be started.
pub struct StartModel {
    pub capture_input: Option<bool>,
    pub peer_listen_address: Option<Seq<char>>,
    pub edge_bindings: Seq<EdgeModel>,
}

impl View for DaemonStartOptions {
    type V = StartModel;

    open spec fn view(&self) -> StartModel {
        StartModel {
            capture_input: self.capture_input,
            peer_listen_address: crate::rpc::optional_view(self.peer_listen_address),
            edge_bindings: crate::settings::edge_models(self.edge_bindings@),
        }
    }
}

impl Default for DaemonStartOptions {
    fn default() -> (result: Self)
        ensures
            result@ == (StartModel {
                capture_input: None,
                peer_listen_address: None,
                edge_bindings: Seq::empty(),
            }),
    {
        let result = DaemonStartOptions {
            capture_input: None,
            peer_listen_address: None,
            edge_bindings: Vec::new(),
        };
        proof {
            assert(result@.edge_bindings =~= Seq::empty());
        }
        result
    }
}

/// A text that says something, without space around it.
pub open spec fn said(value: Seq<char>) -> Option<Seq<char>> {
    let value = crate::text::trim(value);
    if value.len() == 0 {
        None
    } else {
        Some(value)
    }
}

/// A text that says something, without space around it.
pub fn non_empty_string(value: &str) -> (result: Option<String>)
    ensures
        crate::rpc::optional_view(result) == said(value@),
{
    let value = trimmed(value);
    if value.is_empty() {
        None
    } else {
        Some(value.to_owned())
    }
}

/// How the daemon is started with these settings.
pub open spec fn start_of(settings: crate::settings::SettingsModel) -> StartModel {
    StartModel {
        capture_input: Some(settings.capture_input),
        peer_listen_address: said(settings.peer_listen_address),
        edge_bindings: settings.edge_bindings,
    }
}

impl From<AppSettings> for DaemonStartOptions {
    /// How the daemon is started with these settings.
    fn from(settings: AppSettings) -> (result: Self)
        ensures
            result@ == start_of(settings@),
    {
        DaemonStartOptions {
            capture_input: Some(settings.capture_input),
            peer_listen_address: non_empty_string(settings.peer_listen_address.as_str()),
            edge_bindings: settings.edge_bindings,
        }
    }
}

impl vstd::std_specs::convert::FromSpecImpl<AppSettings> for DaemonStartOptions {
    open spec fn obeys_from_spec() -> bool {
        false
    }

    open spec fn from_spec(settings: AppSettings) -> Self {
        arbitrary()
    }
}

/// Whether the environment asks for the input to be captured.
pub open spec fn capture_asked(value: Option<Seq<char>>) -> bool {
    match value {
        None => false,
        Some(value) => {
            let word = crate::text::lowercase(crate::text::trim(value));
            word == "1"@ || word == "true"@ || word == "yes"@ || word == "on"@
        },
    }
}

/// Whether the environment asks for the input to be captured.
pub fn daemon_capture_input_enabled_from(value: Option<&str>) -> (result: bool)
    ensures
        result == capture_asked(crate::cli::optional_str(value)),
{
    match value {
        None => false,
        Some(value) => {
            let word = to_lowercase(trimmed(value));
            same(word.as_str(), "1") || same(word.as_str(), "true") || same(word.as_str(), "yes")
                || same(word.as_str(), "on")
        },
    }
}

/// The daemon that the environment names, if it names one.
pub fn resolve_env_daemon_executable_from(value: Option<String>) -> (result: Option<String>)
    ensures
        result == (match value {
            Some(path) => if path@.len() == 0 {
                None
            } else {
                Some(path)
            },
            None => None,
        }),
{
    match value {
        Some(path) => {
            if path.as_str().is_empty() {
                None
            } else {
                Some(path)
            }
        },
        None => None,
    }
}

/// The file name of the daemon.
pub fn daemon_executable_name(windows: bool) -> (result: &'static str)
    ensures
        result@ == (if windows {
            "akraz-daemon.exe"@
        } else {
            "akraz-daemon"@
        }),
{
    if windows {
        "akraz-daemon.exe"
    } else {
        "akraz-daemon"
    }
}

/// A path as an argument of the daemon. Only a path that is text can be one.
pub fn format_daemon_path_arg(path: Option<&str>) -> (result: Result<String, String>)
    ensures
        match path {
            Some(text) => result matches Ok(argument) && argument@ == text@,
            None => result matches Err(message) && message@
                == "Akraz daemon path contains invalid Unicode."@,
        },
{
    match path {
        Some(text) => Ok(text.to_owned()),
        None => Err("Akraz daemon path contains invalid Unicode.".to_owned()),
    }
}

/// A binding as an argument of the daemon.
pub open spec fn edge_argument(binding: EdgeModel) -> Result<Seq<char>, Seq<char>> {
    match crate::settings::edge_peer(binding.peer_id) {
        Err(message) => Err(message),
        Ok(peer_id) => Ok(
            binding.local_edge.spelled() + ":"@ + peer_id + ":"@ + binding.remote_edge.spelled(),
        ),
    }
}

/// A binding as an argument of the daemon.
pub fn format_edge_binding_arg(binding: &DaemonEdgeBindingOption) -> (result: Result<
    String,
    String,
>)
    ensures
        match result {
            Ok(argument) => edge_argument(binding@) == Ok::<Seq<char>, Seq<char>>(argument@),
            Err(message) => edge_argument(binding@) == Err::<Seq<char>, Seq<char>>(message@),
        },
{
    match normalize_peer_id(binding.peer_id.as_str()) {
        Ok(peer_id) => Ok(
            binding.local_edge.daemon_arg().to_owned().concat(":").concat(peer_id).concat(
                ":",
            ).concat(binding.remote_edge.daemon_arg()),
        ),
        Err(message) => Err(message),
    }
}

/// Bindings as arguments of the daemon, or what is wrong with the first bad one.
pub open spec fn edge_arguments(bindings: Seq<EdgeModel>) -> Result<Seq<Seq<char>>, Seq<char>>
    decreases bindings.len(),
{
    if bindings.len() == 0 {
        Ok(Seq::empty())
    } else {
        match edge_arguments(bindings.drop_last()) {
            Err(message) => Err(message),
            Ok(args) => match edge_argument(bindings.last()) {
                Err(message) => Err(message),
                Ok(argument) => Ok(args + seq!["--edge-binding"@, argument]),
            },
        }
    }
}

/// The listener's address as arguments of the daemon. A listener needs an identity.
pub open spec fn listen_arguments(address: Option<Seq<char>>, has_identity: bool) -> Result<
    Seq<Seq<char>>,
    Seq<char>,
> {
    match address {
        None => Ok(Seq::empty()),
        Some(address) => match crate::settings::optional_address(address) {
            Err(message) => Err(message),
            Ok(address) => if address.len() == 0 {
                Ok(Seq::empty())
            } else if !has_identity {
                Err("peer listener requires an identity store."@)
            } else {
                Ok(seq!["--peer-listen"@, address])
            },
        },
    }
}

/// Where the identity is kept, as arguments of the daemon.
pub open spec fn identity_arguments(path: Option<Seq<char>>) -> Seq<Seq<char>> {
    match path {
        Some(path) => seq![
            "--identity-store"@,
            path,
            "--identity-display-name"@,
            DAEMON_IDENTITY_DISPLAY_NAME@,
        ],
        None => Seq::empty(),
    }
}

/// Where word of a crash is left, as arguments of the daemon.
pub open spec fn crash_arguments(path: Option<Seq<char>>) -> Seq<Seq<char>> {
    match path {
        Some(path) => seq!["--crash-marker"@, path],
        None => Seq::empty(),
    }
}

/// Whether the input is to be captured: as the options say, else as the environment asks.
pub open spec fn captures(options: StartModel, environment: Option<Seq<char>>) -> bool {
    match options.capture_input {
        Some(capture_input) => capture_input,
        None => capture_asked(environment),
    }
}

/// Whether the input is to be captured, as an argument of the daemon.
pub open spec fn capture_arguments(capture_input: bool) -> Seq<Seq<char>> {
    if capture_input {
        seq!["--capture-input"@]
    } else {
        Seq::empty()
    }
}

/// The arguments that the daemon is started with, or why it cannot be. The listener is looked at
/// first, then the bindings.
pub open spec fn launch_arguments(
    options: StartModel,
    environment: Option<Seq<char>>,
    identity_store_path: Option<Seq<char>>,
    crash_marker_path: Option<Seq<char>>,
) -> Result<Seq<Seq<char>>, Seq<char>> {
    match listen_arguments(options.peer_listen_address, identity_store_path is Some) {
        Err(message) => Err(message),
        Ok(listen) => match edge_arguments(options.edge_bindings) {
            Err(message) => Err(message),
            Ok(edges) => Ok(
                seq!["--serve"@] + identity_arguments(identity_store_path) + crash_arguments(
                    crash_marker_path,
                ) + capture_arguments(captures(options, environment)) + listen + edges,
            ),
        },
    }
}

/// One more argument.
fn put(args: &mut Vec<String>, argument: &str)
    ensures
        crate::text::string_views(final(args)@) == crate::text::string_views(old(args)@).push(
            argument@,
        ),
{
    let ghost before = crate::text::string_views(args@);
    args.push(argument.to_owned());
    proof {
        assert(crate::text::string_views(args@) =~= before.push(argument@));
    }
}

/// What is wrong with the first bindings is wrong with all.
proof fn lemma_failed_edge(bindings: Seq<EdgeModel>, count: nat)
    requires
        count <= bindings.len(),
    ensures
        edge_arguments(bindings.subrange(0, count as int)) matches Err(message) ==> edge_arguments(
            bindings,
        ) == Err::<Seq<Seq<char>>, Seq<char>>(message),
    decreases bindings.len() - count,
{
    if count < bindings.len() {
        let longer = bindings.subrange(0, count as int + 1);
        assert(longer.drop_last() =~= bindings.subrange(0, count as int));
        lemma_failed_edge(bindings, count + 1);
    } else {
        assert(bindings.subrange(0, count as int) =~= bindings);
    }
}

/// Put the bindings behind the arguments.
fn put_edges(args: &mut Vec<String>, bindings: &Vec<DaemonEdgeBindingOption>) -> (result: Result<
    (),
    String,
>)
    ensures
        match result {
            Ok(_) => edge_arguments(crate::settings::edge_models(bindings@)) is Ok
                && crate::text::string_views(final(args)@) == crate::text::string_views(old(args)@)
                + edge_arguments(crate::settings::edge_models(bindings@))->Ok_0,
            Err(message) => edge_arguments(crate::settings::edge_models(bindings@)) == Err::<
                Seq<Seq<char>>,
                Seq<char>,
            >(message@),
        },
{
    let ghost all = crate::settings::edge_models(bindings@);
    let ghost before = crate::text::string_views(args@);
    let mut i: usize = 0;
    proof {
        assert(all.subrange(0, 0) =~= Seq::empty());
        assert(before + Seq::<Seq<char>>::empty() =~= before);
    }
    while i < bindings.len()
        invariant
            i <= bindings@.len(),
            all == crate::settings::edge_models(bindings@),
            all.len() == bindings@.len(),
            edge_arguments(all.subrange(0, i as int)) is Ok,
            crate::text::string_views(args@) == before + edge_arguments(
                all.subrange(0, i as int),
            )->Ok_0,
        decreases bindings@.len() - i,
    {
        let ghost shorter = edge_arguments(all.subrange(0, i as int))->Ok_0;
        proof {
            let longer = all.subrange(0, i + 1);
            assert(longer.drop_last() =~= all.subrange(0, i as int));
            assert(longer.last() == bindings@[i as int]@);
            lemma_failed_edge(all, (i + 1) as nat);
        }
        match format_edge_binding_arg(&bindings[i]) {
            Ok(argument) => {
                put(args, DAEMON_EDGE_BINDING_ARG);
                put(args, argument.as_str());
                proof {
                    assert(crate::text::string_views(args@) =~= before + (shorter + seq![
                        "--edge-binding"@,
                        argument@,
                    ]));
                }
            },
            Err(message) => return Err(message),
        }
        i = i + 1;
    }
    proof {
        assert(all.subrange(0, i as int) =~= all);
    }
    Ok(())
}

/// The arguments that the daemon is started with.
pub fn daemon_spawn_args_from(
    options: &DaemonStartOptions,
    capture_input: Option<&str>,
    identity_store_path: Option<&str>,
    crash_marker_path: Option<&str>,
) -> (result: Result<Vec<String>, String>)
    ensures
        ({
            let wanted = launch_arguments(
                options@,
                crate::cli::optional_str(capture_input),
                crate::cli::optional_str(identity_store_path),
                crate::cli::optional_str(crash_marker_path),
            );
            match result {
                Ok(args) => wanted == Ok::<Seq<Seq<char>>, Seq<char>>(
                    crate::text::string_views(args@),
                ),
                Err(message) => wanted == Err::<Seq<Seq<char>>, Seq<char>>(message@),
            }
        }),
{
    let mut args: Vec<String> = Vec::new();
    put(&mut args, DAEMON_SERVE_ARG);
    let ghost mut said = seq!["--serve"@];
    proof {
        assert(crate::text::string_views(args@) =~= said);
    }
    if let Some(path) = identity_store_path {
        put(&mut args, DAEMON_IDENTITY_STORE_ARG);
        put(&mut args, path);
        put(&mut args, DAEMON_IDENTITY_DISPLAY_NAME_ARG);
        put(&mut args, DAEMON_IDENTITY_DISPLAY_NAME);
    }
    proof {
        said = said + identity_arguments(crate::cli::optional_str(identity_store_path));
        assert(crate::text::string_views(args@) =~= said);
    }
    if let Some(path) = crash_marker_path {
        put(&mut args, DAEMON_CRASH_MARKER_ARG);
        put(&mut args, path);
    }
    proof {
        said = said + crash_arguments(crate::cli::optional_str(crash_marker_path));
        assert(crate::text::string_views(args@) =~= said);
    }
    let capture = match options.capture_input {
        Some(capture) => capture,
        None => daemon_capture_input_enabled_from(capture_input),
    };
    if capture {
        put(&mut args, DAEMON_CAPTURE_INPUT_ARG);
    }
    proof {
        said = said + capture_arguments(capture);
        assert(crate::text::string_views(args@) =~= said);
    }
    if let Some(address) = &options.peer_listen_address {
        let address = match normalize_optional_session_address(address.as_str()) {
            Ok(address) => address,
            Err(message) => return Err(message),
        };
        if !address.as_str().is_empty() {
            if identity_store_path.is_none() {
                return Err("peer listener requires an identity store.".to_owned());
            }
            put(&mut args, DAEMON_PEER_LISTEN_ARG);
            put(&mut args, address.as_str());
        }
    }
    proof {
        said = said + listen_arguments(
            options@.peer_listen_address,
            identity_store_path is Some,
        )->Ok_0;
        assert(crate::text::string_views(args@) =~= said);
    }
    match put_edges(&mut args, &options.edge_bindings) {
        Ok(_) => Ok(args),
        Err(message) => Err(message),
    }
}

/// The settings with which a start is tried out.
pub fn settings_start_smoke_settings() -> (result: AppSettings)
    ensures
        result.capture_input,
        result.peer_listen_address@ == "127.0.0.1:0"@,
        result@.edge_bindings == seq![
            EdgeModel {
                local_edge: DaemonScreenEdgeOption::Right,
                peer_id: "linux-laptop"@,
                remote_edge: DaemonScreenEdgeOption::Left,
            },
        ],
        result@.manual_peer_addresses == seq![
            crate::settings::ManualModel { peer_id: "linux-laptop"@, address: "127.0.0.1:4455"@ },
        ],
{
    let mut edge_bindings: Vec<DaemonEdgeBindingOption> = Vec::new();
    edge_bindings.push(
        DaemonEdgeBindingOption {
            local_edge: DaemonScreenEdgeOption::Right,
            peer_id: "linux-laptop".to_owned(),
            remote_edge: DaemonScreenEdgeOption::Left,
        },
    );
    let mut manual_peer_addresses: Vec<ManualPeerAddressSetting> = Vec::new();
    manual_peer_addresses.push(
        ManualPeerAddressSetting {
            peer_id: "linux-laptop".to_owned(),
            address: "127.0.0.1:4455".to_owned(),
        },
    );
    AppSettings {
        capture_input: true,
        peer_listen_address: "127.0.0.1:0".to_owned(),
        edge_bindings,
        manual_peer_addresses,
    }
}

/// The edge that the daemon knows under the same name.
pub open spec fn daemon_edge(edge: DaemonScreenEdgeOption) -> crate::runtime::ScreenEdge {
    match edge {
        DaemonScreenEdgeOption::Left => crate::runtime::ScreenEdge::Left,
        DaemonScreenEdgeOption::Right => crate::runtime::ScreenEdge::Right,
        DaemonScreenEdgeOption::Top => crate::runtime::ScreenEdge::Top,
        DaemonScreenEdgeOption::Bottom => crate::runtime::ScreenEdge::Bottom,
    }
}

/// The binding that the daemon makes of one of the application.
pub open spec fn daemon_binding(binding: EdgeModel) -> crate::cli::BindingModel {
    crate::cli::BindingModel {
        local_edge: daemon_edge(binding.local_edge),
        peer_id: crate::text::trim(binding.peer_id),
        remote_edge: daemon_edge(binding.remote_edge),
    }
}

/// The daemon reads an edge as it is spelled.
proof fn lemma_edge_reads_back(edge: DaemonScreenEdgeOption)
    ensures
        crate::cli::read_edge(edge.spelled()) == Ok::<
            crate::runtime::ScreenEdge,
            crate::cli::UsageModel,
        >(daemon_edge(edge)),
        !edge.spelled().contains(':'),
{
    reveal_strlit("left");
    reveal_strlit("right");
    reveal_strlit("top");
    reveal_strlit("bottom");
    let name = edge.spelled();
    crate::text::lemma_trimmed(name);
    assert(crate::text::lowercase(name) =~= name);
    assert("left"@[0] != "right"@[0]);
    assert("left"@[0] != "top"@[0]);
    assert("left"@[0] != "bottom"@[0]);
    assert("right"@[0] != "top"@[0]);
    assert("right"@[0] != "bottom"@[0]);
    assert("top"@[0] != "bottom"@[0]);
}

/// The daemon reads a binding as the application writes it.
proof fn lemma_binding_reads_back(binding: EdgeModel)
    ensures
        edge_argument(binding) matches Ok(argument) ==> crate::cli::read_binding(argument) == Ok::<
            crate::cli::BindingModel,
            crate::cli::UsageModel,
        >(daemon_binding(binding)),
{
    if edge_argument(binding) is Ok {
        let local = binding.local_edge.spelled();
        let remote = binding.remote_edge.spelled();
        let peer_id = crate::settings::edge_peer(binding.peer_id)->Ok_0;
        reveal_strlit(":");
        assert(":"@ =~= seq![':']);
        lemma_edge_reads_back(binding.local_edge);
        lemma_edge_reads_back(binding.remote_edge);
        crate::text::lemma_trim_idempotent(binding.peer_id);
        crate::text::lemma_first_position(local, ':');
        assert(crate::text::pieces(local, ':') =~= seq![local]);
        crate::text::lemma_one_more_piece(local, ':', peer_id);
        crate::text::lemma_one_more_piece(local + seq![':'] + peer_id, ':', remote);
        assert(seq![local].push(peer_id).push(remote) =~= seq![local, peer_id, remote]);
    }
}

/// An option whose value follows it.
proof fn lemma_option(
    options: crate::cli::OptionsModel,
    option: crate::cli::ValuedOption,
    value: Seq<char>,
    rest: Seq<Seq<char>>,
)
    ensures
        crate::cli::read_options(options, seq![crate::cli::option_name(option), value] + rest) == (
        match crate::cli::with_value(options, option, value) {
            Ok(more) => crate::cli::read_options(more, rest),
            Err(error) => Err(error),
        }),
{
    crate::cli::lemma_names(option, value);
    let args = seq![crate::cli::option_name(option), value] + rest;
    assert(args.drop_first() =~= seq![value] + rest);
    assert(args.drop_first().drop_first() =~= rest);
}

/// The daemon reads bindings as the application writes them.
proof fn lemma_bindings_read_back(
    options: crate::cli::OptionsModel,
    bindings: Seq<EdgeModel>,
    rest: Seq<Seq<char>>,
)
    requires
        edge_arguments(bindings) is Ok,
    ensures
        crate::cli::read_options(options, edge_arguments(bindings)->Ok_0 + rest)
            == crate::cli::read_options(
            crate::cli::OptionsModel {
                edge_bindings: options.edge_bindings + bindings.map_values(
                    |binding: EdgeModel| daemon_binding(binding),
                ),
                ..options
            },
            rest,
        ),
    decreases bindings.len(),
{
    let read = bindings.map_values(|binding: EdgeModel| daemon_binding(binding));
    if bindings.len() == 0 {
        assert(options.edge_bindings + read =~= options.edge_bindings);
        assert(edge_arguments(bindings)->Ok_0 + rest =~= rest);
    } else {
        let shorter = bindings.drop_last();
        let first = shorter.map_values(|binding: EdgeModel| daemon_binding(binding));
        let argument = edge_argument(bindings.last())->Ok_0;
        let last = seq!["--edge-binding"@, argument];
        let with_first = crate::cli::OptionsModel {
            edge_bindings: options.edge_bindings + first,
            ..options
        };
        lemma_bindings_read_back(options, shorter, last + rest);
        assert(edge_arguments(bindings)->Ok_0 + rest =~= edge_arguments(shorter)->Ok_0 + (last
            + rest));
        lemma_binding_reads_back(bindings.last());
        lemma_option(with_first, crate::cli::ValuedOption::EdgeBinding, argument, rest);
        assert(with_first.edge_bindings.push(daemon_binding(bindings.last())) =~= options.edge_bindings
            + read);
    }
}

/// What the daemon makes of a start that the application asks for.
pub open spec fn started_with(
    options: StartModel,
    environment: Option<Seq<char>>,
    identity_store_path: Option<Seq<char>>,
) -> crate::cli::OptionsModel {
    crate::cli::OptionsModel {
        capture_input: captures(options, environment),
        edge_bindings: options.edge_bindings.map_values(
            |binding: EdgeModel| daemon_binding(binding),
        ),
        peer_listen: match options.peer_listen_address {
            Some(address) => crate::address::read_socket(crate::text::trim(address)),
            None => None,
        },
        identity_store: match identity_store_path {
            Some(path) => Some(crate::text::trim(path)),
            None => None,
        },
        identity_display_name: match identity_store_path {
            Some(_) => Some(DAEMON_IDENTITY_DISPLAY_NAME@),
            None => None,
        },
        ..crate::cli::no_options()
    }
}

/// The daemon understands what the application starts it with: it reads the same capture, the same
/// listener, the same bindings and the same identity back from the arguments.
pub proof fn daemon_understands_the_application(
    options: StartModel,
    environment: Option<Seq<char>>,
    identity_store_path: Option<Seq<char>>,
)
    requires
        launch_arguments(options, environment, identity_store_path, None) is Ok,
        identity_store_path matches Some(path) ==> crate::text::trim(path).len() > 0,
    ensures
        crate::cli::read_command(
            launch_arguments(options, environment, identity_store_path, None)->Ok_0,
        ) == Ok::<crate::cli::CommandModel, crate::cli::UsageModel>(
            crate::cli::CommandModel::Serve(
                started_with(options, environment, identity_store_path),
            ),
        ),
{
    let args = launch_arguments(options, environment, identity_store_path, None)->Ok_0;
    let identity = identity_arguments(identity_store_path);
    let capture = capture_arguments(captures(options, environment));
    let listen = listen_arguments(options.peer_listen_address, identity_store_path is Some)->Ok_0;
    let edges = edge_arguments(options.edge_bindings)->Ok_0;
    lemma_behind_the_first("--serve"@, identity, capture, listen, edges);
    lemma_serve_is_the_command(args);
    lemma_options_read_back(options, environment, identity_store_path);
}

/// What stands behind the first of some arguments.
proof fn lemma_behind_the_first<A>(first: A, a: Seq<A>, b: Seq<A>, c: Seq<A>, d: Seq<A>)
    ensures
        ({
            let all = seq![first] + a + Seq::empty() + b + c + d;
            &&& all.len() > 0
            &&& all[0] == first
            &&& all.drop_first() == a + (b + (c + (d + Seq::empty())))
        }),
{
    let all = seq![first] + a + Seq::empty() + b + c + d;
    assert(all.drop_first() =~= a + (b + (c + (d + Seq::empty()))));
}

/// The daemon reads back each option that it is started with.
#[verifier::spinoff_prover]
proof fn lemma_options_read_back(
    options: StartModel,
    environment: Option<Seq<char>>,
    identity_store_path: Option<Seq<char>>,
)
    requires
        listen_arguments(options.peer_listen_address, identity_store_path is Some) is Ok,
        edge_arguments(options.edge_bindings) is Ok,
        identity_store_path matches Some(path) ==> crate::text::trim(path).len() > 0,
    ensures
        crate::cli::read_options(
            crate::cli::no_options(),
            identity_arguments(identity_store_path) + (capture_arguments(
                captures(options, environment),
            ) + (listen_arguments(options.peer_listen_address, identity_store_path is Some)->Ok_0
                + (edge_arguments(options.edge_bindings)->Ok_0 + Seq::<Seq<char>>::empty()))),
        ) == Ok::<crate::cli::OptionsModel, crate::cli::UsageModel>(
            started_with(options, environment, identity_store_path),
        ),
{
    let none = Seq::<Seq<char>>::empty();
    let behind_listen = edge_arguments(options.edge_bindings)->Ok_0 + none;
    let behind_capture = listen_arguments(
        options.peer_listen_address,
        identity_store_path is Some,
    )->Ok_0 + behind_listen;
    let behind_identity = capture_arguments(captures(options, environment)) + behind_capture;
    let start = crate::cli::no_options();
    let end = started_with(options, environment, identity_store_path);
    let with_identity = crate::cli::OptionsModel {
        identity_store: end.identity_store,
        identity_display_name: end.identity_display_name,
        ..start
    };
    let with_capture = crate::cli::OptionsModel {
        capture_input: captures(options, environment),
        ..with_identity
    };
    let with_listen = crate::cli::OptionsModel { peer_listen: end.peer_listen, ..with_capture };
    assert(start.edge_bindings + end.edge_bindings =~= end.edge_bindings);
    lemma_bindings_read_back(with_listen, options.edge_bindings, none);
    assert(crate::cli::read_options(with_listen, behind_listen) == crate::cli::read_options(
        end,
        none,
    ));
    lemma_listen_reads_back(
        with_capture,
        options.peer_listen_address,
        identity_store_path is Some,
        behind_listen,
    );
    lemma_capture_reads_back(with_identity, captures(options, environment), behind_capture);
    lemma_identity_reads_back(start, identity_store_path, behind_identity);
}

/// The first argument alone decides that the daemon serves.
proof fn lemma_serve_is_the_command(args: Seq<Seq<char>>)
    requires
        args.len() > 0,
        args[0] == "--serve"@,
    ensures
        crate::cli::read_command(args) == crate::cli::read_serve(args.drop_first()),
{
    reveal_strlit("--serve");
    reveal_strlit("--version");
    reveal_strlit("-V");
    reveal_strlit("--status");
    reveal_strlit("--akraz-smoke-loopback-transport");
    reveal_strlit("--akraz-smoke-tcp-transport");
    reveal_strlit("--akraz-smoke-peer-session");
    reveal_strlit("--akraz-smoke-peer-session-executor");
    let first = args[0];
    assert(first[2] == 's' && first[3] == 'e' && first.len() == 7);
    assert("--status"@[3] == 't');
    assert("--version"@[2] == 'v');
    assert("--akraz-smoke-loopback-transport"@[2] == 'a');
    assert("--akraz-smoke-tcp-transport"@[2] == 'a');
    assert("--akraz-smoke-peer-session"@[2] == 'a');
    assert("--akraz-smoke-peer-session-executor"@[2] == 'a');
}

/// The daemon reads where its identity is kept.
proof fn lemma_identity_reads_back(
    options: crate::cli::OptionsModel,
    path: Option<Seq<char>>,
    rest: Seq<Seq<char>>,
)
    requires
        path matches Some(path) ==> crate::text::trim(path).len() > 0,
        options.identity_store is None,
        options.identity_display_name is None,
    ensures
        crate::cli::read_options(options, identity_arguments(path) + rest)
            == crate::cli::read_options(
            crate::cli::OptionsModel {
                identity_store: match path {
                    Some(path) => Some(crate::text::trim(path)),
                    None => None,
                },
                identity_display_name: match path {
                    Some(_) => Some(DAEMON_IDENTITY_DISPLAY_NAME@),
                    None => None,
                },
                ..options
            },
            rest,
        ),
{
    match path {
        None => {
            assert(identity_arguments(path) + rest =~= rest);
        },
        Some(path) => {
            let name = DAEMON_IDENTITY_DISPLAY_NAME@;
            reveal_strlit("Akraz Desktop");
            crate::text::lemma_trimmed(name);
            let behind = seq!["--identity-display-name"@, name] + rest;
            assert(identity_arguments(Some(path)) + rest =~= seq!["--identity-store"@, path]
                + behind);
            lemma_option(options, crate::cli::ValuedOption::IdentityStore, path, behind);
            let more = crate::cli::OptionsModel {
                identity_store: Some(crate::text::trim(path)),
                ..options
            };
            lemma_option(more, crate::cli::ValuedOption::IdentityDisplayName, name, rest);
        },
    }
}

/// The daemon reads whether it captures the input.
proof fn lemma_capture_reads_back(
    options: crate::cli::OptionsModel,
    capture_input: bool,
    rest: Seq<Seq<char>>,
)
    requires
        !options.capture_input,
    ensures
        crate::cli::read_options(options, capture_arguments(capture_input) + rest)
            == crate::cli::read_options(
            crate::cli::OptionsModel { capture_input, ..options },
            rest,
        ),
{
    let args = capture_arguments(capture_input) + rest;
    if capture_input {
        reveal_strlit("--once");
        reveal_strlit("--capture-input");
        assert("--once"@.len() != "--capture-input"@.len());
        assert(args.drop_first() =~= rest);
    } else {
        assert(args =~= rest);
    }
}

/// The daemon reads where it listens.
proof fn lemma_listen_reads_back(
    options: crate::cli::OptionsModel,
    address: Option<Seq<char>>,
    has_identity: bool,
    rest: Seq<Seq<char>>,
)
    requires
        options.peer_listen is None,
        listen_arguments(address, has_identity) is Ok,
    ensures
        crate::cli::read_options(options, listen_arguments(address, has_identity)->Ok_0 + rest)
            == crate::cli::read_options(
            crate::cli::OptionsModel {
                peer_listen: match address {
                    Some(address) => crate::address::read_socket(crate::text::trim(address)),
                    None => None,
                },
                ..options
            },
            rest,
        ),
{
    let args = listen_arguments(address, has_identity)->Ok_0;
    match address {
        None => {
            assert(args + rest =~= rest);
        },
        Some(text) => {
            let trimmed = crate::text::trim(text);
            crate::text::lemma_trim_idempotent(text);
            if trimmed.len() == 0 {
                assert(args + rest =~= rest);
                assert(crate::address::read_socket(trimmed) is None);
            } else {
                lemma_option(options, crate::cli::ValuedOption::PeerListen, trimmed, rest);
            }
        },
    }
}

/// The daemon is started with the settings: input is captured just where they say so, the bindings are
/// theirs, one for one, and it listens where they say, if they say anything.
pub proof fn settings_say_how_the_daemon_starts(settings: AppSettings, options: DaemonStartOptions)
    requires
        call_ensures(
            <DaemonStartOptions as core::convert::From<AppSettings>>::from,
            (settings,),
            options,
        ),
    ensures
        options.capture_input == Some(settings.capture_input),
        options.edge_bindings@.len() == settings.edge_bindings@.len(),
        forall|i: int|
            0 <= i < settings.edge_bindings@.len() ==> (#[trigger] options.edge_bindings@[i])@
                == settings.edge_bindings@[i]@,
        options.peer_listen_address matches Some(address) ==> crate::text::is_without_space_around(
            settings.peer_listen_address@,
            address@,
        ) && address@.len() > 0,
        options.peer_listen_address is None <==> forall|k: int|
            0 <= k < settings.peer_listen_address@.len() ==> crate::text::is_whitespace(
                #[trigger] settings.peer_listen_address@[k],
            ),
{
    crate::text::trimming_takes_off_space_only(settings.peer_listen_address@);
    let started = crate::settings::edge_models(options.edge_bindings@);
    let kept = crate::settings::edge_models(settings.edge_bindings@);
    assert(started == kept);
    assert(started.len() == options.edge_bindings@.len());
    assert(kept.len() == settings.edge_bindings@.len());
    assert forall|i: int| 0 <= i < settings.edge_bindings@.len() implies (
    #[trigger] options.edge_bindings@[i])@ == settings.edge_bindings@[i]@ by {
        assert(started[i] == options.edge_bindings@[i]@);
        assert(kept[i] == settings.edge_bindings@[i]@);
    }
}

/// The environment asks for input to be captured by one of four words, in any case and with space around
/// it; the options count before it.
pub proof fn capture_is_asked_for_by_a_word(
    value: Seq<char>,
    word: Seq<char>,
    options: StartModel,
    environment: Option<Seq<char>>,
)
    requires
        crate::text::is_without_space_around(value, word),
        word == crate::text::trim(value),
    ensures
        capture_asked(Some(value)) <==> crate::text::lowercase(word) == "1"@
            || crate::text::lowercase(word) == "true"@ || crate::text::lowercase(word) == "yes"@
            || crate::text::lowercase(word) == "on"@,
        !capture_asked(None),
        options.capture_input matches Some(capture) ==> captures(options, environment) == capture,
        options.capture_input is None ==> captures(options, environment) == capture_asked(
            environment,
        ),
{
}

/// The arguments of the daemon tell it all that was asked, in order: to serve, its identity under the name
/// of the application, where to leave word of a crash, whether to capture input, where to listen, and
/// each binding, edge, peer and edge.
pub proof fn arguments_tell_what_was_asked(
    options: StartModel,
    environment: Option<Seq<char>>,
    identity: Option<Seq<char>>,
    crash: Option<Seq<char>>,
)
    requires
        launch_arguments(options, environment, identity, crash) is Ok,
    ensures
        ({
            let args = launch_arguments(options, environment, identity, crash)->Ok_0;
            let crashes: int = if identity is Some {
                5
            } else {
                1
            };
            let captured: int = crashes + (if crash is Some {
                2int
            } else {
                0
            });
            let listens: int = captured + (if captures(options, environment) {
                1int
            } else {
                0
            });
            let listening = options.peer_listen_address is Some && crate::text::trim(
                options.peer_listen_address->Some_0,
            ).len() > 0;
            let edges: int = listens + (if listening {
                2int
            } else {
                0
            });
            &&& args[0] == "--serve"@
            &&& identity matches Some(path) ==> args[1] == "--identity-store"@ && args[2] == path
                && args[3] == "--identity-display-name"@ && args[4] == "Akraz Desktop"@
            &&& crash matches Some(path) ==> args[crashes] == "--crash-marker"@ && args[crashes + 1]
                == path
            &&& captures(options, environment) ==> args[captured] == "--capture-input"@
            &&& listening ==> identity is Some && args[listens] == "--peer-listen"@
                && crate::text::is_without_space_around(
                options.peer_listen_address->Some_0,
                args[listens + 1],
            ) && crate::address::read_socket(args[listens + 1]) is Some
            &&& args.len() == edges + 2 * options.edge_bindings.len()
            &&& forall|i: int|
                0 <= i < options.edge_bindings.len() ==> args[edges + 2 * i] == "--edge-binding"@
                    && args[edges + 2 * i + 1] == (
                #[trigger] options.edge_bindings[i]).local_edge.spelled() + ":"@
                    + crate::text::trim(options.edge_bindings[i].peer_id) + ":"@
                    + options.edge_bindings[i].remote_edge.spelled()
        }),
{
    let args = launch_arguments(options, environment, identity, crash)->Ok_0;
    let listen = listen_arguments(options.peer_listen_address, identity is Some)->Ok_0;
    let edges = edge_arguments(options.edge_bindings)->Ok_0;
    let head = seq!["--serve"@] + identity_arguments(identity) + crash_arguments(crash)
        + capture_arguments(captures(options, environment)) + listen;
    assert(args =~= head + edges);
    if options.peer_listen_address is Some {
        crate::text::trimming_takes_off_space_only(options.peer_listen_address->Some_0);
        crate::text::lemma_trim_idempotent(options.peer_listen_address->Some_0);
    }
    lemma_edge_arguments(options.edge_bindings);
    assert forall|i: int| 0 <= i < options.edge_bindings.len() implies args[head.len() + 2 * i]
        == "--edge-binding"@ && args[head.len() + 2 * i + 1] == (
    #[trigger] options.edge_bindings[i]).local_edge.spelled() + ":"@ + crate::text::trim(
        options.edge_bindings[i].peer_id,
    ) + ":"@ + options.edge_bindings[i].remote_edge.spelled() by {
        assert(args[head.len() + 2 * i] == edges[2 * i]);
        assert(args[head.len() + 2 * i + 1] == edges[2 * i + 1]);
    }
}

proof fn lemma_edge_arguments(bindings: Seq<EdgeModel>)
    requires
        edge_arguments(bindings) is Ok,
    ensures
        edge_arguments(bindings)->Ok_0.len() == 2 * bindings.len(),
        forall|i: int|
            0 <= i < bindings.len() ==> edge_arguments(bindings)->Ok_0[2 * i] == "--edge-binding"@
                && edge_arguments(bindings)->Ok_0[2 * i + 1] == (
            #[trigger] bindings[i]).local_edge.spelled() + ":"@ + crate::text::trim(
                bindings[i].peer_id,
            ) + ":"@ + bindings[i].remote_edge.spelled(),
    decreases bindings.len(),
{
    if bindings.len() > 0 {
        let shorter = bindings.drop_last();
        lemma_edge_arguments(shorter);
        let all = edge_arguments(bindings)->Ok_0;
        let earlier = edge_arguments(shorter)->Ok_0;
        assert forall|i: int| 0 <= i < bindings.len() implies all[2 * i] == "--edge-binding"@ && all[
        2 * i + 1] == (#[trigger] bindings[i]).local_edge.spelled() + ":"@ + crate::text::trim(
            bindings[i].peer_id,
        ) + ":"@ + bindings[i].remote_edge.spelled() by {
            if i < shorter.len() {
                assert(shorter[i] == bindings[i]);
                assert(all[2 * i] == earlier[2 * i]);
                assert(all[2 * i + 1] == earlier[2 * i + 1]);
            }
        }
    }
}

/// The daemon that the application starts captures input, listens and binds its edges as it was told, each
/// edge to the same side.
pub proof fn a_started_daemon_does_what_was_asked(
    options: StartModel,
    environment: Option<Seq<char>>,
    identity: Option<Seq<char>>,
)
    requires
        launch_arguments(options, environment, identity, None) is Ok,
        identity matches Some(path) ==> crate::text::trim(path).len() > 0,
    ensures
        ({
            let command = crate::cli::read_command(
                launch_arguments(options, environment, identity, None)->Ok_0,
            );
            &&& command is Ok
            &&& command->Ok_0 is Serve
            &&& command->Ok_0->Serve_0.capture_input == captures(options, environment)
            &&& !command->Ok_0->Serve_0.once
            &&& command->Ok_0->Serve_0.peer_session is None
            &&& command->Ok_0->Serve_0.edge_bindings.len() == options.edge_bindings.len()
            &&& forall|i: int|
                0 <= i < options.edge_bindings.len() ==> is_same_side(
                    options.edge_bindings[i].local_edge,
                    (#[trigger] command->Ok_0->Serve_0.edge_bindings[i]).local_edge,
                ) && is_same_side(
                    options.edge_bindings[i].remote_edge,
                    command->Ok_0->Serve_0.edge_bindings[i].remote_edge,
                ) && crate::text::is_without_space_around(
                    options.edge_bindings[i].peer_id,
                    command->Ok_0->Serve_0.edge_bindings[i].peer_id,
                )
            &&& identity is Some <==> command->Ok_0->Serve_0.identity_store is Some
        }),
{
    daemon_understands_the_application(options, environment, identity);
    let served = started_with(options, environment, identity);
    assert forall|i: int| 0 <= i < options.edge_bindings.len() implies is_same_side(
        options.edge_bindings[i].local_edge,
        (#[trigger] served.edge_bindings[i]).local_edge,
    ) && is_same_side(
        options.edge_bindings[i].remote_edge,
        served.edge_bindings[i].remote_edge,
    ) && crate::text::is_without_space_around(
        options.edge_bindings[i].peer_id,
        served.edge_bindings[i].peer_id,
    ) by {
        crate::text::trimming_takes_off_space_only(options.edge_bindings[i].peer_id);
    }
}

/// Whether an edge of the settings and one of the desktop are the same side.
pub open spec fn is_same_side(
    edge: DaemonScreenEdgeOption,
    side: crate::runtime::ScreenEdge,
) -> bool {
    &&& edge is Left <==> side is Left
    &&& edge is Right <==> side is Right
    &&& edge is Top <==> side is Top
    &&& edge is Bottom <==> side is Bottom
}

/// The application shows its window unless it is told to try the daemon out.
pub proof fn a_window_is_shown_by_default(args: &Vec<String>, result: AppCommand)
    requires
        call_ensures(choose_app_command, (args,), result),
    ensures
        ({
            let words = crate::text::string_views(args@);
            let settings = words.contains("--akraz-smoke-settings-start"@);
            let lifecycle = words.contains("--akraz-smoke-daemon-lifecycle"@);
            &&& result is SettingsStartSmoke <==> settings
            &&& result is LifecycleSmoke <==> !settings && lifecycle
            &&& result is Window <==> !settings && !lifecycle
        }),
{
}

/// The daemon takes the arguments that the application gives it for what the application was asked: it
/// serves, captures input, and binds the same edges to the same peers, in order.
pub proof fn the_daemon_takes_its_arguments_as_they_were_meant(
    options: &DaemonStartOptions,
    capture_input: Option<&str>,
    identity_store_path: Option<&str>,
    args: Vec<String>,
    command: Result<crate::cli::DaemonCommand, crate::cli::DaemonUsageError>,
)
    requires
        identity_store_path matches Some(path) ==> crate::text::trim(path@).len() > 0,
        call_ensures(
            daemon_spawn_args_from,
            (options, capture_input, identity_store_path, None::<&str>),
            Ok::<Vec<String>, String>(args),
        ),
        call_ensures(crate::cli::parse_daemon_command, (&args,), command),
    ensures
        command is Ok,
        command->Ok_0 is Serve,
        ({
            let served = command->Ok_0->Serve_0;
            &&& options.capture_input matches Some(capture) ==> served.capture_input == capture
            &&& !served.once
            &&& served.peer_session is None
            &&& served.identity_store is Some <==> identity_store_path is Some
            &&& served.edge_bindings@.len() == options.edge_bindings@.len()
            &&& forall|i: int|
                0 <= i < options.edge_bindings@.len() ==> is_same_side(
                    (#[trigger] options.edge_bindings@[i]).local_edge,
                    served.edge_bindings@[i].local_edge,
                ) && is_same_side(
                    options.edge_bindings@[i].remote_edge,
                    served.edge_bindings@[i].remote_edge,
                ) && crate::text::is_without_space_around(
                    options.edge_bindings@[i].peer_id@,
                    served.edge_bindings@[i].peer_id.value@,
                )
        }),
{
    let environment = crate::cli::optional_str(capture_input);
    let identity = crate::cli::optional_str(identity_store_path);
    a_started_daemon_does_what_was_asked(options@, environment, identity);
    let asked = launch_arguments(options@, environment, identity, None)->Ok_0;
    assert(asked == crate::text::string_views(args@));
    assert(crate::cli::read_command(asked) is Ok);
    let served = command->Ok_0->Serve_0;
    crate::cli::options_say_what_they_hold(served);
    let model = crate::cli::read_command(asked)->Ok_0->Serve_0;
    assert(model == served@);
    assert(options@.edge_bindings.len() == options.edge_bindings@.len());
    assert forall|i: int| 0 <= i < options.edge_bindings@.len() implies is_same_side(
        (#[trigger] options.edge_bindings@[i]).local_edge,
        served.edge_bindings@[i].local_edge,
    ) && is_same_side(
        options.edge_bindings@[i].remote_edge,
        served.edge_bindings@[i].remote_edge,
    ) && crate::text::is_without_space_around(
        options.edge_bindings@[i].peer_id@,
        served.edge_bindings@[i].peer_id.value@,
    ) by {
        assert(options@.edge_bindings[i] == options.edge_bindings@[i]@);
        assert(model.edge_bindings[i] == served@.edge_bindings[i]);
    }
}

/// The word for a side of the screen.
pub open spec fn side_word(edge: DaemonScreenEdgeOption) -> Seq<char> {
    match edge {
        DaemonScreenEdgeOption::Left => "left"@,
        DaemonScreenEdgeOption::Right => "right"@,
        DaemonScreenEdgeOption::Top => "top"@,
        DaemonScreenEdgeOption::Bottom => "bottom"@,
    }
}

/// A binding is written as its own edge, its peer without the space around it, and the edge of the
/// peer.
pub proof fn a_binding_is_written_part_by_part(
    binding: &DaemonEdgeBindingOption,
    result: Result<String, String>,
    peer: Seq<char>,
)
    requires
        call_ensures(format_edge_binding_arg, (binding,), result),
        peer == crate::text::trim(binding.peer_id@),
    ensures
        result matches Ok(argument) ==> argument@ == side_word(binding.local_edge) + ":"@ + peer
            + ":"@ + side_word(binding.remote_edge) && crate::text::is_without_space_around(
            binding.peer_id@,
            peer,
        ),
        result is Ok ==> peer.len() > 0,
{
    crate::text::trimming_takes_off_space_only(binding.peer_id@);
}

/// What is read from the environment is taken as it is meant: a path that is there, a text without the
/// space around it, and capture where it is asked for by a word.
pub proof fn the_environment_is_taken_as_it_is_meant(
    path: Option<String>,
    executable: Option<String>,
    value: &str,
    said_value: Option<String>,
    capture: Option<&str>,
    captured: bool,
    args: &Vec<String>,
    expected: &str,
    found: bool,
)
    requires
        call_ensures(resolve_env_daemon_executable_from, (path,), executable),
        call_ensures(non_empty_string, (value,), said_value),
        call_ensures(daemon_capture_input_enabled_from, (capture,), captured),
        call_ensures(has_exact_arg, (args, expected), found),
    ensures
        executable is Some ==> executable == path && executable->Some_0@.len() > 0,
        executable is None ==> path is None || path->Some_0@.len() == 0,
        said_value matches Some(text) ==> crate::text::is_without_space_around(value@, text@)
            && text@.len() > 0,
        said_value is None <==> forall|k: int|
            0 <= k < value@.len() ==> crate::text::is_whitespace(#[trigger] value@[k]),
        capture is None ==> !captured,
        capture is Some ==> captured == (is_yes(
            crate::text::lowercase(crate::text::trim(capture->Some_0@)),
        )),
        found <==> exists|i: int| 0 <= i < args@.len() && (#[trigger] args@[i])@ == expected@,
{
    crate::text::trimming_takes_off_space_only(value@);
    let words = crate::text::string_views(args@);
    assert(words.len() == args@.len());
    if found {
        let i = choose|i: int| 0 <= i < words.len() && words[i] == expected@;
        assert(args@[i]@ == expected@);
    }
    if exists|i: int| 0 <= i < args@.len() && (#[trigger] args@[i])@ == expected@ {
        let i = choose|i: int| 0 <= i < args@.len() && (#[trigger] args@[i])@ == expected@;
        assert(words[i] == expected@);
    }
}

/// Whether a word says yes.
pub open spec fn is_yes(word: Seq<char>) -> bool {
    word == "1"@ || word == "true"@ || word == "yes"@ || word == "on"@
}

} // verus!
