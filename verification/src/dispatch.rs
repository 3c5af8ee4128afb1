//! The command dispatcher: a total mapping from every decoded guest command
//! to the effects the host must carry out. Effects are returned as plain
//! values; the surrounding process performs them (routes actions, sends
//! instructions, writes guest replies, spawns processes, starts timers,
//! emits log lines).

use vstd::bytes::spec_u32_to_le_bytes;
use vstd::bytes::u32_to_le_bytes;
use vstd::prelude::*;
use vstd::slice::slice_to_vec;
use vstd::utf8::encode_utf8;

use crate::action::Action;
use crate::action::FloatingPaneLayout;
use crate::action::Layout;
use crate::action::LayoutTab;
use crate::action::RunCommandAction;
use crate::action::RunPlugin;
use crate::action::SwapFloatingLayout;
use crate::action::SwapTiledLayout;
use crate::action::TerminalAction;
use crate::action::TiledPaneLayout;
use crate::action::parse_plugin_location;
use crate::action::parse_url;
use crate::action::spec_parse_location;
use crate::action::url_norm_of;
use crate::codec::DecodeError;
use crate::codec::decode_command;
use crate::codec::sd_command;
use crate::data::Event;
use crate::data::EventType;
use crate::data::PluginCommand;
use crate::data::PluginIds;
use crate::data::strings_view;
use crate::subscriptions::Subscriptions;
use crate::subscriptions::set_of;

verus! {

/// Where a plugin instance runs: inside a pane of some tab, inside a pane
/// not yet placed, or headless.
#[derive(Clone, Copy, Debug, PartialEq, Eq, Structural)]
pub enum PluginType {
    Pane(Option<u64>),
    Headless,
}

/// The capability context of one plugin instance: identity, permissions and
/// defaults, fixed at instantiation and only read here.
#[derive(Clone, Debug)]
pub struct PluginEnv {
    /// Unique, stable id of the plugin instance.
    pub plugin_id: u32,
    /// The client session that owns the instance.
    pub client_id: u16,
    /// Human-readable name, for diagnostics.
    pub name: String,
    /// Whether the plugin may run commands on the host.
    pub allow_exec_host_cmd: bool,
    /// The host's process id, reported to the guest on request.
    pub host_pid: u32,
    /// The host's working directory, for resolving relative plugin paths.
    pub cwd: String,
    /// How the instance is placed.
    pub plugin_type: PluginType,
    /// The host's default shell, if one is configured.
    pub default_shell: Option<TerminalAction>,
}

/// A pane, by kind and id.
#[derive(Clone, Copy, Debug, PartialEq, Eq, Structural)]
pub enum PaneId {
    Terminal(u32),
    Plugin(u32),
}

/// An instruction sent directly to the host's screen subsystem.
#[derive(Clone, Debug, PartialEq, Eq)]
pub enum ScreenInstruction {
    SetSelectable(PaneId, bool, u64),
    GoToTab(u32, Option<u16>),
    SuppressPane(PaneId, u16),
}

/// An instruction sent directly on the host's plugin-management channel,
/// bypassing the action layer.
#[derive(Clone, Debug, PartialEq, Eq)]
pub enum PluginInstruction {
    /// A plugin subscribed to these event kinds.
    PluginSubscribedToEvents(u32, u16, Vec<EventType>),
    /// Deliver messages to a named worker of a plugin.
    PostMessagesToPluginWorker(u32, u16, String, Vec<(String, String)>),
    /// Deliver a message to a plugin itself.
    PostMessageToPlugin(u32, u16, String, String),
    /// Push events to plugins: (plugin id or all, client id or all, event).
    Update(Vec<(Option<u32>, Option<u16>, Event)>),
    /// A plugin crashed with the given diagnostic text.
    CrashReport(u32, String),
}

/// Severity of a diagnostic the host should log.
#[derive(Clone, Copy, Debug, PartialEq, Eq, Structural)]
pub enum LogLevel {
    Debug,
    Warn,
    Error,
}

/// A structured diagnostic; the surrounding process renders and logs it.
#[derive(Clone, Debug, PartialEq, Eq)]
pub enum LogMessage {
    /// A command execution request was refused by the capability gate.
    ExecDenied(String, Vec<String>),
    /// A command execution request carried no command at all.
    ExecCmdEmpty,
    /// Selectability only means something for pane-hosted plugins.
    SelectableIgnored,
    /// The guest's byte buffer did not decode as a command.
    DecodeFailed(DecodeError),
    /// A worker message named no worker.
    WorkerNameMissing,
    /// A plugin message named a worker, which only worker messages may.
    WorkerNameUnexpected(String),
    /// A plugin URL did not parse.
    UrlInvalid(String),
    /// A plugin URL parsed, but named no known location scheme.
    LocationInvalid(String),
    /// The guest reported a panic with this diagnostic text.
    PluginPanic(String),
}

/// One effect of dispatching a command: what the host must now do.
#[derive(Clone, Debug, PartialEq, Eq)]
pub enum Effect {
    /// Hand this action to the action router, for the calling client.
    Forward(Action),
    /// Send this instruction on the plugin-management channel.
    Instr(PluginInstruction),
    /// Send this instruction to the screen subsystem.
    Screen(ScreenInstruction),
    /// Write these bytes back to the guest, framed by the channel adapter.
    GuestReply(Vec<u8>),
    /// Spawn this host command, detached, and do not wait for it.
    Spawn(String, Vec<String>),
    /// After this many milliseconds, deliver a timer event to the plugin.
    StartTimer(u64),
    /// Hand this layout text to the layout parser, then dispatch the parsed
    /// layout through `open_layout_tabs`.
    ParseLayout(String),
    /// Log a diagnostic.
    Log(LogLevel, LogMessage),
}

// ---------------------------------------------------------------------------
// Replies the guest can query synchronously.
// ---------------------------------------------------------------------------

/// The version string this host reports to its plugins.
pub open spec fn host_version_chars() -> Seq<char> {
    "0.37.2"@
}

/// The version string this host reports to its plugins.
pub fn host_version() -> (r: &'static str)
    ensures
        r@ == host_version_chars(),
{
    "0.37.2"
}

/// Spec-level encoding of an identity reply: both ids, little-endian.
pub open spec fn spec_encode_plugin_ids(ids: PluginIds) -> Seq<u8> {
    spec_u32_to_le_bytes(ids.plugin_id) + spec_u32_to_le_bytes(ids.host_pid)
}

/// Serialize an identity reply.
pub fn encode_plugin_ids(ids: &PluginIds) -> (r: Vec<u8>)
    ensures
        r@ == spec_encode_plugin_ids(*ids),
{
    let mut out = u32_to_le_bytes(ids.plugin_id);
    let mut pid = u32_to_le_bytes(ids.host_pid);
    out.append(&mut pid);
    out
}

/// Serialize a version reply: the version text's UTF-8 bytes.
pub fn encode_version_reply() -> (r: Vec<u8>)
    ensures
        r@ == encode_utf8(host_version_chars()),
{
    slice_to_vec(host_version().as_bytes())
}

// ---------------------------------------------------------------------------
// The timer event.
// ---------------------------------------------------------------------------

/// The update instruction a fired timer sends: one timer event, carrying the
/// measured elapsed milliseconds, addressed to exactly the plugin instance
/// and client that asked for the timeout.
pub fn timer_update(plugin_id: u32, client_id: u16, elapsed_ms: u64) -> (r: PluginInstruction)
    ensures
        r matches PluginInstruction::Update(v) && v@.len() == 1 && v@[0] == (
            Some(plugin_id),
            Some(client_id),
            Event::Timer(elapsed_ms),
        ),
{
    let mut v: Vec<(Option<u32>, Option<u16>, Event)> = Vec::new();
    v.push((Some(plugin_id), Some(client_id), Event::Timer(elapsed_ms)));
    PluginInstruction::Update(v)
}

/// Law: a timer that fires after at least the requested delay reports an
/// elapsed time no smaller than that delay, and is addressed to the plugin
/// and client that scheduled it. The lower bound on the measured time is the
/// sleeping side's to guarantee; this law discharges the addressing and the
/// bound's preservation through the instruction's construction.
pub proof fn lemma_timer_event_bound(
    plugin_id: u32,
    client_id: u16,
    requested_ms: u64,
    elapsed_ms: u64,
    r: PluginInstruction,
)
    requires
        elapsed_ms >= requested_ms,
        r matches PluginInstruction::Update(v) && v@.len() == 1 && v@[0] == (
            Some(plugin_id),
            Some(client_id),
            Event::Timer(elapsed_ms),
        ),
    ensures
        r matches PluginInstruction::Update(v) && v@[0].2 matches Event::Timer(e) && e
            >= requested_ms && v@[0].0 == Some(plugin_id) && v@[0].1 == Some(client_id),
{
}

// ---------------------------------------------------------------------------
// Small verified helpers the handlers use.
// ---------------------------------------------------------------------------

/// Copy a list of strings, preserving its text.
fn clone_strings(v: &Vec<String>) -> (r: Vec<String>)
    ensures
        strings_view(r@) == strings_view(v@),
{
    let mut r: Vec<String> = Vec::new();
    let mut i: usize = 0;
    while i < v.len()
        invariant
            i <= v@.len(),
            r@.len() == i,
            forall|j: int| 0 <= j < i ==> r@[j]@ == v@[j]@,
        decreases v@.len() - i,
    {
        r.push(v[i].clone());
        i += 1;
    }
    proof {
        assert(strings_view(r@) =~= strings_view(v@));
    }
    r
}

/// How the run-command payload of a fresh terminal pane is derived from the
/// configured default shell and the requested working directory: a command
/// line takes the directory as its cwd; an editor default yields no command;
/// no default yields the empty command line the consuming side resolves.
pub open spec fn shell_to_run_command(
    shell: Option<TerminalAction>,
    cwd: String,
    rca: Option<RunCommandAction>,
) -> bool {
    match shell {
        Some(TerminalAction::RunCommand(rc)) => rca matches Some(r) && r.command@ == rc.command@
            && strings_view(r.args@) == strings_view(rc.args@) && r.cwd == Some(cwd)
            && r.direction is None && r.hold_on_close == rc.hold_on_close && r.hold_on_start
            == false,
        Some(TerminalAction::OpenFile(_, _, _)) => rca is None,
        None => rca matches Some(r) && r.command@.len() == 0 && r.args@.len() == 0 && r.cwd
            == Some(cwd) && r.direction is None && r.hold_on_close == false && r.hold_on_start
            == false,
    }
}

/// Build the run-command payload for a fresh terminal pane.
fn default_shell_run_command(env: &PluginEnv, cwd: String) -> (r: Option<RunCommandAction>)
    ensures
        shell_to_run_command(env.default_shell, cwd, r),
{
    match &env.default_shell {
        Some(TerminalAction::RunCommand(rc)) => Some(
            RunCommandAction {
                command: rc.command.clone(),
                args: clone_strings(&rc.args),
                cwd: Some(cwd),
                direction: None,
                hold_on_close: rc.hold_on_close,
                hold_on_start: false,
            },
        ),
        Some(TerminalAction::OpenFile(_, _, _)) => None,
        None => Some(
            RunCommandAction {
                command: String::new(),
                args: Vec::new(),
                cwd: Some(cwd),
                direction: None,
                hold_on_close: false,
                hold_on_start: false,
            },
        ),
    }
}

// ---------------------------------------------------------------------------
// What dispatching each command must produce.
// ---------------------------------------------------------------------------

/// How dispatch may change the subscription set: only the two subscription
/// commands touch it.
pub open spec fn dispatch_subs(
    subs0: Set<EventType>,
    subs1: Set<EventType>,
    cmd: PluginCommand,
) -> bool {
    match cmd {
        PluginCommand::Subscribe(e) => subs1 == subs0 + set_of(e@),
        PluginCommand::Unsubscribe(e) => subs1 == subs0 - set_of(e@),
        _ => subs1 == subs0,
    }
}

/// The exact effects each command dispatches to, given the capability
/// context. One clause per command variant.
pub open spec fn dispatch_effects(env: PluginEnv, cmd: PluginCommand, out: Seq<Effect>) -> bool {
    match cmd {
        PluginCommand::Subscribe(e) => out =~= seq![
            Effect::Instr(
                PluginInstruction::PluginSubscribedToEvents(env.plugin_id, env.client_id, e),
            ),
        ],
        PluginCommand::Unsubscribe(e) => out =~= Seq::<Effect>::empty(),
        PluginCommand::SetSelectable(b) => match env.plugin_type {
            PluginType::Pane(Some(tab_index)) => out =~= seq![
                Effect::Screen(
                    ScreenInstruction::SetSelectable(PaneId::Plugin(env.plugin_id), b, tab_index),
                ),
            ],
            _ => out =~= seq![Effect::Log(LogLevel::Debug, LogMessage::SelectableIgnored)],
        },
        PluginCommand::GetPluginIds => out.len() == 1 && (out[0] matches Effect::GuestReply(b)
            && b@ == spec_encode_plugin_ids(
            PluginIds { plugin_id: env.plugin_id, host_pid: env.host_pid },
        )),
        PluginCommand::GetZellijVersion => out.len() == 1 && (out[0] matches Effect::GuestReply(b)
            && b@ == encode_utf8(host_version_chars())),
        PluginCommand::OpenFile(f) => out =~= seq![
            Effect::Forward(Action::EditFile(f.path, f.line_number, f.cwd, None, false)),
        ],
        PluginCommand::OpenFileFloating(f) => out =~= seq![
            Effect::Forward(Action::EditFile(f.path, f.line_number, f.cwd, None, true)),
        ],
        PluginCommand::OpenTerminal(path) => out.len() == 1 && (out[0] matches Effect::Forward(a)
            && a matches Action::NewTiledPane(d, rca, n) && d is None && n is None
            && shell_to_run_command(env.default_shell, path, rca)),
        PluginCommand::OpenTerminalFloating(path) => out.len() == 1 && (out[0]
            matches Effect::Forward(a) && a matches Action::NewFloatingPane(rca, n) && n is None
            && shell_to_run_command(env.default_shell, path, rca)),
        PluginCommand::OpenCommandPane(c) => out =~= seq![
            Effect::Forward(
                Action::NewTiledPane(
                    None,
                    Some(
                        RunCommandAction {
                            command: c.path,
                            args: c.args,
                            cwd: c.cwd,
                            direction: None,
                            hold_on_close: true,
                            hold_on_start: false,
                        },
                    ),
                    None,
                ),
            ),
        ],
        PluginCommand::OpenCommandPaneFloating(c) => out =~= seq![
            Effect::Forward(
                Action::NewFloatingPane(
                    Some(
                        RunCommandAction {
                            command: c.path,
                            args: c.args,
                            cwd: c.cwd,
                            direction: None,
                            hold_on_close: true,
                            hold_on_start: false,
                        },
                    ),
                    None,
                ),
            ),
        ],
        PluginCommand::SwitchTabTo(i) => out =~= seq![
            Effect::Screen(ScreenInstruction::GoToTab(i, Some(env.client_id))),
        ],
        PluginCommand::SetTimeout(ms) => out =~= seq![Effect::StartTimer(ms)],
        PluginCommand::ExecCmd(line) => {
            if line@.len() == 0 {
                out =~= seq![Effect::Log(LogLevel::Error, LogMessage::ExecCmdEmpty)]
            } else if !env.allow_exec_host_cmd {
                out.len() == 1 && ({
                    &&& out[0] matches Effect::Log(lvl, m)
                    &&& lvl == LogLevel::Warn
                    &&& m matches LogMessage::ExecDenied(c, rest)
                    &&& c == line@[0]
                    &&& rest@ == line@.skip(1)
                })
            } else {
                out.len() == 1 && (out[0] matches Effect::Spawn(c, rest) && c == line@[0] && rest@
                    == line@.skip(1))
            }
        },
        PluginCommand::PostMessageTo(m) => match m.worker_name {
            Some(w) => out.len() == 1 && (out[0] matches Effect::Instr(instr) && instr
                matches PluginInstruction::PostMessagesToPluginWorker(p, c, w2, msgs) && p
                == env.plugin_id && c == env.client_id && w2 == w && msgs@ =~= seq![
                (m.name, m.payload),
            ]),
            None => out =~= seq![Effect::Log(LogLevel::Error, LogMessage::WorkerNameMissing)],
        },
        PluginCommand::PostMessageToPlugin(m) => match m.worker_name {
            Some(w) => out =~= seq![
                Effect::Log(LogLevel::Error, LogMessage::WorkerNameUnexpected(w)),
            ],
            None => out =~= seq![
                Effect::Instr(
                    PluginInstruction::PostMessageToPlugin(
                        env.plugin_id,
                        env.client_id,
                        m.name,
                        m.payload,
                    ),
                ),
            ],
        },
        PluginCommand::HideSelf => out =~= seq![
            Effect::Screen(
                ScreenInstruction::SuppressPane(PaneId::Plugin(env.plugin_id), env.client_id),
            ),
        ],
        PluginCommand::ShowSelf(b) => out =~= seq![
            Effect::Forward(Action::FocusPluginPaneWithId(env.plugin_id, b)),
        ],
        PluginCommand::SwitchToMode(m) => out =~= seq![
            Effect::Forward(Action::SwitchToMode(m)),
        ],
        PluginCommand::NewTabsWithLayout(raw) => out =~= seq![Effect::ParseLayout(raw)],
        PluginCommand::NewTab => out.len() == 1 && (out[0] matches Effect::Forward(a) && a
            matches Action::NewTab(t, f, st, sf, n) && t is None && f@.len() == 0 && st is None
            && sf is None && n is None),
        PluginCommand::GoToNextTab => out =~= seq![Effect::Forward(Action::GoToNextTab)],
        PluginCommand::GoToPreviousTab => out =~= seq![Effect::Forward(Action::GoToPreviousTab)],
        PluginCommand::Resize(r) => out =~= seq![Effect::Forward(Action::Resize(r, None))],
        PluginCommand::ResizeWithDirection(rs) => out =~= seq![
            Effect::Forward(Action::Resize(rs.resize, rs.direction)),
        ],
        PluginCommand::FocusNextPane => out =~= seq![Effect::Forward(Action::FocusNextPane)],
        PluginCommand::FocusPreviousPane => out =~= seq![
            Effect::Forward(Action::FocusPreviousPane),
        ],
        PluginCommand::MoveFocus(d) => out =~= seq![Effect::Forward(Action::MoveFocus(d))],
        PluginCommand::MoveFocusOrTab(d) => out =~= seq![
            Effect::Forward(Action::MoveFocusOrTab(d)),
        ],
        PluginCommand::Detach => out =~= seq![Effect::Forward(Action::Detach)],
        PluginCommand::EditScrollback => out =~= seq![Effect::Forward(Action::EditScrollback)],
        PluginCommand::Write(b) => out =~= seq![Effect::Forward(Action::Write(b))],
        PluginCommand::WriteChars(s) => out =~= seq![Effect::Forward(Action::WriteChars(s))],
        PluginCommand::ToggleTab => out =~= seq![Effect::Forward(Action::ToggleTab)],
        PluginCommand::MovePane => out =~= seq![Effect::Forward(Action::MovePane(None))],
        PluginCommand::MovePaneWithDirection(d) => out =~= seq![
            Effect::Forward(Action::MovePane(Some(d))),
        ],
        PluginCommand::ClearScreen => out =~= seq![Effect::Forward(Action::ClearScreen)],
        PluginCommand::ScrollUp => out =~= seq![Effect::Forward(Action::ScrollUp)],
        PluginCommand::ScrollDown => out =~= seq![Effect::Forward(Action::ScrollDown)],
        PluginCommand::ScrollToTop => out =~= seq![Effect::Forward(Action::ScrollToTop)],
        PluginCommand::ScrollToBottom => out =~= seq![Effect::Forward(Action::ScrollToBottom)],
        PluginCommand::PageScrollUp => out =~= seq![Effect::Forward(Action::PageScrollUp)],
        PluginCommand::PageScrollDown => out =~= seq![Effect::Forward(Action::PageScrollDown)],
        PluginCommand::ToggleFocusFullscreen => out =~= seq![
            Effect::Forward(Action::ToggleFocusFullscreen),
        ],
        PluginCommand::TogglePaneFrames => out =~= seq![
            Effect::Forward(Action::TogglePaneFrames),
        ],
        PluginCommand::TogglePaneEmbedOrEject => out =~= seq![
            Effect::Forward(Action::TogglePaneEmbedOrFloating),
        ],
        PluginCommand::UndoRenamePane => out =~= seq![Effect::Forward(Action::UndoRenamePane)],
        PluginCommand::CloseFocus => out =~= seq![Effect::Forward(Action::CloseFocus)],
        PluginCommand::ToggleActiveTabSync => out =~= seq![
            Effect::Forward(Action::ToggleActiveSyncTab),
        ],
        PluginCommand::CloseFocusedTab => out =~= seq![Effect::Forward(Action::CloseTab)],
        PluginCommand::UndoRenameTab => out =~= seq![Effect::Forward(Action::UndoRenameTab)],
        PluginCommand::QuitZellij => out =~= seq![Effect::Forward(Action::Quit)],
        PluginCommand::PreviousSwapLayout => out =~= seq![
            Effect::Forward(Action::PreviousSwapLayout),
        ],
        PluginCommand::NextSwapLayout => out =~= seq![Effect::Forward(Action::NextSwapLayout)],
        PluginCommand::GoToTabName(n) => out =~= seq![
            Effect::Forward(Action::GoToTabName(n, false)),
        ],
        PluginCommand::FocusOrCreateTab(n) => out =~= seq![
            Effect::Forward(Action::GoToTabName(n, true)),
        ],
        PluginCommand::GoToTab(i) => out =~= seq![Effect::Forward(Action::GoToTab(i))],
        PluginCommand::StartOrReloadPlugin(u) => match url_norm_of(u@) {
            None => out =~= seq![Effect::Log(LogLevel::Error, LogMessage::UrlInvalid(u))],
            Some(nu) => match spec_parse_location(nu, env.cwd@) {
                None => out.len() == 1 && ({
                    &&& out[0] matches Effect::Log(lvl, m)
                    &&& lvl == LogLevel::Error
                    &&& m matches LogMessage::LocationInvalid(t)
                    &&& t@ == nu
                }),
                Some(lv) => out.len() == 1 && (out[0] matches Effect::Forward(a) && a
                    matches Action::StartOrReloadPlugin(rp) && rp.location@ == lv
                    && rp.allow_exec_host_cmd == false),
            },
        },
        PluginCommand::CloseTerminalPane(i) => out =~= seq![
            Effect::Forward(Action::CloseTerminalPane(i)),
        ],
        PluginCommand::ClosePluginPane(i) => out =~= seq![
            Effect::Forward(Action::ClosePluginPane(i)),
        ],
        PluginCommand::FocusTerminalPane(i, b) => out =~= seq![
            Effect::Forward(Action::FocusTerminalPaneWithId(i, b)),
        ],
        PluginCommand::FocusPluginPane(i, b) => out =~= seq![
            Effect::Forward(Action::FocusPluginPaneWithId(i, b)),
        ],
        PluginCommand::RenameTerminalPane(i, n) => out.len() == 1 && (out[0]
            matches Effect::Forward(a) && a matches Action::RenameTerminalPane(i2, b) && i2 == i
            && b@ == encode_utf8(n@)),
        PluginCommand::RenamePluginPane(i, n) => out.len() == 1 && (out[0]
            matches Effect::Forward(a) && a matches Action::RenamePluginPane(i2, b) && i2 == i
            && b@ == encode_utf8(n@)),
        PluginCommand::RenameTab(i, n) => out.len() == 1 && (out[0] matches Effect::Forward(a)
            && a matches Action::RenameTab(i2, b) && i2 == i && b@ == encode_utf8(n@)),
        PluginCommand::ReportPanic(msg) => out.len() == 2 && ({
            &&& out[0] matches Effect::Log(lvl, m)
            &&& lvl == LogLevel::Error
            &&& m matches LogMessage::PluginPanic(t)
            &&& t@ == msg@
        }) && out[1] == Effect::Instr(PluginInstruction::CrashReport(env.plugin_id, msg)),
    }
}

/// The dispatcher's whole contract: the subscription change and the effects.
pub open spec fn dispatch_post(
    env: PluginEnv,
    subs0: Set<EventType>,
    subs1: Set<EventType>,
    cmd: PluginCommand,
    out: Seq<Effect>,
) -> bool {
    &&& dispatch_subs(subs0, subs1, cmd)
    &&& dispatch_effects(env, cmd, out)
}

fn one(e: Effect) -> (r: Vec<Effect>)
    ensures
        r@ == seq![e],
{
    let mut r: Vec<Effect> = Vec::new();
    r.push(e);
    proof {
        assert(r@ =~= seq![e]);
    }
    r
}

fn two(a: Effect, b: Effect) -> (r: Vec<Effect>)
    ensures
        r@ == seq![a, b],
{
    let mut r: Vec<Effect> = Vec::new();
    r.push(a);
    r.push(b);
    proof {
        assert(r@ =~= seq![a, b]);
    }
    r
}

/// Dispatch one decoded command: update the subscription registry when the
/// command asks for it, and return the effects the host must carry out.
#[verifier::rlimit(100)]
#[verifier::spinoff_prover]
pub fn dispatch(env: &PluginEnv, subs: &mut Subscriptions, cmd: PluginCommand) -> (out: Vec<
    Effect,
>)
    ensures
        dispatch_post(*env, old(subs)@, final(subs)@, cmd, out@),
{
    match cmd {
        PluginCommand::Subscribe(events) => {
            subs.subscribe(&events);
            one(
                Effect::Instr(
                    PluginInstruction::PluginSubscribedToEvents(
                        env.plugin_id,
                        env.client_id,
                        events,
                    ),
                ),
            )
        },
        PluginCommand::Unsubscribe(events) => {
            subs.unsubscribe(&events);
            Vec::new()
        },
        PluginCommand::SetSelectable(b) => {
            match env.plugin_type {
                PluginType::Pane(Some(tab_index)) => one(
                    Effect::Screen(
                        ScreenInstruction::SetSelectable(
                            PaneId::Plugin(env.plugin_id),
                            b,
                            tab_index,
                        ),
                    ),
                ),
                _ => one(Effect::Log(LogLevel::Debug, LogMessage::SelectableIgnored)),
            }
        },
        PluginCommand::GetPluginIds => {
            let ids = PluginIds { plugin_id: env.plugin_id, host_pid: env.host_pid };
            one(Effect::GuestReply(encode_plugin_ids(&ids)))
        },
        PluginCommand::GetZellijVersion => one(Effect::GuestReply(encode_version_reply())),
        PluginCommand::OpenFile(f) => one(
            Effect::Forward(Action::EditFile(f.path, f.line_number, f.cwd, None, false)),
        ),
        PluginCommand::OpenFileFloating(f) => one(
            Effect::Forward(Action::EditFile(f.path, f.line_number, f.cwd, None, true)),
        ),
        PluginCommand::OpenTerminal(path) => {
            let rca = default_shell_run_command(env, path);
            one(Effect::Forward(Action::NewTiledPane(None, rca, None)))
        },
        PluginCommand::OpenTerminalFloating(path) => {
            let rca = default_shell_run_command(env, path);
            one(Effect::Forward(Action::NewFloatingPane(rca, None)))
        },
        PluginCommand::OpenCommandPane(c) => one(
            Effect::Forward(
                Action::NewTiledPane(
                    None,
                    Some(
                        RunCommandAction {
                            command: c.path,
                            args: c.args,
                            cwd: c.cwd,
                            direction: None,
                            hold_on_close: true,
                            hold_on_start: false,
                        },
                    ),
                    None,
                ),
            ),
        ),
        PluginCommand::OpenCommandPaneFloating(c) => one(
            Effect::Forward(
                Action::NewFloatingPane(
                    Some(
                        RunCommandAction {
                            command: c.path,
                            args: c.args,
                            cwd: c.cwd,
                            direction: None,
                            hold_on_close: true,
                            hold_on_start: false,
                        },
                    ),
                    None,
                ),
            ),
        ),
        PluginCommand::SwitchTabTo(i) => one(
            Effect::Screen(ScreenInstruction::GoToTab(i, Some(env.client_id))),
        ),
        PluginCommand::SetTimeout(ms) => one(Effect::StartTimer(ms)),
        PluginCommand::ExecCmd(line) => {
            if line.len() == 0 {
                one(Effect::Log(LogLevel::Error, LogMessage::ExecCmdEmpty))
            } else {
                let mut rest = line;
                let command = rest.remove(0);
                if !env.allow_exec_host_cmd {
                    one(Effect::Log(LogLevel::Warn, LogMessage::ExecDenied(command, rest)))
                } else {
                    one(Effect::Spawn(command, rest))
                }
            }
        },
        PluginCommand::PostMessageTo(m) => {
            match m.worker_name {
                Some(w) => {
                    let mut msgs: Vec<(String, String)> = Vec::new();
                    msgs.push((m.name, m.payload));
                    one(
                        Effect::Instr(
                            PluginInstruction::PostMessagesToPluginWorker(
                                env.plugin_id,
                                env.client_id,
                                w,
                                msgs,
                            ),
                        ),
                    )
                },
                None => one(Effect::Log(LogLevel::Error, LogMessage::WorkerNameMissing)),
            }
        },
        PluginCommand::PostMessageToPlugin(m) => {
            match m.worker_name {
                Some(w) => one(Effect::Log(LogLevel::Error, LogMessage::WorkerNameUnexpected(w))),
                None => one(
                    Effect::Instr(
                        PluginInstruction::PostMessageToPlugin(
                            env.plugin_id,
                            env.client_id,
                            m.name,
                            m.payload,
                        ),
                    ),
                ),
            }
        },
        PluginCommand::HideSelf => one(
            Effect::Screen(
                ScreenInstruction::SuppressPane(PaneId::Plugin(env.plugin_id), env.client_id),
            ),
        ),
        PluginCommand::ShowSelf(b) => one(
            Effect::Forward(Action::FocusPluginPaneWithId(env.plugin_id, b)),
        ),
        PluginCommand::SwitchToMode(m) => one(Effect::Forward(Action::SwitchToMode(m))),
        PluginCommand::NewTabsWithLayout(raw) => one(Effect::ParseLayout(raw)),
        PluginCommand::NewTab => one(
            Effect::Forward(Action::NewTab(None, Vec::new(), None, None, None)),
        ),
        PluginCommand::GoToNextTab => one(Effect::Forward(Action::GoToNextTab)),
        PluginCommand::GoToPreviousTab => one(Effect::Forward(Action::GoToPreviousTab)),
        PluginCommand::Resize(r) => one(Effect::Forward(Action::Resize(r, None))),
        PluginCommand::ResizeWithDirection(rs) => one(
            Effect::Forward(Action::Resize(rs.resize, rs.direction)),
        ),
        PluginCommand::FocusNextPane => one(Effect::Forward(Action::FocusNextPane)),
        PluginCommand::FocusPreviousPane => one(Effect::Forward(Action::FocusPreviousPane)),
        PluginCommand::MoveFocus(d) => one(Effect::Forward(Action::MoveFocus(d))),
        PluginCommand::MoveFocusOrTab(d) => one(Effect::Forward(Action::MoveFocusOrTab(d))),
        PluginCommand::Detach => one(Effect::Forward(Action::Detach)),
        PluginCommand::EditScrollback => one(Effect::Forward(Action::EditScrollback)),
        PluginCommand::Write(b) => one(Effect::Forward(Action::Write(b))),
        PluginCommand::WriteChars(s) => one(Effect::Forward(Action::WriteChars(s))),
        PluginCommand::ToggleTab => one(Effect::Forward(Action::ToggleTab)),
        PluginCommand::MovePane => one(Effect::Forward(Action::MovePane(None))),
        PluginCommand::MovePaneWithDirection(d) => one(Effect::Forward(Action::MovePane(Some(d)))),
        PluginCommand::ClearScreen => one(Effect::Forward(Action::ClearScreen)),
        PluginCommand::ScrollUp => one(Effect::Forward(Action::ScrollUp)),
        PluginCommand::ScrollDown => one(Effect::Forward(Action::ScrollDown)),
        PluginCommand::ScrollToTop => one(Effect::Forward(Action::ScrollToTop)),
        PluginCommand::ScrollToBottom => one(Effect::Forward(Action::ScrollToBottom)),
        PluginCommand::PageScrollUp => one(Effect::Forward(Action::PageScrollUp)),
        PluginCommand::PageScrollDown => one(Effect::Forward(Action::PageScrollDown)),
        PluginCommand::ToggleFocusFullscreen => one(Effect::Forward(Action::ToggleFocusFullscreen)),
        PluginCommand::TogglePaneFrames => one(Effect::Forward(Action::TogglePaneFrames)),
        PluginCommand::TogglePaneEmbedOrEject => one(
            Effect::Forward(Action::TogglePaneEmbedOrFloating),
        ),
        PluginCommand::UndoRenamePane => one(Effect::Forward(Action::UndoRenamePane)),
        PluginCommand::CloseFocus => one(Effect::Forward(Action::CloseFocus)),
        PluginCommand::ToggleActiveTabSync => one(Effect::Forward(Action::ToggleActiveSyncTab)),
        PluginCommand::CloseFocusedTab => one(Effect::Forward(Action::CloseTab)),
        PluginCommand::UndoRenameTab => one(Effect::Forward(Action::UndoRenameTab)),
        PluginCommand::QuitZellij => one(Effect::Forward(Action::Quit)),
        PluginCommand::PreviousSwapLayout => one(Effect::Forward(Action::PreviousSwapLayout)),
        PluginCommand::NextSwapLayout => one(Effect::Forward(Action::NextSwapLayout)),
        PluginCommand::GoToTabName(n) => one(Effect::Forward(Action::GoToTabName(n, false))),
        PluginCommand::FocusOrCreateTab(n) => one(Effect::Forward(Action::GoToTabName(n, true))),
        PluginCommand::GoToTab(i) => one(Effect::Forward(Action::GoToTab(i))),
        PluginCommand::StartOrReloadPlugin(u) => {
            match parse_url(u.as_str()) {
                None => one(Effect::Log(LogLevel::Error, LogMessage::UrlInvalid(u))),
                Some(norm) => match parse_plugin_location(&norm, &env.cwd) {
                    None => one(Effect::Log(LogLevel::Error, LogMessage::LocationInvalid(norm))),
                    Some(loc) => one(
                        Effect::Forward(
                            Action::StartOrReloadPlugin(
                                RunPlugin { location: loc, allow_exec_host_cmd: false },
                            ),
                        ),
                    ),
                },
            }
        },
        PluginCommand::CloseTerminalPane(i) => one(Effect::Forward(Action::CloseTerminalPane(i))),
        PluginCommand::ClosePluginPane(i) => one(Effect::Forward(Action::ClosePluginPane(i))),
        PluginCommand::FocusTerminalPane(i, b) => one(
            Effect::Forward(Action::FocusTerminalPaneWithId(i, b)),
        ),
        PluginCommand::FocusPluginPane(i, b) => one(
            Effect::Forward(Action::FocusPluginPaneWithId(i, b)),
        ),
        PluginCommand::RenameTerminalPane(i, n) => one(
            Effect::Forward(Action::RenameTerminalPane(i, slice_to_vec(n.as_str().as_bytes()))),
        ),
        PluginCommand::RenamePluginPane(i, n) => one(
            Effect::Forward(Action::RenamePluginPane(i, slice_to_vec(n.as_str().as_bytes()))),
        ),
        PluginCommand::RenameTab(i, n) => one(
            Effect::Forward(Action::RenameTab(i, slice_to_vec(n.as_str().as_bytes()))),
        ),
        PluginCommand::ReportPanic(msg) => {
            let logged = msg.clone();
            two(
                Effect::Log(LogLevel::Error, LogMessage::PluginPanic(logged)),
                Effect::Instr(PluginInstruction::CrashReport(env.plugin_id, msg)),
            )
        },
    }
}

// ---------------------------------------------------------------------------
// The whole call: decode, then dispatch.
// ---------------------------------------------------------------------------

/// Handle one raw command buffer from the guest: decode it and dispatch the
/// command. A buffer that does not decode changes nothing and yields exactly
/// one error diagnostic; every failure is returned as a loggable effect, so
/// the guest call always returns normally.
pub fn run_plugin_command(env: &PluginEnv, subs: &mut Subscriptions, buf: &Vec<u8>) -> (out: Vec<
    Effect,
>)
    ensures
        match sd_command(buf@) {
            Ok(cv) => exists|cmd: PluginCommand|
                cmd@ == cv && #[trigger] dispatch_post(*env, old(subs)@, final(subs)@, cmd, out@),
            Err(e) => final(subs)@ == old(subs)@ && out@ =~= seq![
                Effect::Log(LogLevel::Error, LogMessage::DecodeFailed(e)),
            ],
        },
{
    match decode_command(buf) {
        Ok(cmd) => {
            let ghost c = cmd;
            let out = dispatch(env, subs, cmd);
            proof {
                assert(dispatch_post(*env, old(subs)@, final(subs)@, c, out@));
            }
            out
        },
        Err(e) => one(Effect::Log(LogLevel::Error, LogMessage::DecodeFailed(e))),
    }
}

// ---------------------------------------------------------------------------
// Exhaustiveness and the capability gate, as laws.
// ---------------------------------------------------------------------------

/// The three ways a command can be handled.
pub enum DispatchClass {
    /// The handler builds one action for the action router.
    Forwarded,
    /// The handler works through instructions, replies, timers or processes,
    /// bypassing the action layer.
    Direct,
    /// The command means nothing in this placement and is logged and ignored.
    Ignored,
}

/// The dispatch class of every command variant. The match is exhaustive, so
/// a command without a handler cannot be stated.
pub open spec fn dispatch_class(cmd: PluginCommand, env: PluginEnv) -> DispatchClass {
    match cmd {
        PluginCommand::Subscribe(_) => DispatchClass::Direct,
        PluginCommand::Unsubscribe(_) => DispatchClass::Direct,
        PluginCommand::SetSelectable(_) => match env.plugin_type {
            PluginType::Pane(Some(_)) => DispatchClass::Direct,
            _ => DispatchClass::Ignored,
        },
        PluginCommand::GetPluginIds => DispatchClass::Direct,
        PluginCommand::GetZellijVersion => DispatchClass::Direct,
        PluginCommand::OpenFile(_) => DispatchClass::Forwarded,
        PluginCommand::OpenFileFloating(_) => DispatchClass::Forwarded,
        PluginCommand::OpenTerminal(_) => DispatchClass::Forwarded,
        PluginCommand::OpenTerminalFloating(_) => DispatchClass::Forwarded,
        PluginCommand::OpenCommandPane(_) => DispatchClass::Forwarded,
        PluginCommand::OpenCommandPaneFloating(_) => DispatchClass::Forwarded,
        PluginCommand::SwitchTabTo(_) => DispatchClass::Direct,
        PluginCommand::SetTimeout(_) => DispatchClass::Direct,
        PluginCommand::ExecCmd(_) => DispatchClass::Direct,
        PluginCommand::PostMessageTo(_) => DispatchClass::Direct,
        PluginCommand::PostMessageToPlugin(_) => DispatchClass::Direct,
        PluginCommand::HideSelf => DispatchClass::Direct,
        PluginCommand::ShowSelf(_) => DispatchClass::Forwarded,
        PluginCommand::SwitchToMode(_) => DispatchClass::Forwarded,
        PluginCommand::NewTabsWithLayout(_) => DispatchClass::Forwarded,
        PluginCommand::NewTab => DispatchClass::Forwarded,
        PluginCommand::GoToNextTab => DispatchClass::Forwarded,
        PluginCommand::GoToPreviousTab => DispatchClass::Forwarded,
        PluginCommand::Resize(_) => DispatchClass::Forwarded,
        PluginCommand::ResizeWithDirection(_) => DispatchClass::Forwarded,
        PluginCommand::FocusNextPane => DispatchClass::Forwarded,
        PluginCommand::FocusPreviousPane => DispatchClass::Forwarded,
        PluginCommand::MoveFocus(_) => DispatchClass::Forwarded,
        PluginCommand::MoveFocusOrTab(_) => DispatchClass::Forwarded,
        PluginCommand::Detach => DispatchClass::Forwarded,
        PluginCommand::EditScrollback => DispatchClass::Forwarded,
        PluginCommand::Write(_) => DispatchClass::Forwarded,
        PluginCommand::WriteChars(_) => DispatchClass::Forwarded,
        PluginCommand::ToggleTab => DispatchClass::Forwarded,
        PluginCommand::MovePane => DispatchClass::Forwarded,
        PluginCommand::MovePaneWithDirection(_) => DispatchClass::Forwarded,
        PluginCommand::ClearScreen => DispatchClass::Forwarded,
        PluginCommand::ScrollUp => DispatchClass::Forwarded,
        PluginCommand::ScrollDown => DispatchClass::Forwarded,
        PluginCommand::ScrollToTop => DispatchClass::Forwarded,
        PluginCommand::ScrollToBottom => DispatchClass::Forwarded,
        PluginCommand::PageScrollUp => DispatchClass::Forwarded,
        PluginCommand::PageScrollDown => DispatchClass::Forwarded,
        PluginCommand::ToggleFocusFullscreen => DispatchClass::Forwarded,
        PluginCommand::TogglePaneFrames => DispatchClass::Forwarded,
        PluginCommand::TogglePaneEmbedOrEject => DispatchClass::Forwarded,
        PluginCommand::UndoRenamePane => DispatchClass::Forwarded,
        PluginCommand::CloseFocus => DispatchClass::Forwarded,
        PluginCommand::ToggleActiveTabSync => DispatchClass::Forwarded,
        PluginCommand::CloseFocusedTab => DispatchClass::Forwarded,
        PluginCommand::UndoRenameTab => DispatchClass::Forwarded,
        PluginCommand::QuitZellij => DispatchClass::Forwarded,
        PluginCommand::PreviousSwapLayout => DispatchClass::Forwarded,
        PluginCommand::NextSwapLayout => DispatchClass::Forwarded,
        PluginCommand::GoToTabName(_) => DispatchClass::Forwarded,
        PluginCommand::FocusOrCreateTab(_) => DispatchClass::Forwarded,
        PluginCommand::GoToTab(_) => DispatchClass::Forwarded,
        PluginCommand::StartOrReloadPlugin(_) => DispatchClass::Forwarded,
        PluginCommand::CloseTerminalPane(_) => DispatchClass::Forwarded,
        PluginCommand::ClosePluginPane(_) => DispatchClass::Forwarded,
        PluginCommand::FocusTerminalPane(_, _) => DispatchClass::Forwarded,
        PluginCommand::FocusPluginPane(_, _) => DispatchClass::Forwarded,
        PluginCommand::RenameTerminalPane(_, _) => DispatchClass::Forwarded,
        PluginCommand::RenamePluginPane(_, _) => DispatchClass::Forwarded,
        PluginCommand::RenameTab(_, _) => DispatchClass::Forwarded,
        PluginCommand::ReportPanic(_) => DispatchClass::Direct,
    }
}

/// Law: every command variant maps to exactly one dispatch class, and the
/// dispatched effects stay inside it. A forwarded command yields one effect:
/// the action, or the diagnostic of its conversion failure. A direct command
/// never hands the router an action. An ignored command yields exactly one
/// debug diagnostic.
#[verifier::rlimit(100)]
#[verifier::spinoff_prover]
pub proof fn lemma_dispatch_exhaustive(
    env: PluginEnv,
    subs0: Set<EventType>,
    subs1: Set<EventType>,
    cmd: PluginCommand,
    out: Seq<Effect>,
)
    requires
        dispatch_post(env, subs0, subs1, cmd, out),
    ensures
        match dispatch_class(cmd, env) {
            DispatchClass::Forwarded => out.len() == 1 && (out[0] is Forward || out[0] is Log
                || out[0] is ParseLayout),
            DispatchClass::Direct => forall|i: int| 0 <= i < out.len() ==> !(#[trigger] out[i]
                is Forward),
            DispatchClass::Ignored => out.len() == 1 && (out[0] matches Effect::Log(lvl, _)
                && lvl == LogLevel::Debug),
        },
{
}


/// Law: with the exec capability off, dispatching a command-execution
/// request spawns nothing, whatever the command line, and yields exactly one
/// warning diagnostic naming the blocked command.
pub proof fn lemma_exec_gate_denies(
    env: PluginEnv,
    subs0: Set<EventType>,
    subs1: Set<EventType>,
    line: Vec<String>,
    out: Seq<Effect>,
)
    requires
        dispatch_post(env, subs0, subs1, PluginCommand::ExecCmd(line), out),
        !env.allow_exec_host_cmd,
        line@.len() > 0,
    ensures
        forall|i: int| 0 <= i < out.len() ==> !(#[trigger] out[i] is Spawn),
        out.len() == 1,
        out[0] matches Effect::Log(lvl, m) && lvl == LogLevel::Warn && (m
            matches LogMessage::ExecDenied(c, _) && c == line@[0]),
        subs1 == subs0,
{
}

// ---------------------------------------------------------------------------
// Opening the tabs of a parsed layout.
// ---------------------------------------------------------------------------

/// Spec-level image of an optional pane arrangement.
pub open spec fn opt_tiled_view(o: Option<TiledPaneLayout>) -> Option<Seq<char>> {
    match o {
        Some(t) => Some(t.source@),
        None => None,
    }
}

/// Spec-level image of a list of floating-pane arrangements.
pub open spec fn floats_view(v: Seq<FloatingPaneLayout>) -> Seq<Seq<char>> {
    Seq::new(v.len(), |i: int| v[i].source@)
}

/// Spec-level image of a list of tiled swap arrangements.
pub open spec fn swap_tiled_view(v: Seq<SwapTiledLayout>) -> Seq<Seq<char>> {
    Seq::new(v.len(), |i: int| v[i].source@)
}

/// Spec-level image of a list of floating swap arrangements.
pub open spec fn swap_floating_view(v: Seq<SwapFloatingLayout>) -> Seq<Seq<char>> {
    Seq::new(v.len(), |i: int| v[i].source@)
}

/// Spec-level image of an optional name.
pub open spec fn opt_string_view(o: Option<String>) -> Option<Seq<char>> {
    match o {
        Some(t) => Some(t@),
        None => None,
    }
}

fn clone_opt_tiled(o: &Option<TiledPaneLayout>) -> (r: Option<TiledPaneLayout>)
    ensures
        opt_tiled_view(r) == opt_tiled_view(*o),
{
    match o {
        Some(t) => Some(TiledPaneLayout { source: t.source.clone() }),
        None => None,
    }
}

fn clone_floats(v: &Vec<FloatingPaneLayout>) -> (r: Vec<FloatingPaneLayout>)
    ensures
        floats_view(r@) == floats_view(v@),
{
    let mut r: Vec<FloatingPaneLayout> = Vec::new();
    let mut i: usize = 0;
    while i < v.len()
        invariant
            i <= v@.len(),
            r@.len() == i,
            forall|j: int| 0 <= j < i ==> r@[j].source@ == v@[j].source@,
        decreases v@.len() - i,
    {
        r.push(FloatingPaneLayout { source: v[i].source.clone() });
        i += 1;
    }
    proof {
        assert(floats_view(r@) =~= floats_view(v@));
    }
    r
}

fn clone_swap_tiled(v: &Vec<SwapTiledLayout>) -> (r: Vec<SwapTiledLayout>)
    ensures
        swap_tiled_view(r@) == swap_tiled_view(v@),
{
    let mut r: Vec<SwapTiledLayout> = Vec::new();
    let mut i: usize = 0;
    while i < v.len()
        invariant
            i <= v@.len(),
            r@.len() == i,
            forall|j: int| 0 <= j < i ==> r@[j].source@ == v@[j].source@,
        decreases v@.len() - i,
    {
        r.push(SwapTiledLayout { source: v[i].source.clone() });
        i += 1;
    }
    proof {
        assert(swap_tiled_view(r@) =~= swap_tiled_view(v@));
    }
    r
}

fn clone_swap_floating(v: &Vec<SwapFloatingLayout>) -> (r: Vec<SwapFloatingLayout>)
    ensures
        swap_floating_view(r@) == swap_floating_view(v@),
{
    let mut r: Vec<SwapFloatingLayout> = Vec::new();
    let mut i: usize = 0;
    while i < v.len()
        invariant
            i <= v@.len(),
            r@.len() == i,
            forall|j: int| 0 <= j < i ==> r@[j].source@ == v@[j].source@,
        decreases v@.len() - i,
    {
        r.push(SwapFloatingLayout { source: v[i].source.clone() });
        i += 1;
    }
    proof {
        assert(swap_floating_view(r@) =~= swap_floating_view(v@));
    }
    r
}

fn clone_opt_string(o: &Option<String>) -> (r: Option<String>)
    ensures
        opt_string_view(r) == opt_string_view(*o),
{
    match o {
        Some(t) => Some(t.clone()),
        None => None,
    }
}

/// The tab-opening effect a layout's template yields when it has no tabs.
pub open spec fn is_template_tab_effect(layout: Layout, e: Effect) -> bool {
    &&& e matches Effect::Forward(a)
    &&& a matches Action::NewTab(t, f, st, sf, n)
    &&& opt_tiled_view(t) == opt_tiled_view(layout.template)
    &&& floats_view(f@) == floats_view(layout.template_floating@)
    &&& st matches Some(stv) && swap_tiled_view(stv@) == swap_tiled_view(
        layout.swap_tiled_layouts@,
    )
    &&& sf matches Some(sfv) && swap_floating_view(sfv@) == swap_floating_view(
        layout.swap_floating_layouts@,
    )
    &&& n is None
}

/// The tab-opening effect one named layout tab yields.
pub open spec fn is_layout_tab_effect(layout: Layout, tab: LayoutTab, e: Effect) -> bool {
    &&& e matches Effect::Forward(a)
    &&& a matches Action::NewTab(t, f, st, sf, n)
    &&& opt_tiled_view(t) == Some(tab.tiled.source@)
    &&& floats_view(f@) == floats_view(tab.floating@)
    &&& st matches Some(stv) && swap_tiled_view(stv@) == swap_tiled_view(
        layout.swap_tiled_layouts@,
    )
    &&& sf matches Some(sfv) && swap_floating_view(sfv@) == swap_floating_view(
        layout.swap_floating_layouts@,
    )
    &&& opt_string_view(n) == opt_string_view(tab.name)
}

/// Turn a parsed layout into tab-opening actions: one action per tab, or a
/// single action from the layout's template when it has no tabs, each tab
/// carrying the layout's swap arrangements.
pub fn open_layout_tabs(layout: &Layout) -> (out: Vec<Effect>)
    ensures
        layout.tabs@.len() == 0 ==> out@.len() == 1 && is_template_tab_effect(*layout, out@[0]),
        layout.tabs@.len() > 0 ==> out@.len() == layout.tabs@.len() && (forall|i: int|
            0 <= i < out@.len() ==> is_layout_tab_effect(
                *layout,
                layout.tabs@[i],
                #[trigger] out@[i],
            )),
{
    let mut out: Vec<Effect> = Vec::new();
    if layout.tabs.len() == 0 {
        let action = Action::NewTab(
            clone_opt_tiled(&layout.template),
            clone_floats(&layout.template_floating),
            Some(clone_swap_tiled(&layout.swap_tiled_layouts)),
            Some(clone_swap_floating(&layout.swap_floating_layouts)),
            None,
        );
        out.push(Effect::Forward(action));
    } else {
        let mut i: usize = 0;
        while i < layout.tabs.len()
            invariant
                i <= layout.tabs@.len(),
                out@.len() == i,
                forall|j: int|
                    0 <= j < i ==> is_layout_tab_effect(
                        *layout,
                        layout.tabs@[j],
                        #[trigger] out@[j],
                    ),
            decreases layout.tabs@.len() - i,
        {
            let tab = &layout.tabs[i];
            let action = Action::NewTab(
                Some(TiledPaneLayout { source: tab.tiled.source.clone() }),
                clone_floats(&tab.floating),
                Some(clone_swap_tiled(&layout.swap_tiled_layouts)),
                Some(clone_swap_floating(&layout.swap_floating_layouts)),
                clone_opt_string(&tab.name),
            );
            out.push(Effect::Forward(action));
            i += 1;
        }
    }
    out
}

} // verus!
