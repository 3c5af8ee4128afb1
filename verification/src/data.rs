//! The data model of the bridge: the kinds of events a plugin can subscribe
//! to, the payload records carried by commands, and the tagged command union
//! itself, together with spec-level views of every payload-bearing type.

use vstd::prelude::*;

verus! {

/// The kinds of events a plugin instance can ask the host to push to it.
/// Subscriptions are keyed by this tag.
#[derive(Clone, Copy, Debug, PartialEq, Eq, Hash, Structural)]
pub enum EventType {
    ModeUpdate,
    TabUpdate,
    PaneUpdate,
    Key,
    Mouse,
    Timer,
    CopyToClipboard,
    SystemClipboardFailure,
    InputReceived,
    Visible,
    CustomMessage,
    FileSystemCreate,
    FileSystemRead,
    FileSystemUpdate,
    FileSystemDelete,
}

/// An event pushed from the host to a plugin. This bridge only ever builds
/// timer events; the other event kinds are produced by outside collaborators.
#[derive(Clone, Debug, PartialEq, Eq, Structural)]
pub enum Event {
    /// Carries the measured elapsed wall-clock time, in milliseconds, between
    /// the moment a timeout was scheduled and the moment it fired.
    Timer(u64),
}

/// The host's input modes a plugin may switch the client to.
#[derive(Clone, Copy, Debug, PartialEq, Eq, Structural)]
pub enum InputMode {
    Normal,
    Locked,
    Resize,
    Pane,
    Tab,
    Scroll,
    EnterSearch,
    Search,
    RenameTab,
    RenamePane,
    Session,
    Move,
    Prompt,
    Tmux,
}

/// A direction on the screen grid.
#[derive(Clone, Copy, Debug, PartialEq, Eq, Structural)]
pub enum Direction {
    Left,
    Right,
    Up,
    Down,
}

/// Whether a resize request grows or shrinks the focused pane.
#[derive(Clone, Copy, Debug, PartialEq, Eq, Structural)]
pub enum Resize {
    Increase,
    Decrease,
}

/// A resize request together with an optional direction to apply it in.
#[derive(Clone, Copy, Debug, PartialEq, Eq, Structural)]
pub struct ResizeStrategy {
    pub resize: Resize,
    pub direction: Option<Direction>,
}

/// Payload of a request to open a file in an editor pane.
#[derive(Clone, Debug, PartialEq, Eq)]
pub struct FileToOpen {
    pub path: String,
    pub line_number: Option<u64>,
    pub cwd: Option<String>,
}

/// Spec-level image of a `FileToOpen`.
pub struct FileToOpenV {
    pub path: Seq<char>,
    pub line_number: Option<u64>,
    pub cwd: Option<Seq<char>>,
}

impl View for FileToOpen {
    type V = FileToOpenV;

    open spec fn view(&self) -> FileToOpenV {
        FileToOpenV {
            path: self.path@,
            line_number: self.line_number,
            cwd: match self.cwd {
                Option::Some(c) => Option::Some(c@),
                Option::None => Option::None,
            },
        }
    }
}

/// Payload of a request to open a pane running a host command.
#[derive(Clone, Debug, PartialEq, Eq)]
pub struct CommandToRun {
    pub path: String,
    pub args: Vec<String>,
    pub cwd: Option<String>,
}

/// Spec-level image of a `CommandToRun`.
pub struct CommandToRunV {
    pub path: Seq<char>,
    pub args: Seq<Seq<char>>,
    pub cwd: Option<Seq<char>>,
}

impl View for CommandToRun {
    type V = CommandToRunV;

    open spec fn view(&self) -> CommandToRunV {
        CommandToRunV {
            path: self.path@,
            args: Seq::new(self.args@.len(), |i: int| self.args@[i]@),
            cwd: match self.cwd {
                Option::Some(c) => Option::Some(c@),
                Option::None => Option::None,
            },
        }
    }
}

/// Payload of a message addressed to a plugin or to one of its workers.
#[derive(Clone, Debug, PartialEq, Eq)]
pub struct PluginMessage {
    pub name: String,
    pub payload: String,
    pub worker_name: Option<String>,
}

/// Spec-level image of a `PluginMessage`.
pub struct PluginMessageV {
    pub name: Seq<char>,
    pub payload: Seq<char>,
    pub worker_name: Option<Seq<char>>,
}

impl View for PluginMessage {
    type V = PluginMessageV;

    open spec fn view(&self) -> PluginMessageV {
        PluginMessageV {
            name: self.name@,
            payload: self.payload@,
            worker_name: match self.worker_name {
                Option::Some(c) => Option::Some(c@),
                Option::None => Option::None,
            },
        }
    }
}

/// The identity record a plugin can query from the host: its own id and the
/// host process id.
#[derive(Clone, Copy, Debug, PartialEq, Eq, Structural)]
pub struct PluginIds {
    pub plugin_id: u32,
    pub host_pid: u32,
}

/// A command issued by the sandboxed guest, decoded from its serialized wire
/// form. Each variant carries only the payload that operation needs.
#[derive(Clone, Debug, PartialEq, Eq)]
pub enum PluginCommand {
    Subscribe(Vec<EventType>),
    Unsubscribe(Vec<EventType>),
    SetSelectable(bool),
    GetPluginIds,
    GetZellijVersion,
    OpenFile(FileToOpen),
    OpenFileFloating(FileToOpen),
    OpenTerminal(String),
    OpenTerminalFloating(String),
    OpenCommandPane(CommandToRun),
    OpenCommandPaneFloating(CommandToRun),
    SwitchTabTo(u32),
    SetTimeout(u64),
    ExecCmd(Vec<String>),
    PostMessageTo(PluginMessage),
    PostMessageToPlugin(PluginMessage),
    HideSelf,
    ShowSelf(bool),
    SwitchToMode(InputMode),
    NewTabsWithLayout(String),
    NewTab,
    GoToNextTab,
    GoToPreviousTab,
    Resize(Resize),
    ResizeWithDirection(ResizeStrategy),
    FocusNextPane,
    FocusPreviousPane,
    MoveFocus(Direction),
    MoveFocusOrTab(Direction),
    Detach,
    EditScrollback,
    Write(Vec<u8>),
    WriteChars(String),
    ToggleTab,
    MovePane,
    MovePaneWithDirection(Direction),
    ClearScreen,
    ScrollUp,
    ScrollDown,
    ScrollToTop,
    ScrollToBottom,
    PageScrollUp,
    PageScrollDown,
    ToggleFocusFullscreen,
    TogglePaneFrames,
    TogglePaneEmbedOrEject,
    UndoRenamePane,
    CloseFocus,
    ToggleActiveTabSync,
    CloseFocusedTab,
    UndoRenameTab,
    QuitZellij,
    PreviousSwapLayout,
    NextSwapLayout,
    GoToTabName(String),
    FocusOrCreateTab(String),
    GoToTab(u32),
    StartOrReloadPlugin(String),
    CloseTerminalPane(u32),
    ClosePluginPane(u32),
    FocusTerminalPane(u32, bool),
    FocusPluginPane(u32, bool),
    RenameTerminalPane(u32, String),
    RenamePluginPane(u32, String),
    RenameTab(u32, String),
    ReportPanic(String),
}

/// Spec-level image of a `PluginCommand`: the same tagged union with every
/// text payload as a `Seq<char>` and every buffer as a `Seq<u8>`.
pub enum PluginCommandV {
    Subscribe(Seq<EventType>),
    Unsubscribe(Seq<EventType>),
    SetSelectable(bool),
    GetPluginIds,
    GetZellijVersion,
    OpenFile(FileToOpenV),
    OpenFileFloating(FileToOpenV),
    OpenTerminal(Seq<char>),
    OpenTerminalFloating(Seq<char>),
    OpenCommandPane(CommandToRunV),
    OpenCommandPaneFloating(CommandToRunV),
    SwitchTabTo(u32),
    SetTimeout(u64),
    ExecCmd(Seq<Seq<char>>),
    PostMessageTo(PluginMessageV),
    PostMessageToPlugin(PluginMessageV),
    HideSelf,
    ShowSelf(bool),
    SwitchToMode(InputMode),
    NewTabsWithLayout(Seq<char>),
    NewTab,
    GoToNextTab,
    GoToPreviousTab,
    Resize(Resize),
    ResizeWithDirection(ResizeStrategy),
    FocusNextPane,
    FocusPreviousPane,
    MoveFocus(Direction),
    MoveFocusOrTab(Direction),
    Detach,
    EditScrollback,
    Write(Seq<u8>),
    WriteChars(Seq<char>),
    ToggleTab,
    MovePane,
    MovePaneWithDirection(Direction),
    ClearScreen,
    ScrollUp,
    ScrollDown,
    ScrollToTop,
    ScrollToBottom,
    PageScrollUp,
    PageScrollDown,
    ToggleFocusFullscreen,
    TogglePaneFrames,
    TogglePaneEmbedOrEject,
    UndoRenamePane,
    CloseFocus,
    ToggleActiveTabSync,
    CloseFocusedTab,
    UndoRenameTab,
    QuitZellij,
    PreviousSwapLayout,
    NextSwapLayout,
    GoToTabName(Seq<char>),
    FocusOrCreateTab(Seq<char>),
    GoToTab(u32),
    StartOrReloadPlugin(Seq<char>),
    CloseTerminalPane(u32),
    ClosePluginPane(u32),
    FocusTerminalPane(u32, bool),
    FocusPluginPane(u32, bool),
    RenameTerminalPane(u32, Seq<char>),
    RenamePluginPane(u32, Seq<char>),
    RenameTab(u32, Seq<char>),
    ReportPanic(Seq<char>),
}

/// Spec-level image of a `Vec<String>`.
pub open spec fn strings_view(v: Seq<String>) -> Seq<Seq<char>> {
    Seq::new(v.len(), |i: int| v[i]@)
}

impl View for PluginCommand {
    type V = PluginCommandV;

    open spec fn view(&self) -> PluginCommandV {
        match self {
            PluginCommand::Subscribe(e) => PluginCommandV::Subscribe(e@),
            PluginCommand::Unsubscribe(e) => PluginCommandV::Unsubscribe(e@),
            PluginCommand::SetSelectable(b) => PluginCommandV::SetSelectable(*b),
            PluginCommand::GetPluginIds => PluginCommandV::GetPluginIds,
            PluginCommand::GetZellijVersion => PluginCommandV::GetZellijVersion,
            PluginCommand::OpenFile(f) => PluginCommandV::OpenFile(f@),
            PluginCommand::OpenFileFloating(f) => PluginCommandV::OpenFileFloating(f@),
            PluginCommand::OpenTerminal(p) => PluginCommandV::OpenTerminal(p@),
            PluginCommand::OpenTerminalFloating(p) => PluginCommandV::OpenTerminalFloating(p@),
            PluginCommand::OpenCommandPane(c) => PluginCommandV::OpenCommandPane(c@),
            PluginCommand::OpenCommandPaneFloating(c) => PluginCommandV::OpenCommandPaneFloating(
                c@,
            ),
            PluginCommand::SwitchTabTo(i) => PluginCommandV::SwitchTabTo(*i),
            PluginCommand::SetTimeout(ms) => PluginCommandV::SetTimeout(*ms),
            PluginCommand::ExecCmd(line) => PluginCommandV::ExecCmd(strings_view(line@)),
            PluginCommand::PostMessageTo(m) => PluginCommandV::PostMessageTo(m@),
            PluginCommand::PostMessageToPlugin(m) => PluginCommandV::PostMessageToPlugin(m@),
            PluginCommand::HideSelf => PluginCommandV::HideSelf,
            PluginCommand::ShowSelf(b) => PluginCommandV::ShowSelf(*b),
            PluginCommand::SwitchToMode(m) => PluginCommandV::SwitchToMode(*m),
            PluginCommand::NewTabsWithLayout(l) => PluginCommandV::NewTabsWithLayout(l@),
            PluginCommand::NewTab => PluginCommandV::NewTab,
            PluginCommand::GoToNextTab => PluginCommandV::GoToNextTab,
            PluginCommand::GoToPreviousTab => PluginCommandV::GoToPreviousTab,
            PluginCommand::Resize(r) => PluginCommandV::Resize(*r),
            PluginCommand::ResizeWithDirection(r) => PluginCommandV::ResizeWithDirection(*r),
            PluginCommand::FocusNextPane => PluginCommandV::FocusNextPane,
            PluginCommand::FocusPreviousPane => PluginCommandV::FocusPreviousPane,
            PluginCommand::MoveFocus(d) => PluginCommandV::MoveFocus(*d),
            PluginCommand::MoveFocusOrTab(d) => PluginCommandV::MoveFocusOrTab(*d),
            PluginCommand::Detach => PluginCommandV::Detach,
            PluginCommand::EditScrollback => PluginCommandV::EditScrollback,
            PluginCommand::Write(b) => PluginCommandV::Write(b@),
            PluginCommand::WriteChars(s) => PluginCommandV::WriteChars(s@),
            PluginCommand::ToggleTab => PluginCommandV::ToggleTab,
            PluginCommand::MovePane => PluginCommandV::MovePane,
            PluginCommand::MovePaneWithDirection(d) => PluginCommandV::MovePaneWithDirection(*d),
            PluginCommand::ClearScreen => PluginCommandV::ClearScreen,
            PluginCommand::ScrollUp => PluginCommandV::ScrollUp,
            PluginCommand::ScrollDown => PluginCommandV::ScrollDown,
            PluginCommand::ScrollToTop => PluginCommandV::ScrollToTop,
            PluginCommand::ScrollToBottom => PluginCommandV::ScrollToBottom,
            PluginCommand::PageScrollUp => PluginCommandV::PageScrollUp,
            PluginCommand::PageScrollDown => PluginCommandV::PageScrollDown,
            PluginCommand::ToggleFocusFullscreen => PluginCommandV::ToggleFocusFullscreen,
            PluginCommand::TogglePaneFrames => PluginCommandV::TogglePaneFrames,
            PluginCommand::TogglePaneEmbedOrEject => PluginCommandV::TogglePaneEmbedOrEject,
            PluginCommand::UndoRenamePane => PluginCommandV::UndoRenamePane,
            PluginCommand::CloseFocus => PluginCommandV::CloseFocus,
            PluginCommand::ToggleActiveTabSync => PluginCommandV::ToggleActiveTabSync,
            PluginCommand::CloseFocusedTab => PluginCommandV::CloseFocusedTab,
            PluginCommand::UndoRenameTab => PluginCommandV::UndoRenameTab,
            PluginCommand::QuitZellij => PluginCommandV::QuitZellij,
            PluginCommand::PreviousSwapLayout => PluginCommandV::PreviousSwapLayout,
            PluginCommand::NextSwapLayout => PluginCommandV::NextSwapLayout,
            PluginCommand::GoToTabName(n) => PluginCommandV::GoToTabName(n@),
            PluginCommand::FocusOrCreateTab(n) => PluginCommandV::FocusOrCreateTab(n@),
            PluginCommand::GoToTab(i) => PluginCommandV::GoToTab(*i),
            PluginCommand::StartOrReloadPlugin(u) => PluginCommandV::StartOrReloadPlugin(u@),
            PluginCommand::CloseTerminalPane(i) => PluginCommandV::CloseTerminalPane(*i),
            PluginCommand::ClosePluginPane(i) => PluginCommandV::ClosePluginPane(*i),
            PluginCommand::FocusTerminalPane(i, b) => PluginCommandV::FocusTerminalPane(*i, *b),
            PluginCommand::FocusPluginPane(i, b) => PluginCommandV::FocusPluginPane(*i, *b),
            PluginCommand::RenameTerminalPane(i, n) => PluginCommandV::RenameTerminalPane(*i, n@),
            PluginCommand::RenamePluginPane(i, n) => PluginCommandV::RenamePluginPane(*i, n@),
            PluginCommand::RenameTab(i, n) => PluginCommandV::RenameTab(*i, n@),
            PluginCommand::ReportPanic(m) => PluginCommandV::ReportPanic(m@),
        }
    }
}

} // verus!
