//! The host's vocabulary of user-level intents, the records they carry, and
//! the parsing of plugin locations out of URL text.

use vstd::prelude::*;

use crate::data::Direction;
use crate::data::InputMode;
use crate::data::Resize;

verus! {

/// A command line a pane can run, with the host's hold-on-close policy.
#[derive(Clone, Debug, PartialEq, Eq)]
pub struct RunCommand {
    pub command: String,
    pub args: Vec<String>,
    pub cwd: Option<String>,
    pub hold_on_close: bool,
}

impl RunCommand {
    /// The host's fallback shell record: an empty command line that the
    /// consuming side resolves to the default shell.
    pub fn new_default() -> (r: RunCommand)
        ensures
            r.command@.len() == 0,
            r.args@.len() == 0,
            r.cwd is None,
            r.hold_on_close == false,
    {
        RunCommand { command: String::new(), args: Vec::new(), cwd: None, hold_on_close: false }
    }
}

/// A command line a pane can run, together with placement directives.
#[derive(Clone, Debug, PartialEq, Eq)]
pub struct RunCommandAction {
    pub command: String,
    pub args: Vec<String>,
    pub cwd: Option<String>,
    pub direction: Option<Direction>,
    pub hold_on_close: bool,
    pub hold_on_start: bool,
}

/// What a fresh terminal pane should run: a command line, or a file opened
/// in the host's editor.
#[derive(Clone, Debug, PartialEq, Eq)]
pub enum TerminalAction {
    RunCommand(RunCommand),
    OpenFile(String, Option<u64>, Option<String>),
}

impl TerminalAction {
    /// Point the action at the given working directory. A command line takes
    /// it as its cwd; an editor target keeps its own path and is unchanged.
    pub fn change_cwd(&mut self, cwd: String)
        ensures
            match *old(self) {
                TerminalAction::RunCommand(rc) => *final(self) == TerminalAction::RunCommand(
                    RunCommand {
                        command: rc.command,
                        args: rc.args,
                        cwd: Some(cwd),
                        hold_on_close: rc.hold_on_close,
                    },
                ),
                TerminalAction::OpenFile(_, _, _) => *final(self) == *old(self),
            },
    {
        match self {
            TerminalAction::RunCommand(rc) => {
                rc.cwd = Some(cwd);
            },
            TerminalAction::OpenFile(_, _, _) => {},
        }
    }
}

/// An opaque tiled-pane arrangement, produced by the host's layout parser
/// (an outside collaborator) and only carried through by this bridge.
#[derive(Clone, Debug, PartialEq, Eq)]
pub struct TiledPaneLayout {
    pub source: String,
}

/// An opaque floating-pane arrangement; see `TiledPaneLayout`.
#[derive(Clone, Debug, PartialEq, Eq)]
pub struct FloatingPaneLayout {
    pub source: String,
}

/// An opaque swap arrangement for tiled panes; see `TiledPaneLayout`.
#[derive(Clone, Debug, PartialEq, Eq)]
pub struct SwapTiledLayout {
    pub source: String,
}

/// An opaque swap arrangement for floating panes; see `TiledPaneLayout`.
#[derive(Clone, Debug, PartialEq, Eq)]
pub struct SwapFloatingLayout {
    pub source: String,
}

/// One tab of a parsed layout.
#[derive(Clone, Debug, PartialEq, Eq)]
pub struct LayoutTab {
    pub name: Option<String>,
    pub tiled: TiledPaneLayout,
    pub floating: Vec<FloatingPaneLayout>,
}

/// A parsed layout, as handed back by the host's layout parser.
#[derive(Clone, Debug, PartialEq, Eq)]
pub struct Layout {
    pub template: Option<TiledPaneLayout>,
    pub template_floating: Vec<FloatingPaneLayout>,
    pub tabs: Vec<LayoutTab>,
    pub swap_tiled_layouts: Vec<SwapTiledLayout>,
    pub swap_floating_layouts: Vec<SwapFloatingLayout>,
}

/// Where a plugin's code lives.
#[derive(Clone, Debug, PartialEq, Eq)]
pub enum RunPluginLocation {
    /// A wasm file on the host's file system, by absolute path.
    File(String),
    /// A plugin bundled with the host, by its tag.
    Zellij(String),
}

/// Spec-level image of a `RunPluginLocation`.
pub enum RunPluginLocationV {
    File(Seq<char>),
    Zellij(Seq<char>),
}

impl View for RunPluginLocation {
    type V = RunPluginLocationV;

    open spec fn view(&self) -> RunPluginLocationV {
        match self {
            RunPluginLocation::File(p) => RunPluginLocationV::File(p@),
            RunPluginLocation::Zellij(t) => RunPluginLocationV::Zellij(t@),
        }
    }
}

/// A plugin to start or reload, with the capability it would get.
#[derive(Clone, Debug, PartialEq, Eq)]
pub struct RunPlugin {
    pub location: RunPluginLocation,
    pub allow_exec_host_cmd: bool,
}

/// A user-level intent handed to the host's action router.
#[derive(Clone, Debug, PartialEq, Eq)]
pub enum Action {
    EditFile(String, Option<u64>, Option<String>, Option<Direction>, bool),
    NewTiledPane(Option<Direction>, Option<RunCommandAction>, Option<String>),
    NewFloatingPane(Option<RunCommandAction>, Option<String>),
    SwitchToMode(InputMode),
    NewTab(
        Option<TiledPaneLayout>,
        Vec<FloatingPaneLayout>,
        Option<Vec<SwapTiledLayout>>,
        Option<Vec<SwapFloatingLayout>>,
        Option<String>,
    ),
    GoToNextTab,
    GoToPreviousTab,
    Resize(Resize, Option<Direction>),
    FocusNextPane,
    FocusPreviousPane,
    MoveFocus(Direction),
    MoveFocusOrTab(Direction),
    Detach,
    EditScrollback,
    Write(Vec<u8>),
    WriteChars(String),
    ToggleTab,
    MovePane(Option<Direction>),
    ClearScreen,
    ScrollUp,
    ScrollDown,
    ScrollToTop,
    ScrollToBottom,
    PageScrollUp,
    PageScrollDown,
    ToggleFocusFullscreen,
    TogglePaneFrames,
    TogglePaneEmbedOrFloating,
    UndoRenamePane,
    CloseFocus,
    ToggleActiveSyncTab,
    CloseTab,
    UndoRenameTab,
    Quit,
    PreviousSwapLayout,
    NextSwapLayout,
    GoToTabName(String, bool),
    GoToTab(u32),
    StartOrReloadPlugin(RunPlugin),
    CloseTerminalPane(u32),
    ClosePluginPane(u32),
    FocusTerminalPaneWithId(u32, bool),
    FocusPluginPaneWithId(u32, bool),
    RenameTerminalPane(u32, Vec<u8>),
    RenamePluginPane(u32, Vec<u8>),
    RenameTab(u32, Vec<u8>),
}

// ---------------------------------------------------------------------------
// Plugin locations out of URL text.
// ---------------------------------------------------------------------------

/// The normalized serialization of a URL, or nothing when the text is no
/// URL. Computed by the `url` crate; a function of the text alone.
pub uninterp spec fn url_norm_of(s: Seq<char>) -> Option<Seq<char>>;

/// Relies on `url::Url::parse` and `url::Url::as_str`: parsing either fails
/// or yields the URL's normalized serialization, both depending on the input
/// text alone.
#[verifier::external_body]
pub(crate) fn parse_url(s: &str) -> (r: Option<String>)
    ensures
        r is Some <==> url_norm_of(s@) is Some,
        r matches Some(t) ==> url_norm_of(s@) == Some(t@),
{
    match url::Url::parse(s) {
        Ok(u) => Some(u.as_str().to_string()),
        Err(_) => None,
    }
}

/// Whether `p` is a prefix of `s`, character for character.
pub open spec fn spec_has_prefix(s: Seq<char>, p: Seq<char>) -> bool {
    s.len() >= p.len() && s.subrange(0, p.len() as int) == p
}

fn has_prefix(s: &str, p: &str) -> (r: bool)
    ensures
        r == spec_has_prefix(s@, p@),
{
    let s_len = s.unicode_len();
    let p_len = p.unicode_len();
    if s_len < p_len {
        assert(!spec_has_prefix(s@, p@));
        return false;
    }
    let mut i: usize = 0;
    while i < p_len
        invariant
            i <= p_len,
            p_len == p@.len(),
            s@.len() >= p@.len(),
            forall|j: int| 0 <= j < i ==> s@[j] == p@[j],
        decreases p_len - i,
    {
        if s.get_char(i) != p.get_char(i) {
            assert(s@.subrange(0, p@.len() as int)[i as int] != p@[i as int]);
            return false;
        }
        i += 1;
    }
    proof {
        assert(s@.subrange(0, p@.len() as int) =~= p@);
    }
    true
}

/// How a plugin location is read out of normalized URL text: a `zellij:`
/// URL names a bundled plugin by tag; a `file:` URL names a wasm file,
/// resolved against `cwd` when its path is relative; any other scheme is
/// refused.
pub open spec fn spec_parse_location(u: Seq<char>, cwd: Seq<char>) -> Option<RunPluginLocationV> {
    if spec_has_prefix(u, "zellij:"@) {
        Some(RunPluginLocationV::Zellij(u.skip("zellij:"@.len() as int)))
    } else if spec_has_prefix(u, "file://"@) {
        Some(RunPluginLocationV::File(spec_resolve_path(u.skip("file://"@.len() as int), cwd)))
    } else if spec_has_prefix(u, "file:"@) {
        Some(RunPluginLocationV::File(spec_resolve_path(u.skip("file:"@.len() as int), cwd)))
    } else {
        None
    }
}

/// A relative path is resolved against the working directory; an absolute
/// one is kept as it stands.
pub open spec fn spec_resolve_path(p: Seq<char>, cwd: Seq<char>) -> Seq<char> {
    if p.len() > 0 && p[0] == '/' {
        p
    } else if cwd.len() > 0 {
        cwd + seq!['/'] + p
    } else {
        p
    }
}

fn resolve_path(p: String, cwd: &String) -> (r: String)
    ensures
        r@ == spec_resolve_path(p@, cwd@),
{
    if p.unicode_len() > 0 && p.as_str().get_char(0) == '/' {
        p
    } else if cwd.unicode_len() > 0 {
        let mut r = cwd.clone();
        r.append("/");
        proof {
            reveal_strlit("/");
            assert(cwd@ + "/"@ =~= cwd@ + seq!['/']);
        }
        r.append(p.as_str());
        proof {
            assert((cwd@ + seq!['/']) + p@ =~= cwd@ + seq!['/'] + p@);
        }
        r
    } else {
        p
    }
}

/// Read a plugin location out of normalized URL text.
pub fn parse_plugin_location(u: &String, cwd: &String) -> (r: Option<RunPluginLocation>)
    ensures
        match spec_parse_location(u@, cwd@) {
            Some(lv) => r matches Some(l) && l@ == lv,
            None => r is None,
        },
{
    proof {
        reveal_strlit("zellij:");
        reveal_strlit("file://");
        reveal_strlit("file:");
    }
    if has_prefix(u.as_str(), "zellij:") {
        let tag = u.as_str().substring_char(7, u.as_str().unicode_len());
        proof {
            assert(tag@ =~= u@.skip("zellij:"@.len() as int));
        }
        Some(RunPluginLocation::Zellij(String::from_str(tag)))
    } else if has_prefix(u.as_str(), "file://") {
        let path = u.as_str().substring_char(7, u.as_str().unicode_len());
        proof {
            assert(path@ =~= u@.skip("file://"@.len() as int));
        }
        Some(RunPluginLocation::File(resolve_path(String::from_str(path), cwd)))
    } else if has_prefix(u.as_str(), "file:") {
        let path = u.as_str().substring_char(5, u.as_str().unicode_len());
        proof {
            assert(path@ =~= u@.skip("file:"@.len() as int));
        }
        Some(RunPluginLocation::File(resolve_path(String::from_str(path), cwd)))
    } else {
        None
    }
}

} // verus!
