use plugin_bridge::action::{Action, RunPlugin, RunPluginLocation, TerminalAction};
use plugin_bridge::codec::encode_command;
use plugin_bridge::data::{
    CommandToRun, Direction, Event, EventType, FileToOpen, InputMode, PluginCommand,
    PluginMessage, Resize, ResizeStrategy,
};
use plugin_bridge::dispatch::{
    dispatch, run_plugin_command, timer_update, Effect, LogLevel, LogMessage, PaneId, PluginEnv,
    PluginInstruction, PluginType, ScreenInstruction,
};
use plugin_bridge::subscriptions::Subscriptions;

fn env(allow_exec: bool) -> PluginEnv {
    PluginEnv {
        plugin_id: 7,
        client_id: 3,
        name: "status-bar".to_string(),
        allow_exec_host_cmd: allow_exec,
        host_pid: 4242,
        cwd: "/work".to_string(),
        plugin_type: PluginType::Pane(Some(0)),
        default_shell: None,
    }
}

#[test]
fn subscribe_updates_registry_and_notifies_host() {
    let env = env(false);
    let mut subs = Subscriptions::new();
    let buf = encode_command(&PluginCommand::Subscribe(vec![
        EventType::Key,
        EventType::Timer,
    ]));
    let effects = run_plugin_command(&env, &mut subs, &buf);
    let current = subs.current();
    assert_eq!(current.len(), 2);
    assert!(subs.contains(EventType::Key));
    assert!(subs.contains(EventType::Timer));
    assert_eq!(effects.len(), 1);
    match &effects[0] {
        Effect::Instr(PluginInstruction::PluginSubscribedToEvents(pid, cid, keys)) => {
            assert_eq!(*pid, 7);
            assert_eq!(*cid, 3);
            assert_eq!(keys, &vec![EventType::Key, EventType::Timer]);
        },
        other => panic!("expected a subscription instruction, got {:?}", other),
    }
}

#[test]
fn unsubscribe_sends_no_notification() {
    let env = env(false);
    let mut subs = Subscriptions::new();
    subs.subscribe(&vec![EventType::Key]);
    let effects = dispatch(&env, &mut subs, PluginCommand::Unsubscribe(vec![EventType::Key]));
    assert!(effects.is_empty());
    assert!(subs.current().is_empty());
}

#[test]
fn open_file_forwards_a_non_floating_edit() {
    let env = env(false);
    let mut subs = Subscriptions::new();
    let buf = encode_command(&PluginCommand::OpenFile(FileToOpen {
        path: "/tmp/a.txt".to_string(),
        line_number: Some(5),
        cwd: None,
    }));
    let effects = run_plugin_command(&env, &mut subs, &buf);
    assert_eq!(
        effects,
        vec![Effect::Forward(Action::EditFile(
            "/tmp/a.txt".to_string(),
            Some(5),
            None,
            None,
            false,
        ))]
    );
}

#[test]
fn exec_cmd_with_permission_spawns_detached() {
    let env = env(true);
    let mut subs = Subscriptions::new();
    let effects = dispatch(
        &env,
        &mut subs,
        PluginCommand::ExecCmd(vec!["ls".to_string(), "-la".to_string()]),
    );
    assert_eq!(
        effects,
        vec![Effect::Spawn("ls".to_string(), vec!["-la".to_string()])]
    );
}

#[test]
fn exec_cmd_without_permission_spawns_nothing_and_warns_once() {
    let env = env(false);
    let mut subs = Subscriptions::new();
    let effects = dispatch(
        &env,
        &mut subs,
        PluginCommand::ExecCmd(vec!["rm".to_string(), "-rf".to_string()]),
    );
    assert_eq!(effects.len(), 1);
    match &effects[0] {
        Effect::Log(LogLevel::Warn, LogMessage::ExecDenied(command, args)) => {
            assert_eq!(command, "rm");
            assert_eq!(args, &vec!["-rf".to_string()]);
        },
        other => panic!("expected one warning, got {:?}", other),
    }
    assert!(!effects.iter().any(|e| matches!(e, Effect::Spawn(_, _))));
}

#[test]
fn get_plugin_ids_replies_on_guest_channel_only() {
    let env = env(false);
    let mut subs = Subscriptions::new();
    let buf = encode_command(&PluginCommand::GetPluginIds);
    let effects = run_plugin_command(&env, &mut subs, &buf);
    assert_eq!(effects.len(), 1);
    match &effects[0] {
        Effect::GuestReply(bytes) => {
            let mut expected = 7u32.to_le_bytes().to_vec();
            expected.extend_from_slice(&4242u32.to_le_bytes());
            assert_eq!(bytes, &expected);
        },
        other => panic!("expected a guest reply, got {:?}", other),
    }
    assert!(!effects.iter().any(|e| matches!(e, Effect::Instr(_))));
}

#[test]
fn get_version_replies_with_version_text() {
    let env = env(false);
    let mut subs = Subscriptions::new();
    let effects = dispatch(&env, &mut subs, PluginCommand::GetZellijVersion);
    assert_eq!(effects, vec![Effect::GuestReply(b"0.37.2".to_vec())]);
}

#[test]
fn corrupted_buffer_leaves_registry_untouched() {
    let env = env(false);
    let mut subs = Subscriptions::new();
    subs.subscribe(&vec![EventType::Key]);
    let before = subs.current();
    let mut buf = encode_command(&PluginCommand::Subscribe(vec![EventType::Timer]));
    buf.truncate(3);
    let effects = run_plugin_command(&env, &mut subs, &buf);
    assert_eq!(subs.current(), before);
    assert_eq!(effects.len(), 1);
    assert!(matches!(
        effects[0],
        Effect::Log(LogLevel::Error, LogMessage::DecodeFailed(_))
    ));
}

#[test]
fn set_timeout_schedules_one_timer() {
    let env = env(false);
    let mut subs = Subscriptions::new();
    let effects = dispatch(&env, &mut subs, PluginCommand::SetTimeout(2500));
    assert_eq!(effects, vec![Effect::StartTimer(2500)]);
}

#[test]
fn repeated_timeouts_produce_independent_timer_events() {
    let mut updates = Vec::new();
    for n in 0..3u64 {
        updates.push(timer_update(7, 3, 1000 + n));
    }
    assert_eq!(updates.len(), 3);
    for (n, u) in updates.iter().enumerate() {
        match u {
            PluginInstruction::Update(items) => {
                assert_eq!(items.len(), 1);
                let (pid, cid, event) = &items[0];
                assert_eq!(*pid, Some(7));
                assert_eq!(*cid, Some(3));
                assert_eq!(*event, Event::Timer(1000 + n as u64));
            },
            other => panic!("expected an update instruction, got {:?}", other),
        }
    }
}

#[test]
fn timer_event_carries_measured_elapsed_time() {
    let requested: u64 = 1000;
    let measured: u64 = 1013;
    match timer_update(9, 2, measured) {
        PluginInstruction::Update(items) => {
            let (pid, cid, event) = &items[0];
            assert_eq!((*pid, *cid), (Some(9), Some(2)));
            match event {
                Event::Timer(elapsed) => assert!(*elapsed >= requested),
            }
        },
        other => panic!("expected an update instruction, got {:?}", other),
    }
}

#[test]
fn set_selectable_in_a_pane_goes_to_screen() {
    let env = env(false);
    let mut subs = Subscriptions::new();
    let effects = dispatch(&env, &mut subs, PluginCommand::SetSelectable(true));
    assert_eq!(
        effects,
        vec![Effect::Screen(ScreenInstruction::SetSelectable(
            PaneId::Plugin(7),
            true,
            0,
        ))]
    );
}

#[test]
fn set_selectable_headless_is_logged_and_ignored() {
    let mut e = env(false);
    e.plugin_type = PluginType::Headless;
    let mut subs = Subscriptions::new();
    let effects = dispatch(&e, &mut subs, PluginCommand::SetSelectable(true));
    assert_eq!(
        effects,
        vec![Effect::Log(LogLevel::Debug, LogMessage::SelectableIgnored)]
    );
}

#[test]
fn start_or_reload_plugin_parses_its_location() {
    let env = env(false);
    let mut subs = Subscriptions::new();
    let effects = dispatch(
        &env,
        &mut subs,
        PluginCommand::StartOrReloadPlugin("zellij:tab-bar".to_string()),
    );
    assert_eq!(
        effects,
        vec![Effect::Forward(Action::StartOrReloadPlugin(RunPlugin {
            location: RunPluginLocation::Zellij("tab-bar".to_string()),
            allow_exec_host_cmd: false,
        }))]
    );
}

#[test]
fn start_or_reload_plugin_refuses_bad_urls() {
    let env = env(false);
    let mut subs = Subscriptions::new();
    let effects = dispatch(
        &env,
        &mut subs,
        PluginCommand::StartOrReloadPlugin("no scheme at all".to_string()),
    );
    assert_eq!(effects.len(), 1);
    assert!(matches!(
        effects[0],
        Effect::Log(LogLevel::Error, LogMessage::UrlInvalid(_))
    ));
}

#[test]
fn worker_message_without_worker_name_is_an_error() {
    let env = env(false);
    let mut subs = Subscriptions::new();
    let effects = dispatch(
        &env,
        &mut subs,
        PluginCommand::PostMessageTo(PluginMessage {
            name: "ping".to_string(),
            payload: "{}".to_string(),
            worker_name: None,
        }),
    );
    assert_eq!(
        effects,
        vec![Effect::Log(LogLevel::Error, LogMessage::WorkerNameMissing)]
    );
}

#[test]
fn open_terminal_uses_default_shell() {
    let mut e = env(false);
    e.default_shell = Some(TerminalAction::RunCommand(plugin_bridge::action::RunCommand {
        command: "fish".to_string(),
        args: vec![],
        cwd: None,
        hold_on_close: false,
    }));
    let mut subs = Subscriptions::new();
    let effects = dispatch(&e, &mut subs, PluginCommand::OpenTerminal("/home".to_string()));
    assert_eq!(effects.len(), 1);
    match &effects[0] {
        Effect::Forward(Action::NewTiledPane(None, Some(rca), None)) => {
            assert_eq!(rca.command, "fish");
            assert_eq!(rca.cwd, Some("/home".to_string()));
            assert_eq!(rca.hold_on_start, false);
        },
        other => panic!("expected a tiled pane action, got {:?}", other),
    }
}

#[test]
fn report_panic_logs_and_reports_the_crash() {
    let env = env(false);
    let mut subs = Subscriptions::new();
    let effects = dispatch(&env, &mut subs, PluginCommand::ReportPanic("boom".to_string()));
    assert_eq!(effects.len(), 2);
    assert!(matches!(
        &effects[0],
        Effect::Log(LogLevel::Error, LogMessage::PluginPanic(m)) if m == "boom"
    ));
    assert_eq!(
        effects[1],
        Effect::Instr(PluginInstruction::CrashReport(7, "boom".to_string()))
    );
}

#[test]
fn every_command_variant_reaches_a_handler() {
    let commands = vec![
        PluginCommand::Subscribe(vec![EventType::Key]),
        PluginCommand::Unsubscribe(vec![EventType::Key]),
        PluginCommand::SetSelectable(true),
        PluginCommand::GetPluginIds,
        PluginCommand::GetZellijVersion,
        PluginCommand::OpenFile(FileToOpen {
            path: "/a".to_string(),
            line_number: None,
            cwd: None,
        }),
        PluginCommand::OpenFileFloating(FileToOpen {
            path: "/a".to_string(),
            line_number: None,
            cwd: None,
        }),
        PluginCommand::OpenTerminal("/a".to_string()),
        PluginCommand::OpenTerminalFloating("/a".to_string()),
        PluginCommand::OpenCommandPane(CommandToRun {
            path: "x".to_string(),
            args: vec![],
            cwd: None,
        }),
        PluginCommand::OpenCommandPaneFloating(CommandToRun {
            path: "x".to_string(),
            args: vec![],
            cwd: None,
        }),
        PluginCommand::SwitchTabTo(1),
        PluginCommand::SetTimeout(1),
        PluginCommand::ExecCmd(vec!["x".to_string()]),
        PluginCommand::PostMessageTo(PluginMessage {
            name: "n".to_string(),
            payload: "p".to_string(),
            worker_name: Some("w".to_string()),
        }),
        PluginCommand::PostMessageToPlugin(PluginMessage {
            name: "n".to_string(),
            payload: "p".to_string(),
            worker_name: None,
        }),
        PluginCommand::HideSelf,
        PluginCommand::ShowSelf(true),
        PluginCommand::SwitchToMode(InputMode::Normal),
        PluginCommand::NewTabsWithLayout("layout".to_string()),
        PluginCommand::NewTab,
        PluginCommand::GoToNextTab,
        PluginCommand::GoToPreviousTab,
        PluginCommand::Resize(Resize::Increase),
        PluginCommand::ResizeWithDirection(ResizeStrategy {
            resize: Resize::Increase,
            direction: None,
        }),
        PluginCommand::FocusNextPane,
        PluginCommand::FocusPreviousPane,
        PluginCommand::MoveFocus(Direction::Up),
        PluginCommand::MoveFocusOrTab(Direction::Up),
        PluginCommand::Detach,
        PluginCommand::EditScrollback,
        PluginCommand::Write(vec![0]),
        PluginCommand::WriteChars("c".to_string()),
        PluginCommand::ToggleTab,
        PluginCommand::MovePane,
        PluginCommand::MovePaneWithDirection(Direction::Up),
        PluginCommand::ClearScreen,
        PluginCommand::ScrollUp,
        PluginCommand::ScrollDown,
        PluginCommand::ScrollToTop,
        PluginCommand::ScrollToBottom,
        PluginCommand::PageScrollUp,
        PluginCommand::PageScrollDown,
        PluginCommand::ToggleFocusFullscreen,
        PluginCommand::TogglePaneFrames,
        PluginCommand::TogglePaneEmbedOrEject,
        PluginCommand::UndoRenamePane,
        PluginCommand::CloseFocus,
        PluginCommand::ToggleActiveTabSync,
        PluginCommand::CloseFocusedTab,
        PluginCommand::UndoRenameTab,
        PluginCommand::QuitZellij,
        PluginCommand::PreviousSwapLayout,
        PluginCommand::NextSwapLayout,
        PluginCommand::GoToTabName("t".to_string()),
        PluginCommand::FocusOrCreateTab("t".to_string()),
        PluginCommand::GoToTab(1),
        PluginCommand::StartOrReloadPlugin("zellij:x".to_string()),
        PluginCommand::CloseTerminalPane(1),
        PluginCommand::ClosePluginPane(1),
        PluginCommand::FocusTerminalPane(1, false),
        PluginCommand::FocusPluginPane(1, false),
        PluginCommand::RenameTerminalPane(1, "n".to_string()),
        PluginCommand::RenamePluginPane(1, "n".to_string()),
        PluginCommand::RenameTab(1, "n".to_string()),
        PluginCommand::ReportPanic("p".to_string()),
    ];
    assert_eq!(commands.len(), 66);
    let env = env(true);
    for cmd in commands {
        let is_unsubscribe = matches!(cmd, PluginCommand::Unsubscribe(_));
        let mut subs = Subscriptions::new();
        subs.subscribe(&vec![EventType::Key]);
        let effects = dispatch(&env, &mut subs, cmd);
        if is_unsubscribe {
            // The one handler whose whole effect is the registry change.
            assert!(effects.is_empty());
            assert!(subs.current().is_empty());
        } else {
            assert!(!effects.is_empty());
        }
    }
}
