use plugin_bridge::codec::{decode_command, encode_command, DecodeError};
use plugin_bridge::data::{
    CommandToRun, Direction, EventType, FileToOpen, InputMode, PluginCommand, PluginMessage,
    Resize, ResizeStrategy,
};

fn round_trip(cmd: PluginCommand) {
    let bytes = encode_command(&cmd);
    let back = decode_command(&bytes).expect("an encoded command must decode");
    assert_eq!(back, cmd);
}

#[test]
fn round_trip_unit_commands() {
    round_trip(PluginCommand::GetPluginIds);
    round_trip(PluginCommand::GetZellijVersion);
    round_trip(PluginCommand::NewTab);
    round_trip(PluginCommand::GoToNextTab);
    round_trip(PluginCommand::QuitZellij);
    round_trip(PluginCommand::HideSelf);
    round_trip(PluginCommand::ScrollUp);
    round_trip(PluginCommand::PageScrollDown);
    round_trip(PluginCommand::ToggleFocusFullscreen);
    round_trip(PluginCommand::NextSwapLayout);
}

#[test]
fn round_trip_payload_commands() {
    round_trip(PluginCommand::Subscribe(vec![EventType::Key, EventType::Timer]));
    round_trip(PluginCommand::Unsubscribe(vec![EventType::Mouse]));
    round_trip(PluginCommand::SetSelectable(true));
    round_trip(PluginCommand::OpenFile(FileToOpen {
        path: "/tmp/a.txt".to_string(),
        line_number: Some(5),
        cwd: None,
    }));
    round_trip(PluginCommand::OpenTerminal("/home/user".to_string()));
    round_trip(PluginCommand::OpenCommandPane(CommandToRun {
        path: "cargo".to_string(),
        args: vec!["build".to_string(), "--release".to_string()],
        cwd: Some("/src".to_string()),
    }));
    round_trip(PluginCommand::SwitchTabTo(4));
    round_trip(PluginCommand::SetTimeout(1500));
    round_trip(PluginCommand::ExecCmd(vec!["ls".to_string(), "-la".to_string()]));
    round_trip(PluginCommand::PostMessageTo(PluginMessage {
        name: "ping".to_string(),
        payload: "{}".to_string(),
        worker_name: Some("indexer".to_string()),
    }));
    round_trip(PluginCommand::SwitchToMode(InputMode::Locked));
    round_trip(PluginCommand::NewTabsWithLayout("layout { pane }".to_string()));
    round_trip(PluginCommand::Resize(Resize::Decrease));
    round_trip(PluginCommand::ResizeWithDirection(ResizeStrategy {
        resize: Resize::Increase,
        direction: Some(Direction::Left),
    }));
    round_trip(PluginCommand::MoveFocus(Direction::Down));
    round_trip(PluginCommand::Write(vec![27, 91, 65]));
    round_trip(PluginCommand::WriteChars("héllo wörld".to_string()));
    round_trip(PluginCommand::GoToTabName("editor".to_string()));
    round_trip(PluginCommand::StartOrReloadPlugin("zellij:tab-bar".to_string()));
    round_trip(PluginCommand::FocusTerminalPane(9, true));
    round_trip(PluginCommand::RenameTab(2, "logs".to_string()));
    round_trip(PluginCommand::ReportPanic("boom".to_string()));
}

#[test]
fn decode_empty_buffer_is_truncated() {
    assert_eq!(decode_command(&vec![]), Err(DecodeError::Truncated));
}

#[test]
fn decode_unknown_tag_is_refused() {
    assert_eq!(decode_command(&vec![200]), Err(DecodeError::UnknownTag));
}

#[test]
fn decode_truncated_payload_is_refused() {
    let mut bytes = encode_command(&PluginCommand::Subscribe(vec![
        EventType::Key,
        EventType::Timer,
    ]));
    bytes.pop();
    assert_eq!(decode_command(&bytes), Err(DecodeError::Truncated));
}

#[test]
fn decode_trailing_bytes_are_refused() {
    let mut bytes = encode_command(&PluginCommand::GetPluginIds);
    bytes.push(0);
    assert_eq!(decode_command(&bytes), Err(DecodeError::TrailingBytes));
}

#[test]
fn decode_bad_bool_is_refused() {
    // SetSelectable carries one byte that must be zero or one.
    assert_eq!(decode_command(&vec![2, 7]), Err(DecodeError::InvalidValue));
}

#[test]
fn decode_bad_event_tag_is_refused() {
    // Subscribe with one event whose tag is out of range.
    assert_eq!(
        decode_command(&vec![0, 1, 0, 0, 0, 99]),
        Err(DecodeError::InvalidValue)
    );
}

#[test]
fn decode_bad_utf8_is_refused() {
    // WriteChars with a one-byte text that is not UTF-8.
    assert_eq!(
        decode_command(&vec![32, 1, 0, 0, 0, 0xFF]),
        Err(DecodeError::InvalidUtf8)
    );
}

#[test]
fn wire_form_of_a_unit_command_is_its_tag() {
    assert_eq!(encode_command(&PluginCommand::GetPluginIds), vec![3]);
    assert_eq!(encode_command(&PluginCommand::GetZellijVersion), vec![4]);
}

#[test]
fn wire_form_of_switch_tab_is_tag_and_le_index() {
    assert_eq!(
        encode_command(&PluginCommand::SwitchTabTo(258)),
        vec![11, 2, 1, 0, 0]
    );
}
