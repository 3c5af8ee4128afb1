use plugin_bridge::channel::{
    decode_request_frame, encode_reply_frame, frame_for_guest, normalize_guest_output,
};
use plugin_bridge::codec::{decode_command, encode_command};
use plugin_bridge::data::{EventType, PluginCommand};

#[test]
fn outgoing_frames_end_in_carriage_return_and_line_feed() {
    assert_eq!(frame_for_guest(&vec![65, 66]), vec![65, 66, 13, 10]);
    assert_eq!(frame_for_guest(&vec![]), vec![13, 10]);
}

#[test]
fn guest_output_gets_carriage_returns_after_line_feeds() {
    assert_eq!(
        normalize_guest_output(&b"a\nb\n".to_vec()),
        b"a\n\rb\n\r".to_vec()
    );
    assert_eq!(normalize_guest_output(&b"plain".to_vec()), b"plain".to_vec());
}

#[test]
fn reply_frames_are_json_arrays_of_numbers() {
    let framed = encode_reply_frame(&vec![1, 2, 250]);
    assert_eq!(framed, b"[1,2,250]\r\n".to_vec());
}

#[test]
fn request_frames_are_parsed_back_to_bytes() {
    let parsed = decode_request_frame(&b"[5,0,255]".to_vec());
    assert_eq!(parsed, Some(vec![5, 0, 255]));
}

#[test]
fn request_frames_that_are_no_byte_arrays_are_refused() {
    assert_eq!(decode_request_frame(&b"{\"a\": 1}".to_vec()), None);
    assert_eq!(decode_request_frame(&b"not json".to_vec()), None);
}

#[test]
fn a_command_survives_the_whole_guest_channel() {
    // The guest serializes its command bytes as JSON, as the channel expects.
    let cmd = PluginCommand::Subscribe(vec![EventType::Key, EventType::Timer]);
    let wire = encode_command(&cmd);
    let guest_output = serde_json::to_vec(&wire).unwrap();
    let recovered = decode_request_frame(&guest_output).expect("the frame parses");
    assert_eq!(decode_command(&recovered), Ok(cmd));
}
