use agent_browser::framing::{encode_frame, encode_frames, frame_len_from_header, split_frame, FrameSplit};
use agent_browser::host::{
    cdp_endpoint_url, cdp_path_allowed, client_step, host_step, nm_log_path, random_guid,
    guid_from_fill, relay_out_action, relay_out_actions, relay_url, relay_url_path, route_action, RelayOutAction, RelayOutput, ClientAction, ClientEvent, HostInput, HostStep,
    RelayRoute, RouteAction, ATTACH_ALL_MESSAGE,
};
use agent_browser::json::json_string;
use agent_browser::text::{decimal_string, hex_lower_string, str_starts_with, trim_str};

#[test]
fn frame_encoding() {
    assert_eq!(encode_frame(b"hi"), vec![2, 0, 0, 0, b'h', b'i']);
    assert_eq!(encode_frame(b""), vec![0, 0, 0, 0]);
    let big = vec![7u8; 0x0102];
    let f = encode_frame(&big);
    assert_eq!(&f[..4], &[0x02, 0x01, 0, 0]);
    assert_eq!(f.len(), 4 + 0x0102);
}

#[test]
fn frame_header_decoding() {
    assert_eq!(frame_len_from_header([1, 2, 0, 0]), 513);
    assert_eq!(frame_len_from_header([0xff, 0xff, 0xff, 0xff]), u32::MAX);
    assert_eq!(frame_len_from_header([0, 0, 0, 1]), 1 << 24);
}

#[test]
fn frame_roundtrip_on_values() {
    let payload = br#"{"method":"attachAll"}"#;
    let mut buf = encode_frame(payload);
    buf.extend_from_slice(b"trailing");
    let len = frame_len_from_header([buf[0], buf[1], buf[2], buf[3]]) as usize;
    assert_eq!(len, payload.len());
    assert_eq!(&buf[4..4 + len], payload);
    assert_eq!(ATTACH_ALL_MESSAGE.as_bytes(), payload);
}

#[test]
fn paths_of_log_and_url() {
    assert_eq!(nm_log_path(Some("/home/u")), "/home/u/.agent-browser/nm-host.log");
    assert_eq!(nm_log_path(None), "/tmp/ab-nm-host.log");
    assert_eq!(relay_url_path(Some("/home/u")), "/home/u/.agent-browser/relay-cdp-url");
    assert_eq!(relay_url_path(None), "/tmp/ab-relay-cdp-url");
}

#[test]
fn relay_url_accepts_ws_only() {
    assert_eq!(
        relay_url(Some("  ws://127.0.0.1:4567/abc\n")),
        Some("ws://127.0.0.1:4567/abc".to_string())
    );
    assert_eq!(relay_url(Some("http://127.0.0.1/")), None);
    assert_eq!(relay_url(Some("")), None);
    assert_eq!(relay_url(Some("\u{3000}ws://x\u{2028}")), Some("ws://x".to_string()));
    assert_eq!(relay_url(None), None);
}

#[test]
fn relay_url_reads_back_endpoint() {
    let guid = random_guid().expect("random source");
    let url = cdp_endpoint_url(51234, &guid);
    assert_eq!(relay_url(Some(&url)), Some(url.clone()));
    let with_newline = format!("{url}\n");
    assert_eq!(relay_url(Some(&with_newline)), Some(url));
}

#[test]
fn endpoint_and_path_check() {
    assert_eq!(cdp_endpoint_url(9222, "ab12"), "ws://127.0.0.1:9222/ab12");
    assert_eq!(cdp_endpoint_url(0, ""), "ws://127.0.0.1:0/");
    assert!(cdp_path_allowed("/ab12", "ab12"));
    assert!(!cdp_path_allowed("/ab1", "ab12"));
    assert!(!cdp_path_allowed("ab12", "ab12"));
    assert!(!cdp_path_allowed("/ab12/", "ab12"));
}

#[test]
fn guid_shape() {
    let g = random_guid().expect("random source");
    assert_eq!(g.len(), 32);
    assert!(g.chars().all(|c| c.is_ascii_digit() || ('a'..='f').contains(&c)));
    assert_ne!(random_guid(), random_guid());
    assert_ne!(g, "0".repeat(32));
}

#[test]
fn hex_and_decimal() {
    assert_eq!(hex_lower_string(&[0x00, 0xff, 0x1a, 0x09]), "00ff1a09");
    assert_eq!(hex_lower_string(&[]), "");
    assert_eq!(decimal_string(0), "0");
    assert_eq!(decimal_string(65535), "65535");
    assert_eq!(decimal_string(u64::MAX), u64::MAX.to_string());
}

#[test]
fn trimming_and_prefix() {
    assert_eq!(trim_str("  a b \t\n"), "a b");
    assert_eq!(trim_str(" \u{85}\u{a0} "), "");
    assert_eq!(trim_str("x"), "x");
    let s = " \u{2000}é\u{205f}";
    assert_eq!(trim_str(s), s.trim());
    assert!(str_starts_with("ws://h", "ws://"));
    assert!(!str_starts_with("ws:/", "ws://"));
}

#[test]
fn json_string_escapes() {
    assert_eq!(json_string("plain"), "\"plain\"");
    assert_eq!(json_string("a\"b\\c"), "\"a\\\"b\\\\c\"");
    assert_eq!(json_string("\u{8}\u{c}\r\t\n"), "\"\\b\\f\\r\\t\\n\"");
    assert_eq!(json_string("\u{1f}\u{7f}/é"), "\"\\u001f\u{7f}/é\"");
}

#[test]
fn host_loop_decisions() {
    assert_eq!(host_step(&HostInput::Closed), HostStep::Shutdown);
    assert_eq!(host_step(&HostInput::Frame(b"{\"id\":1}".to_vec())), HostStep::Dispatch);
    assert_eq!(host_step(&HostInput::Frame(b"not json".to_vec())), HostStep::Skip);
    assert_eq!(host_step(&HostInput::Frame(Vec::new())), HostStep::Skip);
}

#[test]
fn client_loop_decisions() {
    assert!(matches!(
        client_step(ClientEvent::Relayed("m".to_string())),
        ClientAction::SendToClient(t) if t == "m"
    ));
    assert!(matches!(client_step(ClientEvent::RelayLagged), ClientAction::Ignore));
    assert!(matches!(client_step(ClientEvent::RelayClosed), ClientAction::Disconnect));
    assert!(matches!(
        client_step(ClientEvent::Incoming("{\"id\":1,\"method\":\"Target.getTargets\"}".to_string())),
        ClientAction::RouteCommand(t) if t.starts_with("{\"id\":1")
    ));
    assert!(matches!(
        client_step(ClientEvent::Incoming("{broken".to_string())),
        ClientAction::Ignore
    ));
    assert!(matches!(client_step(ClientEvent::IncomingClosed), ClientAction::Disconnect));
    assert!(matches!(client_step(ClientEvent::IncomingOther), ClientAction::Ignore));
    assert!(matches!(client_step(ClientEvent::SendFailed), ClientAction::Disconnect));
}

#[test]
fn route_decisions() {
    assert!(matches!(
        route_action(RelayRoute::Local("r".to_string())),
        RouteAction::SendToClient(t) if t == "r"
    ));
    assert!(matches!(
        route_action(RelayRoute::Forward("é{}".to_string())),
        RouteAction::SendToExtension(b) if b == "é{}".as_bytes()
    ));
}

#[test]
fn relay_output_decisions() {
    assert!(matches!(
        relay_out_action(&RelayOutput::ToClient("{\"id\":1}".to_string())),
        RelayOutAction::BroadcastToClients(t) if t == "{\"id\":1}"
    ));
    assert!(matches!(
        relay_out_action(&RelayOutput::ToExt("{\"m\":\"é\"}".to_string())),
        RelayOutAction::SendToExtension(b) if b == "{\"m\":\"é\"}".as_bytes()
    ));
}

#[test]
fn splitting_frames_from_a_stream() {
    let mut stream = encode_frames(&vec![b"{}".to_vec(), b"abc".to_vec(), b"[1]".to_vec()]);
    assert_eq!(
        stream,
        vec![2, 0, 0, 0, b'{', b'}', 3, 0, 0, 0, b'a', b'b', b'c', 3, 0, 0, 0, b'[', b'1', b']']
    );
    let mut got = Vec::new();
    loop {
        match split_frame(&stream) {
            FrameSplit::Complete { payload, consumed } => {
                got.push(payload);
                stream.drain(..consumed);
            }
            FrameSplit::Incomplete => break,
        }
    }
    assert_eq!(got, vec![b"{}".to_vec(), b"abc".to_vec(), b"[1]".to_vec()]);
    assert!(stream.is_empty());
    assert!(matches!(split_frame(&[5, 0, 0, 0, 1, 2]), FrameSplit::Incomplete));
    assert!(matches!(split_frame(&[1, 0]), FrameSplit::Incomplete));
    assert!(encode_frames(&vec![]).is_empty());
}

#[test]
fn guid_needs_a_filled_buffer() {
    let bytes = [0xabu8; 16];
    assert_eq!(guid_from_fill(true, &bytes), Some("ab".repeat(16)));
    assert_eq!(guid_from_fill(false, &bytes), None);
    assert_eq!(guid_from_fill(false, &[0u8; 16]), None);
}

#[test]
fn relay_outputs_in_order() {
    let outs = vec![
        RelayOutput::ToExt("x".to_string()),
        RelayOutput::ToClient("y".to_string()),
    ];
    let acts = relay_out_actions(&outs);
    assert_eq!(acts.len(), 2);
    assert!(matches!(&acts[0], RelayOutAction::SendToExtension(b) if b == b"x"));
    assert!(matches!(&acts[1], RelayOutAction::BroadcastToClients(t) if t == "y"));
}
