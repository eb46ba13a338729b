//! The native-messaging host (`__nm-host`): where it logs and publishes
//! its relay URL, the unguessable endpoint it serves CDP clients on, and
//! the decisions of its message loops.

use vstd::prelude::*;
use crate::text::{lemma_trim_start_from, lemma_trim_end_to, trim_start, join_path, join_path_str, hex_digits, hex_lower, hex_lower_string, decimal, decimal_string, trim, trim_str, has_prefix, str_starts_with, str_eq, is_white_space};
use crate::json::{parses_as_json, json_parses};
use crate::install::{spec_agent_browser_dir, agent_browser_dir};
use crate::framing::{frame, frames_of, lemma_frames_of_frame};
use vstd::utf8::encode_utf8;

verus! {

/// The message that asks the extension to attach to, and announce, every tab.
pub const ATTACH_ALL_MESSAGE: &'static str = "{\"method\":\"attachAll\"}";

/// The host's log file: `~/.agent-browser/nm-host.log`, or a fixed file
/// under `/tmp` when there is no home directory.
pub open spec fn spec_nm_log_path(home: Option<Seq<char>>) -> Seq<char> {
    match home {
        Some(h) => join_path(spec_agent_browser_dir(h), "nm-host.log"@),
        None => "/tmp/ab-nm-host.log"@,
    }
}

/// The log file for the home directory `home`.
pub fn nm_log_path(home: Option<&str>) -> (r: String)
    ensures
        r@ == spec_nm_log_path(
            match home {
                Some(h) => Some(h@),
                None => None,
            },
        ),
{
    match home {
        Some(h) => {
            let dir = agent_browser_dir(h);
            join_path_str(dir.as_str(), "nm-host.log")
        },
        None => String::from_str("/tmp/ab-nm-host.log"),
    }
}

/// Where the relay's CDP WebSocket URL is published:
/// `~/.agent-browser/relay-cdp-url`, or a fixed file under `/tmp`.
pub open spec fn spec_relay_url_path(home: Option<Seq<char>>) -> Seq<char> {
    match home {
        Some(h) => join_path(spec_agent_browser_dir(h), "relay-cdp-url"@),
        None => "/tmp/ab-relay-cdp-url"@,
    }
}

/// The relay URL file for the home directory `home`.
pub fn relay_url_path(home: Option<&str>) -> (r: String)
    ensures
        r@ == spec_relay_url_path(
            match home {
                Some(h) => Some(h@),
                None => None,
            },
        ),
{
    match home {
        Some(h) => {
            let dir = agent_browser_dir(h);
            join_path_str(dir.as_str(), "relay-cdp-url")
        },
        None => String::from_str("/tmp/ab-relay-cdp-url"),
    }
}

/// The relay URL read back from the URL file's contents: the trimmed text
/// when it is a `ws://` URL; nothing when the file could not be read or
/// holds anything else.
pub open spec fn spec_relay_url(contents: Option<Seq<char>>) -> Option<Seq<char>> {
    match contents {
        None => None,
        Some(c) => if has_prefix(trim(c), "ws://"@) {
            Some(trim(c))
        } else {
            None
        },
    }
}

/// The live relay URL, given the URL file's contents (`None` when the file
/// could not be read).
pub fn relay_url(contents: Option<&str>) -> (r: Option<String>)
    ensures
        match r {
            Some(u) => spec_relay_url(
                match contents {
                    Some(c) => Some(c@),
                    None => None,
                },
            ) == Some(u@),
            None => spec_relay_url(
                match contents {
                    Some(c) => Some(c@),
                    None => None,
                },
            ) == None::<Seq<char>>,
        },
{
    match contents {
        None => None,
        Some(c) => {
            let t = trim_str(c);
            if str_starts_with(t, "ws://") {
                Some(String::from_str(t))
            } else {
                None
            }
        },
    }
}

/// The endpoint that CDP clients connect to: the loopback address, the
/// listening port and the guid as the path.
pub open spec fn spec_cdp_endpoint_url(port: u16, guid: Seq<char>) -> Seq<char> {
    "ws://127.0.0.1:"@ + decimal(port as nat) + "/"@ + guid
}

/// The CDP endpoint URL for `port` and `guid`.
pub fn cdp_endpoint_url(port: u16, guid: &str) -> (r: String)
    ensures
        r@ == spec_cdp_endpoint_url(port, guid@),
{
    let mut r = String::from_str("ws://127.0.0.1:");
    r.append(decimal_string(port as u64).as_str());
    r.append("/");
    r.append(guid);
    r
}


/// What the host publishes is what `relay_url` reads back: the file holding
/// the CDP endpoint URL, possibly followed by white space such as a final
/// newline, yields that URL unchanged, provided the guid does not end in
/// white space (a hexadecimal guid never does).
pub proof fn lemma_relay_url_reads_endpoint(port: u16, guid: Seq<char>, tail: Seq<char>)
    requires
        guid.len() == 0 || !is_white_space(guid.last()),
        forall|i: int| 0 <= i < tail.len() ==> is_white_space(#[trigger] tail[i]),
    ensures
        spec_relay_url(Some(spec_cdp_endpoint_url(port, guid) + tail)) == Some(
            spec_cdp_endpoint_url(port, guid),
        ),
{
    reveal_strlit("ws://127.0.0.1:");
    reveal_strlit("ws://");
    reveal_strlit("/");
    let u = spec_cdp_endpoint_url(port, guid);
    let s = u + tail;
    assert(u[0] == 'w');
    assert(s[0] == u[0]);
    lemma_trim_start_from(s, 0);
    assert(s.subrange(0, s.len() as int) =~= s);
    assert(trim_start(s) == s);
    if guid.len() == 0 {
        assert(u.last() == '/');
    } else {
        assert(u.last() == guid.last());
    }
    assert forall|j: int| u.len() <= j < s.len() implies is_white_space(#[trigger] s[j]) by {
        assert(s[j] == tail[j - u.len()]);
    }
    assert(s[u.len() - 1] == u.last());
    lemma_trim_end_to(s, u.len() as int);
    assert(s.subrange(0, u.len() as int) =~= u);
    assert(trim(s) == u);
    assert(u.subrange(0, 5) =~= "ws://"@);
}

/// Whether a WebSocket handshake for the request path `path` is accepted:
/// only the path `/<guid>` is.
pub fn cdp_path_allowed(path: &str, guid: &str) -> (r: bool)
    ensures
        r == (path@ == "/"@ + guid@),
{
    let mut want = String::from_str("/");
    want.append(guid);
    str_eq(path, want.as_str())
}

/// Whether `c` is a lowercase hexadecimal digit.
pub open spec fn is_hex_digit(c: char) -> bool {
    hex_digits().contains(c)
}

proof fn lemma_hex_lower_shape(b: Seq<u8>)
    ensures
        hex_lower(b).len() == 2 * b.len(),
        forall|i: int| 0 <= i < hex_lower(b).len() ==> is_hex_digit(#[trigger] hex_lower(b)[i]),
    decreases b.len(),
{
    if b.len() > 0 {
        lemma_hex_lower_shape(b.drop_last());
        let last = b.last();
        let hi = hex_digits()[(last / 16) as int];
        let lo = hex_digits()[(last % 16) as int];
        assert(hex_digits().len() == 16);
        assert(is_hex_digit(hi));
        assert(is_hex_digit(lo));
        let h = hex_lower(b);
        let p = hex_lower(b.drop_last());
        assert(h == p + seq![hi, lo]);
        assert forall|i: int| 0 <= i < h.len() implies is_hex_digit(#[trigger] h[i]) by {
            if i < p.len() {
                assert(h[i] == p[i]);
            } else if i == p.len() {
                assert(h[i] == hi);
            } else {
                assert(h[i] == lo);
            }
        }
    }
}

#[verifier::external_type_specification]
#[verifier::external_body]
pub struct ExRandomError(getrandom::Error);

/// `getrandom::getrandom`: fills `buf` with random bytes from the
/// operating system. Nothing is stated of the bytes, which rest on chance
/// (and, after an error, may be left as they were).
#[verifier::external_body]
fn fill_random(buf: &mut [u8; 16]) -> (r: Result<(), getrandom::Error>) {
    getrandom::getrandom(buf)
}

/// The guid made from the outcome of filling `bytes` from the random
/// source: the bytes as 32 lowercase hexadecimal digits when the fill
/// succeeded, and no guid when it failed (bytes that were not filled could
/// be guessed, and the guid is what keeps other local processes off the
/// endpoint).
pub fn guid_from_fill(filled: bool, bytes: &[u8; 16]) -> (r: Option<String>)
    ensures
        filled ==> (r matches Some(g) && g@ == hex_lower(bytes@)),
        !filled ==> r is None,
        r matches Some(g) ==> {
            &&& g@.len() == 32
            &&& forall|i: int| 0 <= i < g@.len() ==> is_hex_digit(#[trigger] g@[i])
        },
{
    if filled {
        let g = hex_lower_string(bytes.as_slice());
        proof {
            lemma_hex_lower_shape(bytes@);
        }
        Some(g)
    } else {
        None
    }
}

/// A fresh random guid: 16 bytes from the operating system's random
/// source as 32 lowercase hexadecimal digits, or none when the random
/// source fails (see [`guid_from_fill`]).
pub fn random_guid() -> (r: Option<String>)
    ensures
        r matches Some(g) ==> {
            &&& exists|b: Seq<u8>| b.len() == 16 && g@ == hex_lower(b)
            &&& g@.len() == 32
            &&& forall|i: int| 0 <= i < g@.len() ==> is_hex_digit(#[trigger] g@[i])
        },
{
    let mut b: [u8; 16] = [0u8; 16];
    let filled = fill_random(&mut b).is_ok();
    guid_from_fill(filled, &b)
}

/// What the host reads from the extension next.
pub enum HostInput {
    /// Standard input ended: Chrome closed the port.
    Closed,
    /// A whole frame's payload.
    Frame(Vec<u8>),
}

/// What the host does with it.
#[derive(PartialEq, Eq, Structural, Debug, Clone, Copy)]
pub enum HostStep {
    /// Stop, and withdraw the published relay URL.
    Shutdown,
    /// Drop the frame: it is not JSON.
    Skip,
    /// Hand the JSON message to the relay.
    Dispatch,
}

/// The host loop's decision for its next input from the extension.
pub fn host_step(input: &HostInput) -> (r: HostStep)
    ensures
        match input {
            HostInput::Closed => r == HostStep::Shutdown,
            HostInput::Frame(p) => r == (if parses_as_json(p@) {
                HostStep::Dispatch
            } else {
                HostStep::Skip
            }),
        },
{
    match input {
        HostInput::Closed => HostStep::Shutdown,
        HostInput::Frame(p) => {
            if json_parses(p.as_slice()) {
                HostStep::Dispatch
            } else {
                HostStep::Skip
            }
        },
    }
}


/// The messages the host hands to the relay, in order, for the frames
/// `frames` read from the extension: those whose payload is JSON.
pub open spec fn dispatched(frames: Seq<Seq<u8>>) -> Seq<Seq<u8>>
    decreases frames.len(),
{
    if frames.len() == 0 {
        Seq::empty()
    } else {
        (if parses_as_json(frames[0]) {
            seq![frames[0]]
        } else {
            Seq::empty()
        }) + dispatched(frames.drop_first())
    }
}

/// A frame whose payload is not JSON is skipped and reading resumes at the
/// next frame: the stream that starts with it hands the relay exactly what
/// the rest of the stream does.
pub proof fn lemma_non_json_frame_skipped(payload: Seq<u8>, rest: Seq<u8>)
    requires
        payload.len() <= u32::MAX,
        !parses_as_json(payload),
    ensures
        dispatched(frames_of(frame(payload) + rest)) == dispatched(frames_of(rest)),
{
    lemma_frames_of_frame(payload, rest);
    let fs = seq![payload] + frames_of(rest);
    assert(fs.drop_first() =~= frames_of(rest));
    assert(fs[0] == payload);
    assert(Seq::<Seq<u8>>::empty() + dispatched(frames_of(rest)) =~= dispatched(frames_of(rest)));
}

/// A message the relay produced for an extension message.
pub enum RelayOutput {
    /// For every connected CDP client (serialized JSON).
    ToClient(String),
    /// For the extension (serialized JSON).
    ToExt(String),
}

/// What the host does with a relay output.
pub enum RelayOutAction {
    /// Broadcast this text to every connected CDP client.
    BroadcastToClients(String),
    /// Queue these bytes for the extension (the writer frames them).
    SendToExtension(Vec<u8>),
}

/// The action for one relay output: outputs for the clients are broadcast
/// unchanged; those for the extension go to it as their UTF-8 bytes.
pub open spec fn relay_out_action_of(out: RelayOutput, act: RelayOutAction) -> bool {
    match out {
        RelayOutput::ToClient(m) => act == RelayOutAction::BroadcastToClients(m),
        RelayOutput::ToExt(m) => match act {
            RelayOutAction::SendToExtension(b) => b@ == encode_utf8(m@),
            _ => false,
        },
    }
}

/// The action for the relay output `out`.
pub fn relay_out_action(out: &RelayOutput) -> (r: RelayOutAction)
    ensures
        relay_out_action_of(*out, r),
{
    match out {
        RelayOutput::ToClient(m) => RelayOutAction::BroadcastToClients(m.clone()),
        RelayOutput::ToExt(m) => RelayOutAction::SendToExtension(m.as_str().as_bytes_vec()),
    }
}

/// The actions for the relay's outputs `outs` for one extension message:
/// one per output, in the same order, and nothing else.
pub fn relay_out_actions(outs: &Vec<RelayOutput>) -> (r: Vec<RelayOutAction>)
    ensures
        r@.len() == outs@.len(),
        forall|i: int| 0 <= i < outs@.len() ==> relay_out_action_of(outs@[i], #[trigger] r@[i]),
{
    let mut r: Vec<RelayOutAction> = Vec::new();
    let mut i: usize = 0;
    while i < outs.len()
        invariant
            i <= outs@.len(),
            r@.len() == i,
            forall|j: int| 0 <= j < i ==> relay_out_action_of(outs@[j], #[trigger] r@[j]),
        decreases outs@.len() - i,
    {
        let a = relay_out_action(&outs[i]);
        r.push(a);
        i = i + 1;
    }
    r
}

/// What a CDP client connection sees next.
pub enum ClientEvent {
    /// A message from the relay for the clients.
    Relayed(String),
    /// The relay's broadcast ran ahead of this client and messages were lost.
    RelayLagged,
    /// The relay's broadcast ended.
    RelayClosed,
    /// A text message from the client.
    Incoming(String),
    /// The client closed the connection, or its stream ended.
    IncomingClosed,
    /// Any other WebSocket message from the client.
    IncomingOther,
    /// Sending to the client failed.
    SendFailed,
}

/// What the connection does about it.
pub enum ClientAction {
    /// Send this text to the client.
    SendToClient(String),
    /// Let the relay route this CDP command.
    RouteCommand(String),
    /// Nothing; wait for the next event.
    Ignore,
    /// End the connection.
    Disconnect,
}

/// The client loop's decision for its next event: relayed messages go to
/// the client, lagging is tolerated, a client's JSON command goes to the
/// relay (other text is dropped), and the end of either side, or a failed
/// send, ends the connection.
pub fn client_step(ev: ClientEvent) -> (r: ClientAction)
    ensures
        match ev {
            ClientEvent::Relayed(t) => r == ClientAction::SendToClient(t),
            ClientEvent::RelayLagged => r == ClientAction::Ignore,
            ClientEvent::RelayClosed => r == ClientAction::Disconnect,
            ClientEvent::Incoming(t) => r == (if parses_as_json(encode_utf8(t@)) {
                ClientAction::RouteCommand(t)
            } else {
                ClientAction::Ignore
            }),
            ClientEvent::IncomingClosed => r == ClientAction::Disconnect,
            ClientEvent::IncomingOther => r == ClientAction::Ignore,
            ClientEvent::SendFailed => r == ClientAction::Disconnect,
        },
{
    match ev {
        ClientEvent::Relayed(t) => ClientAction::SendToClient(t),
        ClientEvent::RelayLagged => ClientAction::Ignore,
        ClientEvent::RelayClosed => ClientAction::Disconnect,
        ClientEvent::Incoming(t) => {
            if json_parses(t.as_str().as_bytes()) {
                ClientAction::RouteCommand(t)
            } else {
                ClientAction::Ignore
            }
        },
        ClientEvent::IncomingClosed => ClientAction::Disconnect,
        ClientEvent::IncomingOther => ClientAction::Ignore,
        ClientEvent::SendFailed => ClientAction::Disconnect,
    }
}

/// Where the relay routed a client's command.
pub enum RelayRoute {
    /// The relay answered it itself with this reply.
    Local(String),
    /// It goes to the extension as this envelope.
    Forward(String),
}

/// What the connection does with a routed command.
pub enum RouteAction {
    /// Send this reply to the client.
    SendToClient(String),
    /// Queue these bytes for the extension (the writer frames them).
    SendToExtension(Vec<u8>),
}

/// A local reply goes back to the client; a forwarded envelope goes to the
/// extension as its UTF-8 bytes.
pub fn route_action(route: RelayRoute) -> (r: RouteAction)
    ensures
        match route {
            RelayRoute::Local(reply) => r == RouteAction::SendToClient(reply),
            RelayRoute::Forward(env) => match r {
                RouteAction::SendToExtension(b) => b@ == encode_utf8(env@),
                _ => false,
            },
        },
{
    match route {
        RelayRoute::Local(reply) => RouteAction::SendToClient(reply),
        RelayRoute::Forward(env) => RouteAction::SendToExtension(env.as_str().as_bytes_vec()),
    }
}

} // verus!
