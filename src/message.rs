//! Application messages carried in data frames, and their JSON text.
use vstd::prelude::*;
use vstd::string::*;
use vstd::utf8::encode_utf8;

use crate::packet::Packet;

verus! {

/// The JSON text of a string: quoted, with escapes.
pub uninterp spec fn json_quoted(s: Seq<char>) -> Seq<char>;

/// The decimal digits of an integer.
pub uninterp spec fn decimal_of(n: u64) -> Seq<char>;

/// Relies on serde_json::to_string on a `str`: the JSON string literal of
/// its argument. Serialising a `str` into memory cannot fail.
#[verifier::external_body]
fn json_quote(s: &str) -> (r: String)
    ensures
        r@ == json_quoted(s@),
{
    serde_json::to_string(s).unwrap_or_default()
}

/// Relies on the `Display` of `u64`: its decimal digits.
#[verifier::external_body]
fn decimal(n: u64) -> (r: String)
    ensures
        r@ == decimal_of(n),
{
    n.to_string()
}

/// Relies on uuid::Uuid::new_v4 and its hyphenated `Display`: a random
/// identifier, written in 36 characters.
#[verifier::external_body]
fn fresh_nonce() -> (r: String)
    ensures
        r@.len() == 36,
{
    uuid::Uuid::new_v4().to_string()
}

/// The command that sets the displayed activity.
pub const SET_ACTIVITY: &'static str = "SET_ACTIVITY";

/// The event with which the service accepts a handshake.
pub const READY: &'static str = "READY";

/// What a status update shows.
pub struct Activity {
    pub pid: u64,
    pub state: String,
    /// Start of the activity, in milliseconds since the Unix epoch.
    pub start: u64,
    pub instance: bool,
    pub large_image: String,
    pub large_text: String,
    pub small_image: String,
    pub small_text: String,
}

/// One message of the application protocol.
pub struct Message {
    pub cmd: String,
    pub nonce: Option<String>,
    pub args: Option<Activity>,
    pub evt: Option<String>,
}

pub open spec fn json_bool(b: bool) -> Seq<char> {
    if b {
        "true"@
    } else {
        "false"@
    }
}

pub open spec fn json_opt_string(o: Option<String>) -> Seq<char> {
    match o {
        Some(s) => json_quoted(s@),
        None => "null"@,
    }
}

/// The JSON text of an activity: keys in sorted order, no whitespace.
pub open spec fn activity_json(a: Activity) -> Seq<char> {
    "{\"activity\":{\"assets\":{\"large_image\":"@ + json_quoted(a.large_image@)
        + ",\"large_text\":"@ + json_quoted(a.large_text@) + ",\"small_image\":"@
        + json_quoted(a.small_image@) + ",\"small_text\":"@ + json_quoted(a.small_text@)
        + "},\"instance\":"@ + json_bool(a.instance) + ",\"state\":"@ + json_quoted(a.state@)
        + ",\"timestamps\":{\"start\":"@ + decimal_of(a.start) + "}},\"pid\":"@ + decimal_of(a.pid)
        + "}"@
}

pub open spec fn json_opt_activity(o: Option<Activity>) -> Seq<char> {
    match o {
        Some(a) => activity_json(a),
        None => "null"@,
    }
}

/// The JSON text of a message: its fields in declaration order, absent
/// ones as `null`.
pub open spec fn message_json(m: Message) -> Seq<char> {
    "{\"cmd\":"@ + json_quoted(m.cmd@) + ",\"nonce\":"@ + json_opt_string(m.nonce) + ",\"args\":"@
        + json_opt_activity(m.args) + ",\"evt\":"@ + json_opt_string(m.evt) + "}"@
}

/// The JSON text of a handshake.
pub open spec fn handshake_json(client_id: u64, nonce: Seq<char>) -> Seq<char> {
    "{\"client_id\":"@ + json_quoted(decimal_of(client_id)) + ",\"nonce\":"@ + json_quoted(nonce)
        + ",\"v\":1}"@
}

/// A status update with the given state, large-image caption and start.
pub open spec fn is_status_update(m: Message, state: Seq<char>, caption: Seq<char>, start: u64) -> bool {
    &&& m.cmd@ == SET_ACTIVITY@
    &&& m.nonce matches Some(n) && n@.len() == 36
    &&& m.evt is None
    &&& m.args matches Some(a) && {
        &&& a.pid == 1
        &&& a.state@ == state
        &&& a.start == start
        &&& a.instance
        &&& a.large_image@ == "idle"@
        &&& a.large_text@ == caption
        &&& a.small_image@ == "idle"@
        &&& a.small_text@ == "Helix"@
    }
}

/// Appends the JSON text of an optional string.
fn append_opt_string(out: &mut String, o: &Option<String>)
    ensures
        final(out)@ == old(out)@ + json_opt_string(*o),
{
    match o {
        Some(s) => {
            let q = json_quote(s.as_str());
            out.append(q.as_str());
        },
        None => out.append("null"),
    }
}

fn status_update(state: String, caption: &str, start: u64) -> (m: Message)
    ensures
        is_status_update(m, state@, caption@, start),
{
    Message {
        cmd: String::from_str(SET_ACTIVITY),
        nonce: Some(fresh_nonce()),
        args: Some(
            Activity {
                pid: 1,
                state,
                start,
                instance: true,
                large_image: String::from_str("idle"),
                large_text: String::from_str(caption),
                small_image: String::from_str("idle"),
                small_text: String::from_str("Helix"),
            },
        ),
        evt: None,
    }
}

impl Activity {
    /// The JSON text of this activity.
    pub fn to_json(&self) -> (r: String)
        ensures
            r@ == activity_json(*self),
    {
        let mut out = String::from_str("{\"activity\":{\"assets\":{\"large_image\":");
        out.append(json_quote(self.large_image.as_str()).as_str());
        out.append(",\"large_text\":");
        out.append(json_quote(self.large_text.as_str()).as_str());
        out.append(",\"small_image\":");
        out.append(json_quote(self.small_image.as_str()).as_str());
        out.append(",\"small_text\":");
        out.append(json_quote(self.small_text.as_str()).as_str());
        out.append("},\"instance\":");
        out.append(if self.instance { "true" } else { "false" });
        out.append(",\"state\":");
        out.append(json_quote(self.state.as_str()).as_str());
        out.append(",\"timestamps\":{\"start\":");
        out.append(decimal(self.start).as_str());
        out.append("}},\"pid\":");
        out.append(decimal(self.pid).as_str());
        out.append("}");
        out
    }
}

impl Message {
    /// A status update saying the editor is idle, started at `start`
    /// (milliseconds since the Unix epoch), with a fresh nonce.
    pub fn idle_activity(start: u64) -> (m: Message)
        ensures
            is_status_update(m, "Idling"@, "Idling"@, start),
    {
        status_update(String::from_str("Idling"), "Idling", start)
    }

    /// A status update saying the editor is editing `file`, started at
    /// `start` (milliseconds since the Unix epoch), with a fresh nonce.
    pub fn file_activity(file: &str, start: u64) -> (m: Message)
        ensures
            is_status_update(m, "Editing "@ + file@, "Editing file"@, start),
    {
        let state = String::from_str("Editing ").concat(file);
        status_update(state, "Editing file", start)
    }

    /// Whether the message carries the event `evt`.
    pub fn evt_matches(&self, evt: &str) -> (r: bool)
        ensures
            r == (self.evt matches Some(e) && e@ == evt@),
    {
        match &self.evt {
            Some(e) => *e == String::from_str(evt),
            None => false,
        }
    }

    /// The JSON text of this message.
    pub fn to_json(&self) -> (r: String)
        ensures
            r@ == message_json(*self),
    {
        let mut out = String::from_str("{\"cmd\":");
        out.append(json_quote(self.cmd.as_str()).as_str());
        out.append(",\"nonce\":");
        append_opt_string(&mut out, &self.nonce);
        out.append(",\"args\":");
        match &self.args {
            Some(a) => out.append(a.to_json().as_str()),
            None => out.append("null"),
        }
        out.append(",\"evt\":");
        append_opt_string(&mut out, &self.evt);
        out.append("}");
        out
    }

    /// The data frame that carries this message as UTF-8 JSON.
    pub fn into_packet(self) -> (r: Packet)
        ensures
            r matches Packet::FRAME(b) && b@ == encode_utf8(message_json(self)),
    {
        let text = self.to_json();
        Packet::FRAME(text.as_str().as_bytes_vec())
    }
}

impl Packet {
    /// The handshake frame of `client_id`, with the given nonce.
    pub fn handshake_with_nonce(client_id: u64, nonce: &str) -> (r: Packet)
        ensures
            r matches Packet::HANDSHAKE(b) && b@ == encode_utf8(handshake_json(client_id, nonce@)),
    {
        let mut out = String::from_str("{\"client_id\":");
        let id = decimal(client_id);
        out.append(json_quote(id.as_str()).as_str());
        out.append(",\"nonce\":");
        out.append(json_quote(nonce).as_str());
        out.append(",\"v\":1}");
        Packet::HANDSHAKE(out.as_str().as_bytes_vec())
    }

    /// The handshake frame of `client_id`, with a fresh nonce.
    pub fn handshake(client_id: u64) -> (r: Packet)
        ensures
            r matches Packet::HANDSHAKE(b) && exists|n: Seq<char>|
                n.len() == 36 && b@ == encode_utf8(#[trigger] handshake_json(client_id, n)),
    {
        let nonce = fresh_nonce();
        let r = Self::handshake_with_nonce(client_id, nonce.as_str());
        r
    }
}

} // verus!
