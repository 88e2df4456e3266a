//! The messages exchanged with the host: the two requests this side writes, and the
//! network event it reads back.
use vstd::prelude::*;

verus! {

/// The newline byte that ends each line of input.
pub const NEWLINE: u8 = 10;

/// The status of the e-reader's Wi-Fi.
#[derive(Clone, Copy, Debug, PartialEq, Eq)]
pub enum WifiStatus {
    /// The Wi-Fi is turned on, allowing network connections to be made.
    Enabled,
    /// The Wi-Fi is turned off, no network connections can be made.
    Disabled,
}

impl WifiStatus {
    /// The boolean that stands for the status on the wire.
    pub open spec fn enable_flag(self) -> bool {
        self matches WifiStatus::Enabled
    }
}

impl From<WifiStatus> for bool {
    fn from(f: WifiStatus) -> (r: bool)
        ensures
            r == f.enable_flag(),
    {
        match f {
            WifiStatus::Enabled => true,
            WifiStatus::Disabled => false,
        }
    }
}

impl vstd::std_specs::convert::FromSpecImpl<WifiStatus> for bool {
    open spec fn obeys_from_spec() -> bool {
        true
    }

    open spec fn from_spec(v: WifiStatus) -> bool {
        v.enable_flag()
    }
}

/// A change of the device's network status, as the host reports it.
#[derive(Clone, Debug, PartialEq, Eq)]
pub struct NetworkEvent {
    /// The event's `type` member.
    pub kind: String,
    /// The event's `status` member.
    pub status: String,
}

/// serde_json's error, carried through opaque.
#[verifier::external_type_specification]
#[verifier::external_body]
pub struct ExJsonError(serde_json::Error);

/// The lower-case hex digit for `n`, below 16.
pub open spec fn hex_digit(n: u32) -> char {
    seq!['0', '1', '2', '3', '4', '5', '6', '7', '8', '9', 'a', 'b', 'c', 'd', 'e', 'f'][n as int]
}

/// How serde_json writes the character `c` inside a JSON string: a quote and a backslash
/// behind a backslash, the five short control escapes, `\u00xx` for any other control
/// character, and anything else as it is.
pub open spec fn escaped_char(c: char) -> Seq<char> {
    if c == '"' {
        seq!['\\', '"']
    } else if c == '\\' {
        seq!['\\', '\\']
    } else if c == '\u{8}' {
        seq!['\\', 'b']
    } else if c == '\t' {
        seq!['\\', 't']
    } else if c == '\n' {
        seq!['\\', 'n']
    } else if c == '\u{c}' {
        seq!['\\', 'f']
    } else if c == '\r' {
        seq!['\\', 'r']
    } else if (c as u32) < 32 {
        seq!['\\', 'u', '0', '0', hex_digit((c as u32) / 16), hex_digit((c as u32) % 16)]
    } else {
        seq![c]
    }
}

/// The characters of `s`, each escaped as in a JSON string.
pub open spec fn escaped(s: Seq<char>) -> Seq<char>
    decreases s.len(),
{
    if s.len() == 0 {
        Seq::empty()
    } else {
        escaped(s.drop_last()) + escaped_char(s.last())
    }
}

/// The JSON string literal that serde_json writes for the text `s`.
pub open spec fn json_string_of(s: Seq<char>) -> Seq<char> {
    seq!['"'] + escaped(s) + seq!['"']
}

/// What serde_json reads from `line` as the text of the member `key`: `None` where the line is
/// not one JSON object, or the object has no such member, or the member is not a string.
pub uninterp spec fn json_text_member(line: Seq<u8>, key: Seq<char>) -> Option<Seq<char>>;

/// The network event on `line`, as its `type` and `status` texts: `None` unless the line is a
/// JSON object with both members, each a string. Other members do not matter.
pub open spec fn network_fields_of(line: Seq<u8>) -> Option<(Seq<char>, Seq<char>)> {
    match (json_text_member(line, "type"@), json_text_member(line, "status"@)) {
        (Some(kind), Some(status)) => Some((kind, status)),
        _ => None,
    }
}

/// The notification request for the message `m`, as it goes on the wire.
pub open spec fn notification_text(m: Seq<char>) -> Seq<char> {
    notification_frame(json_string_of(m))
}

/// The notification request around an already quoted JSON string.
pub open spec fn notification_frame(quoted: Seq<char>) -> Seq<char> {
    "{\"type\":\"notify\",\"message\":"@ + quoted + "}"@
}

/// No escaped character is a raw newline.
proof fn lemma_escaped_has_no_newline(s: Seq<char>)
    ensures
        !escaped(s).contains('\n'),
    decreases s.len(),
{
    if s.len() > 0 {
        lemma_escaped_has_no_newline(s.drop_last());
        let c = s.last();
        assert(!escaped_char(c).contains('\n')) by {
            if (c as u32) < 32 && c != '\u{8}' && c != '\t' && c != '\n' && c != '\u{c}' && c != '\r' {
                let d = seq!['0', '1', '2', '3', '4', '5', '6', '7', '8', '9', 'a', 'b', 'c', 'd', 'e', 'f'];
                assert(forall|i: int| 0 <= i < 16 ==> d[i] != '\n');
            }
        }
        assert(escaped(s) == escaped(s.drop_last()) + escaped_char(c));
    }
}

/// A notification request is one line, whatever its message: the message's newlines are
/// escaped, so the request holds no raw newline.
pub proof fn lemma_notification_is_one_line(m: Seq<char>)
    ensures
        !notification_text(m).contains('\n'),
{
    lemma_escaped_has_no_newline(m);
    reveal_strlit("{\"type\":\"notify\",\"message\":");
    reveal_strlit("}");
    let t = notification_text(m);
    let head = "{\"type\":\"notify\",\"message\":"@;
    let e = escaped(m);
    assert forall|i: int| 0 <= i < t.len() implies t[i] != '\n' by {
        if i >= head.len() + 1 && i < head.len() + 1 + e.len() {
            assert(t[i] == e[i - head.len() - 1]);
        }
    }
}

/// The Wi-Fi request for `status`, as it goes on the wire.
pub open spec fn wifi_text(status: WifiStatus) -> Seq<char> {
    if status.enable_flag() {
        "{\"type\":\"setWifi\",\"enable\":true}"@
    } else {
        "{\"type\":\"setWifi\",\"enable\":false}"@
    }
}

/// Relies on serde_json::to_string, applied to a `str`: it writes the text as one JSON
/// string literal, escaped by serde_json's table, into a `Vec`, which cannot fail.
#[verifier::external_body]
fn json_string(s: &str) -> (r: Result<String, serde_json::Error>)
    ensures
        r is Ok,
        r matches Ok(q) ==> q@ == json_string_of(s@),
{
    serde_json::to_string(s)
}

/// Relies on serde_json::from_slice, read into a `serde_json::Value`, then on `Value::get`,
/// which finds a member of an object and nothing in any other value, and on `Value::as_str`.
#[verifier::external_body]
fn text_member(line: &[u8], key: &str) -> (r: Option<String>)
    ensures
        r matches Some(t) ==> json_text_member(line@, key@) == Some(t@),
        r is None ==> json_text_member(line@, key@) is None,
{
    let value: serde_json::Value = serde_json::from_slice(line).ok()?;
    value.get(key)?.as_str().map(|t| t.to_string())
}

/// Puts an already quoted JSON string into a notification request.
pub fn frame_notification(quoted: &str) -> (r: String)
    ensures
        r@ == notification_frame(quoted@),
{
    "{\"type\":\"notify\",\"message\":".to_owned().concat(quoted).concat("}")
}

/// The notification request for `message`.
pub fn notification_json(message: &str) -> (r: Result<String, serde_json::Error>)
    ensures
        r is Ok,
        r matches Ok(t) ==> t@ == notification_text(message@),
{
    match json_string(message) {
        Ok(quoted) => Ok(frame_notification(quoted.as_str())),
        Err(e) => Err(e),
    }
}

/// The Wi-Fi request for `status`.
pub fn wifi_json(status: WifiStatus) -> (r: String)
    ensures
        r@ == wifi_text(status),
{
    let enable: bool = bool::from(status);
    if enable {
        "{\"type\":\"setWifi\",\"enable\":true}".to_owned()
    } else {
        "{\"type\":\"setWifi\",\"enable\":false}".to_owned()
    }
}

/// The network event made of the `type` and `status` members read from one line, where both
/// were there as text.
pub fn event_from_members(kind: Option<String>, status: Option<String>) -> (r: Option<NetworkEvent>)
    ensures
        r is Some <==> kind is Some && status is Some,
        r matches Some(e) ==> e.kind@ == kind->Some_0@ && e.status@ == status->Some_0@,
{
    match (kind, status) {
        (Some(kind), Some(status)) => Some(NetworkEvent { kind, status }),
        _ => None,
    }
}

/// The network event on `line`, where the line holds one.
pub fn decode_network_event(line: &[u8]) -> (r: Option<NetworkEvent>)
    ensures
        r matches Some(e) ==> network_fields_of(line@) == Some((e.kind@, e.status@)),
        r is None <==> network_fields_of(line@) is None,
{
    event_from_members(text_member(line, "type"), text_member(line, "status"))
}

} // verus!
