//! The nested packet encoding.
//!
//! On the wire, a message's content is itself a serialized structured packet
//! `{"action": <name>, "arguments": {<key>: <value>, ...}}` that the core
//! must parse a second time before it can classify a response. This module
//! renders a packet to that text and parses it back, calling `serde_json`
//! through a small trusted layer whose results are named, so that what a
//! given text parses to is a fixed function of the text; everything around
//! the calls, framing and classification included, is verified against those
//! names.

use vstd::prelude::*;
use vstd::string::StringExecFns;

use crate::chat::{args_view, out_view, unique_keys, Action, ActionPacket, ChatError, Message,
    PacketModel, Prompt};

verus! {

/// The JSON object text that `serde_json` renders for these key/value pairs;
/// a function of the pairs alone.
pub uninterp spec fn args_text(args: Seq<(Seq<char>, Seq<char>)>) -> Seq<char>;

/// Relies on serde_json::to_string on a `BTreeMap<&str, &str>`: the JSON
/// object text for these key/value pairs, a function of the pairs alone.
/// Serializing a map with string keys and string values cannot fail.
#[verifier::external_body]
fn args_json(pairs: &Vec<(String, String)>) -> (r: String)
    ensures
        r@ == args_text(args_view(pairs@)),
{
    let map: std::collections::BTreeMap<&str, &str> = pairs.iter().map(
        |p| (p.0.as_str(), p.1.as_str()),
    ).collect();
    match serde_json::to_string(&map) {
        Ok(s) => s,
        Err(_) => String::new(),
    }
}

/// Relies on `String: FromIterator<char>`: the collected string holds exactly
/// the given characters in order.
#[verifier::external_body]
pub fn string_from_chars(cs: &Vec<char>) -> (r: String)
    ensures
        r@ == cs@,
{
    cs.iter().collect()
}

/// Mathematical value of an optional string.
pub open spec fn opt_text(r: Option<String>) -> Option<Seq<char>> {
    match r {
        Some(s) => Some(s@),
        None => None,
    }
}

/// Mathematical value of an optional (text, key/value pairs) extraction.
pub open spec fn fields_view(r: Option<(String, Vec<(String, String)>)>) -> Option<
    (Seq<char>, Seq<(Seq<char>, Seq<char>)>),
> {
    match r {
        Some(f) => Some((f.0@, args_view(f.1@))),
        None => None,
    }
}

/// The string standing under `outer`.`inner` in the JSON document `body`:
/// `Some` exactly when `body` parses as a document whose `outer` field is an
/// object whose `inner` field is a string. A function of the three texts
/// alone.
pub uninterp spec fn nested_string_of(body: Seq<char>, outer: Seq<char>, inner: Seq<char>) -> Option<
    Seq<char>,
>;

/// Relies on serde_json::from_str::<Value>, Value::get and Value::as_str:
/// looks the string under `outer`.`inner` up in the document `body`. The
/// result depends on the three texts alone.
#[verifier::external_body]
fn nested_string(body: &str, outer: &str, inner: &str) -> (r: Option<String>)
    ensures
        opt_text(r) == nested_string_of(body@, outer@, inner@),
{
    let doc: serde_json::Value = match serde_json::from_str(body) {
        Ok(v) => v,
        Err(_) => return None,
    };
    let s = doc.get(outer)?.get(inner)?.as_str()?;
    Some(s.to_string())
}

/// The string under `text_key` and the string-to-string object under
/// `pairs_key` of the JSON object `text`: `Some` exactly when `text` parses
/// as an object carrying both fields in those shapes; the pairs come in the
/// map's own key order. A function of the three texts alone.
pub uninterp spec fn object_fields_of(text: Seq<char>, text_key: Seq<char>, pairs_key: Seq<char>) -> Option<
    (Seq<char>, Seq<(Seq<char>, Seq<char>)>),
>;

/// Relies on serde_json::from_str::<Value>, Value::get, Value::as_str and
/// serde_json::from_value::<BTreeMap<String, String>>: extracts the string
/// under `text_key` and the string map under `pairs_key` from the JSON
/// object `text`. The result depends on the three texts alone; a map's keys
/// are unique.
#[verifier::external_body]
fn object_fields(text: &str, text_key: &str, pairs_key: &str) -> (r: Option<
    (String, Vec<(String, String)>),
>)
    ensures
        fields_view(r) == object_fields_of(text@, text_key@, pairs_key@),
        r matches Some(f) ==> unique_keys(args_view(f.1@)),
{
    let doc: serde_json::Value = match serde_json::from_str(text) {
        Ok(v) => v,
        Err(_) => return None,
    };
    let found = doc.get(text_key)?.as_str()?.to_string();
    let map: std::collections::BTreeMap<String, String> =
        match serde_json::from_value(doc.get(pairs_key)?.clone()) {
            Ok(m) => m,
            Err(_) => return None,
        };
    Some((found, map.into_iter().collect()))
}

/// The packet's wire text: the action name and the arguments object, framed
/// as one JSON object. Action names are plain identifiers, so they stand in
/// the text unescaped.
pub open spec fn packet_text(p: PacketModel) -> Seq<char> {
    "{\"action\":\""@ + p.action.spec_name() + "\",\"arguments\":"@ + args_text(p.args) + "}"@
}

/// What a packet text parses to, as a function of the text alone: the packet
/// whose action the text names, `DecodeError` for a text that is not a
/// packet, `UnrecognizedTool` for an action name the core does not know.
pub open spec fn spec_parse_packet(text: Seq<char>) -> Result<PacketModel, ChatError> {
    match object_fields_of(text, "action"@, "arguments"@) {
        None => Err(ChatError::DecodeError),
        Some(fields) => match Action::spec_from_name(fields.0) {
            None => Err(ChatError::UnrecognizedTool),
            Some(action) => Ok(PacketModel { action, args: fields.1 }),
        },
    }
}

/// What a whole response body parses to: the packet its `message.content`
/// carries, or `DecodeError` when the body is not a response document.
pub open spec fn spec_parse_reply(body: Seq<char>) -> Result<PacketModel, ChatError> {
    match nested_string_of(body, "message"@, "content"@) {
        None => Err(ChatError::DecodeError),
        Some(text) => spec_parse_packet(text),
    }
}

impl ActionPacket {
    /// Renders the packet as its wire text.
    pub fn to_text(&self) -> (r: String)
        ensures
            r@ == packet_text(self@),
    {
        let mut out = String::from_str("{\"action\":\"");
        out.append(self.action.name());
        out.append("\",\"arguments\":");
        let args = args_json(&self.arguments);
        out.append(args.as_str());
        out.append("}");
        proof {
            assert(out@ =~= packet_text(self@));
        }
        out
    }

    /// Parses a packet from its wire text: the second decoding pass the core
    /// applies to a response's content. The result is exactly
    /// `spec_parse_packet` of the text: the named packet on a packet text,
    /// `DecodeError` on anything else, `UnrecognizedTool` on an unknown
    /// action name.
    pub fn parse(s: &str) -> (r: Result<ActionPacket, ChatError>)
        ensures
            out_view(r) == spec_parse_packet(s@),
            r matches Ok(p) ==> p@.wf(),
    {
        let fields = match object_fields(s, "action", "arguments") {
            Some(f) => f,
            None => {
                return Err(ChatError::DecodeError);
            },
        };
        let (action_name, arguments) = fields;
        match Action::from_name(action_name.as_str()) {
            Some(action) => Ok(ActionPacket::new(action, arguments)),
            None => Err(ChatError::UnrecognizedTool),
        }
    }
}

/// Parses a whole service response down to its packet: the body is the
/// response document `{model, created_at, message: {role, content}, ...}`,
/// and `content` is itself a serialized packet, parsed a second time. The
/// result is exactly `spec_parse_reply` of the body.
pub fn parse_reply(body: &str) -> (r: Result<ActionPacket, ChatError>)
    ensures
        out_view(r) == spec_parse_reply(body@),
        r matches Ok(p) ==> p@.wf(),
{
    match nested_string(body, "message", "content") {
        Some(text) => ActionPacket::parse(text.as_str()),
        None => Err(ChatError::DecodeError),
    }
}

impl Message {
    /// The entry's content as wire text.
    pub fn content_text(&self) -> (r: String)
        ensures
            r@ == packet_text(self.content@),
    {
        self.content.to_text()
    }

    /// The entry as one display line: its role's name, a separator, and its
    /// content text.
    pub fn display_line(&self) -> (r: String)
        ensures
            r@ == self.role.spec_name() + ": "@ + packet_text(self.content@),
    {
        let mut out = self.role.name().to_owned();
        out.append(": ");
        let text = self.content.to_text();
        out.append(text.as_str());
        proof {
            assert(out@ =~= self.role.spec_name() + ": "@ + packet_text(self.content@));
        }
        out
    }

    /// The entry as one turn of a wire request: its role's name, and its
    /// content serialized back unchanged.
    pub fn to_prompt(&self) -> (p: Prompt)
        ensures
            p.role@ == self.role.spec_name(),
            p.content@ == packet_text(self.content@),
    {
        Prompt { role: self.role.name().to_owned(), content: self.content.to_text() }
    }
}

} // verus!
