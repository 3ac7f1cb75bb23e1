//! The command codec: inbound frames are compact binary (one tag byte, then
//! the payload), outbound status replies are a structured text record. The
//! two directions are intentionally asymmetric.

use vstd::prelude::*;
use crate::state::{
    lemma_state_name_chars, lemma_state_name_roundtrip, spec_state_of_name, state_name,
    state_of_name, SubState,
};
use crate::text::{
    find_from, has_no_char, lemma_find_from_at, lemma_find_from_found, find_char, str_eq,
    str_starts_with, text_starts_with,
};

verus! {

/// A command tag carried by the first byte of an inbound frame.
#[derive(Debug, Clone, Copy, PartialEq, Eq, Structural)]
pub enum ClientAction {
    Start,
    Stop,
    Restart,
    AcceptCore,
    AcceptPlugin,
    AcceptConfig,
    AcceptWorld,
    GetState,
}

/// A decoded frame: the command, and what came with it.
#[derive(Debug, Clone)]
pub struct MessageData {
    pub action: ClientAction,
    pub path: Option<String>,
    pub data: Option<Vec<u8>>,
}

/// Why an inbound frame was rejected. The frame is dropped; the receive
/// loop goes on.
#[derive(Debug, Clone, Copy, PartialEq, Eq, Structural)]
pub enum DecodeError {
    /// The frame held no bytes at all, so it had no tag.
    EmptyFrame,
    /// The tag byte lies outside the fixed mapping.
    UnknownTag,
}

/// The fixed tag mapping of the wire protocol.
pub open spec fn spec_action_of_byte(b: u8) -> Option<ClientAction> {
    if b == 0 {
        Some(ClientAction::Start)
    } else if b == 1 {
        Some(ClientAction::Stop)
    } else if b == 2 {
        Some(ClientAction::Restart)
    } else if b == 3 {
        Some(ClientAction::AcceptCore)
    } else if b == 4 {
        Some(ClientAction::AcceptPlugin)
    } else if b == 5 {
        Some(ClientAction::AcceptConfig)
    } else if b == 6 {
        Some(ClientAction::AcceptWorld)
    } else if b == 7 {
        Some(ClientAction::GetState)
    } else {
        None
    }
}

/// What decoding a whole frame yields: the tag's command and the remaining
/// bytes as payload, or the error that names what was wrong.
pub open spec fn spec_decode_frame(f: Seq<u8>) -> Result<(ClientAction, Seq<u8>), DecodeError> {
    if f.len() == 0 {
        Err(DecodeError::EmptyFrame)
    } else {
        match spec_action_of_byte(f[0]) {
            Some(a) => Ok((a, f.skip(1))),
            None => Err(DecodeError::UnknownTag),
        }
    }
}

/// The textual name a controller may use for a command, if it names one.
/// Both the snake_case and the CamelCase spelling are understood.
pub open spec fn spec_action_of_name(s: Seq<char>) -> Option<ClientAction> {
    if s == "start"@ || s == "Start"@ {
        Some(ClientAction::Start)
    } else if s == "stop"@ || s == "Stop"@ {
        Some(ClientAction::Stop)
    } else if s == "restart"@ || s == "Restart"@ {
        Some(ClientAction::Restart)
    } else if s == "accept_core"@ || s == "AcceptCore"@ {
        Some(ClientAction::AcceptCore)
    } else if s == "accept_plugin"@ || s == "AcceptPlugin"@ {
        Some(ClientAction::AcceptPlugin)
    } else if s == "accept_config"@ || s == "AcceptConfig"@ {
        Some(ClientAction::AcceptConfig)
    } else if s == "accept_world"@ || s == "AcceptWorld"@ {
        Some(ClientAction::AcceptWorld)
    } else if s == "get_state"@ || s == "GetState"@ {
        Some(ClientAction::GetState)
    } else {
        None
    }
}

impl ClientAction {
    /// The command a tag byte selects; an out-of-range byte selects none.
    pub fn from_byte(b: u8) -> (r: Option<ClientAction>)
        ensures
            r == spec_action_of_byte(b),
    {
        match b {
            0 => Some(ClientAction::Start),
            1 => Some(ClientAction::Stop),
            2 => Some(ClientAction::Restart),
            3 => Some(ClientAction::AcceptCore),
            4 => Some(ClientAction::AcceptPlugin),
            5 => Some(ClientAction::AcceptConfig),
            6 => Some(ClientAction::AcceptWorld),
            7 => Some(ClientAction::GetState),
            _ => None,
        }
    }

    /// The command a textual name selects; an unknown name selects none.
    pub fn from_name(s: &str) -> (r: Option<ClientAction>)
        ensures
            r == spec_action_of_name(s@),
    {
        if str_eq(s, "start") || str_eq(s, "Start") {
            Some(ClientAction::Start)
        } else if str_eq(s, "stop") || str_eq(s, "Stop") {
            Some(ClientAction::Stop)
        } else if str_eq(s, "restart") || str_eq(s, "Restart") {
            Some(ClientAction::Restart)
        } else if str_eq(s, "accept_core") || str_eq(s, "AcceptCore") {
            Some(ClientAction::AcceptCore)
        } else if str_eq(s, "accept_plugin") || str_eq(s, "AcceptPlugin") {
            Some(ClientAction::AcceptPlugin)
        } else if str_eq(s, "accept_config") || str_eq(s, "AcceptConfig") {
            Some(ClientAction::AcceptConfig)
        } else if str_eq(s, "accept_world") || str_eq(s, "AcceptWorld") {
            Some(ClientAction::AcceptWorld)
        } else if str_eq(s, "get_state") || str_eq(s, "GetState") {
            Some(ClientAction::GetState)
        } else {
            None
        }
    }
}

/// Decode one inbound frame: the first byte is the tag, the rest the
/// payload. A malformed frame is an error, never a crash.
pub fn decode_frame(frame: &Vec<u8>) -> (r: Result<(ClientAction, Vec<u8>), DecodeError>)
    ensures
        match spec_decode_frame(frame@) {
            Ok(ap) => r matches Ok(x) && x.0 == ap.0 && x.1@ == ap.1,
            Err(e) => r matches Err(x) && x == e,
        },
{
    if frame.len() == 0 {
        return Err(DecodeError::EmptyFrame);
    }
    let action = match ClientAction::from_byte(frame[0]) {
        Some(a) => a,
        None => {
            return Err(DecodeError::UnknownTag);
        },
    };
    let mut payload: Vec<u8> = Vec::new();
    let mut i: usize = 1;
    while i < frame.len()
        invariant
            1 <= i <= frame@.len(),
            payload@ =~= frame@.subrange(1, i as int),
        decreases frame@.len() - i,
    {
        payload.push(frame[i]);
        i += 1;
    }
    proof {
        assert(payload@ =~= frame@.skip(1));
    }
    Ok((action, payload))
}

/// The status reply sent back for a state query.
#[derive(Debug, Clone)]
pub struct ResultMessage {
    pub server: String,
    pub sub_state: SubState,
}

/// The text of a status reply: a record with a `server` field and a
/// `sub_state` field holding the lower-case state name.
pub open spec fn status_doc(name: Seq<char>, st: SubState) -> Seq<char> {
    "{\"server\":\""@ + name + "\",\"sub_state\":\""@ + state_name(st) + "\"}"@
}

/// What parsing a status reply yields: the server name and the state, when
/// the text is exactly a status record; nothing otherwise.
pub open spec fn spec_parse_status(s: Seq<char>) -> Option<(Seq<char>, SubState)> {
    let p0 = "{\"server\":\""@;
    let p1 = "\",\"sub_state\":\""@;
    if !text_starts_with(s, p0) {
        None
    } else {
        let i = find_from(s, p0.len() as int, '"');
        if i < 0 {
            None
        } else {
            let name = s.subrange(p0.len() as int, i);
            if !text_starts_with(s.skip(i), p1) {
                None
            } else {
                let j = find_from(s, i + p1.len(), '"');
                if j < 0 {
                    None
                } else if s.len() == j + 2 && s[j + 1] == '}' {
                    match spec_state_of_name(s.subrange(i + p1.len(), j)) {
                        Some(st) => Some((name, st)),
                        None => None,
                    }
                } else {
                    None
                }
            }
        }
    }
}

impl ResultMessage {
    /// The server name carries no quote, so it stands unescaped in the record.
    pub open spec fn wf(&self) -> bool {
        has_no_char(self.server@, '"')
    }

    /// Encode this reply as its text record.
    pub fn encode(&self) -> (r: String)
        ensures
            r@ == status_doc(self.server@, self.sub_state),
    {
        let mut out = String::from_str("{\"server\":\"");
        out.append(self.server.as_str());
        out.append("\",\"sub_state\":\"");
        let n = self.sub_state.name();
        out.append(n.as_str());
        out.append("\"}");
        out
    }
}

/// Parse a status reply back into its fields.
pub fn parse_status(s: &str) -> (r: Option<ResultMessage>)
    ensures
        r is Some <==> spec_parse_status(s@) is Some,
        r matches Some(m) ==> spec_parse_status(s@) == Some((m.server@, m.sub_state))
            && m.wf(),
{
    let n = s.unicode_len();
    let p0 = "{\"server\":\"";
    let p1 = "\",\"sub_state\":\"";
    if !str_starts_with(s, p0) {
        return None;
    }
    let p0n = p0.unicode_len();
    let i = match find_char(s, p0n, '"') {
        Some(i) => i,
        None => {
            return None;
        },
    };
    let name = String::from_str(s.substring_char(p0n, i));
    let tail = s.substring_char(i, n);
    proof {
        assert(tail@ =~= s@.skip(i as int));
    }
    if !str_starts_with(tail, p1) {
        return None;
    }
    let p1n = p1.unicode_len();
    let c = i + p1n;
    let j = match find_char(s, c, '"') {
        Some(j) => j,
        None => {
            return None;
        },
    };
    if n - j != 2 {
        return None;
    }
    if s.get_char(j + 1) != '}' {
        return None;
    }
    let sname = s.substring_char(c, j);
    proof {
        lemma_find_from_found(s@, p0n as int, '"');
        assert(has_no_char(name@, '"'));
    }
    match state_of_name(sname) {
        Some(st) => Some(ResultMessage { server: name, sub_state: st }),
        None => None,
    }
}

/// Round trip of the reply protocol: the record encoded for a server name
/// (one without quotes) and a state parses back to exactly that name and
/// that state.
pub proof fn lemma_status_roundtrip(name: Seq<char>, st: SubState)
    requires
        has_no_char(name, '"'),
    ensures
        spec_parse_status(status_doc(name, st)) == Some((name, st)),
{
    let p0 = "{\"server\":\""@;
    let p1 = "\",\"sub_state\":\""@;
    let t = "\"}"@;
    let sn = state_name(st);
    let s = status_doc(name, st);
    reveal_strlit("{\"server\":\"");
    reveal_strlit("\",\"sub_state\":\"");
    reveal_strlit("\"}");
    lemma_state_name_chars(st);
    assert(p0.len() == 11);
    assert(p1.len() == 15);
    assert(t.len() == 2);
    let a = p0.len() as int;
    let b = a + name.len();
    let c = b + p1.len();
    let d = c + sn.len();
    assert(s.len() == d + 2);
    assert(forall|k: int| 0 <= k < a ==> s[k] == p0[k]);
    assert(s.subrange(0, a) =~= p0);
    assert(text_starts_with(s, p0));
    assert(forall|k: int| a <= k < b ==> s[k] == name[k - a]);
    assert(forall|k: int| b <= k < c ==> s[k] == p1[k - b]);
    assert(forall|k: int| c <= k < d ==> s[k] == sn[k - c]);
    assert(forall|k: int| d <= k < s.len() ==> s[k] == t[k - d]);
    assert(p1[0] == '"');
    assert(t[0] == '"' && t[1] == '}');
    assert(forall|i: int| a <= i < b ==> s[i] != '"');
    assert(s[b] == '"');
    lemma_find_from_at(s, a, '"', b);
    assert(find_from(s, a, '"') == b);
    assert(s.subrange(a, b) =~= name);
    assert(forall|k: int| 0 <= k < p1.len() ==> s.skip(b)[k] == p1[k]);
    assert(s.skip(b).subrange(0, p1.len() as int) =~= p1);
    assert(text_starts_with(s.skip(b), p1));
    assert(forall|i: int| c <= i < d ==> s[i] != '"');
    assert(s[d] == '"');
    lemma_find_from_at(s, c, '"', d);
    assert(find_from(s, c, '"') == d);
    assert(s.subrange(c, d) =~= sn);
    lemma_state_name_roundtrip(st);
    assert(s[d + 1] == '}');
}

} // verus!
