//! Envelope codec: an envelope and the JSON tree `{"op": .., "d": .., "s": .., "t": ..}`
//! that carries it. The payload is read according to the opcode.
use vstd::prelude::*;
use crate::json::{Json, member, find_member};
use crate::opcode::{OpCode, code_of, op_of, lemma_code_round_trip};
use crate::event::{
    ConnectionProperties, User, UnavailableGuild, EventData, GatewayEvent, PropertiesView,
    UserView, GuildView, EventDataView, GatewayEventView, option_text_view, is_ready_name,
    payload_fits,
};

verus! {

/// Why a tree is not an envelope.
#[derive(Debug, PartialEq, Eq, Structural, Clone, Copy)]
pub enum DecodeError {
    /// The frame's text is not JSON; found by the program that parses the text.
    NotJson,
    NotAnObject,
    /// `op` is missing or not a non-negative integer.
    InvalidOpcode,
    /// `s` is neither null nor an integer that fits in 32 bits.
    InvalidSequence,
    /// `t` is neither null nor a string.
    InvalidEventName,
    /// `d` does not have the shape that the opcode asks for.
    InvalidPayload,
}

// ---------------------------------------------------------------- reading

pub open spec fn text_of(j: Option<Json>) -> Option<Seq<char>> {
    match j {
        Some(Json::Str(s)) => Some(s@),
        _ => None,
    }
}

pub open spec fn u64_of(j: Option<Json>) -> Option<u64> {
    match j {
        Some(Json::UInt(n)) => Some(n),
        _ => None,
    }
}

pub open spec fn u32_of(j: Option<Json>) -> Option<u32> {
    match j {
        Some(Json::UInt(n)) => if n <= u32::MAX { Some(n as u32) } else { None },
        _ => None,
    }
}

pub open spec fn u8_of(j: Option<Json>) -> Option<u8> {
    match j {
        Some(Json::UInt(n)) => if n <= u8::MAX { Some(n as u8) } else { None },
        _ => None,
    }
}

pub open spec fn bool_of(j: Option<Json>) -> Option<bool> {
    match j {
        Some(Json::Bool(b)) => Some(b),
        _ => None,
    }
}

pub open spec fn properties_of(j: Json) -> Option<PropertiesView> {
    match j {
        Json::Object(ms) => {
            let os = text_of(member(ms@, "os"@));
            let browser = text_of(member(ms@, "browser"@));
            let device = text_of(member(ms@, "device"@));
            if os is Some && browser is Some && device is Some {
                Some(PropertiesView { os: os->0, browser: browser->0, device: device->0 })
            } else {
                None
            }
        },
        _ => None,
    }
}

pub open spec fn user_of(j: Json) -> Option<UserView> {
    match j {
        Json::Object(ms) => {
            let id = text_of(member(ms@, "id"@));
            let username = text_of(member(ms@, "username"@));
            let discriminator = text_of(member(ms@, "discriminator"@));
            let avatar = text_of(member(ms@, "avatar"@));
            if id is Some && username is Some && discriminator is Some && avatar is Some {
                Some(
                    UserView {
                        id: id->0,
                        username: username->0,
                        discriminator: discriminator->0,
                        avatar: avatar->0,
                    },
                )
            } else {
                None
            }
        },
        _ => None,
    }
}

pub open spec fn guild_of(j: Json) -> Option<GuildView> {
    match j {
        Json::Object(ms) => {
            let id = text_of(member(ms@, "id"@));
            let unavailable = bool_of(member(ms@, "unavailable"@));
            if id is Some && unavailable is Some {
                Some(GuildView { id: id->0, unavailable: unavailable->0 })
            } else {
                None
            }
        },
        _ => None,
    }
}

pub open spec fn guilds_of(j: Json) -> Option<Seq<GuildView>> {
    match j {
        Json::Array(v) => if forall|i: int| 0 <= i < v@.len() ==> (#[trigger] guild_of(v@[i])) is Some {
            Some(v@.map_values(|x: Json| guild_of(x)->0))
        } else {
            None
        },
        _ => None,
    }
}

pub open spec fn identify_of(j: Json) -> Option<EventDataView> {
    match j {
        Json::Object(ms) => {
            let token = text_of(member(ms@, "token"@));
            let properties = member(ms@, "properties"@);
            let intents = u32_of(member(ms@, "intents"@));
            if token is Some && properties is Some && properties_of(properties->0) is Some
                && intents is Some {
                Some(
                    EventDataView::Identify {
                        token: token->0,
                        properties: properties_of(properties->0)->0,
                        intents: intents->0,
                    },
                )
            } else {
                None
            }
        },
        _ => None,
    }
}

pub open spec fn resume_of(j: Json) -> Option<EventDataView> {
    match j {
        Json::Object(ms) => {
            let token = text_of(member(ms@, "token"@));
            let session_id = text_of(member(ms@, "session_id"@));
            let seq = u32_of(member(ms@, "seq"@));
            if token is Some && session_id is Some && seq is Some {
                Some(
                    EventDataView::Resume {
                        token: token->0,
                        session_id: session_id->0,
                        seq: seq->0,
                    },
                )
            } else {
                None
            }
        },
        _ => None,
    }
}

pub open spec fn hello_of(j: Json) -> Option<EventDataView> {
    match j {
        Json::Object(ms) => match u64_of(member(ms@, "heartbeat_interval"@)) {
            Some(h) => Some(EventDataView::Hello { heartbeat_interval: h }),
            None => None,
        },
        _ => None,
    }
}

pub open spec fn ready_of(j: Json) -> Option<EventDataView> {
    match j {
        Json::Object(ms) => {
            let v = u8_of(member(ms@, "v"@));
            let user = member(ms@, "user"@);
            let guilds = member(ms@, "guilds"@);
            let session_id = text_of(member(ms@, "session_id"@));
            let resume_gateway_url = text_of(member(ms@, "resume_gateway_url"@));
            if v is Some && user is Some && user_of(user->0) is Some && guilds is Some
                && guilds_of(guilds->0) is Some && session_id is Some
                && resume_gateway_url is Some {
                Some(
                    EventDataView::Ready {
                        v: v->0,
                        user: user_of(user->0)->0,
                        guilds: guilds_of(guilds->0)->0,
                        session_id: session_id->0,
                        resume_gateway_url: resume_gateway_url->0,
                    },
                )
            } else {
                None
            }
        },
        _ => None,
    }
}

/// The payload that a non-null `d` stands for, given the opcode and event name;
/// `None` where `d` does not have the shape that they ask for.
pub open spec fn payload_of(op: OpCode, name: Option<Seq<char>>, d: Json) -> Option<EventDataView> {
    match op {
        OpCode::Dispatch => if is_ready_name(name) {
            ready_of(d)
        } else {
            Some(EventDataView::Other(d))
        },
        OpCode::Heartbeat => match u32_of(Some(d)) {
            Some(n) => Some(EventDataView::Heartbeat(n)),
            None => None,
        },
        OpCode::Identify => identify_of(d),
        OpCode::Resume => resume_of(d),
        OpCode::Hello => hello_of(d),
        OpCode::InvalidSession => match d {
            Json::Bool(b) => Some(EventDataView::InvalidSession(b)),
            _ => None,
        },
        _ => Some(EventDataView::Other(d)),
    }
}

/// `s`: absent or null is no sequence number; `None` where it is malformed.
pub open spec fn seq_field(j: Option<Json>) -> Option<Option<u32>> {
    match j {
        None => Some(None),
        Some(Json::Null) => Some(None),
        Some(Json::UInt(n)) => if n <= u32::MAX { Some(Some(n as u32)) } else { None },
        _ => None,
    }
}

/// `t`: absent or null is no event name; `None` where it is malformed.
pub open spec fn name_field(j: Option<Json>) -> Option<Option<Seq<char>>> {
    match j {
        None => Some(None),
        Some(Json::Null) => Some(None),
        Some(Json::Str(s)) => Some(Some(s@)),
        _ => None,
    }
}

/// The envelope that a tree stands for, or why it stands for none.
pub open spec fn decode_spec(j: Json) -> Result<GatewayEventView, DecodeError> {
    match j {
        Json::Object(ms) => match member(ms@, "op"@) {
            Some(Json::UInt(n)) => match seq_field(member(ms@, "s"@)) {
                None => Err(DecodeError::InvalidSequence),
                Some(seq) => match name_field(member(ms@, "t"@)) {
                    None => Err(DecodeError::InvalidEventName),
                    Some(name) => {
                        let bare = GatewayEventView {
                            op: op_of(n),
                            event_data: None,
                            seq,
                            event_name: name,
                        };
                        match member(ms@, "d"@) {
                            None => Ok(bare),
                            Some(Json::Null) => Ok(bare),
                            Some(d) => match payload_of(op_of(n), name, d) {
                                Some(p) => Ok(GatewayEventView { event_data: Some(p), ..bare }),
                                None => Err(DecodeError::InvalidPayload),
                            },
                        }
                    },
                },
            },
            _ => Err(DecodeError::InvalidOpcode),
        },
        _ => Err(DecodeError::NotAnObject),
    }
}

fn text_member(ms: &Vec<(String, Json)>, key: &str) -> (r: Option<String>)
    ensures
        option_text_view(r) == text_of(member(ms@, key@)),
{
    match find_member(ms, key) {
        Some(i) => match &ms[i].1 {
            Json::Str(s) => Some(s.clone()),
            _ => None,
        },
        None => None,
    }
}

fn u64_member(ms: &Vec<(String, Json)>, key: &str) -> (r: Option<u64>)
    ensures
        r == u64_of(member(ms@, key@)),
{
    match find_member(ms, key) {
        Some(i) => match &ms[i].1 {
            Json::UInt(n) => Some(*n),
            _ => None,
        },
        None => None,
    }
}

fn u32_value(j: &Json) -> (r: Option<u32>)
    ensures
        r == u32_of(Some(*j)),
{
    match j {
        Json::UInt(n) => if *n <= u32::MAX as u64 {
            Some(*n as u32)
        } else {
            None
        },
        _ => None,
    }
}

fn u32_member(ms: &Vec<(String, Json)>, key: &str) -> (r: Option<u32>)
    ensures
        r == u32_of(member(ms@, key@)),
{
    match find_member(ms, key) {
        Some(i) => u32_value(&ms[i].1),
        None => None,
    }
}

fn u8_member(ms: &Vec<(String, Json)>, key: &str) -> (r: Option<u8>)
    ensures
        r == u8_of(member(ms@, key@)),
{
    match find_member(ms, key) {
        Some(i) => match &ms[i].1 {
            Json::UInt(n) => if *n <= u8::MAX as u64 {
                Some(*n as u8)
            } else {
                None
            },
            _ => None,
        },
        None => None,
    }
}

fn bool_member(ms: &Vec<(String, Json)>, key: &str) -> (r: Option<bool>)
    ensures
        r == bool_of(member(ms@, key@)),
{
    match find_member(ms, key) {
        Some(i) => match &ms[i].1 {
            Json::Bool(b) => Some(*b),
            _ => None,
        },
        None => None,
    }
}

fn properties_from(j: &Json) -> (r: Option<ConnectionProperties>)
    ensures
        match r {
            Some(p) => properties_of(*j) == Some(p@),
            None => properties_of(*j) is None,
        },
{
    match j {
        Json::Object(ms) => {
            let os = text_member(ms, "os");
            let browser = text_member(ms, "browser");
            let device = text_member(ms, "device");
            match (os, browser, device) {
                (Some(os), Some(browser), Some(device)) => Some(
                    ConnectionProperties { os, browser, device },
                ),
                _ => None,
            }
        },
        _ => None,
    }
}

fn user_from(j: &Json) -> (r: Option<User>)
    ensures
        match r {
            Some(u) => user_of(*j) == Some(u@),
            None => user_of(*j) is None,
        },
{
    match j {
        Json::Object(ms) => {
            let id = text_member(ms, "id");
            let username = text_member(ms, "username");
            let discriminator = text_member(ms, "discriminator");
            let avatar = text_member(ms, "avatar");
            match (id, username, discriminator, avatar) {
                (Some(id), Some(username), Some(discriminator), Some(avatar)) => Some(
                    User { id, username, discriminator, avatar },
                ),
                _ => None,
            }
        },
        _ => None,
    }
}

fn guild_from(j: &Json) -> (r: Option<UnavailableGuild>)
    ensures
        match r {
            Some(g) => guild_of(*j) == Some(g@),
            None => guild_of(*j) is None,
        },
{
    match j {
        Json::Object(ms) => {
            let id = text_member(ms, "id");
            let unavailable = bool_member(ms, "unavailable");
            match (id, unavailable) {
                (Some(id), Some(unavailable)) => Some(UnavailableGuild { id, unavailable }),
                _ => None,
            }
        },
        _ => None,
    }
}

fn guilds_from(j: &Json) -> (r: Option<Vec<UnavailableGuild>>)
    ensures
        match r {
            Some(gs) => guilds_of(*j) == Some(gs@.map_values(|g: UnavailableGuild| g@)),
            None => guilds_of(*j) is None,
        },
{
    match j {
        Json::Array(v) => {
            let mut out: Vec<UnavailableGuild> = Vec::new();
            let mut i: usize = 0;
            while i < v.len()
                invariant
                    0 <= i <= v.len(),
                    out.len() == i,
                    *j == Json::Array(*v),
                    forall|k: int| 0 <= k < i ==> guild_of(v@[k]) == Some((#[trigger] out@[k])@),
                decreases v.len() - i,
            {
                match guild_from(&v[i]) {
                    Some(g) => out.push(g),
                    None => {
                        assert(guild_of(v@[i as int]) is None);
                        return None;
                    },
                }
                i = i + 1;
            }
            assert forall|k: int| 0 <= k < v@.len() implies (#[trigger] guild_of(v@[k])) is Some by {
                assert(guild_of(v@[k]) == Some(out@[k]@));
            }
            assert(out@.map_values(|g: UnavailableGuild| g@) =~= v@.map_values(|x: Json| guild_of(x)->0));
            Some(out)
        },
        _ => None,
    }
}

fn identify_from(j: &Json) -> (r: Option<EventData>)
    ensures
        match r {
            Some(p) => identify_of(*j) == Some(p@),
            None => identify_of(*j) is None,
        },
{
    match j {
        Json::Object(ms) => {
            let token = text_member(ms, "token");
            let properties = match find_member(ms, "properties") {
                Some(i) => properties_from(&ms[i].1),
                None => None,
            };
            let intents = u32_member(ms, "intents");
            match (token, properties, intents) {
                (Some(token), Some(properties), Some(intents)) => Some(
                    EventData::Identify { token, properties, intents },
                ),
                _ => None,
            }
        },
        _ => None,
    }
}

fn resume_from(j: &Json) -> (r: Option<EventData>)
    ensures
        match r {
            Some(p) => resume_of(*j) == Some(p@),
            None => resume_of(*j) is None,
        },
{
    match j {
        Json::Object(ms) => {
            let token = text_member(ms, "token");
            let session_id = text_member(ms, "session_id");
            let seq = u32_member(ms, "seq");
            match (token, session_id, seq) {
                (Some(token), Some(session_id), Some(seq)) => Some(
                    EventData::Resume { token, session_id, seq },
                ),
                _ => None,
            }
        },
        _ => None,
    }
}

fn hello_from(j: &Json) -> (r: Option<EventData>)
    ensures
        match r {
            Some(p) => hello_of(*j) == Some(p@),
            None => hello_of(*j) is None,
        },
{
    match j {
        Json::Object(ms) => match u64_member(ms, "heartbeat_interval") {
            Some(h) => Some(EventData::Hello { heartbeat_interval: h }),
            None => None,
        },
        _ => None,
    }
}

fn ready_from(j: &Json) -> (r: Option<EventData>)
    ensures
        match r {
            Some(p) => ready_of(*j) == Some(p@),
            None => ready_of(*j) is None,
        },
{
    match j {
        Json::Object(ms) => {
            let v = u8_member(ms, "v");
            let user = match find_member(ms, "user") {
                Some(i) => user_from(&ms[i].1),
                None => None,
            };
            let guilds = match find_member(ms, "guilds") {
                Some(i) => guilds_from(&ms[i].1),
                None => None,
            };
            let session_id = text_member(ms, "session_id");
            let resume_gateway_url = text_member(ms, "resume_gateway_url");
            match (v, user, guilds, session_id, resume_gateway_url) {
                (Some(v), Some(user), Some(guilds), Some(session_id), Some(resume_gateway_url)) => {
                    Some(EventData::Ready { v, user, guilds, session_id, resume_gateway_url })
                },
                _ => None,
            }
        },
        _ => None,
    }
}

/// Whether an event name is the one under which Ready arrives.
pub fn is_ready(name: &Option<String>) -> (r: bool)
    ensures
        r == is_ready_name(option_text_view(*name)),
{
    match name {
        Some(t) => {
            let ready = String::from_str("READY");
            *t == ready
        },
        None => false,
    }
}

fn payload_from(op: OpCode, name: &Option<String>, d: Json) -> (r: Option<EventData>)
    ensures
        match r {
            Some(p) => payload_of(op, option_text_view(*name), d) == Some(p@),
            None => payload_of(op, option_text_view(*name), d) is None,
        },
{
    match op {
        OpCode::Dispatch => if is_ready(name) {
            ready_from(&d)
        } else {
            Some(EventData::Other(d))
        },
        OpCode::Heartbeat => match u32_value(&d) {
            Some(n) => Some(EventData::Heartbeat(n)),
            None => None,
        },
        OpCode::Identify => identify_from(&d),
        OpCode::Resume => resume_from(&d),
        OpCode::Hello => hello_from(&d),
        OpCode::InvalidSession => match d {
            Json::Bool(b) => Some(EventData::InvalidSession(b)),
            _ => None,
        },
        _ => Some(EventData::Other(d)),
    }
}

/// Reads an envelope out of a frame's JSON tree.
pub fn decode(frame: Json) -> (r: Result<GatewayEvent, DecodeError>)
    ensures
        match r {
            Ok(e) => decode_spec(frame) == Ok::<GatewayEventView, DecodeError>(e@),
            Err(x) => decode_spec(frame) == Err::<GatewayEventView, DecodeError>(x),
        },
{
    match frame {
        Json::Object(ms) => {
            let mut ms = ms;
            let op = match find_member(&ms, "op") {
                Some(i) => match &ms[i].1 {
                    Json::UInt(n) => OpCode::from_code(*n),
                    _ => return Err(DecodeError::InvalidOpcode),
                },
                None => return Err(DecodeError::InvalidOpcode),
            };
            let seq: Option<u32> = match find_member(&ms, "s") {
                Some(i) => match &ms[i].1 {
                    Json::Null => None,
                    Json::UInt(n) => if *n <= u32::MAX as u64 {
                        Some(*n as u32)
                    } else {
                        return Err(DecodeError::InvalidSequence);
                    },
                    _ => return Err(DecodeError::InvalidSequence),
                },
                None => None,
            };
            let event_name: Option<String> = match find_member(&ms, "t") {
                Some(i) => match &ms[i].1 {
                    Json::Null => None,
                    Json::Str(t) => Some(t.clone()),
                    _ => return Err(DecodeError::InvalidEventName),
                },
                None => None,
            };
            let event_data = match find_member(&ms, "d") {
                Some(i) => {
                    let (_, d) = ms.remove(i);
                    match d {
                        Json::Null => None,
                        _ => match payload_from(op, &event_name, d) {
                            Some(p) => Some(p),
                            None => return Err(DecodeError::InvalidPayload),
                        },
                    }
                },
                None => None,
            };
            Ok(GatewayEvent { op, event_data, seq, event_name })
        },
        _ => Err(DecodeError::NotAnObject),
    }
}

// ---------------------------------------------------------------- writing

/// `j` is an object whose member keys are exactly `keys`, in that order.
pub open spec fn keys_are(j: Json, keys: Seq<Seq<char>>) -> bool {
    &&& j is Object
    &&& j->Object_0@.len() == keys.len()
    &&& forall|i: int| 0 <= i < keys.len() ==> (#[trigger] j->Object_0@[i]).0@ == keys[i]
}

/// The value of an object's `i`-th member.
pub open spec fn at(j: Json, i: int) -> Json {
    j->Object_0@[i].1
}

pub open spec fn is_text(j: Json, s: Seq<char>) -> bool {
    j is Str && j->Str_0@ == s
}

pub open spec fn properties_json(p: PropertiesView, j: Json) -> bool {
    &&& keys_are(j, seq!["os"@, "browser"@, "device"@])
    &&& is_text(at(j, 0), p.os)
    &&& is_text(at(j, 1), p.browser)
    &&& is_text(at(j, 2), p.device)
}

pub open spec fn user_json(u: UserView, j: Json) -> bool {
    &&& keys_are(j, seq!["id"@, "username"@, "discriminator"@, "avatar"@])
    &&& is_text(at(j, 0), u.id)
    &&& is_text(at(j, 1), u.username)
    &&& is_text(at(j, 2), u.discriminator)
    &&& is_text(at(j, 3), u.avatar)
}

pub open spec fn guild_json(g: GuildView, j: Json) -> bool {
    &&& keys_are(j, seq!["id"@, "unavailable"@])
    &&& is_text(at(j, 0), g.id)
    &&& at(j, 1) == Json::Bool(g.unavailable)
}

pub open spec fn guilds_json(gs: Seq<GuildView>, j: Json) -> bool {
    &&& j is Array
    &&& j->Array_0@.len() == gs.len()
    &&& forall|i: int| 0 <= i < gs.len() ==> guild_json(gs[i], #[trigger] j->Array_0@[i])
}

/// `j` is the tree written for payload `d`.
pub open spec fn payload_json(d: EventDataView, j: Json) -> bool {
    match d {
        EventDataView::Identify { token, properties, intents } => {
            &&& keys_are(j, seq!["token"@, "properties"@, "intents"@])
            &&& is_text(at(j, 0), token)
            &&& properties_json(properties, at(j, 1))
            &&& at(j, 2) == Json::UInt(intents as u64)
        },
        EventDataView::Resume { token, session_id, seq } => {
            &&& keys_are(j, seq!["token"@, "session_id"@, "seq"@])
            &&& is_text(at(j, 0), token)
            &&& is_text(at(j, 1), session_id)
            &&& at(j, 2) == Json::UInt(seq as u64)
        },
        EventDataView::Heartbeat(n) => j == Json::UInt(n as u64),
        EventDataView::Hello { heartbeat_interval } => {
            &&& keys_are(j, seq!["heartbeat_interval"@])
            &&& at(j, 0) == Json::UInt(heartbeat_interval)
        },
        EventDataView::Ready { v, user, guilds, session_id, resume_gateway_url } => {
            &&& keys_are(j, seq!["v"@, "user"@, "guilds"@, "session_id"@, "resume_gateway_url"@])
            &&& at(j, 0) == Json::UInt(v as u64)
            &&& user_json(user, at(j, 1))
            &&& guilds_json(guilds, at(j, 2))
            &&& is_text(at(j, 3), session_id)
            &&& is_text(at(j, 4), resume_gateway_url)
        },
        EventDataView::InvalidSession(b) => j == Json::Bool(b),
        EventDataView::Other(x) => j == x,
    }
}

/// `j` is the tree written for envelope `e`: the members `op`, `d`, `s`, `t` in
/// that order, with null standing for an absent payload, sequence number or name.
pub open spec fn encodes(e: GatewayEventView, j: Json) -> bool {
    &&& keys_are(j, seq!["op"@, "d"@, "s"@, "t"@])
    &&& at(j, 0) == Json::UInt(code_of(e.op))
    &&& match e.event_data {
        Some(d) => payload_json(d, at(j, 1)),
        None => at(j, 1) == Json::Null,
    }
    &&& match e.seq {
        Some(n) => at(j, 2) == Json::UInt(n as u64),
        None => at(j, 2) == Json::Null,
    }
    &&& match e.event_name {
        Some(t) => is_text(at(j, 3), t),
        None => at(j, 3) == Json::Null,
    }
}

fn properties_to_json(p: ConnectionProperties) -> (r: Json)
    ensures
        properties_json(p@, r),
{
    let mut ms: Vec<(String, Json)> = Vec::new();
    ms.push((String::from_str("os"), Json::Str(p.os)));
    ms.push((String::from_str("browser"), Json::Str(p.browser)));
    ms.push((String::from_str("device"), Json::Str(p.device)));
    Json::Object(ms)
}

fn user_to_json(u: User) -> (r: Json)
    ensures
        user_json(u@, r),
{
    let mut ms: Vec<(String, Json)> = Vec::new();
    ms.push((String::from_str("id"), Json::Str(u.id)));
    ms.push((String::from_str("username"), Json::Str(u.username)));
    ms.push((String::from_str("discriminator"), Json::Str(u.discriminator)));
    ms.push((String::from_str("avatar"), Json::Str(u.avatar)));
    Json::Object(ms)
}

fn guild_to_json(g: UnavailableGuild) -> (r: Json)
    ensures
        guild_json(g@, r),
{
    let mut ms: Vec<(String, Json)> = Vec::new();
    ms.push((String::from_str("id"), Json::Str(g.id)));
    ms.push((String::from_str("unavailable"), Json::Bool(g.unavailable)));
    Json::Object(ms)
}

fn guilds_to_json(gs: Vec<UnavailableGuild>) -> (r: Json)
    ensures
        guilds_json(gs@.map_values(|g: UnavailableGuild| g@), r),
{
    let ghost all = gs@;
    let mut rest = gs;
    let mut out: Vec<Json> = Vec::new();
    while rest.len() > 0
        invariant
            out.len() + rest.len() == all.len(),
            rest@ == all.subrange(out.len() as int, all.len() as int),
            forall|k: int| 0 <= k < out.len() ==> guild_json(all[k]@, #[trigger] out@[k]),
        decreases rest.len(),
    {
        let g = rest.remove(0);
        out.push(guild_to_json(g));
        assert(rest@ =~= all.subrange(out.len() as int, all.len() as int));
    }
    Json::Array(out)
}

fn payload_to_json(d: EventData) -> (r: Json)
    ensures
        payload_json(d@, r),
{
    match d {
        EventData::Identify { token, properties, intents } => {
            let mut ms: Vec<(String, Json)> = Vec::new();
            ms.push((String::from_str("token"), Json::Str(token)));
            ms.push((String::from_str("properties"), properties_to_json(properties)));
            ms.push((String::from_str("intents"), Json::UInt(intents as u64)));
            Json::Object(ms)
        },
        EventData::Resume { token, session_id, seq } => {
            let mut ms: Vec<(String, Json)> = Vec::new();
            ms.push((String::from_str("token"), Json::Str(token)));
            ms.push((String::from_str("session_id"), Json::Str(session_id)));
            ms.push((String::from_str("seq"), Json::UInt(seq as u64)));
            Json::Object(ms)
        },
        EventData::Heartbeat(n) => Json::UInt(n as u64),
        EventData::Hello { heartbeat_interval } => {
            let mut ms: Vec<(String, Json)> = Vec::new();
            ms.push((String::from_str("heartbeat_interval"), Json::UInt(heartbeat_interval)));
            Json::Object(ms)
        },
        EventData::Ready { v, user, guilds, session_id, resume_gateway_url } => {
            let mut ms: Vec<(String, Json)> = Vec::new();
            ms.push((String::from_str("v"), Json::UInt(v as u64)));
            ms.push((String::from_str("user"), user_to_json(user)));
            ms.push((String::from_str("guilds"), guilds_to_json(guilds)));
            ms.push((String::from_str("session_id"), Json::Str(session_id)));
            ms.push((String::from_str("resume_gateway_url"), Json::Str(resume_gateway_url)));
            Json::Object(ms)
        },
        EventData::InvalidSession(b) => Json::Bool(b),
        EventData::Other(j) => j,
    }
}

/// Writes an envelope as a JSON tree.
pub fn encode(e: GatewayEvent) -> (r: Json)
    ensures
        encodes(e@, r),
{
    let op = e.op.code();
    let d = match e.event_data {
        Some(p) => payload_to_json(p),
        None => Json::Null,
    };
    let s = match e.seq {
        Some(n) => Json::UInt(n as u64),
        None => Json::Null,
    };
    let t = match e.event_name {
        Some(name) => Json::Str(name),
        None => Json::Null,
    };
    let mut ms: Vec<(String, Json)> = Vec::new();
    ms.push((String::from_str("op"), Json::UInt(op)));
    ms.push((String::from_str("d"), d));
    ms.push((String::from_str("s"), s));
    ms.push((String::from_str("t"), t));
    Json::Object(ms)
}

// ---------------------------------------------------------------- round trip

pub open spec fn distinct_keys(keys: Seq<Seq<char>>) -> bool {
    forall|a: int, b: int| 0 <= a < keys.len() && 0 <= b < keys.len() && a != b ==> keys[a] != keys[b]
}

/// In an object with the given distinct keys, each key reads its own member.
proof fn lemma_member_at(j: Json, keys: Seq<Seq<char>>, i: int)
    requires
        keys_are(j, keys),
        distinct_keys(keys),
        0 <= i < keys.len(),
    ensures
        member(j->Object_0@, keys[i]) == Some(at(j, i)),
{
    let ms = j->Object_0@;
    assert forall|k: int| 0 <= k < i implies ms[k].0@ != keys[i] by {
        assert(ms[k].0@ == keys[k]);
    }
    crate::json::lemma_member_skip(ms, keys[i], i);
    let rest = ms.subrange(i, ms.len() as int);
    assert(rest[0] == ms[i]);
}

proof fn lemma_keys_distinct()
    ensures
        distinct_keys(seq!["op"@, "d"@, "s"@, "t"@]),
        distinct_keys(seq!["os"@, "browser"@, "device"@]),
        distinct_keys(seq!["id"@, "username"@, "discriminator"@, "avatar"@]),
        distinct_keys(seq!["id"@, "unavailable"@]),
        distinct_keys(seq!["token"@, "properties"@, "intents"@]),
        distinct_keys(seq!["token"@, "session_id"@, "seq"@]),
        distinct_keys(seq!["heartbeat_interval"@]),
        distinct_keys(seq!["v"@, "user"@, "guilds"@, "session_id"@, "resume_gateway_url"@]),
{
    reveal_strlit("op");
    reveal_strlit("d");
    reveal_strlit("s");
    reveal_strlit("t");
    reveal_strlit("os");
    reveal_strlit("browser");
    reveal_strlit("device");
    reveal_strlit("id");
    reveal_strlit("username");
    reveal_strlit("discriminator");
    reveal_strlit("avatar");
    reveal_strlit("unavailable");
    reveal_strlit("token");
    reveal_strlit("properties");
    reveal_strlit("intents");
    reveal_strlit("session_id");
    reveal_strlit("seq");
    reveal_strlit("heartbeat_interval");
    reveal_strlit("v");
    reveal_strlit("user");
    reveal_strlit("guilds");
    reveal_strlit("resume_gateway_url");
    assert("op"@.len() == 2);
    assert("d"@.len() == 1);
    assert("s"@.len() == 1);
    assert("t"@.len() == 1);
    assert("os"@.len() == 2);
    assert("browser"@.len() == 7);
    assert("device"@.len() == 6);
    assert("id"@.len() == 2);
    assert("username"@.len() == 8);
    assert("discriminator"@.len() == 13);
    assert("avatar"@.len() == 6);
    assert("unavailable"@.len() == 11);
    assert("token"@.len() == 5);
    assert("properties"@.len() == 10);
    assert("intents"@.len() == 7);
    assert("session_id"@.len() == 10);
    assert("seq"@.len() == 3);
    assert("heartbeat_interval"@.len() == 18);
    assert("v"@.len() == 1);
    assert("user"@.len() == 4);
    assert("guilds"@.len() == 6);
    assert("resume_gateway_url"@.len() == 18);
    assert("d"@[0] != "s"@[0]);
    assert("d"@[0] != "t"@[0]);
    assert("s"@[0] != "t"@[0]);
}

proof fn lemma_properties_round_trip(p: PropertiesView, j: Json)
    requires
        properties_json(p, j),
    ensures
        properties_of(j) == Some(p),
{
    lemma_keys_distinct();
    let keys = seq!["os"@, "browser"@, "device"@];
    lemma_member_at(j, keys, 0);
    lemma_member_at(j, keys, 1);
    lemma_member_at(j, keys, 2);
}

proof fn lemma_user_round_trip(u: UserView, j: Json)
    requires
        user_json(u, j),
    ensures
        user_of(j) == Some(u),
{
    lemma_keys_distinct();
    let keys = seq!["id"@, "username"@, "discriminator"@, "avatar"@];
    lemma_member_at(j, keys, 0);
    lemma_member_at(j, keys, 1);
    lemma_member_at(j, keys, 2);
    lemma_member_at(j, keys, 3);
}

proof fn lemma_guild_round_trip(g: GuildView, j: Json)
    requires
        guild_json(g, j),
    ensures
        guild_of(j) == Some(g),
{
    lemma_keys_distinct();
    let keys = seq!["id"@, "unavailable"@];
    lemma_member_at(j, keys, 0);
    lemma_member_at(j, keys, 1);
}

proof fn lemma_guilds_round_trip(gs: Seq<GuildView>, j: Json)
    requires
        guilds_json(gs, j),
    ensures
        guilds_of(j) == Some(gs),
{
    let v = j->Array_0@;
    assert forall|i: int| 0 <= i < v.len() implies (#[trigger] guild_of(v[i])) == Some(gs[i]) by {
        lemma_guild_round_trip(gs[i], v[i]);
    }
    assert(v.map_values(|x: Json| guild_of(x)->0) =~= gs);
}

proof fn lemma_payload_round_trip(op: OpCode, name: Option<Seq<char>>, d: EventDataView, x: Json)
    requires
        payload_fits(op, name, d),
        payload_json(d, x),
    ensures
        x != Json::Null,
        payload_of(op, name, x) == Some(d),
{
    lemma_keys_distinct();
    match d {
        EventDataView::Identify { token, properties, intents } => {
            let keys = seq!["token"@, "properties"@, "intents"@];
            lemma_member_at(x, keys, 0);
            lemma_member_at(x, keys, 1);
            lemma_member_at(x, keys, 2);
            lemma_properties_round_trip(properties, at(x, 1));
        },
        EventDataView::Resume { .. } => {
            let keys = seq!["token"@, "session_id"@, "seq"@];
            lemma_member_at(x, keys, 0);
            lemma_member_at(x, keys, 1);
            lemma_member_at(x, keys, 2);
        },
        EventDataView::Hello { .. } => {
            lemma_member_at(x, seq!["heartbeat_interval"@], 0);
        },
        EventDataView::Ready { user, guilds, .. } => {
            let keys = seq!["v"@, "user"@, "guilds"@, "session_id"@, "resume_gateway_url"@];
            lemma_member_at(x, keys, 0);
            lemma_member_at(x, keys, 1);
            lemma_member_at(x, keys, 2);
            lemma_member_at(x, keys, 3);
            lemma_member_at(x, keys, 4);
            lemma_user_round_trip(user, at(x, 1));
            lemma_guilds_round_trip(guilds, at(x, 2));
        },
        _ => {},
    }
}

/// Decoding the tree written for a constructible envelope gives that envelope back.
pub proof fn lemma_round_trip(e: GatewayEventView, j: Json)
    requires
        e.wf(),
        encodes(e, j),
    ensures
        decode_spec(j) == Ok::<GatewayEventView, DecodeError>(e),
{
    lemma_keys_distinct();
    let keys = seq!["op"@, "d"@, "s"@, "t"@];
    lemma_member_at(j, keys, 0);
    lemma_member_at(j, keys, 1);
    lemma_member_at(j, keys, 2);
    lemma_member_at(j, keys, 3);
    lemma_code_round_trip(e.op);
    if let Some(d) = e.event_data {
        lemma_payload_round_trip(e.op, e.event_name, d, at(j, 1));
    }
}

} // verus!
