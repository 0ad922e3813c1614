//! The envelope exchanged with the gateway and its payloads.
use vstd::prelude::*;
use crate::json::Json;
use crate::opcode::OpCode;

verus! {

/// Client properties sent with Identify.
#[derive(Debug, Clone, PartialEq)]
pub struct ConnectionProperties {
    pub os: String,
    pub browser: String,
    pub device: String,
}

/// A guild listed in Ready that is not yet available.
#[derive(Debug, Clone, PartialEq)]
pub struct UnavailableGuild {
    pub id: String,
    pub unavailable: bool,
}

/// The account that a session belongs to, as Ready reports it.
#[derive(Debug, Clone, PartialEq)]
pub struct User {
    pub id: String,
    pub username: String,
    pub discriminator: String,
    pub avatar: String,
}

/// The payload of an envelope. Which variant is legal depends on the opcode.
#[derive(Debug, PartialEq)]
pub enum EventData {
    Identify { token: String, properties: ConnectionProperties, intents: u32 },
    Resume { token: String, session_id: String, seq: u32 },
    Heartbeat(u32),
    Hello { heartbeat_interval: u64 },
    Ready {
        v: u8,
        user: User,
        guilds: Vec<UnavailableGuild>,
        session_id: String,
        resume_gateway_url: String,
    },
    InvalidSession(bool),
    /// A payload this client does not interpret, kept as it came.
    Other(Json),
}

/// The unit of wire communication.
#[derive(Debug, PartialEq)]
pub struct GatewayEvent {
    pub op: OpCode,
    pub event_data: Option<EventData>,
    pub seq: Option<u32>,
    pub event_name: Option<String>,
}

pub struct PropertiesView {
    pub os: Seq<char>,
    pub browser: Seq<char>,
    pub device: Seq<char>,
}

pub struct GuildView {
    pub id: Seq<char>,
    pub unavailable: bool,
}

pub struct UserView {
    pub id: Seq<char>,
    pub username: Seq<char>,
    pub discriminator: Seq<char>,
    pub avatar: Seq<char>,
}

pub enum EventDataView {
    Identify { token: Seq<char>, properties: PropertiesView, intents: u32 },
    Resume { token: Seq<char>, session_id: Seq<char>, seq: u32 },
    Heartbeat(u32),
    Hello { heartbeat_interval: u64 },
    Ready {
        v: u8,
        user: UserView,
        guilds: Seq<GuildView>,
        session_id: Seq<char>,
        resume_gateway_url: Seq<char>,
    },
    InvalidSession(bool),
    Other(Json),
}

pub struct GatewayEventView {
    pub op: OpCode,
    pub event_data: Option<EventDataView>,
    pub seq: Option<u32>,
    pub event_name: Option<Seq<char>>,
}

impl View for ConnectionProperties {
    type V = PropertiesView;

    open spec fn view(&self) -> PropertiesView {
        PropertiesView { os: self.os@, browser: self.browser@, device: self.device@ }
    }
}

impl View for UnavailableGuild {
    type V = GuildView;

    open spec fn view(&self) -> GuildView {
        GuildView { id: self.id@, unavailable: self.unavailable }
    }
}

impl View for User {
    type V = UserView;

    open spec fn view(&self) -> UserView {
        UserView {
            id: self.id@,
            username: self.username@,
            discriminator: self.discriminator@,
            avatar: self.avatar@,
        }
    }
}

impl View for EventData {
    type V = EventDataView;

    open spec fn view(&self) -> EventDataView {
        match self {
            EventData::Identify { token, properties, intents } => EventDataView::Identify {
                token: token@,
                properties: properties@,
                intents: *intents,
            },
            EventData::Resume { token, session_id, seq } => EventDataView::Resume {
                token: token@,
                session_id: session_id@,
                seq: *seq,
            },
            EventData::Heartbeat(n) => EventDataView::Heartbeat(*n),
            EventData::Hello { heartbeat_interval } => EventDataView::Hello {
                heartbeat_interval: *heartbeat_interval,
            },
            EventData::Ready { v, user, guilds, session_id, resume_gateway_url } =>
                EventDataView::Ready {
                v: *v,
                user: user@,
                guilds: guilds@.map_values(|g: UnavailableGuild| g@),
                session_id: session_id@,
                resume_gateway_url: resume_gateway_url@,
            },
            EventData::InvalidSession(b) => EventDataView::InvalidSession(*b),
            EventData::Other(j) => EventDataView::Other(*j),
        }
    }
}

pub open spec fn option_data_view(d: Option<EventData>) -> Option<EventDataView> {
    match d {
        Some(x) => Some(x@),
        None => None,
    }
}

pub open spec fn option_text_view(t: Option<String>) -> Option<Seq<char>> {
    match t {
        Some(s) => Some(s@),
        None => None,
    }
}

impl View for GatewayEvent {
    type V = GatewayEventView;

    open spec fn view(&self) -> GatewayEventView {
        GatewayEventView {
            op: self.op,
            event_data: option_data_view(self.event_data),
            seq: self.seq,
            event_name: option_text_view(self.event_name),
        }
    }
}

impl GatewayEvent {
    /// A client heartbeat that echoes sequence number `seq`.
    pub fn heartbeat(seq: u32) -> (r: GatewayEvent)
        ensures
            r@ == heartbeat_view(seq),
    {
        GatewayEvent {
            op: OpCode::Heartbeat,
            event_data: Some(EventData::Heartbeat(seq)),
            seq: None,
            event_name: None,
        }
    }

    /// The Identify frame that opens a fresh session.
    pub fn identify(token: String, properties: ConnectionProperties, intents: u32) -> (r: GatewayEvent)
        ensures
            r@ == identify_view(token@, properties@, intents),
    {
        GatewayEvent {
            op: OpCode::Identify,
            event_data: Some(EventData::Identify { token, properties, intents }),
            seq: None,
            event_name: None,
        }
    }

    /// The Resume frame that continues session `session_id` after sequence number `seq`.
    pub fn resume(seq: u32, token: String, session_id: String) -> (r: GatewayEvent)
        ensures
            r@ == resume_view(token@, session_id@, seq),
    {
        GatewayEvent {
            op: OpCode::Resume,
            event_data: Some(EventData::Resume { token, session_id, seq }),
            seq: None,
            event_name: None,
        }
    }
}

/// The event name under which a Dispatch carries the Ready payload.
pub open spec fn is_ready_name(name: Option<Seq<char>>) -> bool {
    name == Some("READY"@)
}

/// Whether an opcode (with the event name of a Dispatch) carries a payload
/// that this client keeps uninterpreted.
pub open spec fn takes_other(op: OpCode, name: Option<Seq<char>>) -> bool {
    match op {
        OpCode::Dispatch => !is_ready_name(name),
        OpCode::Heartbeat | OpCode::Identify | OpCode::Resume | OpCode::Hello
        | OpCode::InvalidSession => false,
        _ => true,
    }
}

/// Whether a payload is the one that an opcode (and event name) calls for.
pub open spec fn payload_fits(op: OpCode, name: Option<Seq<char>>, d: EventDataView) -> bool {
    match d {
        EventDataView::Identify { .. } => op == OpCode::Identify,
        EventDataView::Resume { .. } => op == OpCode::Resume,
        EventDataView::Heartbeat(_) => op == OpCode::Heartbeat,
        EventDataView::Hello { .. } => op == OpCode::Hello,
        EventDataView::Ready { .. } => op == OpCode::Dispatch && is_ready_name(name),
        EventDataView::InvalidSession(_) => op == OpCode::InvalidSession,
        EventDataView::Other(j) => j != Json::Null && takes_other(op, name),
    }
}

impl GatewayEventView {
    /// A constructible envelope: a known opcode is not disguised as `Unknown`,
    /// and the payload, if any, is the variant that the opcode determines.
    pub open spec fn wf(self) -> bool {
        &&& self.op.wf()
        &&& match self.event_data {
            Some(d) => payload_fits(self.op, self.event_name, d),
            None => true,
        }
    }
}

pub open spec fn heartbeat_view(seq: u32) -> GatewayEventView {
    GatewayEventView {
        op: OpCode::Heartbeat,
        event_data: Some(EventDataView::Heartbeat(seq)),
        seq: None,
        event_name: None,
    }
}

pub open spec fn identify_view(token: Seq<char>, properties: PropertiesView, intents: u32) -> GatewayEventView {
    GatewayEventView {
        op: OpCode::Identify,
        event_data: Some(EventDataView::Identify { token, properties, intents }),
        seq: None,
        event_name: None,
    }
}

pub open spec fn resume_view(token: Seq<char>, session_id: Seq<char>, seq: u32) -> GatewayEventView {
    GatewayEventView {
        op: OpCode::Resume,
        event_data: Some(EventDataView::Resume { token, session_id, seq }),
        seq: None,
        event_name: None,
    }
}

} // verus!
