//! Game client: the messages it sends, the scripted action it may send once, its
//! configuration and the messages it sends on connecting.
use vstd::prelude::*;
use crate::parsers::{uuid_parse, uuid_parsed};
use crate::text::{i16_parsed, owned, parse_i16, push_str, split_on, split_text, str_equal};

verus! {

/// A request the game client sends to the game server.
#[derive(Debug)]
pub enum ClientMessage {
    Login { email: String, password: String },
    Authenticate { token: String },
    ListCharacters,
    CreateCharacter { name: String, class_slug: String },
    SelectCharacter { character_id: u128 },
    UseItem { inventory_type: String, slot: i16 },
    UseItemOnEquipment { inventory_type: String, slot: i16, equipment_slot: String },
    EquipItem { inventory_type: String, slot: i16 },
    UnequipItem { equipment_slot: String },
    RefineEquipment { equipment_slot: String },
    SocketGem { equipment_slot: String, inventory_type: String, slot: i16, socket_index: i16 },
}

/// A client message with its text as character sequences.
pub enum ClientMessageView {
    Login { email: Seq<char>, password: Seq<char> },
    Authenticate { token: Seq<char> },
    ListCharacters,
    CreateCharacter { name: Seq<char>, class_slug: Seq<char> },
    SelectCharacter { character_id: u128 },
    UseItem { inventory_type: Seq<char>, slot: i16 },
    UseItemOnEquipment { inventory_type: Seq<char>, slot: i16, equipment_slot: Seq<char> },
    EquipItem { inventory_type: Seq<char>, slot: i16 },
    UnequipItem { equipment_slot: Seq<char> },
    RefineEquipment { equipment_slot: Seq<char> },
    SocketGem {
        equipment_slot: Seq<char>,
        inventory_type: Seq<char>,
        slot: i16,
        socket_index: i16,
    },
}

impl View for ClientMessage {
    type V = ClientMessageView;

    open spec fn view(&self) -> ClientMessageView {
        match self {
            ClientMessage::Login { email, password } => ClientMessageView::Login {
                email: email@,
                password: password@,
            },
            ClientMessage::Authenticate { token } => ClientMessageView::Authenticate {
                token: token@,
            },
            ClientMessage::ListCharacters => ClientMessageView::ListCharacters,
            ClientMessage::CreateCharacter { name, class_slug } => ClientMessageView::CreateCharacter {
                name: name@,
                class_slug: class_slug@,
            },
            ClientMessage::SelectCharacter { character_id } => ClientMessageView::SelectCharacter {
                character_id: *character_id,
            },
            ClientMessage::UseItem { inventory_type, slot } => ClientMessageView::UseItem {
                inventory_type: inventory_type@,
                slot: *slot,
            },
            ClientMessage::UseItemOnEquipment { inventory_type, slot, equipment_slot } =>
                ClientMessageView::UseItemOnEquipment {
                inventory_type: inventory_type@,
                slot: *slot,
                equipment_slot: equipment_slot@,
            },
            ClientMessage::EquipItem { inventory_type, slot } => ClientMessageView::EquipItem {
                inventory_type: inventory_type@,
                slot: *slot,
            },
            ClientMessage::UnequipItem { equipment_slot } => ClientMessageView::UnequipItem {
                equipment_slot: equipment_slot@,
            },
            ClientMessage::RefineEquipment { equipment_slot } => ClientMessageView::RefineEquipment {
                equipment_slot: equipment_slot@,
            },
            ClientMessage::SocketGem { equipment_slot, inventory_type, slot, socket_index } =>
                ClientMessageView::SocketGem {
                equipment_slot: equipment_slot@,
                inventory_type: inventory_type@,
                slot: *slot,
                socket_index: *socket_index,
            },
        }
    }
}

/// An action the client sends by itself once a character is loaded.
#[derive(Debug)]
pub enum AutoAction {
    UseItem { inventory_type: String, slot: i16 },
    UseItemOnEquipment { inventory_type: String, slot: i16, equipment_slot: String },
    EquipItem { inventory_type: String, slot: i16 },
    UnequipItem { equipment_slot: String },
    RefineEquipment { equipment_slot: String },
    SocketGem { equipment_slot: String, inventory_type: String, slot: i16, socket_index: i16 },
}

/// An automatic action with its text as character sequences.
pub enum AutoActionView {
    UseItem { inventory_type: Seq<char>, slot: i16 },
    UseItemOnEquipment { inventory_type: Seq<char>, slot: i16, equipment_slot: Seq<char> },
    EquipItem { inventory_type: Seq<char>, slot: i16 },
    UnequipItem { equipment_slot: Seq<char> },
    RefineEquipment { equipment_slot: Seq<char> },
    SocketGem {
        equipment_slot: Seq<char>,
        inventory_type: Seq<char>,
        slot: i16,
        socket_index: i16,
    },
}

impl View for AutoAction {
    type V = AutoActionView;

    open spec fn view(&self) -> AutoActionView {
        match self {
            AutoAction::UseItem { inventory_type, slot } => AutoActionView::UseItem {
                inventory_type: inventory_type@,
                slot: *slot,
            },
            AutoAction::UseItemOnEquipment { inventory_type, slot, equipment_slot } =>
                AutoActionView::UseItemOnEquipment {
                inventory_type: inventory_type@,
                slot: *slot,
                equipment_slot: equipment_slot@,
            },
            AutoAction::EquipItem { inventory_type, slot } => AutoActionView::EquipItem {
                inventory_type: inventory_type@,
                slot: *slot,
            },
            AutoAction::UnequipItem { equipment_slot } => AutoActionView::UnequipItem {
                equipment_slot: equipment_slot@,
            },
            AutoAction::RefineEquipment { equipment_slot } => AutoActionView::RefineEquipment {
                equipment_slot: equipment_slot@,
            },
            AutoAction::SocketGem { equipment_slot, inventory_type, slot, socket_index } =>
                AutoActionView::SocketGem {
                equipment_slot: equipment_slot@,
                inventory_type: inventory_type@,
                slot: *slot,
                socket_index: *socket_index,
            },
        }
    }
}

/// The action a configuration text describes: `kind:arg:...` with the arguments of that
/// kind (`use_item:<inventory>:<slot>`, `use_item_on_equipment:<inventory>:<slot>:<equipment
/// slot>`, `equip_item:<inventory>:<slot>`, `unequip_item:<equipment slot>`,
/// `refine_equipment:<equipment slot>`, `socket_gem:<equipment slot>:<inventory>:<slot>:<socket>`),
/// slots and sockets being `i16` numbers.
pub open spec fn auto_action_of(raw: Seq<char>) -> Option<AutoActionView> {
    let p = split_on(raw, ':');
    if p.len() == 3 && p[0] == "use_item"@ {
        match i16_parsed(p[2]) {
            Some(slot) => Some(AutoActionView::UseItem { inventory_type: p[1], slot }),
            None => None,
        }
    } else if p.len() == 4 && p[0] == "use_item_on_equipment"@ {
        match i16_parsed(p[2]) {
            Some(slot) => Some(
                AutoActionView::UseItemOnEquipment {
                    inventory_type: p[1],
                    slot,
                    equipment_slot: p[3],
                },
            ),
            None => None,
        }
    } else if p.len() == 3 && p[0] == "equip_item"@ {
        match i16_parsed(p[2]) {
            Some(slot) => Some(AutoActionView::EquipItem { inventory_type: p[1], slot }),
            None => None,
        }
    } else if p.len() == 2 && p[0] == "unequip_item"@ {
        Some(AutoActionView::UnequipItem { equipment_slot: p[1] })
    } else if p.len() == 2 && p[0] == "refine_equipment"@ {
        Some(AutoActionView::RefineEquipment { equipment_slot: p[1] })
    } else if p.len() == 5 && p[0] == "socket_gem"@ {
        match (i16_parsed(p[3]), i16_parsed(p[4])) {
            (Some(slot), Some(socket_index)) => Some(
                AutoActionView::SocketGem {
                    equipment_slot: p[1],
                    inventory_type: p[2],
                    slot,
                    socket_index,
                },
            ),
            _ => None,
        }
    } else {
        None
    }
}

/// The message an automatic action sends: the request of the same kind with the same
/// arguments.
pub open spec fn message_of(a: AutoActionView) -> ClientMessageView {
    match a {
        AutoActionView::UseItem { inventory_type, slot } => ClientMessageView::UseItem {
            inventory_type,
            slot,
        },
        AutoActionView::UseItemOnEquipment { inventory_type, slot, equipment_slot } =>
            ClientMessageView::UseItemOnEquipment { inventory_type, slot, equipment_slot },
        AutoActionView::EquipItem { inventory_type, slot } => ClientMessageView::EquipItem {
            inventory_type,
            slot,
        },
        AutoActionView::UnequipItem { equipment_slot } => ClientMessageView::UnequipItem {
            equipment_slot,
        },
        AutoActionView::RefineEquipment { equipment_slot } => ClientMessageView::RefineEquipment {
            equipment_slot,
        },
        AutoActionView::SocketGem { equipment_slot, inventory_type, slot, socket_index } =>
            ClientMessageView::SocketGem { equipment_slot, inventory_type, slot, socket_index },
    }
}

impl AutoAction {
    /// Reads an automatic action from its configuration text (see `auto_action_of`).
    pub fn parse(raw: &str) -> (r: Option<AutoAction>)
        ensures
            match r {
                Some(a) => auto_action_of(raw@) == Some(a@),
                None => auto_action_of(raw@) is None,
            },
    {
        let parts = split_text(raw, ':');
        let n = parts.len();
        if n == 3 && str_equal(parts[0].as_str(), "use_item") {
            let slot = parse_i16(parts[2].as_str())?;
            return Some(AutoAction::UseItem { inventory_type: parts[1].clone(), slot });
        }
        if n == 4 && str_equal(parts[0].as_str(), "use_item_on_equipment") {
            let slot = parse_i16(parts[2].as_str())?;
            return Some(
                AutoAction::UseItemOnEquipment {
                    inventory_type: parts[1].clone(),
                    slot,
                    equipment_slot: parts[3].clone(),
                },
            );
        }
        if n == 3 && str_equal(parts[0].as_str(), "equip_item") {
            let slot = parse_i16(parts[2].as_str())?;
            return Some(AutoAction::EquipItem { inventory_type: parts[1].clone(), slot });
        }
        if n == 2 && str_equal(parts[0].as_str(), "unequip_item") {
            return Some(AutoAction::UnequipItem { equipment_slot: parts[1].clone() });
        }
        if n == 2 && str_equal(parts[0].as_str(), "refine_equipment") {
            return Some(AutoAction::RefineEquipment { equipment_slot: parts[1].clone() });
        }
        if n == 5 && str_equal(parts[0].as_str(), "socket_gem") {
            let slot = parse_i16(parts[3].as_str())?;
            let socket_index = parse_i16(parts[4].as_str())?;
            return Some(
                AutoAction::SocketGem {
                    equipment_slot: parts[1].clone(),
                    inventory_type: parts[2].clone(),
                    slot,
                    socket_index,
                },
            );
        }
        None
    }

    /// The message this action sends.
    pub fn to_message(&self) -> (r: ClientMessage)
        ensures
            r@ == message_of(self@),
    {
        match self {
            AutoAction::UseItem { inventory_type, slot } => ClientMessage::UseItem {
                inventory_type: inventory_type.clone(),
                slot: *slot,
            },
            AutoAction::UseItemOnEquipment { inventory_type, slot, equipment_slot } =>
                ClientMessage::UseItemOnEquipment {
                inventory_type: inventory_type.clone(),
                slot: *slot,
                equipment_slot: equipment_slot.clone(),
            },
            AutoAction::EquipItem { inventory_type, slot } => ClientMessage::EquipItem {
                inventory_type: inventory_type.clone(),
                slot: *slot,
            },
            AutoAction::UnequipItem { equipment_slot } => ClientMessage::UnequipItem {
                equipment_slot: equipment_slot.clone(),
            },
            AutoAction::RefineEquipment { equipment_slot } => ClientMessage::RefineEquipment {
                equipment_slot: equipment_slot.clone(),
            },
            AutoAction::SocketGem { equipment_slot, inventory_type, slot, socket_index } =>
                ClientMessage::SocketGem {
                equipment_slot: equipment_slot.clone(),
                inventory_type: inventory_type.clone(),
                slot: *slot,
                socket_index: *socket_index,
            },
        }
    }
}

/// The address the client connects to when none is configured.
pub const DEFAULT_SERVER_ADDR: &'static str = "127.0.0.1:5000";

/// How the game client is set up.
#[derive(Debug)]
pub struct ClientConfig {
    pub server_addr: String,
    pub email: Option<String>,
    pub password: Option<String>,
    pub token: Option<String>,
    pub character_id: Option<u128>,
    pub auto_action: Option<AutoAction>,
    pub enable_audio: bool,
}

/// A configured text counts only when it is not empty.
pub open spec fn non_empty_view(v: Option<String>) -> Option<Seq<char>> {
    match v {
        Some(s) => if s@.len() > 0 {
            Some(s@)
        } else {
            None
        },
        None => None,
    }
}

/// Whether an audio setting turns audio on: unset, or one of `1`, `true`, `TRUE`, `yes`, `YES`.
pub open spec fn audio_on(v: Option<Seq<char>>) -> bool {
    match v {
        None => true,
        Some(s) => s == "1"@ || s == "true"@ || s == "TRUE"@ || s == "yes"@ || s == "YES"@,
    }
}

fn non_empty(v: Option<String>) -> (r: Option<String>)
    ensures
        match r {
            Some(s) => non_empty_view(v) == Some(s@),
            None => non_empty_view(v) is None,
        },
{
    match v {
        Some(s) => if !s.as_str().is_empty() {
            Some(s)
        } else {
            None
        },
        None => None,
    }
}

impl ClientConfig {
    /// The configuration given the raw settings (each unset when `None`): the server
    /// address defaults to `127.0.0.1:5000`; empty email, password and token count as
    /// unset; a character id or automatic action that cannot be read is ignored; audio is on
    /// unless the setting says otherwise.
    pub fn from_values(
        server_addr: Option<String>,
        email: Option<String>,
        password: Option<String>,
        token: Option<String>,
        character_id: Option<String>,
        auto_action: Option<String>,
        enable_audio: Option<String>,
    ) -> (r: ClientConfig)
        ensures
            r.server_addr@ == match server_addr {
                Some(s) => s@,
                None => "127.0.0.1:5000"@,
            },
            match r.email {
                Some(s) => non_empty_view(email) == Some(s@),
                None => non_empty_view(email) is None,
            },
            match r.password {
                Some(s) => non_empty_view(password) == Some(s@),
                None => non_empty_view(password) is None,
            },
            match r.token {
                Some(s) => non_empty_view(token) == Some(s@),
                None => non_empty_view(token) is None,
            },
            r.character_id == match character_id {
                Some(s) => uuid_parsed(s@),
                None => None,
            },
            match r.auto_action {
                Some(a) => auto_action is Some && auto_action_of(auto_action->0@) == Some(a@),
                None => auto_action is None || auto_action_of(auto_action->0@) is None,
            },
            r.enable_audio == audio_on(
                match enable_audio {
                    Some(s) => Some(s@),
                    None => None,
                },
            ),
    {
        let enable_audio = match &enable_audio {
            Some(v) => {
                let t = v.as_str();
                str_equal(t, "1") || str_equal(t, "true") || str_equal(t, "TRUE") || str_equal(
                    t,
                    "yes",
                ) || str_equal(t, "YES")
            },
            None => true,
        };
        let server_addr = match server_addr {
            Some(s) => s,
            None => owned(DEFAULT_SERVER_ADDR),
        };
        let character_id = match &character_id {
            Some(s) => match uuid_parse(s.as_str()) {
                Ok(v) => Some(v),
                Err(_) => None,
            },
            None => None,
        };
        let auto_action = match &auto_action {
            Some(s) => AutoAction::parse(s.as_str()),
            None => None,
        };
        ClientConfig {
            server_addr,
            email: non_empty(email),
            password: non_empty(password),
            token: non_empty(token),
            character_id,
            auto_action,
            enable_audio,
        }
    }
}

/// What the client has already done since it started.
#[derive(Debug)]
pub struct ClientBootState {
    pub announced: bool,
    pub connected_once: bool,
    pub auth_sent: bool,
    pub select_sent: bool,
    pub auto_action_sent: bool,
}

impl ClientBootState {
    /// Nothing done yet.
    pub fn new() -> (r: ClientBootState)
        ensures
            !r.announced && !r.connected_once && !r.auth_sent && !r.select_sent
                && !r.auto_action_sent,
    {
        ClientBootState {
            announced: false,
            connected_once: false,
            auth_sent: false,
            select_sent: false,
            auto_action_sent: false,
        }
    }
}

/// The notes printed when the client starts: where it connects, then one note for each of
/// audio being off, email or password unset, token unset and character unset.
pub open spec fn startup_note_texts(config: &ClientConfig) -> Seq<Seq<char>> {
    seq!["game-client connecting to udp://"@ + config.server_addr@]
        + (if !config.enable_audio {
        seq!["audio disabled for this client session"@]
    } else {
        Seq::empty()
    }) + (if config.email is None || config.password is None {
        seq!["GAME_CLIENT_EMAIL / GAME_CLIENT_PASSWORD are not fully set"@]
    } else {
        Seq::empty()
    }) + (if config.token is None {
        seq!["GAME_CLIENT_TOKEN is not set; token auth fallback is unavailable"@]
    } else {
        Seq::empty()
    }) + (if config.character_id is None {
        seq!["GAME_CLIENT_CHARACTER_ID is not set; client will not select a character"@]
    } else {
        Seq::empty()
    })
}

/// The notes printed when the client starts, once: where it connects, and which settings
/// are missing.
pub fn startup_notes(boot: &mut ClientBootState, config: &ClientConfig) -> (r: Vec<String>)
    ensures
        final(boot).announced,
        final(boot).connected_once == old(boot).connected_once,
        final(boot).auth_sent == old(boot).auth_sent,
        final(boot).select_sent == old(boot).select_sent,
        final(boot).auto_action_sent == old(boot).auto_action_sent,
        old(boot).announced ==> r@.len() == 0,
        !old(boot).announced ==> r@.map_values(|n: String| n@) == startup_note_texts(config),
{
    let mut notes: Vec<String> = Vec::new();
    if boot.announced {
        return notes;
    }
    let mut first = owned("game-client connecting to udp://");
    push_str(&mut first, config.server_addr.as_str());
    notes.push(first);
    if !config.enable_audio {
        notes.push(owned("audio disabled for this client session"));
    }
    if config.email.is_none() || config.password.is_none() {
        notes.push(owned("GAME_CLIENT_EMAIL / GAME_CLIENT_PASSWORD are not fully set"));
    }
    if config.token.is_none() {
        notes.push(owned("GAME_CLIENT_TOKEN is not set; token auth fallback is unavailable"));
    }
    if config.character_id.is_none() {
        notes.push(owned("GAME_CLIENT_CHARACTER_ID is not set; client will not select a character"));
    }
    boot.announced = true;
    notes
}

/// Records the first connection; true exactly the first time.
pub fn note_connected(boot: &mut ClientBootState) -> (first: bool)
    ensures
        first == !old(boot).connected_once,
        final(boot).connected_once,
        final(boot).announced == old(boot).announced,
        final(boot).auth_sent == old(boot).auth_sent,
        final(boot).select_sent == old(boot).select_sent,
        final(boot).auto_action_sent == old(boot).auto_action_sent,
{
    if boot.connected_once {
        return false;
    }
    boot.connected_once = true;
    true
}

/// Whether the client should stop: it was connected once and is now disconnected.
pub fn should_exit(boot: &ClientBootState, disconnected: bool) -> (r: bool)
    ensures
        r == (boot.connected_once && disconnected),
{
    boot.connected_once && disconnected
}

/// The message to send while starting up, if any: first a login with email and password,
/// or else a token authentication; then, once logged in, the selection of the configured
/// character. Each is sent once.
pub fn send_startup_messages(boot: &mut ClientBootState, config: &ClientConfig, logged_in: bool) -> (r:
    Option<ClientMessage>)
    ensures
        final(boot).announced == old(boot).announced,
        final(boot).connected_once == old(boot).connected_once,
        final(boot).auto_action_sent == old(boot).auto_action_sent,
        !old(boot).auth_sent ==> match (config.email, config.password) {
            (Some(e), Some(p)) => (r matches Some(m) && m@ == ClientMessageView::Login {
                email: e@,
                password: p@,
            }) && final(boot).auth_sent,
            _ => match config.token {
                Some(t) => (r matches Some(m) && m@ == ClientMessageView::Authenticate {
                    token: t@,
                }) && final(boot).auth_sent,
                None => r is None && !final(boot).auth_sent,
            },
        } && final(boot).select_sent == old(boot).select_sent,
        old(boot).auth_sent ==> final(boot).auth_sent && if !old(boot).select_sent && logged_in
            && config.character_id is Some {
            (r matches Some(m) && m@ == ClientMessageView::SelectCharacter {
                character_id: config.character_id->0,
            }) && final(boot).select_sent
        } else {
            r is None && final(boot).select_sent == old(boot).select_sent
        },
{
    if !boot.auth_sent {
        let msg = match (&config.email, &config.password) {
            (Some(e), Some(p)) => ClientMessage::Login { email: e.clone(), password: p.clone() },
            _ => match &config.token {
                Some(t) => ClientMessage::Authenticate { token: t.clone() },
                None => {
                    return None;
                },
            },
        };
        boot.auth_sent = true;
        return Some(msg);
    }
    if !boot.select_sent && logged_in {
        match config.character_id {
            Some(character_id) => {
                boot.select_sent = true;
                return Some(ClientMessage::SelectCharacter { character_id });
            },
            None => {
                return None;
            },
        }
    }
    None
}

/// The configured automatic action's message, sent once, after a character is loaded.
pub fn auto_action_message(
    boot: &mut ClientBootState,
    config: &ClientConfig,
    snapshot_loaded: bool,
) -> (r: Option<ClientMessage>)
    ensures
        final(boot).announced == old(boot).announced,
        final(boot).connected_once == old(boot).connected_once,
        final(boot).auth_sent == old(boot).auth_sent,
        final(boot).select_sent == old(boot).select_sent,
        if !old(boot).auto_action_sent && snapshot_loaded && config.auto_action is Some {
            (r matches Some(m) && m@ == message_of(config.auto_action->0@))
                && final(boot).auto_action_sent
        } else {
            r is None && final(boot).auto_action_sent == old(boot).auto_action_sent
        },
{
    if boot.auto_action_sent || !snapshot_loaded {
        return None;
    }
    match &config.auto_action {
        Some(action) => {
            let m = action.to_message();
            boot.auto_action_sent = true;
            Some(m)
        },
        None => None,
    }
}

} // verus!
