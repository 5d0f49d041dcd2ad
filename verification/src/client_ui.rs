//! Game client screens: typing into forms, pressing buttons, and reacting to the server.
use vstd::prelude::*;
use crate::client::{ClientConfig, ClientMessage, ClientMessageView};
use crate::client_panels::{EquippedEntry, InventoryPanel, TimedEntry};
use crate::client_screens::CharacterSummary;
use crate::parsers::{uuid_text, uuid_to_string};
use crate::text::{owned, push_char, push_str};

verus! {

/// The screen the client shows.
#[derive(Debug, Clone, Copy, PartialEq, Eq, Structural)]
pub enum AppScreen {
    Login,
    CharacterSelect,
    Viewer,
}

/// The field of the login form that receives typing.
#[derive(Debug, Clone, Copy, PartialEq, Eq, Structural)]
pub enum LoginField {
    Email,
    Password,
}

/// The field of the character creation form that receives typing.
#[derive(Debug, Clone, Copy, PartialEq, Eq, Structural)]
pub enum CreateField {
    Name,
    ClassSlug,
}

/// The login form.
#[derive(Debug)]
pub struct LoginForm {
    pub email: String,
    pub password: String,
    pub focused: LoginField,
}

impl LoginForm {
    /// The login form filled with the configured email and password (empty when unset),
    /// the email field focused.
    pub fn from_config(config: &ClientConfig) -> (r: LoginForm)
        ensures
            r.email@ == match config.email {
                Some(e) => e@,
                None => Seq::<char>::empty(),
            },
            r.password@ == match config.password {
                Some(p) => p@,
                None => Seq::<char>::empty(),
            },
            r.focused == LoginField::Email,
    {
        let email = match &config.email {
            Some(e) => e.clone(),
            None => String::new(),
        };
        let password = match &config.password {
            Some(p) => p.clone(),
            None => String::new(),
        };
        LoginForm { email, password, focused: LoginField::Email }
    }
}

/// The character creation form.
#[derive(Debug)]
pub struct CharacterCreateForm {
    pub name: String,
    pub class_slug: String,
    pub focused: CreateField,
}

/// A key press as the forms see it.
#[derive(Debug)]
pub enum KeyInput {
    /// The backspace key.
    Backspace,
    /// The tab key.
    Tab,
    /// Any other key that produced text.
    Text(String),
    /// The space key, when it produced no text.
    Space,
    /// Any other key.
    Other,
}

/// Whether `c` is a control character (general category Cc, as `char::is_control`
/// answers): U+0000 to U+001F and U+007F to U+009F.
pub open spec fn is_control_char(c: char) -> bool {
    (c as u32) <= 0x1f || (0x7f <= (c as u32) && (c as u32) <= 0x9f)
}

/// Whether `c` is white space (the Unicode White_Space property, as
/// `char::is_whitespace` answers): U+0009 to U+000D, U+0020, U+0085, U+00A0, U+1680,
/// U+2000 to U+200A, U+2028, U+2029, U+202F, U+205F and U+3000.
pub open spec fn is_whitespace_char(c: char) -> bool {
    let u = c as u32;
    ||| (0x9 <= u && u <= 0xd)
    ||| u == 0x20
    ||| u == 0x85
    ||| u == 0xa0
    ||| u == 0x1680
    ||| (0x2000 <= u && u <= 0x200a)
    ||| u == 0x2028
    ||| u == 0x2029
    ||| u == 0x202f
    ||| u == 0x205f
    ||| u == 0x3000
}

fn char_is_control(c: char) -> (r: bool)
    ensures
        r == is_control_char(c),
{
    let u = c as u32;
    u <= 0x1f || (0x7f <= u && u <= 0x9f)
}

fn char_is_whitespace(c: char) -> (r: bool)
    ensures
        r == is_whitespace_char(c),
{
    let u = c as u32;
    (0x9 <= u && u <= 0xd) || u == 0x20 || u == 0x85 || u == 0xa0 || u == 0x1680 || (0x2000 <= u
        && u <= 0x200a) || u == 0x2028 || u == 0x2029 || u == 0x202f || u == 0x205f || u == 0x3000
}

/// `String::pop`: removes the last character, if any.
#[verifier::external_body]
fn pop_char(s: &mut String) -> (r: Option<char>)
    ensures
        old(s)@.len() == 0 ==> r is None && final(s)@ == old(s)@,
        old(s)@.len() > 0 ==> r == Some(old(s)@.last()) && final(s)@ == old(s)@.drop_last(),
{
    s.pop()
}

/// The characters of `s` that are not control characters, in order.
pub open spec fn without_controls(s: Seq<char>) -> Seq<char>
    decreases s.len(),
{
    if s.len() == 0 {
        Seq::empty()
    } else if is_control_char(s.last()) {
        without_controls(s.drop_last())
    } else {
        without_controls(s.drop_last()).push(s.last())
    }
}

fn filter_controls(text: &str) -> (r: String)
    ensures
        r@ == without_controls(text@),
{
    let mut out = String::new();
    for c in it: text.chars()
        invariant
            it.seq() == text@,
            out@ == without_controls(it.seq().take(it.index() as int)),
    {
        let ghost k = it.index() as int;
        assert(it.seq().take(k + 1).drop_last() == it.seq().take(k));
        if !char_is_control(c) {
            push_char(&mut out, c);
        }
    }
    assert(text@.take(text@.len() as int) == text@);
    out
}

/// Whether `s` is empty once white space is trimmed: all its characters are white space.
pub open spec fn blank(s: Seq<char>) -> bool {
    forall|i: int| 0 <= i < s.len() ==> is_whitespace_char(#[trigger] s[i])
}

fn is_blank(s: &str) -> (r: bool)
    ensures
        r == blank(s@),
{
    for c in it: s.chars()
        invariant
            it.seq() == s@,
            forall|i: int| 0 <= i < it.index() ==> is_whitespace_char(#[trigger] s@[i]),
    {
        if !char_is_whitespace(c) {
            return false;
        }
    }
    true
}

/// The text of a field after a key press: backspace drops the last character, text adds
/// its characters other than control characters, a space adds a space when spaces are
/// accepted; other keys leave it unchanged.
pub open spec fn edited(field: Seq<char>, key: KeyInput, accepts_space: bool) -> Seq<char> {
    match key {
        KeyInput::Backspace => if field.len() > 0 {
            field.drop_last()
        } else {
            field
        },
        KeyInput::Text(t) => field + without_controls(t@),
        KeyInput::Space => if accepts_space {
            field.push(' ')
        } else {
            field
        },
        _ => field,
    }
}

/// Whether a key press changes what the form shows.
pub open spec fn key_changes(key: KeyInput, accepts_space: bool) -> bool {
    match key {
        KeyInput::Backspace => true,
        KeyInput::Tab => true,
        KeyInput::Text(t) => without_controls(t@).len() > 0,
        KeyInput::Space => accepts_space,
        KeyInput::Other => false,
    }
}

fn edit_field(field: &mut String, key: &KeyInput, accepts_space: bool) -> (changed: bool)
    requires
        !(key is Tab),
    ensures
        final(field)@ == edited(old(field)@, *key, accepts_space),
        changed == key_changes(*key, accepts_space),
{
    match key {
        KeyInput::Backspace => {
            pop_char(field);
            true
        },
        KeyInput::Text(t) => {
            let filtered = filter_controls(t.as_str());
            if filtered.as_str().is_empty() {
                assert(old(field)@ + without_controls(t@) == old(field)@);
                false
            } else {
                push_str(field, filtered.as_str());
                true
            }
        },
        KeyInput::Space => {
            if accepts_space {
                push_char(field, ' ');
            }
            accepts_space
        },
        _ => false,
    }
}

/// The other field of the login form.
pub open spec fn other_login_field(f: LoginField) -> LoginField {
    match f {
        LoginField::Email => LoginField::Password,
        LoginField::Password => LoginField::Email,
    }
}

/// The other field of the creation form.
pub open spec fn other_create_field(f: CreateField) -> CreateField {
    match f {
        CreateField::Name => CreateField::ClassSlug,
        CreateField::ClassSlug => CreateField::Name,
    }
}

/// Applies a key press to the form of the current screen: on the login screen the focused
/// login field is edited (spaces are not typed there unless they come as text), on the
/// character screen the focused creation field; tab moves the focus to the other field.
/// Other screens take no typing. Gives whether the screen must be redrawn.
pub fn apply_key(
    screen: AppScreen,
    login: &mut LoginForm,
    create: &mut CharacterCreateForm,
    key: &KeyInput,
) -> (dirty: bool)
    ensures
        screen == AppScreen::Login ==> {
            &&& final(create).name@ == old(create).name@
            &&& final(create).class_slug@ == old(create).class_slug@
            &&& final(create).focused == old(create).focused
            &&& dirty == key_changes(*key, false)
            &&& if *key is Tab {
                final(login).focused == other_login_field(old(login).focused)
                    && final(login).email@ == old(login).email@ && final(login).password@ == old(login).password@
            } else {
                final(login).focused == old(login).focused && match old(login).focused {
                    LoginField::Email => final(login).email@ == edited(old(login).email@, *key, false)
                        && final(login).password@ == old(login).password@,
                    LoginField::Password => final(login).password@ == edited(
                        old(login).password@,
                        *key,
                        false,
                    ) && final(login).email@ == old(login).email@,
                }
            }
        },
        screen == AppScreen::CharacterSelect ==> {
            &&& final(login).email@ == old(login).email@
            &&& final(login).password@ == old(login).password@
            &&& final(login).focused == old(login).focused
            &&& dirty == key_changes(*key, true)
            &&& if *key is Tab {
                final(create).focused == other_create_field(old(create).focused)
                    && final(create).name@ == old(create).name@ && final(create).class_slug@
                    == old(create).class_slug@
            } else {
                final(create).focused == old(create).focused && match old(create).focused {
                    CreateField::Name => final(create).name@ == edited(old(create).name@, *key, true)
                        && final(create).class_slug@ == old(create).class_slug@,
                    CreateField::ClassSlug => final(create).class_slug@ == edited(
                        old(create).class_slug@,
                        *key,
                        true,
                    ) && final(create).name@ == old(create).name@,
                }
            }
        },
        screen == AppScreen::Viewer ==> !dirty && final(login).email@ == old(login).email@
            && final(login).password@ == old(login).password@ && final(login).focused == old(login).focused && final(create).name@ == old(create).name@ && final(create).class_slug@
            == old(create).class_slug@ && final(create).focused == old(create).focused,
{
    match screen {
        AppScreen::Login => {
            if let KeyInput::Tab = key {
                login.focused = match login.focused {
                    LoginField::Email => LoginField::Password,
                    LoginField::Password => LoginField::Email,
                };
                return true;
            }
            match login.focused {
                LoginField::Email => edit_field(&mut login.email, key, false),
                LoginField::Password => edit_field(&mut login.password, key, false),
            }
        },
        AppScreen::CharacterSelect => {
            if let KeyInput::Tab = key {
                create.focused = match create.focused {
                    CreateField::Name => CreateField::ClassSlug,
                    CreateField::ClassSlug => CreateField::Name,
                };
                return true;
            }
            match create.focused {
                CreateField::Name => edit_field(&mut create.name, key, true),
                CreateField::ClassSlug => edit_field(&mut create.class_slug, key, true),
            }
        },
        AppScreen::Viewer => false,
    }
}

/// A button of the client's screens.
#[derive(Debug, Clone, Copy, PartialEq, Eq, Structural)]
pub enum UiAction {
    FocusLogin(LoginField),
    SubmitLogin,
    RefreshCharacters,
    FocusCreate(CreateField),
    SubmitCreateCharacter,
    SelectCharacter(u128),
    BackToCharacters,
}

/// What pressing a button leads to: a message to send, a new status line, and a redraw.
#[derive(Debug)]
pub struct UiOutcome {
    pub send: Option<ClientMessage>,
    pub status: Option<String>,
    pub redraw: bool,
}

/// What pressing `action` does: from the screen and forms `s0`, `l0`, `c0` to `s1`, `l1`,
/// `c1`, with outcome `r`. The screen is always redrawn.
pub open spec fn press_effect(
    action: UiAction,
    logged_in: bool,
    s0: AppScreen,
    l0: LoginForm,
    c0: CharacterCreateForm,
    s1: AppScreen,
    l1: LoginForm,
    c1: CharacterCreateForm,
    r: UiOutcome,
) -> bool {
    &&& r.redraw
    &&& (l1.email@ == l0.email@)
    &&& (l1.password@ == l0.password@)
    &&& (c1.name@ == c0.name@)
    &&& (c1.class_slug@ == c0.class_slug@)
    &&& (match action {
            UiAction::FocusLogin(f) => l1.focused == f && r.send is None && r.status is None,
            UiAction::SubmitLogin => if blank(l0.email@) || l0.password@.len()
                == 0 {
                r.send is None && (r.status matches Some(s) && s@ == "Email and password are required"@)
            } else {
                (r.send matches Some(m) && m@ == ClientMessageView::Login {
                    email: l0.email@,
                    password: l0.password@,
                }) && (r.status matches Some(s) && s@ == "Logging in..."@)
            },
            UiAction::RefreshCharacters => (r.send matches Some(m) && m@
                == ClientMessageView::ListCharacters) && (r.status matches Some(s) && s@
                == "Refreshing character list..."@),
            UiAction::FocusCreate(f) => c1.focused == f && r.send is None && r.status is None,
            UiAction::SubmitCreateCharacter => if blank(c0.name@) || blank(
                c0.class_slug@,
            ) {
                r.send is None && (r.status matches Some(s) && s@
                    == "Character name and class slug are required"@)
            } else {
                (r.send matches Some(m) && m@ == ClientMessageView::CreateCharacter {
                    name: c0.name@,
                    class_slug: c0.class_slug@,
                }) && (r.status matches Some(s) && s@ == "Creating character..."@)
            },
            UiAction::SelectCharacter(id) => (r.send matches Some(m) && m@
                == ClientMessageView::SelectCharacter { character_id: id }) && (r.status matches Some(
                s,
            ) && s@ == "Selecting character "@ + uuid_text(id) + "..."@),
            UiAction::BackToCharacters => s1 == AppScreen::CharacterSelect && r.status is None
                && if logged_in {
                r.send matches Some(m) && m@ == ClientMessageView::ListCharacters
            } else {
                r.send is None
            },
        })
    &&& (!(action is BackToCharacters) ==> s1 == s0)
    &&& (!(action is FocusLogin) ==> l1.focused == l0.focused)
    &&& (!(action is FocusCreate) ==> c1.focused == c0.focused)
}

/// Handles a button press. Submitting a form with a blank required field only sets a
/// status line; otherwise the form's request is sent. Every press redraws the screen.
pub fn handle_ui_action(
    action: UiAction,
    logged_in: bool,
    screen: &mut AppScreen,
    login: &mut LoginForm,
    create: &mut CharacterCreateForm,
) -> (r: UiOutcome)
    ensures
        press_effect(action, logged_in, *old(screen), *old(login), *old(create), *final(screen), *final(login), *final(create), r),
{
    match action {
        UiAction::FocusLogin(f) => {
            login.focused = f;
            UiOutcome { send: None, status: None, redraw: true }
        },
        UiAction::SubmitLogin => {
            if is_blank(login.email.as_str()) || login.password.as_str().is_empty() {
                return UiOutcome {
                    send: None,
                    status: Some(owned("Email and password are required")),
                    redraw: true,
                };
            }
            UiOutcome {
                send: Some(
                    ClientMessage::Login { email: login.email.clone(), password: login.password.clone() },
                ),
                status: Some(owned("Logging in...")),
                redraw: true,
            }
        },
        UiAction::RefreshCharacters => UiOutcome {
            send: Some(ClientMessage::ListCharacters),
            status: Some(owned("Refreshing character list...")),
            redraw: true,
        },
        UiAction::FocusCreate(f) => {
            create.focused = f;
            UiOutcome { send: None, status: None, redraw: true }
        },
        UiAction::SubmitCreateCharacter => {
            if is_blank(create.name.as_str()) || is_blank(create.class_slug.as_str()) {
                return UiOutcome {
                    send: None,
                    status: Some(owned("Character name and class slug are required")),
                    redraw: true,
                };
            }
            UiOutcome {
                send: Some(
                    ClientMessage::CreateCharacter {
                        name: create.name.clone(),
                        class_slug: create.class_slug.clone(),
                    },
                ),
                status: Some(owned("Creating character...")),
                redraw: true,
            }
        },
        UiAction::SelectCharacter(character_id) => {
            let mut status = owned("Selecting character ");
            let id_text = uuid_to_string(character_id);
            push_str(&mut status, id_text.as_str());
            push_str(&mut status, "...");
            UiOutcome {
                send: Some(ClientMessage::SelectCharacter { character_id }),
                status: Some(status),
                redraw: true,
            }
        },
        UiAction::BackToCharacters => {
            *screen = AppScreen::CharacterSelect;
            let send = if logged_in {
                Some(ClientMessage::ListCharacters)
            } else {
                None
            };
            UiOutcome { send, status: None, redraw: true }
        },
    }
}

/// The state of a button as the pointer acts on it.
#[derive(Debug, Clone, Copy, PartialEq, Eq, Structural)]
pub enum ButtonInteraction {
    Pressed,
    Hovered,
    Idle,
}

/// Handles a change of a button's state: only a press acts (see `press_effect`); hovering
/// or leaving a button changes nothing and redraws nothing.
pub fn handle_button(
    interaction: ButtonInteraction,
    action: UiAction,
    logged_in: bool,
    screen: &mut AppScreen,
    login: &mut LoginForm,
    create: &mut CharacterCreateForm,
) -> (r: Option<UiOutcome>)
    ensures
        interaction == ButtonInteraction::Pressed ==> (r matches Some(o) && press_effect(
            action,
            logged_in,
            *old(screen),
            *old(login),
            *old(create),
            *final(screen),
            *final(login),
            *final(create),
            o,
        )),
        interaction != ButtonInteraction::Pressed ==> r is None && *final(screen) == *old(screen)
            && *final(login) == *old(login) && *final(create) == *old(create),
{
    match interaction {
        ButtonInteraction::Pressed => Some(handle_ui_action(action, logged_in, screen, login, create)),
        _ => None,
    }
}

/// The stats of the loaded character that change while it plays.
#[derive(Debug)]
pub struct StatsState {
    pub current_hp: i64,
    pub current_mp: i64,
    pub active_buffs: Vec<TimedEntry>,
    pub skill_cooldowns: Vec<TimedEntry>,
}

/// Who the loaded character is.
#[derive(Debug)]
pub struct SnapshotHeader {
    pub name: String,
    pub level: i16,
    pub current_class_slug: String,
    pub credits: i64,
    pub experience: i64,
}

/// A loaded character: who it is, its stats, its inventories and its equipment.
#[derive(Debug)]
pub struct CharacterSnapshotData {
    pub header: SnapshotHeader,
    pub stats: StatsState,
    pub inventories: Vec<InventoryPanel>,
    pub equipped: Vec<EquippedEntry>,
}

/// What the game server tells the client, with the data the client keeps.
#[derive(Debug)]
pub enum ServerNotice {
    LoginSucceeded { account_id: u128 },
    LoginFailed { reason: String },
    Authenticated { account_id: u128 },
    AuthenticationFailed { reason: String },
    CharacterSelected { character_id: u128 },
    CharactersListed { characters: Vec<CharacterSummary> },
    CharacterListFailed { reason: String },
    CharacterCreated { name: String },
    CharacterCreationFailed { reason: String },
    CharacterSelectionFailed { reason: String },
    CharacterSnapshotLoaded { snapshot: CharacterSnapshotData },
    CharacterStatsUpdated { stats: StatsState },
    CharacterInventoryUpdated { inventories: Vec<InventoryPanel>, equipped: Vec<EquippedEntry> },
    RuntimeStateUpdated {
        current_hp: i64,
        current_mp: i64,
        active_buffs: Vec<TimedEntry>,
        skill_cooldowns: Vec<TimedEntry>,
    },
    /// An item use, skill use, equipment change, refinement or socketing went through.
    ActionSucceeded,
    /// An item use, skill use, equipment change, refinement or socketing failed.
    ActionFailed { reason: String },
}

/// The state the client keeps between frames: the screen, the status line, whether to
/// redraw, the account, the listed characters and the loaded character with its stats,
/// inventories and equipment.
#[derive(Debug)]
pub struct ClientUi {
    pub screen: AppScreen,
    pub status: String,
    pub dirty: bool,
    pub account_id: Option<u128>,
    pub characters: Vec<CharacterSummary>,
    pub character: Option<SnapshotHeader>,
    pub stats: Option<StatsState>,
    pub inventories: Vec<InventoryPanel>,
    pub equipped: Vec<EquippedEntry>,
}

/// Whether `b` holds the same character data as `a`.
pub open spec fn same_data(a: &ClientUi, b: &ClientUi) -> bool {
    &&& b.characters == a.characters
    &&& b.character == a.character
    &&& b.stats == a.stats
    &&& b.inventories == a.inventories
    &&& b.equipped == a.equipped
}

/// Whether `b` shows the same screen for the same account as `a`.
pub open spec fn same_place(a: &ClientUi, b: &ClientUi) -> bool {
    b.screen == a.screen && b.account_id == a.account_id
}

/// Reacts to a server message: a login or authentication records the account, moves to the
/// character screen and asks for the character list; a listed character set is kept and
/// shown; a loaded character is kept (who it is, its stats, inventories and equipment) and
/// shown in the viewer; stats, inventory and runtime updates replace what is kept (a
/// runtime update changes hp, mp, buffs and cooldowns of the kept stats, if any); a failure
/// shows its reason. Every message redraws the screen. Gives the message to send in
/// return, if any.
pub fn react_to_server(ui: &mut ClientUi, notice: ServerNotice) -> (r: Option<ClientMessage>)
    ensures
        final(ui).dirty,
        match notice {
            ServerNotice::LoginSucceeded { account_id } => final(ui).account_id == Some(account_id)
                && final(ui).screen == AppScreen::CharacterSelect && final(ui).status@
                == "Login succeeded"@ && (r matches Some(m) && m@ == ClientMessageView::ListCharacters)
                && same_data(old(ui), final(ui)),
            ServerNotice::Authenticated { account_id } => final(ui).account_id == Some(account_id)
                && final(ui).screen == AppScreen::CharacterSelect && final(ui).status@
                == "Authenticated with token fallback"@ && (r matches Some(m) && m@
                == ClientMessageView::ListCharacters) && same_data(old(ui), final(ui)),
            ServerNotice::LoginFailed { reason } => final(ui).status@ == reason@ && r is None
                && same_place(old(ui), final(ui)) && same_data(old(ui), final(ui)),
            ServerNotice::AuthenticationFailed { reason } => final(ui).status@ == reason@ && r is None
                && same_place(old(ui), final(ui)) && same_data(old(ui), final(ui)),
            ServerNotice::CharacterSelected { character_id } => final(ui).status@
                == "Selected character "@ + uuid_text(character_id) && r is None && same_place(old(ui), final(ui)) && same_data(old(ui), final(ui)),
            ServerNotice::CharactersListed { characters } => final(ui).screen
                == AppScreen::CharacterSelect && final(ui).status@ == "Character list loaded"@
                && r is None && final(ui).account_id == old(ui).account_id && final(ui).characters
                == characters && final(ui).character == old(ui).character && final(ui).stats == old(ui).stats && final(ui).inventories == old(ui).inventories && final(ui).equipped == old(ui).equipped,
            ServerNotice::CharacterListFailed { reason } => final(ui).status@ == reason@ && r is None
                && same_place(old(ui), final(ui)) && same_data(old(ui), final(ui)),
            ServerNotice::CharacterCreated { name } => final(ui).status@ == "Created character "@
                + name@ && (r matches Some(m) && m@ == ClientMessageView::ListCharacters)
                && same_place(old(ui), final(ui)) && same_data(old(ui), final(ui)),
            ServerNotice::CharacterCreationFailed { reason } => final(ui).status@ == reason@
                && r is None && same_place(old(ui), final(ui)) && same_data(old(ui), final(ui)),
            ServerNotice::CharacterSelectionFailed { reason } => final(ui).status@ == reason@
                && r is None && same_place(old(ui), final(ui)) && same_data(old(ui), final(ui)),
            ServerNotice::CharacterSnapshotLoaded { snapshot } => final(ui).screen
                == AppScreen::Viewer && final(ui).status@.len() == 0 && r is None && final(ui).account_id == old(ui).account_id && final(ui).characters == old(ui).characters
                && final(ui).character == Some(snapshot.header) && final(ui).stats == Some(snapshot.stats) && final(ui).inventories == snapshot.inventories && final(ui).equipped
                == snapshot.equipped,
            ServerNotice::CharacterStatsUpdated { stats } => final(ui).status@ == old(ui).status@
                && r is None && same_place(old(ui), final(ui)) && final(ui).stats == Some(stats)
                && final(ui).characters == old(ui).characters && final(ui).character == old(ui).character && final(ui).inventories == old(ui).inventories && final(ui).equipped
                == old(ui).equipped,
            ServerNotice::CharacterInventoryUpdated { inventories, equipped } => final(ui).status@
                == old(ui).status@ && r is None && same_place(old(ui), final(ui))
                && final(ui).inventories == inventories && final(ui).equipped == equipped
                && final(ui).characters == old(ui).characters && final(ui).character == old(ui).character && final(ui).stats == old(ui).stats,
            ServerNotice::RuntimeStateUpdated {
                current_hp,
                current_mp,
                active_buffs,
                skill_cooldowns,
            } => final(ui).status@ == old(ui).status@ && r is None && same_place(old(ui), final(ui))
                && final(ui).stats == match old(ui).stats {
                Some(_) => Some(
                    StatsState { current_hp, current_mp, active_buffs, skill_cooldowns },
                ),
                None => None,
            } && final(ui).characters == old(ui).characters && final(ui).character == old(ui).character && final(ui).inventories == old(ui).inventories && final(ui).equipped
                == old(ui).equipped,
            ServerNotice::ActionSucceeded => final(ui).status@ == old(ui).status@ && r is None
                && same_place(old(ui), final(ui)) && same_data(old(ui), final(ui)),
            ServerNotice::ActionFailed { reason } => final(ui).status@ == reason@ && r is None
                && same_place(old(ui), final(ui)) && same_data(old(ui), final(ui)),
        },
{
    ui.dirty = true;
    match notice {
        ServerNotice::LoginSucceeded { account_id } => {
            ui.account_id = Some(account_id);
            ui.screen = AppScreen::CharacterSelect;
            ui.status = owned("Login succeeded");
            Some(ClientMessage::ListCharacters)
        },
        ServerNotice::Authenticated { account_id } => {
            ui.account_id = Some(account_id);
            ui.screen = AppScreen::CharacterSelect;
            ui.status = owned("Authenticated with token fallback");
            Some(ClientMessage::ListCharacters)
        },
        ServerNotice::LoginFailed { reason } => {
            ui.status = reason;
            None
        },
        ServerNotice::AuthenticationFailed { reason } => {
            ui.status = reason;
            None
        },
        ServerNotice::CharacterSelected { character_id } => {
            let mut status = owned("Selected character ");
            let id_text = uuid_to_string(character_id);
            push_str(&mut status, id_text.as_str());
            ui.status = status;
            None
        },
        ServerNotice::CharactersListed { characters } => {
            ui.characters = characters;
            ui.screen = AppScreen::CharacterSelect;
            ui.status = owned("Character list loaded");
            None
        },
        ServerNotice::CharacterListFailed { reason } => {
            ui.status = reason;
            None
        },
        ServerNotice::CharacterCreated { name } => {
            let mut status = owned("Created character ");
            push_str(&mut status, name.as_str());
            ui.status = status;
            Some(ClientMessage::ListCharacters)
        },
        ServerNotice::CharacterCreationFailed { reason } => {
            ui.status = reason;
            None
        },
        ServerNotice::CharacterSelectionFailed { reason } => {
            ui.status = reason;
            None
        },
        ServerNotice::CharacterSnapshotLoaded { snapshot } => {
            let CharacterSnapshotData { header, stats, inventories, equipped } = snapshot;
            ui.character = Some(header);
            ui.stats = Some(stats);
            ui.inventories = inventories;
            ui.equipped = equipped;
            ui.screen = AppScreen::Viewer;
            ui.status = String::new();
            None
        },
        ServerNotice::CharacterStatsUpdated { stats } => {
            ui.stats = Some(stats);
            None
        },
        ServerNotice::CharacterInventoryUpdated { inventories, equipped } => {
            ui.inventories = inventories;
            ui.equipped = equipped;
            None
        },
        ServerNotice::RuntimeStateUpdated { current_hp, current_mp, active_buffs, skill_cooldowns } => {
            if ui.stats.is_some() {
                ui.stats = Some(StatsState { current_hp, current_mp, active_buffs, skill_cooldowns });
            }
            None
        },
        ServerNotice::ActionSucceeded => None,
        ServerNotice::ActionFailed { reason } => {
            ui.status = reason;
            None
        },
    }
}

} // verus!
