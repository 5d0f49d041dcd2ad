use aurelis::client::{
    auto_action_message, note_connected, send_startup_messages, should_exit, startup_notes,
    AutoAction, ClientBootState, ClientConfig, ClientMessage,
};
use aurelis::client_panels::{InventoryPanel, TimedEntry};
use aurelis::client_screens::CharacterSummary;
use aurelis::client_ui::{
    apply_key, handle_button, handle_ui_action, react_to_server, ButtonInteraction, AppScreen, CharacterCreateForm,
    CharacterSnapshotData, ClientUi, CreateField, KeyInput, LoginField, LoginForm, ServerNotice,
    SnapshotHeader, StatsState, UiAction,
};

const CHARACTER_ID: &str = "5f0c2b1e-8a4d-4c3b-9e21-7d6f5a4b3c2d";

fn config(email: Option<&str>, password: Option<&str>, token: Option<&str>, action: Option<&str>) -> ClientConfig {
    ClientConfig::from_values(
        None,
        email.map(String::from),
        password.map(String::from),
        token.map(String::from),
        Some(CHARACTER_ID.to_string()),
        action.map(String::from),
        None,
    )
}

#[test]
fn auto_actions_are_read_from_their_text() {
    assert!(matches!(
        AutoAction::parse("use_item:consumable:3"),
        Some(AutoAction::UseItem { ref inventory_type, slot: 3 }) if inventory_type == "consumable"
    ));
    assert!(matches!(
        AutoAction::parse("use_item_on_equipment:material:-2:weapon"),
        Some(AutoAction::UseItemOnEquipment { ref inventory_type, slot: -2, ref equipment_slot })
            if inventory_type == "material" && equipment_slot == "weapon"
    ));
    assert!(matches!(
        AutoAction::parse("equip_item:equipment:0"),
        Some(AutoAction::EquipItem { slot: 0, .. })
    ));
    assert!(matches!(
        AutoAction::parse("unequip_item:weapon"),
        Some(AutoAction::UnequipItem { ref equipment_slot }) if equipment_slot == "weapon"
    ));
    assert!(matches!(
        AutoAction::parse("refine_equipment:head"),
        Some(AutoAction::RefineEquipment { ref equipment_slot }) if equipment_slot == "head"
    ));
    assert!(matches!(
        AutoAction::parse("socket_gem:weapon:material:4:1"),
        Some(AutoAction::SocketGem { slot: 4, socket_index: 1, .. })
    ));
    for bad in [
        "",
        "use_item:consumable",
        "use_item:consumable:x",
        "use_item:consumable:40000",
        "equip_item:equipment:1:2",
        "socket_gem:weapon:material:4:z",
        "dance:now",
    ] {
        assert!(AutoAction::parse(bad).is_none(), "{bad}");
    }
}

#[test]
fn auto_action_sends_the_matching_request() {
    let action = AutoAction::parse("socket_gem:weapon:material:4:1").unwrap();
    match action.to_message() {
        ClientMessage::SocketGem { equipment_slot, inventory_type, slot, socket_index } => {
            assert_eq!((equipment_slot.as_str(), inventory_type.as_str(), slot, socket_index), ("weapon", "material", 4, 1));
        }
        other => panic!("unexpected message: {other:?}"),
    }
}

#[test]
fn configuration_defaults_and_filters() {
    let c = ClientConfig::from_values(
        None,
        Some(String::new()),
        Some("pw".to_string()),
        None,
        Some("not-a-uuid".to_string()),
        Some("nonsense".to_string()),
        Some("no".to_string()),
    );
    assert_eq!(c.server_addr, "127.0.0.1:5000");
    assert_eq!(c.email, None);
    assert_eq!(c.password.as_deref(), Some("pw"));
    assert_eq!(c.character_id, None);
    assert!(c.auto_action.is_none());
    assert!(!c.enable_audio);
    let c = ClientConfig::from_values(
        Some("10.0.0.2:7000".to_string()),
        None,
        None,
        None,
        Some(CHARACTER_ID.to_string()),
        None,
        Some("YES".to_string()),
    );
    assert_eq!(c.server_addr, "10.0.0.2:7000");
    assert_eq!(c.character_id, Some(0x5f0c2b1e_8a4d_4c3b_9e21_7d6f5a4b3c2d));
    assert!(c.enable_audio);
}

#[test]
fn startup_notes_are_printed_once() {
    let c = ClientConfig::from_values(None, None, None, None, None, None, Some("0".to_string()));
    let mut boot = ClientBootState::new();
    let notes = startup_notes(&mut boot, &c);
    assert_eq!(
        notes,
        vec![
            "game-client connecting to udp://127.0.0.1:5000".to_string(),
            "audio disabled for this client session".to_string(),
            "GAME_CLIENT_EMAIL / GAME_CLIENT_PASSWORD are not fully set".to_string(),
            "GAME_CLIENT_TOKEN is not set; token auth fallback is unavailable".to_string(),
            "GAME_CLIENT_CHARACTER_ID is not set; client will not select a character".to_string(),
        ]
    );
    assert!(startup_notes(&mut boot, &c).is_empty());
}

#[test]
fn login_then_select_then_auto_action() {
    let c = config(Some("a@b.c"), Some("pw"), Some("tok"), Some("unequip_item:weapon"));
    let mut boot = ClientBootState::new();
    assert!(note_connected(&mut boot));
    assert!(!note_connected(&mut boot));
    assert!(!should_exit(&boot, false));
    assert!(should_exit(&boot, true));

    assert!(matches!(
        send_startup_messages(&mut boot, &c, false),
        Some(ClientMessage::Login { ref email, ref password }) if email == "a@b.c" && password == "pw"
    ));
    assert!(send_startup_messages(&mut boot, &c, false).is_none());
    assert!(matches!(
        send_startup_messages(&mut boot, &c, true),
        Some(ClientMessage::SelectCharacter { character_id: 0x5f0c2b1e_8a4d_4c3b_9e21_7d6f5a4b3c2d })
    ));
    assert!(send_startup_messages(&mut boot, &c, true).is_none());

    assert!(auto_action_message(&mut boot, &c, false).is_none());
    assert!(matches!(
        auto_action_message(&mut boot, &c, true),
        Some(ClientMessage::UnequipItem { ref equipment_slot }) if equipment_slot == "weapon"
    ));
    assert!(auto_action_message(&mut boot, &c, true).is_none());
}

#[test]
fn token_is_the_fallback_authentication() {
    let c = config(Some("a@b.c"), None, Some("tok"), None);
    let mut boot = ClientBootState::new();
    assert!(matches!(
        send_startup_messages(&mut boot, &c, false),
        Some(ClientMessage::Authenticate { ref token }) if token == "tok"
    ));
    let c = config(None, None, None, None);
    let mut boot = ClientBootState::new();
    assert!(send_startup_messages(&mut boot, &c, true).is_none());
    assert!(!boot.auth_sent);
}

fn forms() -> (LoginForm, CharacterCreateForm) {
    (
        LoginForm { email: String::new(), password: String::new(), focused: LoginField::Email },
        CharacterCreateForm { name: String::new(), class_slug: String::new(), focused: CreateField::Name },
    )
}

#[test]
fn typing_edits_the_focused_field() {
    let (mut login, mut create) = forms();
    assert!(apply_key(AppScreen::Login, &mut login, &mut create, &KeyInput::Text("ab\u{7}c".to_string())));
    assert_eq!(login.email, "abc");
    assert!(!apply_key(AppScreen::Login, &mut login, &mut create, &KeyInput::Space));
    assert!(apply_key(AppScreen::Login, &mut login, &mut create, &KeyInput::Backspace));
    assert_eq!(login.email, "ab");
    assert!(apply_key(AppScreen::Login, &mut login, &mut create, &KeyInput::Tab));
    assert_eq!(login.focused, LoginField::Password);
    apply_key(AppScreen::Login, &mut login, &mut create, &KeyInput::Text("pw".to_string()));
    assert_eq!((login.email.as_str(), login.password.as_str()), ("ab", "pw"));

    assert!(apply_key(AppScreen::CharacterSelect, &mut login, &mut create, &KeyInput::Text("Kael".to_string())));
    assert!(apply_key(AppScreen::CharacterSelect, &mut login, &mut create, &KeyInput::Space));
    assert_eq!(create.name, "Kael ");
    assert!(!apply_key(AppScreen::CharacterSelect, &mut login, &mut create, &KeyInput::Other));
    assert!(!apply_key(AppScreen::Viewer, &mut login, &mut create, &KeyInput::Text("zz".to_string())));
    assert_eq!(create.name, "Kael ");
}

#[test]
fn buttons_send_requests_or_complain() {
    let (mut login, mut create) = forms();
    let mut screen = AppScreen::Login;
    let out = handle_ui_action(UiAction::SubmitLogin, false, &mut screen, &mut login, &mut create);
    assert!(out.redraw);
    assert!(out.send.is_none());
    assert_eq!(out.status.as_deref(), Some("Email and password are required"));
    login.email = "a@b.c".to_string();
    login.password = "pw".to_string();
    let out = handle_ui_action(UiAction::SubmitLogin, false, &mut screen, &mut login, &mut create);
    assert!(matches!(out.send, Some(ClientMessage::Login { .. })));
    assert_eq!(out.status.as_deref(), Some("Logging in..."));

    create.name = "  ".to_string();
    create.class_slug = "kael".to_string();
    let out = handle_ui_action(UiAction::SubmitCreateCharacter, true, &mut screen, &mut login, &mut create);
    assert_eq!(out.status.as_deref(), Some("Character name and class slug are required"));
    create.name = "Kael".to_string();
    let out = handle_ui_action(UiAction::SubmitCreateCharacter, true, &mut screen, &mut login, &mut create);
    assert!(matches!(out.send, Some(ClientMessage::CreateCharacter { .. })));

    let out = handle_ui_action(UiAction::SelectCharacter(0xff), true, &mut screen, &mut login, &mut create);
    assert_eq!(out.status.as_deref(), Some("Selecting character 00000000-0000-0000-0000-0000000000ff..."));

    screen = AppScreen::Viewer;
    let out = handle_ui_action(UiAction::BackToCharacters, true, &mut screen, &mut login, &mut create);
    assert_eq!(screen, AppScreen::CharacterSelect);
    assert!(matches!(out.send, Some(ClientMessage::ListCharacters)));
    let out = handle_ui_action(UiAction::FocusCreate(CreateField::ClassSlug), true, &mut screen, &mut login, &mut create);
    assert!(out.send.is_none() && out.status.is_none());
    assert_eq!(create.focused, CreateField::ClassSlug);
}

#[test]
fn server_notices_move_between_screens() {
    let mut ui = ClientUi {
        screen: AppScreen::Login,
        status: String::new(),
        dirty: false,
        account_id: None,
        characters: Vec::new(),
        character: None,
        stats: None,
        inventories: Vec::new(),
        equipped: Vec::new(),
    };
    let r = react_to_server(&mut ui, ServerNotice::LoginSucceeded { account_id: 9 });
    assert!(matches!(r, Some(ClientMessage::ListCharacters)));
    assert_eq!((ui.screen, ui.account_id, ui.status.as_str(), ui.dirty), (AppScreen::CharacterSelect, Some(9), "Login succeeded", true));
    assert!(react_to_server(&mut ui, ServerNotice::ActionFailed { reason: "Not enough items".to_string() }).is_none());
    assert_eq!(ui.status, "Not enough items");
    assert!(matches!(
        react_to_server(&mut ui, ServerNotice::CharacterCreated { name: "Kael".to_string() }),
        Some(ClientMessage::ListCharacters)
    ));
    assert_eq!(ui.status, "Created character Kael");
    let listed = vec![CharacterSummary { character_id: 1, name: "Kael".to_string(), level: 3, class_slug: "kael".to_string() }];
    assert!(react_to_server(&mut ui, ServerNotice::CharactersListed { characters: listed }).is_none());
    assert_eq!((ui.characters.len(), ui.status.as_str()), (1, "Character list loaded"));

    // A runtime update before any stats are kept changes nothing.
    react_to_server(&mut ui, ServerNotice::RuntimeStateUpdated {
        current_hp: 1,
        current_mp: 1,
        active_buffs: Vec::new(),
        skill_cooldowns: Vec::new(),
    });
    assert!(ui.stats.is_none());

    let snapshot = CharacterSnapshotData {
        header: SnapshotHeader {
            name: "Kael".to_string(),
            level: 3,
            current_class_slug: "kael".to_string(),
            credits: 10,
            experience: 5,
        },
        stats: StatsState { current_hp: 100, current_mp: 50, active_buffs: Vec::new(), skill_cooldowns: Vec::new() },
        inventories: vec![InventoryPanel { inventory_type: "equipment".to_string(), capacity: 56, slots: Vec::new() }],
        equipped: Vec::new(),
    };
    assert!(react_to_server(&mut ui, ServerNotice::CharacterSnapshotLoaded { snapshot }).is_none());
    assert_eq!((ui.screen, ui.status.as_str()), (AppScreen::Viewer, ""));
    assert_eq!(ui.character.as_ref().map(|h| h.name.as_str()), Some("Kael"));
    assert_eq!(ui.stats.as_ref().map(|s| s.current_hp), Some(100));
    assert_eq!(ui.inventories.len(), 1);

    react_to_server(&mut ui, ServerNotice::RuntimeStateUpdated {
        current_hp: 80,
        current_mp: 45,
        active_buffs: vec![TimedEntry { slug: "haste".to_string(), remaining_ms: 900 }],
        skill_cooldowns: Vec::new(),
    });
    let stats = ui.stats.as_ref().unwrap();
    assert_eq!((stats.current_hp, stats.current_mp, stats.active_buffs.len()), (80, 45, 1));
    assert_eq!(ui.screen, AppScreen::Viewer);

    react_to_server(&mut ui, ServerNotice::CharacterInventoryUpdated { inventories: Vec::new(), equipped: Vec::new() });
    assert!(ui.inventories.is_empty());
    assert_eq!(ui.stats.as_ref().map(|s| s.current_hp), Some(80));
}

#[test]
fn login_form_starts_from_the_configuration() {
    let c = config(Some("a@b.c"), None, None, None);
    let form = LoginForm::from_config(&c);
    assert_eq!((form.email.as_str(), form.password.as_str(), form.focused), ("a@b.c", "", LoginField::Email));
}

#[test]
fn unicode_white_space_counts_as_blank() {
    let (mut login, mut create) = forms();
    create.name = "\u{3000}\u{2003}".to_string();
    create.class_slug = "kael".to_string();
    let mut screen = AppScreen::CharacterSelect;
    let out = handle_ui_action(UiAction::SubmitCreateCharacter, true, &mut screen, &mut login, &mut create);
    assert_eq!(out.status.as_deref(), Some("Character name and class slug are required"));
    assert!(apply_key(AppScreen::Login, &mut login, &mut create, &KeyInput::Text("a\u{85}b\u{9f}".to_string())));
    assert_eq!(login.email, "ab");
}

#[test]
fn only_presses_act() {
    let (mut login, mut create) = forms();
    let mut screen = AppScreen::Viewer;
    for idle in [ButtonInteraction::Hovered, ButtonInteraction::Idle] {
        assert!(handle_button(idle, UiAction::BackToCharacters, true, &mut screen, &mut login, &mut create).is_none());
        assert_eq!(screen, AppScreen::Viewer);
    }
    let out = handle_button(ButtonInteraction::Pressed, UiAction::BackToCharacters, false, &mut screen, &mut login, &mut create)
        .expect("a press acts");
    assert_eq!(screen, AppScreen::CharacterSelect);
    assert!(out.redraw && out.send.is_none() && out.status.is_none());
    let out = handle_button(ButtonInteraction::Pressed, UiAction::RefreshCharacters, false, &mut screen, &mut login, &mut create)
        .expect("a press acts");
    assert!(out.redraw && matches!(out.send, Some(ClientMessage::ListCharacters)));
}
