use aurelis::client_panels::{
    format_equipped, format_inventories, format_runtime, EffectEntry, EquippedEntry, GemEntry,
    InventoryPanel, RuntimePanel, SlotEntry, TimedEntry,
};
use aurelis::client_screens::{
    character_select_screen, login_screen, screen_header, screen_items, CharacterSummary,
    ScreenItem, TextSize,
};
use aurelis::client_ui::{AppScreen, CharacterCreateForm, CreateField, LoginField, LoginForm, UiAction};

fn describe(items: &[ScreenItem]) -> Vec<String> {
    items
        .iter()
        .map(|i| match i {
            ScreenItem::Text { text, size } => format!("{size:?}: {text}"),
            ScreenItem::Status(s) => format!("status: {s}"),
            ScreenItem::Button { action, label } => format!("[{label}] {action:?}"),
        })
        .collect()
}

fn forms() -> (LoginForm, CharacterCreateForm) {
    (
        LoginForm { email: "a@b.c".to_string(), password: "pässword".to_string(), focused: LoginField::Password },
        CharacterCreateForm { name: "Kael".to_string(), class_slug: String::new(), focused: CreateField::Name },
    )
}

#[test]
fn header_shows_status_only_when_set() {
    assert_eq!(
        describe(&screen_header("127.0.0.1:5000", "")),
        vec!["Title: Aurelis Game Client", "Caption: Server: 127.0.0.1:5000"]
    );
    let items = screen_header("h:1", "Logging in...");
    assert_eq!(items.len(), 3);
    assert!(matches!(&items[2], ScreenItem::Status(s) if s == "Logging in..."));
}

#[test]
fn login_screen_masks_the_password() {
    let (login, _) = forms();
    assert_eq!(
        describe(&login_screen(&login)),
        vec![
            "Heading: Login",
            "Caption: Tab alternates fields. Type directly into the selected field.",
            "[Email: a@b.c] FocusLogin(Email)",
            "[> Password: ********] FocusLogin(Password)",
            "[Login] SubmitLogin",
        ]
    );
}

#[test]
fn character_screen_lists_characters_then_the_form() {
    let (_, create) = forms();
    let empty = describe(&character_select_screen(&create, &Vec::new()));
    assert_eq!(empty[2], "Body: No characters loaded.");
    assert_eq!(empty.len(), 9);
    let chars = vec![CharacterSummary {
        character_id: 0xab,
        name: "Kael".to_string(),
        level: 12,
        class_slug: "kael_royal_sentinel".to_string(),
    }];
    let items = character_select_screen(&create, &chars);
    assert_eq!(
        describe(&items),
        vec![
            "Heading: Characters",
            "[Refresh list] RefreshCharacters",
            "Body: Kael | lvl 12 | kael_royal_sentinel",
            "Small: Character ID: 00000000-0000-0000-0000-0000000000ab",
            "[Select] SelectCharacter(171)",
            "Heading: Create Character",
            "Caption: Use the focused field below, then submit.",
            "[> Name: Kael] FocusCreate(Name)",
            "[Class Slug: ] FocusCreate(ClassSlug)",
            "Small: Example class slug: kael",
            "[Create character] SubmitCreateCharacter",
        ]
    );
    assert!(matches!(items[4], ScreenItem::Button { action: UiAction::SelectCharacter(0xab), .. }));
}

#[test]
fn viewer_waits_for_the_snapshot() {
    let (login, create) = forms();
    let items = screen_items("s", "", AppScreen::Viewer, &login, &create, &Vec::new(), false);
    assert_eq!(describe(&items)[2], "Subheading: Waiting for character snapshot...");
    assert!(matches!(&items[2], ScreenItem::Text { size: TextSize::Subheading, .. }));
    let items = screen_items("s", "", AppScreen::Viewer, &login, &create, &Vec::new(), true);
    assert_eq!(items.len(), 2);
    let items = screen_items("s", "ok", AppScreen::Login, &login, &create, &Vec::new(), false);
    assert_eq!(items.len(), 8);
}

#[test]
fn inventory_panel_counts_filled_slots() {
    let inventories = vec![
        InventoryPanel {
            inventory_type: "equipment".to_string(),
            capacity: 56,
            slots: vec![
                SlotEntry { slot_index: 0, quantity: 1, item_name: Some("Training Blade".to_string()) },
                SlotEntry { slot_index: 1, quantity: 0, item_name: None },
                SlotEntry { slot_index: 2, quantity: 3, item_name: Some("Potion".to_string()) },
            ],
        },
        InventoryPanel { inventory_type: "material".to_string(), capacity: 20, slots: Vec::new() },
    ];
    assert_eq!(
        format_inventories(&inventories),
        "Inventories\n\nequipment (2/56)\n  [0] Training Blade x1\n  [2] Potion x3\n\nmaterial (0/20)\n\n"
    );
    assert_eq!(format_inventories(&Vec::new()), "Inventories\n\n");
}

#[test]
fn runtime_panel_lists_buffs_and_cooldowns() {
    let runtime = RuntimePanel {
        current_hp: 120,
        current_mp: -5,
        credits: 1000,
        experience: 42,
        active_buffs: vec![TimedEntry { slug: "haste".to_string(), remaining_ms: 1500 }],
        skill_cooldowns: Vec::new(),
    };
    assert_eq!(
        format_runtime(&runtime),
        "Runtime\n\nCurrent HP: 120\nCurrent MP: -5\nCredits: 1000\nExperience: 42\n\nActive Buffs\n  haste (1500 ms)\n\nCooldowns\n  none\n"
    );
}

#[test]
fn equipment_panel_nests_effects_and_gems() {
    let effect = |s: &str| EffectEntry { stat: s.to_string(), kind: "flat".to_string(), value: "5".to_string() };
    let equipped = vec![
        EquippedEntry {
            slot: "weapon".to_string(),
            name: "Training Blade".to_string(),
            refinement: 3,
            effects: vec![effect("physical_atk")],
            gems: vec![GemEntry { name: "Ruby".to_string(), effects: vec![effect("hp")] }],
        },
        EquippedEntry {
            slot: "head".to_string(),
            name: "Cap".to_string(),
            refinement: 0,
            effects: Vec::new(),
            gems: Vec::new(),
        },
    ];
    assert_eq!(
        format_equipped(&equipped),
        "Equipped\n\nweapon: Training Blade +3\n  rolled:\n    physical_atk flat 5\n  gems:\n    Ruby\n      hp flat 5\nhead: Cap +0\n"
    );
}
