use aurelis::account::{
    account_for_token, check_if_can_perform_game_login, check_login_credentials,
    check_token_context, ensure_admin, ensure_drop_rate_admin, plan_punishment,
    punishment_severity, PunishmentAction, TokenContext,
};
use aurelis::character::{
    check_character_limit, check_ownership, check_skill_unlock, gem_instance_ids,
    playable_character_for, referenced_item_ids, referenced_item_instance_ids, required_level,
};
use aurelis::error::{AppError, DbFailure, RepositoryError};
use aurelis::hash::HashService;
use aurelis::item_instance::{check_instance_owner, parse_item_attributes, refinement_update};
use aurelis::models::{
    AccountModel, CharacterSkillUnlockTier, EquipmentModel, EquipmentSlotModel,
    InventoryItemModel, ItemInstanceGemModel, ItemInstanceModel, JsonAttributes,
    PlayableCharacterRow, PlayerCharacterModel,
};
use aurelis::paging::{page_and_limit, page_offset, total_pages};
use aurelis::parsers::SuspensionSeverity;
use aurelis::snapshot::PersistedEquipmentSnapshot;

fn account(is_admin: bool) -> AccountModel {
    AccountModel {
        id: 1,
        email: "a@b.c".to_string(),
        password_hash: String::new(),
        is_admin,
        max_characters: 3,
        banned_at: None,
        banned_reason: None,
        suspended_until: None,
        created_at: 0,
    }
}

fn row(level: i16, beginner: bool, intermediate: bool) -> PlayableCharacterRow {
    PlayableCharacterRow {
        character_id: 10,
        account_id: 1,
        name: "Kael".to_string(),
        base_character_slug: "kael".to_string(),
        current_class_slug: "kael".to_string(),
        level,
        experience: 0,
        credits: 0,
        beginner_skill_unlocked: beginner,
        intermediate_skill_unlocked: intermediate,
    }
}

fn message(e: AppError) -> String {
    match e {
        AppError::BadRequest(m)
        | AppError::NotFound(m)
        | AppError::Unauthorized(m)
        | AppError::PermissionDenied(m)
        | AppError::Conflict(m)
        | AppError::Internal(m) => m,
    }
}

#[test]
fn repository_errors_map_to_app_errors() {
    let conflict = RepositoryError::from(DbFailure::UniqueViolation {
        constraint_name: Some("accounts_email_key".to_string()),
    });
    match &conflict {
        RepositoryError::Conflict(m) => assert_eq!(m, "email already in use"),
        other => panic!("unexpected: {other:?}"),
    }
    match RepositoryError::from(DbFailure::UniqueViolation { constraint_name: Some("nounderscore".to_string()) }) {
        RepositoryError::Conflict(m) => assert_eq!(m, "field already in use"),
        other => panic!("unexpected: {other:?}"),
    }
    match RepositoryError::from(DbFailure::UniqueViolation { constraint_name: Some("a_".to_string()) }) {
        RepositoryError::Conflict(m) => assert_eq!(m, " already in use"),
        other => panic!("unexpected: {other:?}"),
    }
    match RepositoryError::from(DbFailure::UniqueViolation { constraint_name: None }) {
        RepositoryError::Conflict(m) => assert_eq!(m, "field already in use"),
        other => panic!("unexpected: {other:?}"),
    }
    assert!(matches!(RepositoryError::from(DbFailure::NotFound), RepositoryError::NotFound));
    match AppError::from_repository(conflict) {
        AppError::Conflict(m) => assert_eq!(m, "Conflict: email already in use"),
        other => panic!("unexpected: {other:?}"),
    }
    match AppError::from_repository(RepositoryError::NotFound) {
        AppError::NotFound(m) => assert_eq!(m, "Resource not found"),
        other => panic!("unexpected: {other:?}"),
    }
    match AppError::from_repository(RepositoryError::from(DbFailure::OtherDatabase { message: "boom".to_string() })) {
        AppError::Internal(m) => assert_eq!(m, "Database error: boom"),
        other => panic!("unexpected: {other:?}"),
    }
}

#[test]
fn admin_checks() {
    assert!(ensure_admin(Ok(account(true))).is_ok());
    assert_eq!(message(ensure_admin(Ok(account(false))).unwrap_err()), "Only admins can access this resource");
    assert!(matches!(ensure_admin(Err(RepositoryError::NotFound)), Err(AppError::Unauthorized(_))));
    assert!(matches!(ensure_drop_rate_admin(Err(RepositoryError::NotFound)), Err(AppError::NotFound(_))));
    assert_eq!(
        message(ensure_drop_rate_admin(Ok(account(false))).unwrap_err()),
        "Only admins can create mob drop rates"
    );
}

#[test]
fn punishments_are_planned() {
    match plan_punishment("ban", None, None).unwrap() {
        PunishmentAction::Ban { reason } => assert_eq!(reason, "No reason provided"),
        other => panic!("unexpected: {other:?}"),
    }
    match plan_punishment("ban", Some("cheating".to_string()), None).unwrap() {
        PunishmentAction::Ban { reason } => assert_eq!(reason, "cheating"),
        other => panic!("unexpected: {other:?}"),
    }
    match plan_punishment("suspend", None, None).unwrap() {
        PunishmentAction::Suspend { severity } => assert_eq!(severity, SuspensionSeverity::Medium),
        other => panic!("unexpected: {other:?}"),
    }
    assert!(matches!(plan_punishment("unban", None, None), Ok(PunishmentAction::Unban)));
    assert!(matches!(plan_punishment("unsuspend", None, None), Ok(PunishmentAction::Unsuspend)));
    assert_eq!(message(plan_punishment("kick", None, None).unwrap_err()), "Invalid punishment type");
    assert_eq!(punishment_severity("suspend", None).unwrap(), Some(SuspensionSeverity::Medium));
    assert_eq!(punishment_severity("suspend", Some("high")).unwrap(), Some(SuspensionSeverity::High));
    assert_eq!(punishment_severity("ban", Some("bogus")).unwrap(), None);
    assert_eq!(message(punishment_severity("suspend", Some("bogus")).unwrap_err()), "Invalid suspension severity");
}

#[test]
fn game_login_respects_bans_and_suspensions() {
    let mut a = account(false);
    assert!(check_if_can_perform_game_login(&a, 0).is_ok());
    a.suspended_until = Some(((2 * 86_400 + 3 * 3_600 + 4 * 60 + 5) * 1_000_000) + 17);
    assert_eq!(
        message(check_if_can_perform_game_login(&a, 0).unwrap_err()),
        "Account suspended for 2d 3h 4m"
    );
    assert!(check_if_can_perform_game_login(&a, a.suspended_until.unwrap()).is_ok());
    a.banned_at = Some(5);
    assert_eq!(
        message(check_if_can_perform_game_login(&a, 0).unwrap_err()),
        "Account permanently banned: No reason provided"
    );
    a.banned_reason = Some("botting".to_string());
    assert_eq!(
        message(check_if_can_perform_game_login(&a, 0).unwrap_err()),
        "Account permanently banned: botting"
    );
    assert!(check_token_context(&a, TokenContext::Web, 0).is_ok());
    assert!(check_token_context(&a, TokenContext::Game, 0).is_err());
}

#[test]
fn login_checks_the_password() {
    let hasher = HashService::new(4);
    let mut a = account(false);
    a.password_hash = hasher.hash("S3cret!pw").unwrap();
    assert!(check_login_credentials(Ok(a), "S3cret!pw", &hasher).is_ok());
    let mut b = account(false);
    b.password_hash = hasher.hash("S3cret!pw").unwrap();
    assert_eq!(
        message(check_login_credentials(Ok(b), "wrong", &hasher).unwrap_err()),
        "Email or password is incorrect"
    );
    assert_eq!(
        message(check_login_credentials(Err(RepositoryError::NotFound), "x", &hasher).unwrap_err()),
        "Email or password is incorrect"
    );
    let mut c = account(false);
    c.password_hash = "not a hash".to_string();
    assert!(matches!(check_login_credentials(Ok(c), "x", &hasher), Err(AppError::Internal(_))));
    assert_eq!(message(account_for_token(Err(RepositoryError::NotFound), true).unwrap_err()), "Invalid refresh token");
    assert_eq!(message(account_for_token(Err(RepositoryError::NotFound), false).unwrap_err()), "Invalid token");
}

#[test]
fn character_limits_and_ownership() {
    assert!(check_character_limit(Ok(2), 3).is_ok());
    assert_eq!(message(check_character_limit(Ok(3), 3).unwrap_err()), "Character limit reached for this account");
    assert_eq!(message(check_character_limit(Err(RepositoryError::NotFound), 3).unwrap_err()), "Unknown Database Error");
    let c = PlayerCharacterModel { id: 10, account_id: 1, name: "K".to_string(), current_class_slug: "kael".to_string(), level: 1 };
    assert!(check_ownership(Ok(c), 1).is_ok());
    let d = PlayerCharacterModel { id: 10, account_id: 2, name: "K".to_string(), current_class_slug: "kael".to_string(), level: 1 };
    assert_eq!(message(check_ownership(Ok(d), 1).unwrap_err()), "Character does not belong to this account");
    assert_eq!(message(check_ownership(Err(RepositoryError::NotFound), 1).unwrap_err()), "Unable to fech character data");
    assert!(playable_character_for(Ok(row(1, false, false)), 1).is_ok());
    assert_eq!(message(playable_character_for(Ok(row(1, false, false)), 2).unwrap_err()), "Character does not belong to this account");
    assert_eq!(message(playable_character_for(Err(RepositoryError::NotFound), 1).unwrap_err()), "Unable to fetch character data");
}

#[test]
fn skill_tiers_unlock_once_at_their_level() {
    assert_eq!(required_level(CharacterSkillUnlockTier::Beginner), 15);
    assert_eq!(required_level(CharacterSkillUnlockTier::Intermediate), 35);
    assert!(check_skill_unlock(&row(15, false, false), CharacterSkillUnlockTier::Beginner).is_ok());
    assert_eq!(
        message(check_skill_unlock(&row(14, false, false), CharacterSkillUnlockTier::Beginner).unwrap_err()),
        "Character level 14 is below required level 15"
    );
    assert_eq!(
        message(check_skill_unlock(&row(40, true, false), CharacterSkillUnlockTier::Beginner).unwrap_err()),
        "Skill tier already unlocked for this character"
    );
    assert!(check_skill_unlock(&row(40, true, false), CharacterSkillUnlockTier::Intermediate).is_ok());
}

#[test]
fn snapshot_id_lists() {
    let slots = vec![
        InventoryItemModel { id: 1, inventory_id: 7, item_instance_id: Some(30), item_id: None, slot_index: 0, quantity: 1 },
        InventoryItemModel { id: 2, inventory_id: 7, item_instance_id: None, item_id: Some(900), slot_index: 1, quantity: 4 },
        InventoryItemModel { id: 3, inventory_id: 8, item_instance_id: Some(20), item_id: None, slot_index: 0, quantity: 1 },
    ];
    let equipment = vec![
        EquipmentModel { character_id: 10, slot: EquipmentSlotModel::Weapon, item_instance_id: 30 },
        EquipmentModel { character_id: 10, slot: EquipmentSlotModel::Head, item_instance_id: 25 },
    ];
    assert_eq!(referenced_item_instance_ids(&slots, &equipment), vec![20, 25, 30]);
    let gems = vec![
        ItemInstanceGemModel { id: 1, item_instance_id: 30, slot_index: 0, gem_instance_id: 50 },
        ItemInstanceGemModel { id: 2, item_instance_id: 30, slot_index: 1, gem_instance_id: 40 },
        ItemInstanceGemModel { id: 3, item_instance_id: 25, slot_index: 0, gem_instance_id: 50 },
    ];
    assert_eq!(gem_instance_ids(&gems), vec![40, 50]);
    let instances = vec![ItemInstanceModel {
        id: 30,
        item_id: 800,
        refinement: 0,
        bonus_gem_slots: 0,
        attributes: JsonAttributes::Encoded("{}".to_string()),
        in_shared_storage: false,
        in_trade: false,
        owner_character_id: Some(10),
    }];
    assert_eq!(referenced_item_ids(&slots, &instances), vec![800, 900]);
}

#[test]
fn item_instance_decisions() {
    let inst = ItemInstanceModel {
        id: 30,
        item_id: 800,
        refinement: 0,
        bonus_gem_slots: 0,
        attributes: JsonAttributes::Encoded("{}".to_string()),
        in_shared_storage: false,
        in_trade: false,
        owner_character_id: Some(10),
    };
    assert!(check_instance_owner(&inst, 10).is_ok());
    assert_eq!(message(check_instance_owner(&inst, 11).unwrap_err()), "Item instance does not belong to this character");
    assert!(parse_item_attributes("{\"a\": 1}").is_ok());
    assert_eq!(message(parse_item_attributes("{oops").unwrap_err()), "Invalid item instance attributes");
    let worn = vec![PersistedEquipmentSnapshot { slot: "weapon".to_string(), item_instance_id: 30 }];
    assert_eq!(refinement_update(&worn, 30, 12).unwrap(), 7);
    assert_eq!(refinement_update(&worn, 30, -2).unwrap(), 0);
    assert_eq!(refinement_update(&worn, 30, 4).unwrap(), 4);
    assert_eq!(message(refinement_update(&worn, 31, 4).unwrap_err()), "Only equipped items can be refined");
}

#[test]
fn paging() {
    assert_eq!(page_and_limit(0, 500), (1, 100));
    assert_eq!(page_and_limit(3, 0), (3, 1));
    assert_eq!(total_pages(0, 20), 0);
    assert_eq!(total_pages(41, 20), 3);
    assert_eq!(total_pages(40, 20), 2);
    assert_eq!(page_offset(3, 20), 40);
    assert_eq!(total_pages(-25, 10), -1);
    assert_eq!(total_pages(-5, 10), 0);
}
