//! The records the services read and write, and the names they are stored under.
use vstd::prelude::*;
use crate::text::str_equal;

verus! {

/// The kind of inventory an item is kept in; each character has one inventory of each kind.
#[derive(Debug, Clone, Copy, PartialEq, Eq, Structural)]
pub enum InventoryTypeModel {
    Equipment,
    Accessory,
    Consumable,
    Material,
    QuestItem,
    Special,
}

impl InventoryTypeModel {
    /// The name this value is stored and exchanged under.
    pub open spec fn name(self) -> Seq<char> {
        match self {
            InventoryTypeModel::Equipment => "equipment"@,
            InventoryTypeModel::Accessory => "accessory"@,
            InventoryTypeModel::Consumable => "consumable"@,
            InventoryTypeModel::Material => "material"@,
            InventoryTypeModel::QuestItem => "quest_item"@,
            InventoryTypeModel::Special => "special"@,
        }
    }

    /// The name this value is stored and exchanged under.
    pub fn as_str(&self) -> (r: &'static str)
        ensures
            r@ == self.name(),
    {
        match self {
            InventoryTypeModel::Equipment => "equipment",
            InventoryTypeModel::Accessory => "accessory",
            InventoryTypeModel::Consumable => "consumable",
            InventoryTypeModel::Material => "material",
            InventoryTypeModel::QuestItem => "quest_item",
            InventoryTypeModel::Special => "special",
        }
    }

    /// The value named `s`, if any.
    pub open spec fn named(s: Seq<char>) -> Option<InventoryTypeModel> {
        if s == "equipment"@ {
            Some(InventoryTypeModel::Equipment)
        } else if s == "accessory"@ {
            Some(InventoryTypeModel::Accessory)
        } else if s == "consumable"@ {
            Some(InventoryTypeModel::Consumable)
        } else if s == "material"@ {
            Some(InventoryTypeModel::Material)
        } else if s == "quest_item"@ {
            Some(InventoryTypeModel::QuestItem)
        } else if s == "special"@ {
            Some(InventoryTypeModel::Special)
        } else {
            None
        }
    }

    /// The inventory kind named `s`, if any.
    pub fn parse(s: &str) -> (r: Option<InventoryTypeModel>)
        ensures
            r == InventoryTypeModel::named(s@),
    {
        if str_equal(s, "equipment") {
            Some(InventoryTypeModel::Equipment)
        } else if str_equal(s, "accessory") {
            Some(InventoryTypeModel::Accessory)
        } else if str_equal(s, "consumable") {
            Some(InventoryTypeModel::Consumable)
        } else if str_equal(s, "material") {
            Some(InventoryTypeModel::Material)
        } else if str_equal(s, "quest_item") {
            Some(InventoryTypeModel::QuestItem)
        } else if str_equal(s, "special") {
            Some(InventoryTypeModel::Special)
        } else {
            None
        }
    }

    /// Every value is found again under its own name, and no two values share a name.
    pub proof fn lemma_name_round_trip(v: InventoryTypeModel)
        ensures
            InventoryTypeModel::named(v.name()) == Some(v),
    {
        match v {
            InventoryTypeModel::Equipment => {
                reveal_strlit("equipment");
            },
            InventoryTypeModel::Accessory => {
                reveal_strlit("accessory");
                reveal_strlit("equipment");
                assert("accessory"@[0] != "equipment"@[0]);
            },
            InventoryTypeModel::Consumable => {
                reveal_strlit("consumable");
                reveal_strlit("equipment");
                assert("consumable"@.len() != "equipment"@.len());
                reveal_strlit("accessory");
                assert("consumable"@.len() != "accessory"@.len());
            },
            InventoryTypeModel::Material => {
                reveal_strlit("material");
                reveal_strlit("equipment");
                assert("material"@.len() != "equipment"@.len());
                reveal_strlit("accessory");
                assert("material"@.len() != "accessory"@.len());
                reveal_strlit("consumable");
                assert("material"@.len() != "consumable"@.len());
            },
            InventoryTypeModel::QuestItem => {
                reveal_strlit("quest_item");
                reveal_strlit("equipment");
                assert("quest_item"@.len() != "equipment"@.len());
                reveal_strlit("accessory");
                assert("quest_item"@.len() != "accessory"@.len());
                reveal_strlit("consumable");
                assert("quest_item"@[0] != "consumable"@[0]);
                reveal_strlit("material");
                assert("quest_item"@.len() != "material"@.len());
            },
            InventoryTypeModel::Special => {
                reveal_strlit("special");
                reveal_strlit("equipment");
                assert("special"@.len() != "equipment"@.len());
                reveal_strlit("accessory");
                assert("special"@.len() != "accessory"@.len());
                reveal_strlit("consumable");
                assert("special"@.len() != "consumable"@.len());
                reveal_strlit("material");
                assert("special"@.len() != "material"@.len());
                reveal_strlit("quest_item");
                assert("special"@.len() != "quest_item"@.len());
            },
        }
    }
}

/// A slot of a character's equipment.
#[derive(Debug, Clone, Copy, PartialEq, Eq, Structural)]
pub enum EquipmentSlotModel {
    Weapon,
    Head,
    Chest,
    Legs,
    Gloves,
    Shoes,
    AccRing1,
    AccRing2,
    AccNecklace,
    AccEarrings,
    AccArm,
    AccFaceBottom,
    AccFaceMiddle,
    AccFaceTop,
    AccBottomPiece,
    AccTopPiece,
    AccWeapon,
    AccSupportUnit,
}

impl EquipmentSlotModel {
    /// The name this value is stored and exchanged under.
    pub open spec fn name(self) -> Seq<char> {
        match self {
            EquipmentSlotModel::Weapon => "weapon"@,
            EquipmentSlotModel::Head => "head"@,
            EquipmentSlotModel::Chest => "chest"@,
            EquipmentSlotModel::Legs => "legs"@,
            EquipmentSlotModel::Gloves => "gloves"@,
            EquipmentSlotModel::Shoes => "shoes"@,
            EquipmentSlotModel::AccRing1 => "acc_ring_1"@,
            EquipmentSlotModel::AccRing2 => "acc_ring_2"@,
            EquipmentSlotModel::AccNecklace => "acc_necklace"@,
            EquipmentSlotModel::AccEarrings => "acc_earrings"@,
            EquipmentSlotModel::AccArm => "acc_arm"@,
            EquipmentSlotModel::AccFaceBottom => "acc_face_bottom"@,
            EquipmentSlotModel::AccFaceMiddle => "acc_face_middle"@,
            EquipmentSlotModel::AccFaceTop => "acc_face_top"@,
            EquipmentSlotModel::AccBottomPiece => "acc_bottom_piece"@,
            EquipmentSlotModel::AccTopPiece => "acc_top_piece"@,
            EquipmentSlotModel::AccWeapon => "acc_weapon"@,
            EquipmentSlotModel::AccSupportUnit => "acc_support_unit"@,
        }
    }

    /// The name this value is stored and exchanged under.
    pub fn as_str(&self) -> (r: &'static str)
        ensures
            r@ == self.name(),
    {
        match self {
            EquipmentSlotModel::Weapon => "weapon",
            EquipmentSlotModel::Head => "head",
            EquipmentSlotModel::Chest => "chest",
            EquipmentSlotModel::Legs => "legs",
            EquipmentSlotModel::Gloves => "gloves",
            EquipmentSlotModel::Shoes => "shoes",
            EquipmentSlotModel::AccRing1 => "acc_ring_1",
            EquipmentSlotModel::AccRing2 => "acc_ring_2",
            EquipmentSlotModel::AccNecklace => "acc_necklace",
            EquipmentSlotModel::AccEarrings => "acc_earrings",
            EquipmentSlotModel::AccArm => "acc_arm",
            EquipmentSlotModel::AccFaceBottom => "acc_face_bottom",
            EquipmentSlotModel::AccFaceMiddle => "acc_face_middle",
            EquipmentSlotModel::AccFaceTop => "acc_face_top",
            EquipmentSlotModel::AccBottomPiece => "acc_bottom_piece",
            EquipmentSlotModel::AccTopPiece => "acc_top_piece",
            EquipmentSlotModel::AccWeapon => "acc_weapon",
            EquipmentSlotModel::AccSupportUnit => "acc_support_unit",
        }
    }

    /// The value named `s`, if any.
    pub open spec fn named(s: Seq<char>) -> Option<EquipmentSlotModel> {
        if s == "weapon"@ {
            Some(EquipmentSlotModel::Weapon)
        } else if s == "head"@ {
            Some(EquipmentSlotModel::Head)
        } else if s == "chest"@ {
            Some(EquipmentSlotModel::Chest)
        } else if s == "legs"@ {
            Some(EquipmentSlotModel::Legs)
        } else if s == "gloves"@ {
            Some(EquipmentSlotModel::Gloves)
        } else if s == "shoes"@ {
            Some(EquipmentSlotModel::Shoes)
        } else if s == "acc_ring_1"@ {
            Some(EquipmentSlotModel::AccRing1)
        } else if s == "acc_ring_2"@ {
            Some(EquipmentSlotModel::AccRing2)
        } else if s == "acc_necklace"@ {
            Some(EquipmentSlotModel::AccNecklace)
        } else if s == "acc_earrings"@ {
            Some(EquipmentSlotModel::AccEarrings)
        } else if s == "acc_arm"@ {
            Some(EquipmentSlotModel::AccArm)
        } else if s == "acc_face_bottom"@ {
            Some(EquipmentSlotModel::AccFaceBottom)
        } else if s == "acc_face_middle"@ {
            Some(EquipmentSlotModel::AccFaceMiddle)
        } else if s == "acc_face_top"@ {
            Some(EquipmentSlotModel::AccFaceTop)
        } else if s == "acc_bottom_piece"@ {
            Some(EquipmentSlotModel::AccBottomPiece)
        } else if s == "acc_top_piece"@ {
            Some(EquipmentSlotModel::AccTopPiece)
        } else if s == "acc_weapon"@ {
            Some(EquipmentSlotModel::AccWeapon)
        } else if s == "acc_support_unit"@ {
            Some(EquipmentSlotModel::AccSupportUnit)
        } else {
            None
        }
    }

    /// The equipment slot named `s`, if any.
    pub fn parse(s: &str) -> (r: Option<EquipmentSlotModel>)
        ensures
            r == EquipmentSlotModel::named(s@),
    {
        if str_equal(s, "weapon") {
            Some(EquipmentSlotModel::Weapon)
        } else if str_equal(s, "head") {
            Some(EquipmentSlotModel::Head)
        } else if str_equal(s, "chest") {
            Some(EquipmentSlotModel::Chest)
        } else if str_equal(s, "legs") {
            Some(EquipmentSlotModel::Legs)
        } else if str_equal(s, "gloves") {
            Some(EquipmentSlotModel::Gloves)
        } else if str_equal(s, "shoes") {
            Some(EquipmentSlotModel::Shoes)
        } else if str_equal(s, "acc_ring_1") {
            Some(EquipmentSlotModel::AccRing1)
        } else if str_equal(s, "acc_ring_2") {
            Some(EquipmentSlotModel::AccRing2)
        } else if str_equal(s, "acc_necklace") {
            Some(EquipmentSlotModel::AccNecklace)
        } else if str_equal(s, "acc_earrings") {
            Some(EquipmentSlotModel::AccEarrings)
        } else if str_equal(s, "acc_arm") {
            Some(EquipmentSlotModel::AccArm)
        } else if str_equal(s, "acc_face_bottom") {
            Some(EquipmentSlotModel::AccFaceBottom)
        } else if str_equal(s, "acc_face_middle") {
            Some(EquipmentSlotModel::AccFaceMiddle)
        } else if str_equal(s, "acc_face_top") {
            Some(EquipmentSlotModel::AccFaceTop)
        } else if str_equal(s, "acc_bottom_piece") {
            Some(EquipmentSlotModel::AccBottomPiece)
        } else if str_equal(s, "acc_top_piece") {
            Some(EquipmentSlotModel::AccTopPiece)
        } else if str_equal(s, "acc_weapon") {
            Some(EquipmentSlotModel::AccWeapon)
        } else if str_equal(s, "acc_support_unit") {
            Some(EquipmentSlotModel::AccSupportUnit)
        } else {
            None
        }
    }

    /// Every value is found again under its own name, and no two values share a name.
    pub proof fn lemma_name_round_trip(v: EquipmentSlotModel)
        ensures
            EquipmentSlotModel::named(v.name()) == Some(v),
    {
        match v {
            EquipmentSlotModel::Weapon => {
                reveal_strlit("weapon");
            },
            EquipmentSlotModel::Head => {
                reveal_strlit("head");
                reveal_strlit("weapon");
                assert("head"@.len() != "weapon"@.len());
            },
            EquipmentSlotModel::Chest => {
                reveal_strlit("chest");
                reveal_strlit("weapon");
                assert("chest"@.len() != "weapon"@.len());
                reveal_strlit("head");
                assert("chest"@.len() != "head"@.len());
            },
            EquipmentSlotModel::Legs => {
                reveal_strlit("legs");
                reveal_strlit("weapon");
                assert("legs"@.len() != "weapon"@.len());
                reveal_strlit("head");
                assert("legs"@[0] != "head"@[0]);
                reveal_strlit("chest");
                assert("legs"@.len() != "chest"@.len());
            },
            EquipmentSlotModel::Gloves => {
                reveal_strlit("gloves");
                reveal_strlit("weapon");
                assert("gloves"@[0] != "weapon"@[0]);
                reveal_strlit("head");
                assert("gloves"@.len() != "head"@.len());
                reveal_strlit("chest");
                assert("gloves"@.len() != "chest"@.len());
                reveal_strlit("legs");
                assert("gloves"@.len() != "legs"@.len());
            },
            EquipmentSlotModel::Shoes => {
                reveal_strlit("shoes");
                reveal_strlit("weapon");
                assert("shoes"@.len() != "weapon"@.len());
                reveal_strlit("head");
                assert("shoes"@.len() != "head"@.len());
                reveal_strlit("chest");
                assert("shoes"@[0] != "chest"@[0]);
                reveal_strlit("legs");
                assert("shoes"@.len() != "legs"@.len());
                reveal_strlit("gloves");
                assert("shoes"@.len() != "gloves"@.len());
            },
            EquipmentSlotModel::AccRing1 => {
                reveal_strlit("acc_ring_1");
                reveal_strlit("weapon");
                assert("acc_ring_1"@.len() != "weapon"@.len());
                reveal_strlit("head");
                assert("acc_ring_1"@.len() != "head"@.len());
                reveal_strlit("chest");
                assert("acc_ring_1"@.len() != "chest"@.len());
                reveal_strlit("legs");
                assert("acc_ring_1"@.len() != "legs"@.len());
                reveal_strlit("gloves");
                assert("acc_ring_1"@.len() != "gloves"@.len());
                reveal_strlit("shoes");
                assert("acc_ring_1"@.len() != "shoes"@.len());
            },
            EquipmentSlotModel::AccRing2 => {
                reveal_strlit("acc_ring_2");
                reveal_strlit("weapon");
                assert("acc_ring_2"@.len() != "weapon"@.len());
                reveal_strlit("head");
                assert("acc_ring_2"@.len() != "head"@.len());
                reveal_strlit("chest");
                assert("acc_ring_2"@.len() != "chest"@.len());
                reveal_strlit("legs");
                assert("acc_ring_2"@.len() != "legs"@.len());
                reveal_strlit("gloves");
                assert("acc_ring_2"@.len() != "gloves"@.len());
                reveal_strlit("shoes");
                assert("acc_ring_2"@.len() != "shoes"@.len());
                reveal_strlit("acc_ring_1");
                assert("acc_ring_2"@[9] != "acc_ring_1"@[9]);
            },
            EquipmentSlotModel::AccNecklace => {
                reveal_strlit("acc_necklace");
                reveal_strlit("weapon");
                assert("acc_necklace"@.len() != "weapon"@.len());
                reveal_strlit("head");
                assert("acc_necklace"@.len() != "head"@.len());
                reveal_strlit("chest");
                assert("acc_necklace"@.len() != "chest"@.len());
                reveal_strlit("legs");
                assert("acc_necklace"@.len() != "legs"@.len());
                reveal_strlit("gloves");
                assert("acc_necklace"@.len() != "gloves"@.len());
                reveal_strlit("shoes");
                assert("acc_necklace"@.len() != "shoes"@.len());
                reveal_strlit("acc_ring_1");
                assert("acc_necklace"@.len() != "acc_ring_1"@.len());
                reveal_strlit("acc_ring_2");
                assert("acc_necklace"@.len() != "acc_ring_2"@.len());
            },
            EquipmentSlotModel::AccEarrings => {
                reveal_strlit("acc_earrings");
                reveal_strlit("weapon");
                assert("acc_earrings"@.len() != "weapon"@.len());
                reveal_strlit("head");
                assert("acc_earrings"@.len() != "head"@.len());
                reveal_strlit("chest");
                assert("acc_earrings"@.len() != "chest"@.len());
                reveal_strlit("legs");
                assert("acc_earrings"@.len() != "legs"@.len());
                reveal_strlit("gloves");
                assert("acc_earrings"@.len() != "gloves"@.len());
                reveal_strlit("shoes");
                assert("acc_earrings"@.len() != "shoes"@.len());
                reveal_strlit("acc_ring_1");
                assert("acc_earrings"@.len() != "acc_ring_1"@.len());
                reveal_strlit("acc_ring_2");
                assert("acc_earrings"@.len() != "acc_ring_2"@.len());
                reveal_strlit("acc_necklace");
                assert("acc_earrings"@[4] != "acc_necklace"@[4]);
            },
            EquipmentSlotModel::AccArm => {
                reveal_strlit("acc_arm");
                reveal_strlit("weapon");
                assert("acc_arm"@.len() != "weapon"@.len());
                reveal_strlit("head");
                assert("acc_arm"@.len() != "head"@.len());
                reveal_strlit("chest");
                assert("acc_arm"@.len() != "chest"@.len());
                reveal_strlit("legs");
                assert("acc_arm"@.len() != "legs"@.len());
                reveal_strlit("gloves");
                assert("acc_arm"@.len() != "gloves"@.len());
                reveal_strlit("shoes");
                assert("acc_arm"@.len() != "shoes"@.len());
                reveal_strlit("acc_ring_1");
                assert("acc_arm"@.len() != "acc_ring_1"@.len());
                reveal_strlit("acc_ring_2");
                assert("acc_arm"@.len() != "acc_ring_2"@.len());
                reveal_strlit("acc_necklace");
                assert("acc_arm"@.len() != "acc_necklace"@.len());
                reveal_strlit("acc_earrings");
                assert("acc_arm"@.len() != "acc_earrings"@.len());
            },
            EquipmentSlotModel::AccFaceBottom => {
                reveal_strlit("acc_face_bottom");
                reveal_strlit("weapon");
                assert("acc_face_bottom"@.len() != "weapon"@.len());
                reveal_strlit("head");
                assert("acc_face_bottom"@.len() != "head"@.len());
                reveal_strlit("chest");
                assert("acc_face_bottom"@.len() != "chest"@.len());
                reveal_strlit("legs");
                assert("acc_face_bottom"@.len() != "legs"@.len());
                reveal_strlit("gloves");
                assert("acc_face_bottom"@.len() != "gloves"@.len());
                reveal_strlit("shoes");
                assert("acc_face_bottom"@.len() != "shoes"@.len());
                reveal_strlit("acc_ring_1");
                assert("acc_face_bottom"@.len() != "acc_ring_1"@.len());
                reveal_strlit("acc_ring_2");
                assert("acc_face_bottom"@.len() != "acc_ring_2"@.len());
                reveal_strlit("acc_necklace");
                assert("acc_face_bottom"@.len() != "acc_necklace"@.len());
                reveal_strlit("acc_earrings");
                assert("acc_face_bottom"@.len() != "acc_earrings"@.len());
                reveal_strlit("acc_arm");
                assert("acc_face_bottom"@.len() != "acc_arm"@.len());
            },
            EquipmentSlotModel::AccFaceMiddle => {
                reveal_strlit("acc_face_middle");
                reveal_strlit("weapon");
                assert("acc_face_middle"@.len() != "weapon"@.len());
                reveal_strlit("head");
                assert("acc_face_middle"@.len() != "head"@.len());
                reveal_strlit("chest");
                assert("acc_face_middle"@.len() != "chest"@.len());
                reveal_strlit("legs");
                assert("acc_face_middle"@.len() != "legs"@.len());
                reveal_strlit("gloves");
                assert("acc_face_middle"@.len() != "gloves"@.len());
                reveal_strlit("shoes");
                assert("acc_face_middle"@.len() != "shoes"@.len());
                reveal_strlit("acc_ring_1");
                assert("acc_face_middle"@.len() != "acc_ring_1"@.len());
                reveal_strlit("acc_ring_2");
                assert("acc_face_middle"@.len() != "acc_ring_2"@.len());
                reveal_strlit("acc_necklace");
                assert("acc_face_middle"@.len() != "acc_necklace"@.len());
                reveal_strlit("acc_earrings");
                assert("acc_face_middle"@.len() != "acc_earrings"@.len());
                reveal_strlit("acc_arm");
                assert("acc_face_middle"@.len() != "acc_arm"@.len());
                reveal_strlit("acc_face_bottom");
                assert("acc_face_middle"@[9] != "acc_face_bottom"@[9]);
            },
            EquipmentSlotModel::AccFaceTop => {
                reveal_strlit("acc_face_top");
                reveal_strlit("weapon");
                assert("acc_face_top"@.len() != "weapon"@.len());
                reveal_strlit("head");
                assert("acc_face_top"@.len() != "head"@.len());
                reveal_strlit("chest");
                assert("acc_face_top"@.len() != "chest"@.len());
                reveal_strlit("legs");
                assert("acc_face_top"@.len() != "legs"@.len());
                reveal_strlit("gloves");
                assert("acc_face_top"@.len() != "gloves"@.len());
                reveal_strlit("shoes");
                assert("acc_face_top"@.len() != "shoes"@.len());
                reveal_strlit("acc_ring_1");
                assert("acc_face_top"@.len() != "acc_ring_1"@.len());
                reveal_strlit("acc_ring_2");
                assert("acc_face_top"@.len() != "acc_ring_2"@.len());
                reveal_strlit("acc_necklace");
                assert("acc_face_top"@[4] != "acc_necklace"@[4]);
                reveal_strlit("acc_earrings");
                assert("acc_face_top"@[4] != "acc_earrings"@[4]);
                reveal_strlit("acc_arm");
                assert("acc_face_top"@.len() != "acc_arm"@.len());
                reveal_strlit("acc_face_bottom");
                assert("acc_face_top"@.len() != "acc_face_bottom"@.len());
                reveal_strlit("acc_face_middle");
                assert("acc_face_top"@.len() != "acc_face_middle"@.len());
            },
            EquipmentSlotModel::AccBottomPiece => {
                reveal_strlit("acc_bottom_piece");
                reveal_strlit("weapon");
                assert("acc_bottom_piece"@.len() != "weapon"@.len());
                reveal_strlit("head");
                assert("acc_bottom_piece"@.len() != "head"@.len());
                reveal_strlit("chest");
                assert("acc_bottom_piece"@.len() != "chest"@.len());
                reveal_strlit("legs");
                assert("acc_bottom_piece"@.len() != "legs"@.len());
                reveal_strlit("gloves");
                assert("acc_bottom_piece"@.len() != "gloves"@.len());
                reveal_strlit("shoes");
                assert("acc_bottom_piece"@.len() != "shoes"@.len());
                reveal_strlit("acc_ring_1");
                assert("acc_bottom_piece"@.len() != "acc_ring_1"@.len());
                reveal_strlit("acc_ring_2");
                assert("acc_bottom_piece"@.len() != "acc_ring_2"@.len());
                reveal_strlit("acc_necklace");
                assert("acc_bottom_piece"@.len() != "acc_necklace"@.len());
                reveal_strlit("acc_earrings");
                assert("acc_bottom_piece"@.len() != "acc_earrings"@.len());
                reveal_strlit("acc_arm");
                assert("acc_bottom_piece"@.len() != "acc_arm"@.len());
                reveal_strlit("acc_face_bottom");
                assert("acc_bottom_piece"@.len() != "acc_face_bottom"@.len());
                reveal_strlit("acc_face_middle");
                assert("acc_bottom_piece"@.len() != "acc_face_middle"@.len());
                reveal_strlit("acc_face_top");
                assert("acc_bottom_piece"@.len() != "acc_face_top"@.len());
            },
            EquipmentSlotModel::AccTopPiece => {
                reveal_strlit("acc_top_piece");
                reveal_strlit("weapon");
                assert("acc_top_piece"@.len() != "weapon"@.len());
                reveal_strlit("head");
                assert("acc_top_piece"@.len() != "head"@.len());
                reveal_strlit("chest");
                assert("acc_top_piece"@.len() != "chest"@.len());
                reveal_strlit("legs");
                assert("acc_top_piece"@.len() != "legs"@.len());
                reveal_strlit("gloves");
                assert("acc_top_piece"@.len() != "gloves"@.len());
                reveal_strlit("shoes");
                assert("acc_top_piece"@.len() != "shoes"@.len());
                reveal_strlit("acc_ring_1");
                assert("acc_top_piece"@.len() != "acc_ring_1"@.len());
                reveal_strlit("acc_ring_2");
                assert("acc_top_piece"@.len() != "acc_ring_2"@.len());
                reveal_strlit("acc_necklace");
                assert("acc_top_piece"@.len() != "acc_necklace"@.len());
                reveal_strlit("acc_earrings");
                assert("acc_top_piece"@.len() != "acc_earrings"@.len());
                reveal_strlit("acc_arm");
                assert("acc_top_piece"@.len() != "acc_arm"@.len());
                reveal_strlit("acc_face_bottom");
                assert("acc_top_piece"@.len() != "acc_face_bottom"@.len());
                reveal_strlit("acc_face_middle");
                assert("acc_top_piece"@.len() != "acc_face_middle"@.len());
                reveal_strlit("acc_face_top");
                assert("acc_top_piece"@.len() != "acc_face_top"@.len());
                reveal_strlit("acc_bottom_piece");
                assert("acc_top_piece"@.len() != "acc_bottom_piece"@.len());
            },
            EquipmentSlotModel::AccWeapon => {
                reveal_strlit("acc_weapon");
                reveal_strlit("weapon");
                assert("acc_weapon"@.len() != "weapon"@.len());
                reveal_strlit("head");
                assert("acc_weapon"@.len() != "head"@.len());
                reveal_strlit("chest");
                assert("acc_weapon"@.len() != "chest"@.len());
                reveal_strlit("legs");
                assert("acc_weapon"@.len() != "legs"@.len());
                reveal_strlit("gloves");
                assert("acc_weapon"@.len() != "gloves"@.len());
                reveal_strlit("shoes");
                assert("acc_weapon"@.len() != "shoes"@.len());
                reveal_strlit("acc_ring_1");
                assert("acc_weapon"@[4] != "acc_ring_1"@[4]);
                reveal_strlit("acc_ring_2");
                assert("acc_weapon"@[4] != "acc_ring_2"@[4]);
                reveal_strlit("acc_necklace");
                assert("acc_weapon"@.len() != "acc_necklace"@.len());
                reveal_strlit("acc_earrings");
                assert("acc_weapon"@.len() != "acc_earrings"@.len());
                reveal_strlit("acc_arm");
                assert("acc_weapon"@.len() != "acc_arm"@.len());
                reveal_strlit("acc_face_bottom");
                assert("acc_weapon"@.len() != "acc_face_bottom"@.len());
                reveal_strlit("acc_face_middle");
                assert("acc_weapon"@.len() != "acc_face_middle"@.len());
                reveal_strlit("acc_face_top");
                assert("acc_weapon"@.len() != "acc_face_top"@.len());
                reveal_strlit("acc_bottom_piece");
                assert("acc_weapon"@.len() != "acc_bottom_piece"@.len());
                reveal_strlit("acc_top_piece");
                assert("acc_weapon"@.len() != "acc_top_piece"@.len());
            },
            EquipmentSlotModel::AccSupportUnit => {
                reveal_strlit("acc_support_unit");
                reveal_strlit("weapon");
                assert("acc_support_unit"@.len() != "weapon"@.len());
                reveal_strlit("head");
                assert("acc_support_unit"@.len() != "head"@.len());
                reveal_strlit("chest");
                assert("acc_support_unit"@.len() != "chest"@.len());
                reveal_strlit("legs");
                assert("acc_support_unit"@.len() != "legs"@.len());
                reveal_strlit("gloves");
                assert("acc_support_unit"@.len() != "gloves"@.len());
                reveal_strlit("shoes");
                assert("acc_support_unit"@.len() != "shoes"@.len());
                reveal_strlit("acc_ring_1");
                assert("acc_support_unit"@.len() != "acc_ring_1"@.len());
                reveal_strlit("acc_ring_2");
                assert("acc_support_unit"@.len() != "acc_ring_2"@.len());
                reveal_strlit("acc_necklace");
                assert("acc_support_unit"@.len() != "acc_necklace"@.len());
                reveal_strlit("acc_earrings");
                assert("acc_support_unit"@.len() != "acc_earrings"@.len());
                reveal_strlit("acc_arm");
                assert("acc_support_unit"@.len() != "acc_arm"@.len());
                reveal_strlit("acc_face_bottom");
                assert("acc_support_unit"@.len() != "acc_face_bottom"@.len());
                reveal_strlit("acc_face_middle");
                assert("acc_support_unit"@.len() != "acc_face_middle"@.len());
                reveal_strlit("acc_face_top");
                assert("acc_support_unit"@.len() != "acc_face_top"@.len());
                reveal_strlit("acc_bottom_piece");
                assert("acc_support_unit"@[4] != "acc_bottom_piece"@[4]);
                reveal_strlit("acc_top_piece");
                assert("acc_support_unit"@.len() != "acc_top_piece"@.len());
                reveal_strlit("acc_weapon");
                assert("acc_support_unit"@.len() != "acc_weapon"@.len());
            },
        }
    }
}

/// The equipment slot that the item catalog assigns to an equippable item.
#[derive(Debug, Clone, Copy, PartialEq, Eq, Structural)]
pub enum EquipmentSlot {
    Weapon,
    Head,
    Chest,
    Legs,
    Gloves,
    Shoes,
    AccRing1,
    AccRing2,
    AccNecklace,
    AccEarrings,
    AccArm,
    AccFaceBottom,
    AccFaceMiddle,
    AccFaceTop,
    AccBottomPiece,
    AccTopPiece,
    AccWeapon,
    AccSupportUnit,
}

impl EquipmentSlot {
    /// The name this value is stored and exchanged under.
    pub open spec fn name(self) -> Seq<char> {
        match self {
            EquipmentSlot::Weapon => "weapon"@,
            EquipmentSlot::Head => "head"@,
            EquipmentSlot::Chest => "chest"@,
            EquipmentSlot::Legs => "legs"@,
            EquipmentSlot::Gloves => "gloves"@,
            EquipmentSlot::Shoes => "shoes"@,
            EquipmentSlot::AccRing1 => "acc_ring_1"@,
            EquipmentSlot::AccRing2 => "acc_ring_2"@,
            EquipmentSlot::AccNecklace => "acc_necklace"@,
            EquipmentSlot::AccEarrings => "acc_earrings"@,
            EquipmentSlot::AccArm => "acc_arm"@,
            EquipmentSlot::AccFaceBottom => "acc_face_bottom"@,
            EquipmentSlot::AccFaceMiddle => "acc_face_middle"@,
            EquipmentSlot::AccFaceTop => "acc_face_top"@,
            EquipmentSlot::AccBottomPiece => "acc_bottom_piece"@,
            EquipmentSlot::AccTopPiece => "acc_top_piece"@,
            EquipmentSlot::AccWeapon => "acc_weapon"@,
            EquipmentSlot::AccSupportUnit => "acc_support_unit"@,
        }
    }

    /// The name this value is stored and exchanged under.
    pub fn as_str(&self) -> (r: &'static str)
        ensures
            r@ == self.name(),
    {
        match self {
            EquipmentSlot::Weapon => "weapon",
            EquipmentSlot::Head => "head",
            EquipmentSlot::Chest => "chest",
            EquipmentSlot::Legs => "legs",
            EquipmentSlot::Gloves => "gloves",
            EquipmentSlot::Shoes => "shoes",
            EquipmentSlot::AccRing1 => "acc_ring_1",
            EquipmentSlot::AccRing2 => "acc_ring_2",
            EquipmentSlot::AccNecklace => "acc_necklace",
            EquipmentSlot::AccEarrings => "acc_earrings",
            EquipmentSlot::AccArm => "acc_arm",
            EquipmentSlot::AccFaceBottom => "acc_face_bottom",
            EquipmentSlot::AccFaceMiddle => "acc_face_middle",
            EquipmentSlot::AccFaceTop => "acc_face_top",
            EquipmentSlot::AccBottomPiece => "acc_bottom_piece",
            EquipmentSlot::AccTopPiece => "acc_top_piece",
            EquipmentSlot::AccWeapon => "acc_weapon",
            EquipmentSlot::AccSupportUnit => "acc_support_unit",
        }
    }

    /// The value named `s`, if any.
    pub open spec fn named(s: Seq<char>) -> Option<EquipmentSlot> {
        if s == "weapon"@ {
            Some(EquipmentSlot::Weapon)
        } else if s == "head"@ {
            Some(EquipmentSlot::Head)
        } else if s == "chest"@ {
            Some(EquipmentSlot::Chest)
        } else if s == "legs"@ {
            Some(EquipmentSlot::Legs)
        } else if s == "gloves"@ {
            Some(EquipmentSlot::Gloves)
        } else if s == "shoes"@ {
            Some(EquipmentSlot::Shoes)
        } else if s == "acc_ring_1"@ {
            Some(EquipmentSlot::AccRing1)
        } else if s == "acc_ring_2"@ {
            Some(EquipmentSlot::AccRing2)
        } else if s == "acc_necklace"@ {
            Some(EquipmentSlot::AccNecklace)
        } else if s == "acc_earrings"@ {
            Some(EquipmentSlot::AccEarrings)
        } else if s == "acc_arm"@ {
            Some(EquipmentSlot::AccArm)
        } else if s == "acc_face_bottom"@ {
            Some(EquipmentSlot::AccFaceBottom)
        } else if s == "acc_face_middle"@ {
            Some(EquipmentSlot::AccFaceMiddle)
        } else if s == "acc_face_top"@ {
            Some(EquipmentSlot::AccFaceTop)
        } else if s == "acc_bottom_piece"@ {
            Some(EquipmentSlot::AccBottomPiece)
        } else if s == "acc_top_piece"@ {
            Some(EquipmentSlot::AccTopPiece)
        } else if s == "acc_weapon"@ {
            Some(EquipmentSlot::AccWeapon)
        } else if s == "acc_support_unit"@ {
            Some(EquipmentSlot::AccSupportUnit)
        } else {
            None
        }
    }

    /// The catalog slot named `s`, if any.
    pub fn parse(s: &str) -> (r: Option<EquipmentSlot>)
        ensures
            r == EquipmentSlot::named(s@),
    {
        if str_equal(s, "weapon") {
            Some(EquipmentSlot::Weapon)
        } else if str_equal(s, "head") {
            Some(EquipmentSlot::Head)
        } else if str_equal(s, "chest") {
            Some(EquipmentSlot::Chest)
        } else if str_equal(s, "legs") {
            Some(EquipmentSlot::Legs)
        } else if str_equal(s, "gloves") {
            Some(EquipmentSlot::Gloves)
        } else if str_equal(s, "shoes") {
            Some(EquipmentSlot::Shoes)
        } else if str_equal(s, "acc_ring_1") {
            Some(EquipmentSlot::AccRing1)
        } else if str_equal(s, "acc_ring_2") {
            Some(EquipmentSlot::AccRing2)
        } else if str_equal(s, "acc_necklace") {
            Some(EquipmentSlot::AccNecklace)
        } else if str_equal(s, "acc_earrings") {
            Some(EquipmentSlot::AccEarrings)
        } else if str_equal(s, "acc_arm") {
            Some(EquipmentSlot::AccArm)
        } else if str_equal(s, "acc_face_bottom") {
            Some(EquipmentSlot::AccFaceBottom)
        } else if str_equal(s, "acc_face_middle") {
            Some(EquipmentSlot::AccFaceMiddle)
        } else if str_equal(s, "acc_face_top") {
            Some(EquipmentSlot::AccFaceTop)
        } else if str_equal(s, "acc_bottom_piece") {
            Some(EquipmentSlot::AccBottomPiece)
        } else if str_equal(s, "acc_top_piece") {
            Some(EquipmentSlot::AccTopPiece)
        } else if str_equal(s, "acc_weapon") {
            Some(EquipmentSlot::AccWeapon)
        } else if str_equal(s, "acc_support_unit") {
            Some(EquipmentSlot::AccSupportUnit)
        } else {
            None
        }
    }

    /// Every value is found again under its own name, and no two values share a name.
    pub proof fn lemma_name_round_trip(v: EquipmentSlot)
        ensures
            EquipmentSlot::named(v.name()) == Some(v),
    {
        match v {
            EquipmentSlot::Weapon => {
                reveal_strlit("weapon");
            },
            EquipmentSlot::Head => {
                reveal_strlit("head");
                reveal_strlit("weapon");
                assert("head"@.len() != "weapon"@.len());
            },
            EquipmentSlot::Chest => {
                reveal_strlit("chest");
                reveal_strlit("weapon");
                assert("chest"@.len() != "weapon"@.len());
                reveal_strlit("head");
                assert("chest"@.len() != "head"@.len());
            },
            EquipmentSlot::Legs => {
                reveal_strlit("legs");
                reveal_strlit("weapon");
                assert("legs"@.len() != "weapon"@.len());
                reveal_strlit("head");
                assert("legs"@[0] != "head"@[0]);
                reveal_strlit("chest");
                assert("legs"@.len() != "chest"@.len());
            },
            EquipmentSlot::Gloves => {
                reveal_strlit("gloves");
                reveal_strlit("weapon");
                assert("gloves"@[0] != "weapon"@[0]);
                reveal_strlit("head");
                assert("gloves"@.len() != "head"@.len());
                reveal_strlit("chest");
                assert("gloves"@.len() != "chest"@.len());
                reveal_strlit("legs");
                assert("gloves"@.len() != "legs"@.len());
            },
            EquipmentSlot::Shoes => {
                reveal_strlit("shoes");
                reveal_strlit("weapon");
                assert("shoes"@.len() != "weapon"@.len());
                reveal_strlit("head");
                assert("shoes"@.len() != "head"@.len());
                reveal_strlit("chest");
                assert("shoes"@[0] != "chest"@[0]);
                reveal_strlit("legs");
                assert("shoes"@.len() != "legs"@.len());
                reveal_strlit("gloves");
                assert("shoes"@.len() != "gloves"@.len());
            },
            EquipmentSlot::AccRing1 => {
                reveal_strlit("acc_ring_1");
                reveal_strlit("weapon");
                assert("acc_ring_1"@.len() != "weapon"@.len());
                reveal_strlit("head");
                assert("acc_ring_1"@.len() != "head"@.len());
                reveal_strlit("chest");
                assert("acc_ring_1"@.len() != "chest"@.len());
                reveal_strlit("legs");
                assert("acc_ring_1"@.len() != "legs"@.len());
                reveal_strlit("gloves");
                assert("acc_ring_1"@.len() != "gloves"@.len());
                reveal_strlit("shoes");
                assert("acc_ring_1"@.len() != "shoes"@.len());
            },
            EquipmentSlot::AccRing2 => {
                reveal_strlit("acc_ring_2");
                reveal_strlit("weapon");
                assert("acc_ring_2"@.len() != "weapon"@.len());
                reveal_strlit("head");
                assert("acc_ring_2"@.len() != "head"@.len());
                reveal_strlit("chest");
                assert("acc_ring_2"@.len() != "chest"@.len());
                reveal_strlit("legs");
                assert("acc_ring_2"@.len() != "legs"@.len());
                reveal_strlit("gloves");
                assert("acc_ring_2"@.len() != "gloves"@.len());
                reveal_strlit("shoes");
                assert("acc_ring_2"@.len() != "shoes"@.len());
                reveal_strlit("acc_ring_1");
                assert("acc_ring_2"@[9] != "acc_ring_1"@[9]);
            },
            EquipmentSlot::AccNecklace => {
                reveal_strlit("acc_necklace");
                reveal_strlit("weapon");
                assert("acc_necklace"@.len() != "weapon"@.len());
                reveal_strlit("head");
                assert("acc_necklace"@.len() != "head"@.len());
                reveal_strlit("chest");
                assert("acc_necklace"@.len() != "chest"@.len());
                reveal_strlit("legs");
                assert("acc_necklace"@.len() != "legs"@.len());
                reveal_strlit("gloves");
                assert("acc_necklace"@.len() != "gloves"@.len());
                reveal_strlit("shoes");
                assert("acc_necklace"@.len() != "shoes"@.len());
                reveal_strlit("acc_ring_1");
                assert("acc_necklace"@.len() != "acc_ring_1"@.len());
                reveal_strlit("acc_ring_2");
                assert("acc_necklace"@.len() != "acc_ring_2"@.len());
            },
            EquipmentSlot::AccEarrings => {
                reveal_strlit("acc_earrings");
                reveal_strlit("weapon");
                assert("acc_earrings"@.len() != "weapon"@.len());
                reveal_strlit("head");
                assert("acc_earrings"@.len() != "head"@.len());
                reveal_strlit("chest");
                assert("acc_earrings"@.len() != "chest"@.len());
                reveal_strlit("legs");
                assert("acc_earrings"@.len() != "legs"@.len());
                reveal_strlit("gloves");
                assert("acc_earrings"@.len() != "gloves"@.len());
                reveal_strlit("shoes");
                assert("acc_earrings"@.len() != "shoes"@.len());
                reveal_strlit("acc_ring_1");
                assert("acc_earrings"@.len() != "acc_ring_1"@.len());
                reveal_strlit("acc_ring_2");
                assert("acc_earrings"@.len() != "acc_ring_2"@.len());
                reveal_strlit("acc_necklace");
                assert("acc_earrings"@[4] != "acc_necklace"@[4]);
            },
            EquipmentSlot::AccArm => {
                reveal_strlit("acc_arm");
                reveal_strlit("weapon");
                assert("acc_arm"@.len() != "weapon"@.len());
                reveal_strlit("head");
                assert("acc_arm"@.len() != "head"@.len());
                reveal_strlit("chest");
                assert("acc_arm"@.len() != "chest"@.len());
                reveal_strlit("legs");
                assert("acc_arm"@.len() != "legs"@.len());
                reveal_strlit("gloves");
                assert("acc_arm"@.len() != "gloves"@.len());
                reveal_strlit("shoes");
                assert("acc_arm"@.len() != "shoes"@.len());
                reveal_strlit("acc_ring_1");
                assert("acc_arm"@.len() != "acc_ring_1"@.len());
                reveal_strlit("acc_ring_2");
                assert("acc_arm"@.len() != "acc_ring_2"@.len());
                reveal_strlit("acc_necklace");
                assert("acc_arm"@.len() != "acc_necklace"@.len());
                reveal_strlit("acc_earrings");
                assert("acc_arm"@.len() != "acc_earrings"@.len());
            },
            EquipmentSlot::AccFaceBottom => {
                reveal_strlit("acc_face_bottom");
                reveal_strlit("weapon");
                assert("acc_face_bottom"@.len() != "weapon"@.len());
                reveal_strlit("head");
                assert("acc_face_bottom"@.len() != "head"@.len());
                reveal_strlit("chest");
                assert("acc_face_bottom"@.len() != "chest"@.len());
                reveal_strlit("legs");
                assert("acc_face_bottom"@.len() != "legs"@.len());
                reveal_strlit("gloves");
                assert("acc_face_bottom"@.len() != "gloves"@.len());
                reveal_strlit("shoes");
                assert("acc_face_bottom"@.len() != "shoes"@.len());
                reveal_strlit("acc_ring_1");
                assert("acc_face_bottom"@.len() != "acc_ring_1"@.len());
                reveal_strlit("acc_ring_2");
                assert("acc_face_bottom"@.len() != "acc_ring_2"@.len());
                reveal_strlit("acc_necklace");
                assert("acc_face_bottom"@.len() != "acc_necklace"@.len());
                reveal_strlit("acc_earrings");
                assert("acc_face_bottom"@.len() != "acc_earrings"@.len());
                reveal_strlit("acc_arm");
                assert("acc_face_bottom"@.len() != "acc_arm"@.len());
            },
            EquipmentSlot::AccFaceMiddle => {
                reveal_strlit("acc_face_middle");
                reveal_strlit("weapon");
                assert("acc_face_middle"@.len() != "weapon"@.len());
                reveal_strlit("head");
                assert("acc_face_middle"@.len() != "head"@.len());
                reveal_strlit("chest");
                assert("acc_face_middle"@.len() != "chest"@.len());
                reveal_strlit("legs");
                assert("acc_face_middle"@.len() != "legs"@.len());
                reveal_strlit("gloves");
                assert("acc_face_middle"@.len() != "gloves"@.len());
                reveal_strlit("shoes");
                assert("acc_face_middle"@.len() != "shoes"@.len());
                reveal_strlit("acc_ring_1");
                assert("acc_face_middle"@.len() != "acc_ring_1"@.len());
                reveal_strlit("acc_ring_2");
                assert("acc_face_middle"@.len() != "acc_ring_2"@.len());
                reveal_strlit("acc_necklace");
                assert("acc_face_middle"@.len() != "acc_necklace"@.len());
                reveal_strlit("acc_earrings");
                assert("acc_face_middle"@.len() != "acc_earrings"@.len());
                reveal_strlit("acc_arm");
                assert("acc_face_middle"@.len() != "acc_arm"@.len());
                reveal_strlit("acc_face_bottom");
                assert("acc_face_middle"@[9] != "acc_face_bottom"@[9]);
            },
            EquipmentSlot::AccFaceTop => {
                reveal_strlit("acc_face_top");
                reveal_strlit("weapon");
                assert("acc_face_top"@.len() != "weapon"@.len());
                reveal_strlit("head");
                assert("acc_face_top"@.len() != "head"@.len());
                reveal_strlit("chest");
                assert("acc_face_top"@.len() != "chest"@.len());
                reveal_strlit("legs");
                assert("acc_face_top"@.len() != "legs"@.len());
                reveal_strlit("gloves");
                assert("acc_face_top"@.len() != "gloves"@.len());
                reveal_strlit("shoes");
                assert("acc_face_top"@.len() != "shoes"@.len());
                reveal_strlit("acc_ring_1");
                assert("acc_face_top"@.len() != "acc_ring_1"@.len());
                reveal_strlit("acc_ring_2");
                assert("acc_face_top"@.len() != "acc_ring_2"@.len());
                reveal_strlit("acc_necklace");
                assert("acc_face_top"@[4] != "acc_necklace"@[4]);
                reveal_strlit("acc_earrings");
                assert("acc_face_top"@[4] != "acc_earrings"@[4]);
                reveal_strlit("acc_arm");
                assert("acc_face_top"@.len() != "acc_arm"@.len());
                reveal_strlit("acc_face_bottom");
                assert("acc_face_top"@.len() != "acc_face_bottom"@.len());
                reveal_strlit("acc_face_middle");
                assert("acc_face_top"@.len() != "acc_face_middle"@.len());
            },
            EquipmentSlot::AccBottomPiece => {
                reveal_strlit("acc_bottom_piece");
                reveal_strlit("weapon");
                assert("acc_bottom_piece"@.len() != "weapon"@.len());
                reveal_strlit("head");
                assert("acc_bottom_piece"@.len() != "head"@.len());
                reveal_strlit("chest");
                assert("acc_bottom_piece"@.len() != "chest"@.len());
                reveal_strlit("legs");
                assert("acc_bottom_piece"@.len() != "legs"@.len());
                reveal_strlit("gloves");
                assert("acc_bottom_piece"@.len() != "gloves"@.len());
                reveal_strlit("shoes");
                assert("acc_bottom_piece"@.len() != "shoes"@.len());
                reveal_strlit("acc_ring_1");
                assert("acc_bottom_piece"@.len() != "acc_ring_1"@.len());
                reveal_strlit("acc_ring_2");
                assert("acc_bottom_piece"@.len() != "acc_ring_2"@.len());
                reveal_strlit("acc_necklace");
                assert("acc_bottom_piece"@.len() != "acc_necklace"@.len());
                reveal_strlit("acc_earrings");
                assert("acc_bottom_piece"@.len() != "acc_earrings"@.len());
                reveal_strlit("acc_arm");
                assert("acc_bottom_piece"@.len() != "acc_arm"@.len());
                reveal_strlit("acc_face_bottom");
                assert("acc_bottom_piece"@.len() != "acc_face_bottom"@.len());
                reveal_strlit("acc_face_middle");
                assert("acc_bottom_piece"@.len() != "acc_face_middle"@.len());
                reveal_strlit("acc_face_top");
                assert("acc_bottom_piece"@.len() != "acc_face_top"@.len());
            },
            EquipmentSlot::AccTopPiece => {
                reveal_strlit("acc_top_piece");
                reveal_strlit("weapon");
                assert("acc_top_piece"@.len() != "weapon"@.len());
                reveal_strlit("head");
                assert("acc_top_piece"@.len() != "head"@.len());
                reveal_strlit("chest");
                assert("acc_top_piece"@.len() != "chest"@.len());
                reveal_strlit("legs");
                assert("acc_top_piece"@.len() != "legs"@.len());
                reveal_strlit("gloves");
                assert("acc_top_piece"@.len() != "gloves"@.len());
                reveal_strlit("shoes");
                assert("acc_top_piece"@.len() != "shoes"@.len());
                reveal_strlit("acc_ring_1");
                assert("acc_top_piece"@.len() != "acc_ring_1"@.len());
                reveal_strlit("acc_ring_2");
                assert("acc_top_piece"@.len() != "acc_ring_2"@.len());
                reveal_strlit("acc_necklace");
                assert("acc_top_piece"@.len() != "acc_necklace"@.len());
                reveal_strlit("acc_earrings");
                assert("acc_top_piece"@.len() != "acc_earrings"@.len());
                reveal_strlit("acc_arm");
                assert("acc_top_piece"@.len() != "acc_arm"@.len());
                reveal_strlit("acc_face_bottom");
                assert("acc_top_piece"@.len() != "acc_face_bottom"@.len());
                reveal_strlit("acc_face_middle");
                assert("acc_top_piece"@.len() != "acc_face_middle"@.len());
                reveal_strlit("acc_face_top");
                assert("acc_top_piece"@.len() != "acc_face_top"@.len());
                reveal_strlit("acc_bottom_piece");
                assert("acc_top_piece"@.len() != "acc_bottom_piece"@.len());
            },
            EquipmentSlot::AccWeapon => {
                reveal_strlit("acc_weapon");
                reveal_strlit("weapon");
                assert("acc_weapon"@.len() != "weapon"@.len());
                reveal_strlit("head");
                assert("acc_weapon"@.len() != "head"@.len());
                reveal_strlit("chest");
                assert("acc_weapon"@.len() != "chest"@.len());
                reveal_strlit("legs");
                assert("acc_weapon"@.len() != "legs"@.len());
                reveal_strlit("gloves");
                assert("acc_weapon"@.len() != "gloves"@.len());
                reveal_strlit("shoes");
                assert("acc_weapon"@.len() != "shoes"@.len());
                reveal_strlit("acc_ring_1");
                assert("acc_weapon"@[4] != "acc_ring_1"@[4]);
                reveal_strlit("acc_ring_2");
                assert("acc_weapon"@[4] != "acc_ring_2"@[4]);
                reveal_strlit("acc_necklace");
                assert("acc_weapon"@.len() != "acc_necklace"@.len());
                reveal_strlit("acc_earrings");
                assert("acc_weapon"@.len() != "acc_earrings"@.len());
                reveal_strlit("acc_arm");
                assert("acc_weapon"@.len() != "acc_arm"@.len());
                reveal_strlit("acc_face_bottom");
                assert("acc_weapon"@.len() != "acc_face_bottom"@.len());
                reveal_strlit("acc_face_middle");
                assert("acc_weapon"@.len() != "acc_face_middle"@.len());
                reveal_strlit("acc_face_top");
                assert("acc_weapon"@.len() != "acc_face_top"@.len());
                reveal_strlit("acc_bottom_piece");
                assert("acc_weapon"@.len() != "acc_bottom_piece"@.len());
                reveal_strlit("acc_top_piece");
                assert("acc_weapon"@.len() != "acc_top_piece"@.len());
            },
            EquipmentSlot::AccSupportUnit => {
                reveal_strlit("acc_support_unit");
                reveal_strlit("weapon");
                assert("acc_support_unit"@.len() != "weapon"@.len());
                reveal_strlit("head");
                assert("acc_support_unit"@.len() != "head"@.len());
                reveal_strlit("chest");
                assert("acc_support_unit"@.len() != "chest"@.len());
                reveal_strlit("legs");
                assert("acc_support_unit"@.len() != "legs"@.len());
                reveal_strlit("gloves");
                assert("acc_support_unit"@.len() != "gloves"@.len());
                reveal_strlit("shoes");
                assert("acc_support_unit"@.len() != "shoes"@.len());
                reveal_strlit("acc_ring_1");
                assert("acc_support_unit"@.len() != "acc_ring_1"@.len());
                reveal_strlit("acc_ring_2");
                assert("acc_support_unit"@.len() != "acc_ring_2"@.len());
                reveal_strlit("acc_necklace");
                assert("acc_support_unit"@.len() != "acc_necklace"@.len());
                reveal_strlit("acc_earrings");
                assert("acc_support_unit"@.len() != "acc_earrings"@.len());
                reveal_strlit("acc_arm");
                assert("acc_support_unit"@.len() != "acc_arm"@.len());
                reveal_strlit("acc_face_bottom");
                assert("acc_support_unit"@.len() != "acc_face_bottom"@.len());
                reveal_strlit("acc_face_middle");
                assert("acc_support_unit"@.len() != "acc_face_middle"@.len());
                reveal_strlit("acc_face_top");
                assert("acc_support_unit"@.len() != "acc_face_top"@.len());
                reveal_strlit("acc_bottom_piece");
                assert("acc_support_unit"@[4] != "acc_bottom_piece"@[4]);
                reveal_strlit("acc_top_piece");
                assert("acc_support_unit"@.len() != "acc_top_piece"@.len());
                reveal_strlit("acc_weapon");
                assert("acc_support_unit"@.len() != "acc_weapon"@.len());
            },
        }
    }
}

/// An account, as the services read it. Times are microseconds since the Unix epoch (UTC).
#[derive(Debug)]
pub struct AccountModel {
    pub id: u128,
    pub email: String,
    pub password_hash: String,
    pub is_admin: bool,
    pub max_characters: i32,
    pub banned_at: Option<i64>,
    pub banned_reason: Option<String>,
    pub suspended_until: Option<i64>,
    pub created_at: i64,
}

/// A character owned by an account.
#[derive(Debug)]
pub struct PlayerCharacterModel {
    pub id: u128,
    pub account_id: u128,
    pub name: String,
    pub current_class_slug: String,
    pub level: i16,
}

/// A character joined with the slug of its catalog character.
#[derive(Debug)]
pub struct PlayableCharacterRow {
    pub character_id: u128,
    pub account_id: u128,
    pub name: String,
    pub base_character_slug: String,
    pub current_class_slug: String,
    pub level: i16,
    pub experience: i64,
    pub credits: i64,
    pub beginner_skill_unlocked: bool,
    pub intermediate_skill_unlocked: bool,
}

/// One inventory of a character.
#[derive(Debug)]
pub struct InventoryModel {
    pub id: u128,
    pub character_id: u128,
    pub inventory_type: InventoryTypeModel,
    pub capacity: i16,
}

/// One occupied slot of an inventory: a stack of a catalog item, or one item instance.
#[derive(Debug)]
pub struct InventoryItemModel {
    pub id: u128,
    pub inventory_id: u128,
    pub item_instance_id: Option<u128>,
    pub item_id: Option<u128>,
    pub slot_index: i16,
    pub quantity: i16,
}

/// An item instance worn in an equipment slot.
#[derive(Debug)]
pub struct EquipmentModel {
    pub character_id: u128,
    pub slot: EquipmentSlotModel,
    pub item_instance_id: u128,
}

/// A catalog item as stored.
#[derive(Debug)]
pub struct ItemModel {
    pub id: u128,
    pub slug: String,
    pub inventory_type: InventoryTypeModel,
    pub max_stack: i16,
    pub created_at: i64,
}

/// The attributes of an item instance as the store hands them over: the content of a
/// JSON string, or the JSON text of any other JSON value.
#[derive(Debug)]
pub enum JsonAttributes {
    Text(String),
    Encoded(String),
}

/// One concrete item, with its own refinement and gem sockets.
#[derive(Debug)]
pub struct ItemInstanceModel {
    pub id: u128,
    pub item_id: u128,
    pub refinement: i16,
    pub bonus_gem_slots: i16,
    pub attributes: JsonAttributes,
    pub in_shared_storage: bool,
    pub in_trade: bool,
    pub owner_character_id: Option<u128>,
}

/// A gem instance set into a socket of an item instance.
#[derive(Debug)]
pub struct ItemInstanceGemModel {
    pub id: u128,
    pub item_instance_id: u128,
    pub slot_index: i16,
    pub gem_instance_id: u128,
}

/// A skill tier that a character unlocks once.
#[derive(Debug, Clone, Copy, PartialEq, Eq, Structural)]
pub enum CharacterSkillUnlockTier {
    Beginner,
    Intermediate,
}

/// How many gem sockets an equippable item has: `base_slots`, plus up to
/// `max_bonus_slots` more that an instance can earn.
#[derive(Debug, Clone, Copy)]
pub struct GemSlotConfig {
    pub base_slots: i16,
    pub max_bonus_slots: i16,
}

/// Catalog data of a weapon.
#[derive(Debug)]
pub struct WeaponData {
    pub level_req: i16,
    /// The character or class slug the weapon is restricted to, if any.
    pub class: Option<String>,
    pub gem_slots: Option<GemSlotConfig>,
}

/// Catalog data of an armor piece.
#[derive(Debug)]
pub struct ArmorData {
    pub level_req: i16,
    pub slot: EquipmentSlot,
    pub gem_slots: Option<GemSlotConfig>,
}

/// Catalog data of an accessory.
#[derive(Debug)]
pub struct AccessoryData {
    pub slot: EquipmentSlot,
    pub gem_slots: Option<GemSlotConfig>,
}

/// Catalog data of a gem: whether it carries fixed modifiers and whether it rolls effects.
#[derive(Debug)]
pub struct GemData {
    pub has_modifiers: bool,
    pub has_effect_rolls: bool,
}

/// What kind of item a catalog entry describes.
#[derive(Debug)]
pub enum ItemKind {
    Weapon(WeaponData),
    Armor(ArmorData),
    Accessory(AccessoryData),
    Gem(GemData),
    Consumable,
    Material,
    QuestItem,
    Special,
}

/// A catalog item.
#[derive(Debug)]
pub struct ItemData {
    pub slug: String,
    pub kind: ItemKind,
    pub inventory_type: InventoryTypeModel,
}

impl ItemKind {
    /// The slot an item of this kind is worn in; weapons go to the weapon slot.
    pub open spec fn slot_of(&self) -> Option<EquipmentSlot> {
        match self {
            ItemKind::Weapon(_) => Some(EquipmentSlot::Weapon),
            ItemKind::Armor(d) => Some(d.slot),
            ItemKind::Accessory(d) => Some(d.slot),
            _ => None,
        }
    }

    /// The slot an item of this kind is worn in, if it can be worn.
    pub fn equipment_slot(&self) -> (r: Option<EquipmentSlot>)
        ensures
            r == self.slot_of(),
    {
        match self {
            ItemKind::Weapon(_) => Some(EquipmentSlot::Weapon),
            ItemKind::Armor(d) => Some(d.slot),
            ItemKind::Accessory(d) => Some(d.slot),
            _ => None,
        }
    }

    /// The gem socket configuration of an equippable item of this kind.
    pub open spec fn sockets_of(&self) -> Option<GemSlotConfig> {
        match self {
            ItemKind::Weapon(d) => d.gem_slots,
            ItemKind::Armor(d) => d.gem_slots,
            ItemKind::Accessory(d) => d.gem_slots,
            _ => None,
        }
    }

    /// The gem socket configuration of an equippable item of this kind, if it takes gems.
    pub fn gem_slots(&self) -> (r: Option<GemSlotConfig>)
        ensures
            r == self.sockets_of(),
    {
        match self {
            ItemKind::Weapon(d) => d.gem_slots,
            ItemKind::Armor(d) => d.gem_slots,
            ItemKind::Accessory(d) => d.gem_slots,
            _ => None,
        }
    }

    /// Whether an item of this kind can be set into a socket.
    pub open spec fn is_gem(&self) -> bool {
        match self {
            ItemKind::Gem(d) => d.has_modifiers || d.has_effect_rolls,
            _ => false,
        }
    }

    /// The level a character needs to wear an item of this kind.
    pub open spec fn level_requirement(&self) -> i16 {
        match self {
            ItemKind::Weapon(d) => d.level_req,
            ItemKind::Armor(d) => d.level_req,
            _ => 0,
        }
    }
}

} // verus!
