//! The text panels of the character viewer: the equipment, the inventories and the runtime
//! state.
use vstd::prelude::*;
use crate::text::{decimal_text, owned, push_i64, push_str, push_u64};

verus! {

/// One slot of an inventory as the viewer sees it; an empty slot has no item name.
#[derive(Debug)]
pub struct SlotEntry {
    pub slot_index: i16,
    pub quantity: i16,
    pub item_name: Option<String>,
}

/// An inventory as the viewer sees it.
#[derive(Debug)]
pub struct InventoryPanel {
    pub inventory_type: String,
    pub capacity: i16,
    pub slots: Vec<SlotEntry>,
}

/// Something that runs out: a buff or a skill cooldown, with the time it has left.
#[derive(Debug)]
pub struct TimedEntry {
    pub slug: String,
    pub remaining_ms: u64,
}

/// The runtime state of a character as the viewer sees it.
#[derive(Debug)]
pub struct RuntimePanel {
    pub current_hp: i64,
    pub current_mp: i64,
    pub credits: i64,
    pub experience: i64,
    pub active_buffs: Vec<TimedEntry>,
    pub skill_cooldowns: Vec<TimedEntry>,
}

/// How many slots of `slots` hold an item.
pub open spec fn filled_count(slots: Seq<SlotEntry>) -> nat
    decreases slots.len(),
{
    if slots.len() == 0 {
        0
    } else {
        filled_count(slots.drop_last()) + if slots.last().item_name is Some {
            1nat
        } else {
            0nat
        }
    }
}

/// The line of one slot that holds an item: `  [index] name xquantity`.
pub open spec fn slot_line(s: SlotEntry) -> Seq<char> {
    match s.item_name {
        Some(name) => "  ["@ + decimal_text(s.slot_index as int) + "] "@ + name@ + " x"@
            + decimal_text(s.quantity as int) + "\n"@,
        None => Seq::empty(),
    }
}

/// The lines of the slots that hold an item, in slot order.
pub open spec fn slot_lines(slots: Seq<SlotEntry>) -> Seq<char>
    decreases slots.len(),
{
    if slots.len() == 0 {
        Seq::empty()
    } else {
        slot_lines(slots.drop_last()) + slot_line(slots.last())
    }
}

/// The block of one inventory: `type (filled/capacity)`, its filled slots, a blank line.
pub open spec fn inventory_block(inv: InventoryPanel) -> Seq<char> {
    inv.inventory_type@ + " ("@ + decimal_text(filled_count(inv.slots@) as int) + "/"@
        + decimal_text(inv.capacity as int) + ")\n"@ + slot_lines(inv.slots@) + "\n"@
}

/// The blocks of a list of inventories, in order.
pub open spec fn inventory_blocks(invs: Seq<InventoryPanel>) -> Seq<char>
    decreases invs.len(),
{
    if invs.len() == 0 {
        Seq::empty()
    } else {
        inventory_blocks(invs.drop_last()) + inventory_block(invs.last())
    }
}

/// The inventories panel.
pub open spec fn inventories_text(invs: Seq<InventoryPanel>) -> Seq<char> {
    "Inventories\n\n"@ + inventory_blocks(invs)
}

/// The line of something that runs out: `  slug (remaining ms)`.
pub open spec fn timed_line(t: TimedEntry) -> Seq<char> {
    "  "@ + t.slug@ + " ("@ + decimal_text(t.remaining_ms as int) + " ms)\n"@
}

/// The lines of a list of timed entries, in order.
pub open spec fn timed_lines(ts: Seq<TimedEntry>) -> Seq<char>
    decreases ts.len(),
{
    if ts.len() == 0 {
        Seq::empty()
    } else {
        timed_lines(ts.drop_last()) + timed_line(ts.last())
    }
}

/// A titled list of timed entries, `  none` when it is empty.
pub open spec fn timed_section(title: Seq<char>, ts: Seq<TimedEntry>) -> Seq<char> {
    title + "\n"@ + if ts.len() == 0 {
        "  none\n"@
    } else {
        timed_lines(ts)
    }
}

/// The runtime panel: current HP and MP, credits, experience, then the active buffs and
/// the skill cooldowns.
pub open spec fn runtime_text(r: RuntimePanel) -> Seq<char> {
    "Runtime\n\nCurrent HP: "@ + decimal_text(r.current_hp as int) + "\nCurrent MP: "@
        + decimal_text(r.current_mp as int) + "\nCredits: "@ + decimal_text(r.credits as int)
        + "\nExperience: "@ + decimal_text(r.experience as int) + "\n\n"@ + timed_section(
        "Active Buffs"@,
        r.active_buffs@,
    ) + "\n"@ + timed_section("Cooldowns"@, r.skill_cooldowns@)
}

fn count_filled(slots: &Vec<SlotEntry>) -> (r: u64)
    ensures
        r as nat == filled_count(slots@),
{
    let mut n: u64 = 0;
    let len = slots.len();
    for i in 0..len
        invariant
            len == slots@.len(),
            n as nat == filled_count(slots@.take(i as int)),
            n <= i,
    {
        assert(slots@.take(i + 1).drop_last() =~= slots@.take(i as int));
        if slots[i].item_name.is_some() {
            n = n + 1;
        }
    }
    assert(slots@.take(len as int) =~= slots@);
    n
}

fn push_slot_lines(out: &mut String, slots: &Vec<SlotEntry>)
    ensures
        final(out)@ == old(out)@ + slot_lines(slots@),
{
    let ghost start = out@;
    let len = slots.len();
    for i in 0..len
        invariant
            len == slots@.len(),
            out@ == start + slot_lines(slots@.take(i as int)),
    {
        assert(slots@.take(i + 1).drop_last() =~= slots@.take(i as int));
        let s = &slots[i];
        if let Some(name) = &s.item_name {
            push_str(out, "  [");
            push_i64(out, s.slot_index as i64);
            push_str(out, "] ");
            push_str(out, name.as_str());
            push_str(out, " x");
            push_i64(out, s.quantity as i64);
            push_str(out, "\n");
        }
        assert(out@ =~= start + slot_lines(slots@.take(i + 1)));
    }
    assert(slots@.take(len as int) =~= slots@);
}

/// The inventories panel; see `inventories_text`.
pub fn format_inventories(inventories: &Vec<InventoryPanel>) -> (r: String)
    ensures
        r@ == inventories_text(inventories@),
{
    let mut out = owned("Inventories\n\n");
    let len = inventories.len();
    for i in 0..len
        invariant
            len == inventories@.len(),
            out@ == "Inventories\n\n"@ + inventory_blocks(inventories@.take(i as int)),
    {
        assert(inventories@.take(i + 1).drop_last() =~= inventories@.take(i as int));
        let ghost before = out@;
        let inv = &inventories[i];
        push_str(&mut out, inv.inventory_type.as_str());
        push_str(&mut out, " (");
        let filled = count_filled(&inv.slots);
        push_u64(&mut out, filled);
        push_str(&mut out, "/");
        push_i64(&mut out, inv.capacity as i64);
        push_str(&mut out, ")\n");
        push_slot_lines(&mut out, &inv.slots);
        push_str(&mut out, "\n");
        assert(out@ =~= before + inventory_block(inventories@[i as int]));
    }
    assert(inventories@.take(len as int) =~= inventories@);
    out
}

fn push_timed_section(out: &mut String, title: &str, ts: &Vec<TimedEntry>)
    ensures
        final(out)@ == old(out)@ + timed_section(title@, ts@),
{
    let ghost start = out@;
    push_str(out, title);
    push_str(out, "\n");
    if ts.len() == 0 {
        push_str(out, "  none\n");
        return;
    }
    let ghost head = out@;
    let len = ts.len();
    for i in 0..len
        invariant
            len == ts@.len(),
            out@ == head + timed_lines(ts@.take(i as int)),
    {
        assert(ts@.take(i + 1).drop_last() =~= ts@.take(i as int));
        let t = &ts[i];
        push_str(out, "  ");
        push_str(out, t.slug.as_str());
        push_str(out, " (");
        push_u64(out, t.remaining_ms);
        push_str(out, " ms)\n");
        assert(out@ =~= head + timed_lines(ts@.take(i + 1)));
    }
    assert(ts@.take(len as int) =~= ts@);
    assert(out@ =~= start + timed_section(title@, ts@));
}

/// The runtime panel; see `runtime_text`.
pub fn format_runtime(runtime: &RuntimePanel) -> (r: String)
    ensures
        r@ == runtime_text(*runtime),
{
    let mut out = owned("Runtime\n\nCurrent HP: ");
    push_i64(&mut out, runtime.current_hp);
    push_str(&mut out, "\nCurrent MP: ");
    push_i64(&mut out, runtime.current_mp);
    push_str(&mut out, "\nCredits: ");
    push_i64(&mut out, runtime.credits);
    push_str(&mut out, "\nExperience: ");
    push_i64(&mut out, runtime.experience);
    push_str(&mut out, "\n\n");
    push_timed_section(&mut out, "Active Buffs", &runtime.active_buffs);
    push_str(&mut out, "\n");
    push_timed_section(&mut out, "Cooldowns", &runtime.skill_cooldowns);
    assert(out@ =~= runtime_text(*runtime));
    out
}

/// A rolled effect of an item or gem, each part as the viewer displays it.
#[derive(Debug)]
pub struct EffectEntry {
    pub stat: String,
    pub kind: String,
    pub value: String,
}

/// A gem socketed into an equipped item.
#[derive(Debug)]
pub struct GemEntry {
    pub name: String,
    pub effects: Vec<EffectEntry>,
}

/// An equipment slot and the item it holds.
#[derive(Debug)]
pub struct EquippedEntry {
    pub slot: String,
    pub name: String,
    pub refinement: i64,
    pub effects: Vec<EffectEntry>,
    pub gems: Vec<GemEntry>,
}

/// The line of an effect, indented by `indent`: `stat kind value`.
pub open spec fn effect_line(indent: Seq<char>, e: EffectEntry) -> Seq<char> {
    indent + e.stat@ + " "@ + e.kind@ + " "@ + e.value@ + "\n"@
}

/// The lines of a list of effects, in order.
pub open spec fn effect_lines(indent: Seq<char>, es: Seq<EffectEntry>) -> Seq<char>
    decreases es.len(),
{
    if es.len() == 0 {
        Seq::empty()
    } else {
        effect_lines(indent, es.drop_last()) + effect_line(indent, es.last())
    }
}

/// The lines of one gem: its name, then its effects.
pub open spec fn gem_block(g: GemEntry) -> Seq<char> {
    "    "@ + g.name@ + "\n"@ + effect_lines("      "@, g.effects@)
}

/// The blocks of a list of gems, in order.
pub open spec fn gem_blocks(gs: Seq<GemEntry>) -> Seq<char>
    decreases gs.len(),
{
    if gs.len() == 0 {
        Seq::empty()
    } else {
        gem_blocks(gs.drop_last()) + gem_block(gs.last())
    }
}

/// The lines of one equipped item: `slot: name +refinement`, then its rolled effects and
/// its gems, each list under its heading when it is not empty.
pub open spec fn equipped_block(e: EquippedEntry) -> Seq<char> {
    e.slot@ + ": "@ + e.name@ + " +"@ + decimal_text(e.refinement as int) + "\n"@ + (if e.effects@.len()
        == 0 {
        Seq::empty()
    } else {
        "  rolled:\n"@ + effect_lines("    "@, e.effects@)
    }) + if e.gems@.len() == 0 {
        Seq::empty()
    } else {
        "  gems:\n"@ + gem_blocks(e.gems@)
    }
}

/// The blocks of a list of equipped items, in order.
pub open spec fn equipped_blocks(es: Seq<EquippedEntry>) -> Seq<char>
    decreases es.len(),
{
    if es.len() == 0 {
        Seq::empty()
    } else {
        equipped_blocks(es.drop_last()) + equipped_block(es.last())
    }
}

/// The equipment panel.
pub open spec fn equipped_text(es: Seq<EquippedEntry>) -> Seq<char> {
    "Equipped\n\n"@ + equipped_blocks(es)
}

fn push_effect_lines(out: &mut String, indent: &str, es: &Vec<EffectEntry>)
    ensures
        final(out)@ == old(out)@ + effect_lines(indent@, es@),
{
    let ghost start = out@;
    let len = es.len();
    for i in 0..len
        invariant
            len == es@.len(),
            out@ == start + effect_lines(indent@, es@.take(i as int)),
    {
        assert(es@.take(i + 1).drop_last() =~= es@.take(i as int));
        let e = &es[i];
        push_str(out, indent);
        push_str(out, e.stat.as_str());
        push_str(out, " ");
        push_str(out, e.kind.as_str());
        push_str(out, " ");
        push_str(out, e.value.as_str());
        push_str(out, "\n");
        assert(out@ =~= start + effect_lines(indent@, es@.take(i + 1)));
    }
    assert(es@.take(len as int) =~= es@);
}

fn push_gem_blocks(out: &mut String, gems: &Vec<GemEntry>)
    ensures
        final(out)@ == old(out)@ + gem_blocks(gems@),
{
    let ghost head = out@;
    let len = gems.len();
    for i in 0..len
        invariant
            len == gems@.len(),
            out@ == head + gem_blocks(gems@.take(i as int)),
    {
        assert(gems@.take(i + 1).drop_last() =~= gems@.take(i as int));
        let g = &gems[i];
        push_str(out, "    ");
        push_str(out, g.name.as_str());
        push_str(out, "\n");
        push_effect_lines(out, "      ", &g.effects);
        assert(out@ =~= head + gem_blocks(gems@.take(i + 1)));
    }
    assert(gems@.take(len as int) =~= gems@);
}

fn push_equipped_block(out: &mut String, e: &EquippedEntry)
    ensures
        final(out)@ == old(out)@ + equipped_block(*e),
{
    let ghost start = out@;
    push_str(out, e.slot.as_str());
    push_str(out, ": ");
    push_str(out, e.name.as_str());
    push_str(out, " +");
    push_i64(out, e.refinement);
    push_str(out, "\n");
    let ghost title = e.slot@ + ": "@ + e.name@ + " +"@ + decimal_text(e.refinement as int) + "\n"@;
    assert(out@ =~= start + title);
    let ghost rolled: Seq<char> = if e.effects@.len() == 0 {
        Seq::empty()
    } else {
        "  rolled:\n"@ + effect_lines("    "@, e.effects@)
    };
    if e.effects.len() > 0 {
        push_str(out, "  rolled:\n");
        push_effect_lines(out, "    ", &e.effects);
    }
    assert(out@ =~= start + title + rolled);
    let ghost gems: Seq<char> = if e.gems@.len() == 0 {
        Seq::empty()
    } else {
        "  gems:\n"@ + gem_blocks(e.gems@)
    };
    if e.gems.len() > 0 {
        push_str(out, "  gems:\n");
        push_gem_blocks(out, &e.gems);
    }
    assert(out@ =~= start + title + rolled + gems);
}

/// The equipment panel; see `equipped_text`.
pub fn format_equipped(equipped: &Vec<EquippedEntry>) -> (r: String)
    ensures
        r@ == equipped_text(equipped@),
{
    let mut out = owned("Equipped\n\n");
    let len = equipped.len();
    for i in 0..len
        invariant
            len == equipped@.len(),
            out@ == "Equipped\n\n"@ + equipped_blocks(equipped@.take(i as int)),
    {
        assert(equipped@.take(i + 1).drop_last() =~= equipped@.take(i as int));
        push_equipped_block(&mut out, &equipped[i]);
        assert(out@ =~= "Equipped\n\n"@ + equipped_blocks(equipped@.take(i + 1)));
    }
    assert(equipped@.take(len as int) =~= equipped@);
    out
}

} // verus!
