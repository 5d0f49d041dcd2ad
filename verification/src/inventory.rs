//! Inventory slot search and the stacking plan for handing items to a character.
use vstd::prelude::*;
use crate::error::{AppError, AppErrorView};
use crate::text::owned;

verus! {

/// Whether `slot` is listed in `occupied`.
pub open spec fn is_occupied(occupied: Seq<i16>, slot: int) -> bool {
    exists|i: int| 0 <= i < occupied.len() && occupied[i] as int == slot
}

fn contains_slot(occupied: &Vec<i16>, slot: i16) -> (r: bool)
    ensures
        r == is_occupied(occupied@, slot as int),
{
    let n = occupied.len();
    for i in 0..n
        invariant
            n == occupied@.len(),
            forall|j: int| 0 <= j < i ==> occupied@[j] != slot,
    {
        if occupied[i] == slot {
            return true;
        }
    }
    false
}

/// The first slot of an inventory of `capacity` slots that no item occupies: the smallest
/// index in `0..capacity` not listed in `occupied`, or `None` when every slot is taken.
pub fn find_next_available_slot(occupied: &Vec<i16>, capacity: i16) -> (r: Option<i16>)
    ensures
        match r {
            Some(s) => 0 <= s < capacity && !is_occupied(occupied@, s as int) && forall|t: int|
                0 <= t < s ==> is_occupied(occupied@, t),
            None => forall|t: int| 0 <= t < capacity ==> is_occupied(occupied@, t),
        },
{
    let mut slot: i16 = 0;
    while slot < capacity
        invariant
            0 <= slot,
            capacity > 0 ==> slot <= capacity,
            forall|t: int| 0 <= t < slot ==> is_occupied(occupied@, t),
        decreases capacity - slot,
    {
        if !contains_slot(occupied, slot) {
            return Some(slot);
        }
        slot = slot + 1;
    }
    None
}

/// What to ask the inventory next while handing items to a character.
#[derive(Debug, Clone, Copy, PartialEq, Eq, Structural)]
pub enum GiveItemStep {
    /// Everything requested has been placed.
    Done,
    /// Look for a stack of the item that is below the stack limit.
    LookForStack,
    /// Look for the first free slot of the inventory.
    LookForFreeSlot,
}

/// Progress of handing `requested` units of one item to a character, in stacks of at most
/// `max_stack` units: first topping up stacks that have room, then filling free slots.
pub struct GiveItemProgress {
    requested: i16,
    remaining: i16,
    given: i16,
    max_stack: i16,
}

impl GiveItemProgress {
    /// Units asked for.
    pub closed spec fn requested_units(&self) -> int {
        self.requested as int
    }

    /// Units not yet placed.
    pub closed spec fn remaining_units(&self) -> int {
        self.remaining as int
    }

    /// Units placed so far.
    pub closed spec fn given_units(&self) -> int {
        self.given as int
    }

    /// The largest stack of the item.
    pub closed spec fn stack_limit(&self) -> int {
        self.max_stack as int
    }

    /// Consistency: what is placed and what remains add up to what was asked for, and the
    /// stack limit is at least one.
    pub closed spec fn wf(&self) -> bool {
        &&& self.max_stack >= 1
        &&& if self.requested > 0 {
            0 <= self.remaining <= self.requested && self.given + self.remaining == self.requested
        } else {
            self.given == 0 && self.remaining == self.requested
        }
    }

    /// Starts handing out `quantity` units (one when unspecified) of an item whose stacks
    /// hold `max_stack` units (at least one).
    pub fn new(quantity: Option<i16>, max_stack: i16) -> (r: GiveItemProgress)
        ensures
            r.wf(),
            r.requested_units() == match quantity {
                Some(q) => q as int,
                None => 1,
            },
            r.remaining_units() == r.requested_units(),
            r.given_units() == 0,
            r.stack_limit() == if max_stack < 1 {
                1
            } else {
                max_stack as int
            },
    {
        let max_stack: i16 = if max_stack < 1 {
            1
        } else {
            max_stack
        };
        let requested: i16 = match quantity {
            Some(q) => q,
            None => 1,
        };
        GiveItemProgress { requested, remaining: requested, given: 0, max_stack }
    }

    /// Units not yet placed.
    pub fn remaining(&self) -> (r: i16)
        ensures
            r as int == self.remaining_units(),
    {
        self.remaining
    }

    /// The stack limit is a machine integer.
    pub proof fn lemma_stack_limit_fits(&self)
        ensures
            self.stack_limit() <= i16::MAX,
    {
    }

    /// The largest stack of the item.
    pub fn max_stack(&self) -> (r: i16)
        ensures
            r as int == self.stack_limit(),
    {
        self.max_stack
    }

    /// Units placed so far.
    pub fn given(&self) -> (r: i16)
        ensures
            r as int == self.given_units(),
    {
        self.given
    }

    /// The next question to put to the inventory. When nothing remains, everything asked
    /// for has been placed.
    pub fn next_step(&self) -> (r: GiveItemStep)
        requires
            self.wf(),
        ensures
            self.remaining_units() <= 0 <==> r == GiveItemStep::Done,
            r == GiveItemStep::Done ==> self.given_units() == if self.requested_units() > 0 {
                self.requested_units()
            } else {
                0
            },
            r == GiveItemStep::LookForStack <==> self.remaining_units() > 0
                && self.stack_limit() > 1,
            r == GiveItemStep::LookForFreeSlot <==> self.remaining_units() > 0
                && self.stack_limit() == 1,
    {
        if self.remaining <= 0 {
            GiveItemStep::Done
        } else if self.max_stack > 1 {
            GiveItemStep::LookForStack
        } else {
            GiveItemStep::LookForFreeSlot
        }
    }

    /// A stack holding `stack_quantity` units (below the limit) was found: tops it up with
    /// as much as remains and fits. Gives the number of units to add to it.
    pub fn stack_found(&mut self, stack_quantity: i16) -> (add: i16)
        requires
            old(self).wf(),
            old(self).remaining_units() > 0,
            stack_quantity < old(self).stack_limit(),
            old(self).stack_limit() - stack_quantity <= i16::MAX,
        ensures
            final(self).wf(),
            add as int == if old(self).remaining_units() < old(self).stack_limit()
                - stack_quantity {
                old(self).remaining_units()
            } else {
                old(self).stack_limit() - stack_quantity
            },
            1 <= add,
            stack_quantity + add <= old(self).stack_limit(),
            final(self).remaining_units() == old(self).remaining_units() - add,
            final(self).given_units() == old(self).given_units() + add,
            final(self).requested_units() == old(self).requested_units(),
            final(self).stack_limit() == old(self).stack_limit(),
    {
        let space: i16 = self.max_stack - stack_quantity;
        let add: i16 = if self.remaining < space {
            self.remaining
        } else {
            space
        };
        self.remaining = self.remaining - add;
        self.given = self.given + add;
        add
    }

    /// The answer to a search for a free slot: with a free slot, a new stack of as much as
    /// remains (at most a full stack) goes there, and the units placed are given; without
    /// one, the inventory is full.
    pub fn free_slot(&mut self, slot: Option<i16>) -> (r: Result<i16, AppError>)
        requires
            old(self).wf(),
            old(self).remaining_units() > 0,
        ensures
            final(self).wf(),
            final(self).requested_units() == old(self).requested_units(),
            final(self).stack_limit() == old(self).stack_limit(),
            match slot {
                Some(_) => match r {
                    Ok(add) => add as int == if old(self).remaining_units()
                        < old(self).stack_limit() {
                        old(self).remaining_units()
                    } else {
                        old(self).stack_limit()
                    } && 1 <= add <= old(self).stack_limit() && final(self).remaining_units()
                        == old(self).remaining_units() - add && final(self).given_units()
                        == old(self).given_units() + add,
                    Err(_) => false,
                },
                None => (r matches Err(e) && e@ == AppErrorView::BadRequest(
                    "Inventory is full"@,
                )) && final(self).remaining_units() == old(self).remaining_units()
                    && final(self).given_units() == old(self).given_units(),
            },
    {
        match slot {
            None => Err(AppError::BadRequest(owned("Inventory is full"))),
            Some(_) => {
                let add: i16 = if self.remaining < self.max_stack {
                    self.remaining
                } else {
                    self.max_stack
                };
                self.remaining = self.remaining - add;
                self.given = self.given + add;
                Ok(add)
            },
        }
    }
}

} // verus!
