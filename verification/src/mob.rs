//! Creating mobs.
use vstd::prelude::*;
use crate::slug::{generate_slug, slug_of};

verus! {

/// What creating a mob takes.
#[derive(Debug)]
pub struct CreateMobInput {
    pub name: String,
    pub description: Option<String>,
    pub mob_type: String,
}

/// The row stored for a new mob.
#[derive(Debug)]
pub struct CreateMobParams {
    pub slug: String,
    pub name: String,
    pub description: Option<String>,
    pub mob_type: String,
}

/// The row stored for a new mob: the input with the slug of its name.
pub fn create_mob_params(input: CreateMobInput) -> (r: CreateMobParams)
    ensures
        r.slug@ == slug_of(input.name@),
        r.name == input.name,
        r.description == input.description,
        r.mob_type == input.mob_type,
{
    let slug = generate_slug(input.name.as_str());
    CreateMobParams {
        slug,
        name: input.name,
        description: input.description,
        mob_type: input.mob_type,
    }
}

} // verus!
