//! Bodies of the admin endpoints.
use vstd::prelude::*;
use crate::dto::checks::{add_field, char_count, length_error};
use crate::requests::FieldErrors;
use crate::validation::FieldError;

verus! {

/// Handing an item to a character: ids as text, and how many (one when unspecified).
#[derive(Debug)]
pub struct GiveItemRequest {
    pub character_id: String,
    pub item_id: String,
    pub quantity: Option<i16>,
}

/// The answer to handing out an item.
#[derive(Debug)]
pub struct GiveItemResponse {
    pub ok: bool,
}

/// A mob to add to the catalog.
#[derive(Debug)]
pub struct CreateMobRequest {
    pub name: String,
    pub description: Option<String>,
    pub mob_type: String,
}

/// The mob that was created.
#[derive(Debug)]
pub struct CreateMobResponse {
    pub id: String,
    pub slug: String,
    pub name: String,
}

/// The mob drop rate that was created.
#[derive(Debug)]
pub struct CreateMobDropRateResponse {
    pub id: String,
}

impl CreateMobRequest {
    /// Checks the name: 1 to 64 characters long.
    pub fn validate(&self) -> (r: Result<(), Vec<FieldErrors>>)
        ensures
            r is Ok <==> 1 <= self.name@.len() <= 64,
            r matches Err(v) ==> v@.len() == 1 && v@[0].field@ == "name"@ && v@[0].errors@.len()
                == 1 && v@[0].errors@[0]@.code == "length"@ && v@[0].errors@[0]@.message is None,
    {
        let mut out: Vec<FieldErrors> = Vec::new();
        let mut errors: Vec<FieldError> = Vec::new();
        let n = char_count(self.name.as_str());
        if n < 1 || n > 64 {
            errors.push(length_error(None));
        }
        add_field(&mut out, "name", errors);
        if out.len() == 0 {
            Ok(())
        } else {
            Err(out)
        }
    }
}

} // verus!
