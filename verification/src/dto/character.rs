//! Bodies and parameters of character creation.
use vstd::prelude::*;
use crate::dto::checks::{add_field, char_count, length_error};
use crate::requests::FieldErrors;
use crate::validation::FieldError;

verus! {

/// A character creation: the character's name and its class slug.
#[derive(Debug)]
pub struct CreateCharacterRequest {
    pub name: String,
    pub class: String,
}

/// What creating a character takes.
#[derive(Debug)]
pub struct CreateCharacterInput {
    pub name: String,
    pub class: String,
}

impl CreateCharacterRequest {
    /// Checks the body: the name must be 3 to 24 characters long.
    pub fn validate(&self) -> (r: Result<(), Vec<FieldErrors>>)
        ensures
            r is Ok <==> 3 <= self.name@.len() <= 24,
            r matches Err(v) ==> v@.len() == 1 && v@[0].field@ == "name"@ && v@[0].errors@.len()
                == 1 && v@[0].errors@[0]@.code == "length"@ && v@[0].errors@[0]@.message == Some(
                "must be between 3 and 24 characters"@,
            ),
    {
        let mut out: Vec<FieldErrors> = Vec::new();
        let mut errors: Vec<FieldError> = Vec::new();
        let n = char_count(self.name.as_str());
        if n < 3 || n > 24 {
            errors.push(length_error(Some("must be between 3 and 24 characters")));
        }
        add_field(&mut out, "name", errors);
        if out.len() == 0 {
            Ok(())
        } else {
            Err(out)
        }
    }
}

} // verus!
