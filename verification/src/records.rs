//! Game score records and the guard a posted record must pass.

use vstd::prelude::*;

use crate::errors::ServerError;

verus! {

/// One player's score on one stage.
#[derive(Debug, Clone)]
pub struct PlayerRecordPayload {
    pub id: Option<i64>,
    pub player_name: String,
    pub score: i32,
    pub stage: i32,
}

/// The guard a posted record must pass: the player must be named.
pub fn validate_player_record(payload: &PlayerRecordPayload) -> (r: Result<(), ServerError>)
    ensures
        r is Ok <==> payload.player_name@.len() > 0,
        payload.player_name@.len() == 0 ==> (r matches Err(e) && e.error_message@
            == "The player name cannot be empty!"@),
{
    if payload.player_name.as_str().is_empty() {
        Err(ServerError::with_message("The player name cannot be empty!"))
    } else {
        Ok(())
    }
}

} // verus!
