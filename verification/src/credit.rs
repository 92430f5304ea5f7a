//! User credit accounts and the rules the credit endpoints enforce.

use vstd::prelude::*;

use crate::errors::ServerError;

verus! {

/// A user's credit account, stored whole as one document.
#[derive(Debug, Clone)]
pub struct UserCredit {
    pub id: String,
    pub username: String,
    pub user_id: String,
    pub credits: i32,
}

impl Default for UserCredit {
    /// The account an absent query result falls back to.
    fn default() -> (r: UserCredit)
        ensures
            r.id@ == Seq::<char>::empty(),
            r.username@ == Seq::<char>::empty(),
            r.user_id@ == Seq::<char>::empty(),
            r.credits == 0,
    {
        UserCredit {
            id: String::new(),
            username: String::new(),
            user_id: String::new(),
            credits: 0,
        }
    }
}

/// The body of a credit adjustment request.
#[derive(Debug, Clone)]
pub struct UserCreditUpdateInfo {
    pub credit: i32,
}

/// Which direction a credit adjustment goes.
#[derive(Debug, Clone, Copy)]
pub enum UserCreditUpdateOpt {
    Plus,
    Minus,
}

/// The balance an adjustment leaves behind.
pub open spec fn adjusted_credits(current: int, amount: int, opt: UserCreditUpdateOpt) -> int {
    match opt {
        UserCreditUpdateOpt::Plus => current + amount,
        UserCreditUpdateOpt::Minus => current - amount,
    }
}

/// Whether a new account passes the creation guard.
pub open spec fn new_user_ok(user: UserCredit) -> bool {
    user.username@.len() > 0 && user.user_id@.len() > 0 && user.credits >= 0
}

/// The complaint the creation guard raises, for an account that fails it.
pub open spec fn new_user_error_text(user: UserCredit) -> Seq<char> {
    if user.username@.len() == 0 || user.user_id@.len() == 0 {
        "Either the user ID or the username is empty."@
    } else {
        "The amount of credits has to be greater than 0."@
    }
}

/// The guard a new account must pass before it is stored: a name, an id,
/// and a non-negative opening balance.
pub fn validate_new_user(user: &UserCredit) -> (r: Result<(), ServerError>)
    ensures
        new_user_ok(*user) <==> r is Ok,
        !new_user_ok(*user) ==> (r matches Err(e) && e.error_message@ == new_user_error_text(
            *user,
        )),
{
    if user.username.as_str().is_empty() || user.user_id.as_str().is_empty() {
        Err(ServerError::with_message("Either the user ID or the username is empty."))
    } else if user.credits < 0 {
        Err(ServerError::with_message("The amount of credits has to be greater than 0."))
    } else {
        Ok(())
    }
}

/// The rule that rejects a second account for a user who already has one.
pub fn check_user_is_new(already_exists: bool) -> (r: Result<(), ServerError>)
    ensures
        r is Ok <==> !already_exists,
        already_exists ==> (r matches Err(e) && e.error_message@
            == "Specified user already exists. Use PATCH to update user's information."@),
{
    if already_exists {
        Err(
            ServerError::with_message(
                "Specified user already exists. Use PATCH to update user's information.",
            ),
        )
    } else {
        Ok(())
    }
}

/// Applies one credit adjustment to a stored account, leaving every other
/// field as it was.
pub fn apply_credit_update(
    current: UserCredit,
    request: &UserCreditUpdateInfo,
    opt: UserCreditUpdateOpt,
) -> (r: UserCredit)
    requires
        i32::MIN <= adjusted_credits(current.credits as int, request.credit as int, opt)
            <= i32::MAX,
    ensures
        r.credits as int == adjusted_credits(current.credits as int, request.credit as int, opt),
        r.id@ == current.id@,
        r.username@ == current.username@,
        r.user_id@ == current.user_id@,
{
    let credits = match opt {
        UserCreditUpdateOpt::Plus => current.credits + request.credit,
        UserCreditUpdateOpt::Minus => current.credits - request.credit,
    };
    UserCredit { credits, ..current }
}

/// The read-modify-write step of a credit adjustment, given what the account
/// query returned: an absent account is reported, a present one gets the new
/// balance.
pub fn adjust_credit_decision(
    query_result: Option<UserCredit>,
    request: &UserCreditUpdateInfo,
    opt: UserCreditUpdateOpt,
) -> (r: Result<UserCredit, ServerError>)
    requires
        query_result matches Some(c) ==> i32::MIN <= adjusted_credits(
            c.credits as int,
            request.credit as int,
            opt,
        ) <= i32::MAX,
    ensures
        query_result is None ==> (r matches Err(e) && e.error_message@
            == "Cannot update user's credit because the specified user doesn't exist."@),
        query_result matches Some(c) ==> (r matches Ok(u) && u.credits as int == adjusted_credits(
            c.credits as int,
            request.credit as int,
            opt,
        ) && u.id@ == c.id@ && u.username@ == c.username@ && u.user_id@ == c.user_id@),
{
    match query_result {
        None => Err(
            ServerError::with_message(
                "Cannot update user's credit because the specified user doesn't exist.",
            ),
        ),
        Some(current) => Ok(apply_credit_update(current, request, opt)),
    }
}

} // verus!
