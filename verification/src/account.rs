//! Decisions of the account and authentication services: admin checks, punishments and
//! whether an account may log into the game.
use vstd::prelude::*;
use crate::error::{AppError, AppErrorView, RepositoryError};
use crate::hash::HashService;
use crate::models::AccountModel;
use crate::parsers::{parse_suspension_severity, severity_named, SuspensionSeverity};
use crate::password::bcrypt_verify_outcome;
use crate::text::{decimal_text, owned, push_i64, push_str, str_equal};

verus! {

/// Where a token is used: by the game client or on the web.
#[derive(Debug, Clone, Copy, PartialEq, Eq, Structural)]
pub enum TokenContext {
    Game,
    Web,
}

/// The account of the requester; a failed lookup leaves the request unauthorized.
pub fn account_for_request(found: Result<AccountModel, RepositoryError>) -> (r: Result<
    AccountModel,
    AppError,
>)
    ensures
        match found {
            Ok(a) => r matches Ok(a2) && a2 == a,
            Err(_) => r matches Err(e) && e@ == AppErrorView::Unauthorized(
                "Unable to fetch account data"@,
            ),
        },
{
    match found {
        Ok(a) => Ok(a),
        Err(_) => Err(AppError::Unauthorized(owned("Unable to fetch account data"))),
    }
}

/// Checks that the requester's account (as looked up) is an admin account.
pub fn ensure_admin(found: Result<AccountModel, RepositoryError>) -> (r: Result<(), AppError>)
    ensures
        match found {
            Err(_) => r matches Err(e) && e@ == AppErrorView::Unauthorized(
                "Unable to fetch account data"@,
            ),
            Ok(a) => if a.is_admin {
                r is Ok
            } else {
                r matches Err(e) && e@ == AppErrorView::PermissionDenied(
                    "Only admins can access this resource"@,
                )
            },
        },
{
    let account = account_for_request(found)?;
    if !account.is_admin {
        return Err(AppError::PermissionDenied(owned("Only admins can access this resource")));
    }
    Ok(())
}

/// Checks that the requester may create mob drop rates: its account exists and is an
/// admin account.
pub fn ensure_drop_rate_admin(found: Result<AccountModel, RepositoryError>) -> (r: Result<
    (),
    AppError,
>)
    ensures
        match found {
            Err(_) => r matches Err(e) && e@ == AppErrorView::NotFound("Account not found"@),
            Ok(a) => if a.is_admin {
                r is Ok
            } else {
                r matches Err(e) && e@ == AppErrorView::PermissionDenied(
                    "Only admins can create mob drop rates"@,
                )
            },
        },
{
    let account = match found {
        Ok(a) => a,
        Err(_) => {
            return Err(AppError::NotFound(owned("Account not found")));
        },
    };
    if !account.is_admin {
        return Err(AppError::PermissionDenied(owned("Only admins can create mob drop rates")));
    }
    Ok(())
}

/// What an admin does to an account.
#[derive(Debug)]
pub enum PunishmentAction {
    /// Ban permanently, with a reason.
    Ban { reason: String },
    /// Lift a ban.
    Unban,
    /// Suspend for the time a severity stands for.
    Suspend { severity: SuspensionSeverity },
    /// Lift a suspension.
    Unsuspend,
}

/// Decides the action a punishment request stands for: a ban without a reason gets
/// `No reason provided`, a suspension without a severity is of medium severity, and an
/// unknown kind of punishment is a bad request.
pub fn plan_punishment(
    punishment_type: &str,
    reason: Option<String>,
    severity: Option<SuspensionSeverity>,
) -> (r: Result<PunishmentAction, AppError>)
    ensures
        punishment_type@ == "ban"@ ==> (r matches Ok(PunishmentAction::Ban { reason: t }) && t@
            == match reason {
            Some(x) => x@,
            None => "No reason provided"@,
        }),
        punishment_type@ == "unban"@ ==> (r matches Ok(a) && a is Unban),
        punishment_type@ == "suspend"@ ==> (r matches Ok(PunishmentAction::Suspend { severity: s })
            && s == match severity {
            Some(x) => x,
            None => SuspensionSeverity::Medium,
        }),
        punishment_type@ == "unsuspend"@ ==> (r matches Ok(a) && a is Unsuspend),
        !(punishment_type@ == "ban"@ || punishment_type@ == "unban"@ || punishment_type@
            == "suspend"@ || punishment_type@ == "unsuspend"@) ==> (r matches Err(e) && e@
            == AppErrorView::BadRequest("Invalid punishment type"@)),
{
    proof {
        reveal_strlit("ban");
        reveal_strlit("unban");
        reveal_strlit("suspend");
        reveal_strlit("unsuspend");
        assert("ban"@.len() != "unban"@.len());
        assert("suspend"@.len() != "unsuspend"@.len());
        assert("ban"@.len() != "suspend"@.len());
        assert("unban"@ != "suspend"@) by {
            assert("unban"@[0] != "suspend"@[0]);
        }
    }
    if str_equal(punishment_type, "ban") {
        let reason = match reason {
            Some(x) => x,
            None => owned("No reason provided"),
        };
        Ok(PunishmentAction::Ban { reason })
    } else if str_equal(punishment_type, "unban") {
        Ok(PunishmentAction::Unban)
    } else if str_equal(punishment_type, "suspend") {
        let severity = match severity {
            Some(x) => x,
            None => SuspensionSeverity::Medium,
        };
        Ok(PunishmentAction::Suspend { severity })
    } else if str_equal(punishment_type, "unsuspend") {
        Ok(PunishmentAction::Unsuspend)
    } else {
        Err(AppError::BadRequest(owned("Invalid punishment type")))
    }
}

/// The severity a punishment request carries: read (default `medium`) only for a
/// suspension; other punishments carry none.
pub fn punishment_severity(punishment_type: &str, severity: Option<&str>) -> (r: Result<
    Option<SuspensionSeverity>,
    AppError,
>)
    ensures
        punishment_type@ != "suspend"@ ==> (r matches Ok(s) && s is None),
        punishment_type@ == "suspend"@ ==> {
            let text = match severity {
                Some(t) => t@,
                None => "medium"@,
            };
            match severity_named(text) {
                Some(s) => r matches Ok(s2) && s2 == Some(s),
                None => r matches Err(e) && e@ == AppErrorView::BadRequest(
                    "Invalid suspension severity"@,
                ),
            }
        },
{
    if str_equal(punishment_type, "suspend") {
        let text: &str = match severity {
            Some(t) => t,
            None => "medium",
        };
        let s = parse_suspension_severity(text)?;
        Ok(Some(s))
    } else {
        Ok(None)
    }
}

/// Microseconds in a second.
pub const MICROS_PER_SECOND: i64 = 1_000_000;

/// The message shown to a suspended account: the remaining time in whole days, hours and
/// minutes.
pub open spec fn suspension_message(remaining_secs: int) -> Seq<char> {
    "Account suspended for "@ + decimal_text(remaining_secs / 86400) + "d "@ + decimal_text(
        (remaining_secs % 86400) / 3600,
    ) + "h "@ + decimal_text((remaining_secs % 3600) / 60) + "m"@
}

/// Checks that an account may log into the game at time `now` (microseconds since the
/// epoch): a banned account may not, nor may an account suspended until after `now`.
pub fn check_if_can_perform_game_login(account: &AccountModel, now: i64) -> (r: Result<
    (),
    AppError,
>)
    ensures
        account.banned_at is Some ==> (r matches Err(e) && e@ == AppErrorView::PermissionDenied(
            "Account permanently banned: "@ + match account.banned_reason {
                Some(t) => t@,
                None => "No reason provided"@,
            },
        )),
        account.banned_at is None ==> match account.suspended_until {
            Some(until) => if until > now {
                r matches Err(e) && e@ == AppErrorView::PermissionDenied(
                    suspension_message((until - now) / 1_000_000),
                )
            } else {
                r is Ok
            },
            None => r is Ok,
        },
{
    if account.banned_at.is_some() {
        let mut msg = owned("Account permanently banned: ");
        match &account.banned_reason {
            Some(t) => push_str(&mut msg, t.as_str()),
            None => push_str(&mut msg, "No reason provided"),
        }
        return Err(AppError::PermissionDenied(msg));
    }
    if let Some(until) = account.suspended_until {
        if until > now {
            let diff: i128 = until as i128 - now as i128;
            let secs: i64 = (diff / 1_000_000) as i64;
            let days: i64 = secs / 86_400;
            let hours: i64 = (secs % 86_400) / 3_600;
            let minutes: i64 = (secs % 3_600) / 60;
            let mut msg = owned("Account suspended for ");
            push_i64(&mut msg, days);
            push_str(&mut msg, "d ");
            push_i64(&mut msg, hours);
            push_str(&mut msg, "h ");
            push_i64(&mut msg, minutes);
            push_str(&mut msg, "m");
            return Err(AppError::PermissionDenied(msg));
        }
    }
    Ok(())
}

/// Checks a login attempt: the account found by email, whose stored hash must verify
/// `password`. An unknown email and a wrong password get the same answer.
pub fn check_login_credentials(
    found: Result<AccountModel, RepositoryError>,
    password: &str,
    hash_service: &HashService,
) -> (r: Result<AccountModel, AppError>)
    ensures
        match found {
            Err(_) => r matches Err(e) && e@ == AppErrorView::Unauthorized(
                "Email or password is incorrect"@,
            ),
            Ok(a) => match bcrypt_verify_outcome(password@, a.password_hash@) {
                Some(true) => r matches Ok(a2) && a2 == a,
                Some(false) => r matches Err(e) && e@ == AppErrorView::Unauthorized(
                    "Email or password is incorrect"@,
                ),
                None => r matches Err(e) && e@ is Internal,
            },
        },
{
    let account = match found {
        Ok(a) => a,
        Err(_) => {
            return Err(AppError::Unauthorized(owned("Email or password is incorrect")));
        },
    };
    let valid = hash_service.verify(password, account.password_hash.as_str())?;
    if !valid {
        return Err(AppError::Unauthorized(owned("Email or password is incorrect")));
    }
    Ok(account)
}

/// The account a verified token names; a failed lookup means the token is not valid.
pub fn account_for_token(found: Result<AccountModel, RepositoryError>, refresh: bool) -> (r:
    Result<AccountModel, AppError>)
    ensures
        match found {
            Ok(a) => r matches Ok(a2) && a2 == a,
            Err(_) => r matches Err(e) && e@ == AppErrorView::Unauthorized(
                if refresh {
                    "Invalid refresh token"@
                } else {
                    "Invalid token"@
                },
            ),
        },
{
    match found {
        Ok(a) => Ok(a),
        Err(_) => if refresh {
            Err(AppError::Unauthorized(owned("Invalid refresh token")))
        } else {
            Err(AppError::Unauthorized(owned("Invalid token")))
        },
    }
}

/// Checks that tokens may be issued for `account` in `context` at time `now`: game
/// tokens go only to accounts that may log into the game.
pub fn check_token_context(account: &AccountModel, context: TokenContext, now: i64) -> (r: Result<
    (),
    AppError,
>)
    ensures
        context == TokenContext::Web ==> r is Ok,
        context == TokenContext::Game ==> result_is_game_check(r, *account, now),
{
    match context {
        TokenContext::Game => check_if_can_perform_game_login(account, now),
        TokenContext::Web => Ok(()),
    }
}

/// Whether `r` is what checking a game login of `account` at `now` gives.
pub open spec fn result_is_game_check(r: Result<(), AppError>, account: AccountModel, now: i64) -> bool {
    &&& account.banned_at is Some ==> (r matches Err(e) && e@ == AppErrorView::PermissionDenied(
        "Account permanently banned: "@ + match account.banned_reason {
            Some(t) => t@,
            None => "No reason provided"@,
        },
    ))
    &&& account.banned_at is None ==> match account.suspended_until {
        Some(until) => if until > now {
            r matches Err(e) && e@ == AppErrorView::PermissionDenied(
                suspension_message((until - now) / 1_000_000),
            )
        } else {
            r is Ok
        },
        None => r is Ok,
    }
}

} // verus!
