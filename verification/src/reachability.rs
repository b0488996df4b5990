//! The verdict on an address.

use vstd::prelude::*;

verus! {

/// How likely it is that an email to the address is delivered.
#[derive(Debug, Clone, Copy, PartialEq, Eq, Structural)]
pub enum Reachable {
    /// The address is safe to send to.
    Safe,
    /// The address appears to exist, but has quality issues that may make an email bounce.
    Risky,
    /// An email to the address will bounce.
    Invalid,
    /// There is no conclusive answer.
    Unknown,
}

/// What the SMTP conversation showed.
#[derive(Debug, Clone, Copy, PartialEq, Eq, Structural)]
pub struct SmtpDetails {
    pub can_connect_smtp: bool,
    pub has_full_inbox: bool,
    pub is_catch_all: bool,
    pub is_deliverable: bool,
    pub is_disabled: bool,
}

/// Why the SMTP conversation came to no conclusion.
#[derive(Debug, Clone, Copy, PartialEq, Eq, Structural)]
pub enum SmtpError {
    /// The server refused, but not because of the address.
    Refused,
    /// The connection failed.
    Interrupted,
    /// The conversation took too long.
    TimedOut,
}

/// What is known about the address besides the SMTP conversation.
#[derive(Debug, Clone, Copy, PartialEq, Eq, Structural)]
pub struct MiscDetails {
    pub is_disposable: bool,
    pub is_role_account: bool,
}

impl Default for MiscDetails {
    /// Nothing is known against the address.
    fn default() -> (misc: Self)
        ensures
            misc == (MiscDetails { is_disposable: false, is_role_account: false }),
    {
        MiscDetails { is_disposable: false, is_role_account: false }
    }
}

impl SmtpDetails {
    /// Whether the server turned the address down.
    pub open spec fn rejected(self) -> bool {
        !self.can_connect_smtp || !self.is_deliverable || self.is_disabled
    }
}

/// How reachable an address is: unknown without a conclusive SMTP conversation; risky for a full
/// inbox; invalid where the server turned the address down, which outranks whatever else is known
/// about it; risky for a disposable address, a role account and a catch-all domain; and else safe.
pub open spec fn verdict(misc: MiscDetails, smtp: Result<SmtpDetails, SmtpError>) -> Reachable {
    match smtp {
        Err(_) => Reachable::Unknown,
        Ok(smtp) => if smtp.has_full_inbox {
            Reachable::Risky
        } else if smtp.rejected() {
            Reachable::Invalid
        } else if misc.is_disposable || misc.is_role_account || smtp.is_catch_all {
            Reachable::Risky
        } else {
            Reachable::Safe
        },
    }
}

/// The verdict on an address.
pub fn calculate_reachable(
    misc: &MiscDetails,
    smtp: &Result<SmtpDetails, SmtpError>,
) -> (reachable: Reachable)
    ensures
        reachable == verdict(*misc, *smtp),
{
    match smtp {
        Err(_) => Reachable::Unknown,
        Ok(smtp) => {
            if smtp.has_full_inbox {
                Reachable::Risky
            } else if !smtp.can_connect_smtp || !smtp.is_deliverable || smtp.is_disabled {
                Reachable::Invalid
            } else if misc.is_disposable || misc.is_role_account || smtp.is_catch_all {
                Reachable::Risky
            } else {
                Reachable::Safe
            }
        },
    }
}

/// The verdict on an address of which nothing is known besides the SMTP conversation.
pub fn reachable(result: &Result<SmtpDetails, SmtpError>) -> (reachable: Reachable)
    ensures
        reachable == verdict(
            MiscDetails { is_disposable: false, is_role_account: false },
            *result,
        ),
{
    calculate_reachable(&MiscDetails::default(), result)
}

/// A full inbox stays risky, whatever else is known.
pub proof fn full_inbox_stays_risky(misc: MiscDetails, smtp: SmtpDetails)
    requires
        smtp.has_full_inbox,
    ensures
        verdict(misc, Ok(smtp)) == Reachable::Risky,
{
}

/// A rejection by the server outranks the role, disposable and catch-all flags.
pub proof fn rejection_outranks_flags(misc: MiscDetails, smtp: SmtpDetails)
    requires
        smtp.rejected(),
        !smtp.has_full_inbox,
    ensures
        verdict(misc, Ok(smtp)) == Reachable::Invalid,
{
}

/// An address of a catch-all domain is never reported as safe, nor is a disposable address or a
/// role account.
pub proof fn flagged_addresses_are_never_safe(
    misc: MiscDetails,
    smtp: Result<SmtpDetails, SmtpError>,
)
    requires
        misc.is_disposable || misc.is_role_account || (smtp matches Ok(smtp) && smtp.is_catch_all),
    ensures
        verdict(misc, smtp) != Reachable::Safe,
{
}

/// The verdict is unknown exactly where the SMTP conversation came to no conclusion.
pub proof fn unknown_means_no_conclusion(misc: MiscDetails, smtp: Result<SmtpDetails, SmtpError>)
    ensures
        verdict(misc, smtp) == Reachable::Unknown <==> smtp is Err,
{
}

/// The verdict over what was found, flag by flag. It is invalid exactly where the inbox is not full
/// and the server could not be reached, did not take the address or has it disabled. It is risky
/// exactly where the inbox is full, or else nothing makes it invalid and the domain takes any address
/// or the address is disposable or a role account. It is safe exactly where nothing of all this is
/// so, and unknown exactly without an SMTP conversation that came to a conclusion.
pub proof fn verdict_flag_by_flag(
    misc: MiscDetails,
    conversation: Result<SmtpDetails, SmtpError>,
)
    ensures
        match conversation {
            Err(_) => verdict(misc, conversation) == Reachable::Unknown,
            Ok(found) => {
                let turned_down = !found.can_connect_smtp || !found.is_deliverable
                    || found.is_disabled;
                let flagged = found.is_catch_all || misc.is_disposable || misc.is_role_account;
                &&& verdict(misc, conversation) == Reachable::Invalid <==> !found.has_full_inbox
                    && turned_down
                &&& verdict(misc, conversation) == Reachable::Risky <==> found.has_full_inbox || (
                !turned_down && flagged)
                &&& verdict(misc, conversation) == Reachable::Safe <==> !found.has_full_inbox
                    && !turned_down && !flagged
                &&& verdict(misc, conversation) != Reachable::Unknown
            },
        },
{
}

} // verus!
