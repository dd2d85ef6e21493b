//! Power actions offered on the login screen.
use vstd::prelude::*;

verus! {

#[derive(Clone, Copy, Debug, PartialEq, Eq, Structural)]
pub enum PowerAction {
    Reboot,
    Shutdown,
}

pub const REBOOT_VERB: &'static str = "reboot";

pub const SHUTDOWN_VERB: &'static str = "poweroff";

/// The verb that the service manager is given for `action`.
pub fn power_command(action: PowerAction) -> (r: &'static str)
    ensures
        r@ == (match action {
            PowerAction::Reboot => REBOOT_VERB@,
            PowerAction::Shutdown => SHUTDOWN_VERB@,
        }),
{
    match action {
        PowerAction::Reboot => REBOOT_VERB,
        PowerAction::Shutdown => SHUTDOWN_VERB,
    }
}

} // verus!
