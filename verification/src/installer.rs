//! What the installer does with the answer it is given.

use crate::text::{lowercase, str_eq, to_lowercase, trim, trimmed};
use vstd::prelude::*;

verus! {

/// What the installer goes on to do.
#[derive(Debug, Clone, Copy, PartialEq, Eq, Structural)]
pub enum InstallerAction {
    /// Remove the installation, then install again.
    Repair,
    /// Remove the installation.
    Uninstall,
    /// Install where nothing was installed before.
    Install,
    /// Leave everything as it is.
    Cancel,
}

/// The action that the normalised answer `choice` asks for. Over a previous
/// installation `r` or `repair` repairs and `u` or `uninstall` removes it;
/// without one only `y` installs. Every other answer cancels.
pub open spec fn action_for(previous_installation: bool, choice: Seq<char>) -> InstallerAction {
    if previous_installation {
        if choice == "r"@ || choice == "repair"@ {
            InstallerAction::Repair
        } else if choice == "u"@ || choice == "uninstall"@ {
            InstallerAction::Uninstall
        } else {
            InstallerAction::Cancel
        }
    } else if choice == "y"@ {
        InstallerAction::Install
    } else {
        InstallerAction::Cancel
    }
}

/// The action that an answer asks for once it is trimmed and in lower case.
pub fn action_for_choice(previous_installation: bool, choice: &str) -> (action: InstallerAction)
    ensures
        action == action_for(previous_installation, choice@),
{
    if previous_installation {
        if str_eq(choice, "r") || str_eq(choice, "repair") {
            InstallerAction::Repair
        } else if str_eq(choice, "u") || str_eq(choice, "uninstall") {
            InstallerAction::Uninstall
        } else {
            InstallerAction::Cancel
        }
    } else if str_eq(choice, "y") {
        InstallerAction::Install
    } else {
        InstallerAction::Cancel
    }
}

/// The action that the line `answer`, as the user typed it, asks for:
/// surrounding white space and letter case do not matter.
pub fn choose_action(previous_installation: bool, answer: &str) -> (action: InstallerAction)
    ensures
        action == action_for(previous_installation, lowercase(trimmed(answer@))),
{
    let choice = to_lowercase(trim(answer));
    action_for_choice(previous_installation, choice.as_str())
}

} // verus!
