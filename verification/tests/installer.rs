use hercules::{action_for_choice, choose_action, InstallerAction};

#[test]
fn over_a_previous_installation() {
    assert_eq!(choose_action(true, "r"), InstallerAction::Repair);
    assert_eq!(choose_action(true, "repair"), InstallerAction::Repair);
    assert_eq!(choose_action(true, "u"), InstallerAction::Uninstall);
    assert_eq!(choose_action(true, "uninstall"), InstallerAction::Uninstall);
    assert_eq!(choose_action(true, "c"), InstallerAction::Cancel);
    assert_eq!(choose_action(true, "y"), InstallerAction::Cancel);
    assert_eq!(choose_action(true, ""), InstallerAction::Cancel);
}

#[test]
fn without_a_previous_installation() {
    assert_eq!(choose_action(false, "y"), InstallerAction::Install);
    assert_eq!(choose_action(false, "yes"), InstallerAction::Cancel);
    assert_eq!(choose_action(false, "n"), InstallerAction::Cancel);
    assert_eq!(choose_action(false, "r"), InstallerAction::Cancel);
    assert_eq!(choose_action(false, ""), InstallerAction::Cancel);
}

#[test]
fn answers_are_trimmed_and_lowered() {
    assert_eq!(choose_action(true, "  Repair \n"), InstallerAction::Repair);
    assert_eq!(choose_action(true, "U\r\n"), InstallerAction::Uninstall);
    assert_eq!(choose_action(false, "\tY\n"), InstallerAction::Install);
    assert_eq!(choose_action(true, "re pair"), InstallerAction::Cancel);
}

#[test]
fn normalised_choices_are_matched_exactly() {
    assert_eq!(action_for_choice(true, "repair"), InstallerAction::Repair);
    assert_eq!(action_for_choice(true, "Repair"), InstallerAction::Cancel);
    assert_eq!(action_for_choice(true, " r"), InstallerAction::Cancel);
    assert_eq!(action_for_choice(false, "Y"), InstallerAction::Cancel);
    assert_eq!(action_for_choice(false, "y"), InstallerAction::Install);
}
