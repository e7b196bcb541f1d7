use shame_bot::commands::command_or_default;
use shame_bot::commands::is_valid_command_name;
use shame_bot::commands::letter;

#[test]
fn a_command_is_named_in_letters() {
    assert!(is_valid_command_name("kennel"));
    assert!(is_valid_command_name("Kennel_user"));
    assert!(is_valid_command_name("k_"));
    assert!(is_valid_command_name("zZ"));
}

#[test]
fn other_names_are_turned_down() {
    assert!(!is_valid_command_name(""));
    assert!(!is_valid_command_name("k"));
    assert!(!is_valid_command_name("_kennel"));
    assert!(!is_valid_command_name("kennel2"));
    assert!(!is_valid_command_name("ken nel"));
    assert!(!is_valid_command_name("kennel\n"));
    assert!(!is_valid_command_name("kénnel"));
    assert!(!is_valid_command_name("/kennel"));
}

#[test]
fn command_names_are_judged_as_the_pattern_judges_them() {
    let pattern = regex::Regex::new(r"^[a-zA-Z][a-zA-Z_]+$").unwrap();
    let names = [
        "", "a", "ab", "a_", "_a", "__", "kennel", "Kennel", "KENNEL", "ken_nel", "kennel_",
        "ken-nel", "ken nel", "kennel\n", "\nkennel", "kennel1", "1kennel", "k", "kk", "[a", "a[",
        "`a", "a`", "@a", "a@", "{a", "a{", "zz", "ZZ", "Az", "aZ", "käfig", "ab\u{0}", "a\tb",
    ];
    for name in names {
        assert_eq!(is_valid_command_name(name), pattern.is_match(name), "{:?}", name);
    }
}

#[test]
fn letters_are_a_to_z() {
    assert!(letter('a'));
    assert!(letter('z'));
    assert!(letter('A'));
    assert!(letter('Z'));
    assert!(!letter('`'));
    assert!(!letter('{'));
    assert!(!letter('@'));
    assert!(!letter('['));
    assert!(!letter('_'));
    assert!(!letter('é'));
}

#[test]
fn the_command_is_kennel_unless_named() {
    assert_eq!(command_or_default(None), "kennel");
    assert_eq!(command_or_default(Some(String::from("crate"))), "crate");
    assert_eq!(command_or_default(Some(String::new())), "");
}
