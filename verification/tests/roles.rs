use shame_bot::ids::RoleId;
use shame_bot::ids::UserId;
use shame_bot::roles::has_role;
use shame_bot::roles::RoleBoard;

#[test]
fn nobody_carries_a_role_on_a_new_board() {
    let board = RoleBoard::new();
    assert!(board.is_online());
    assert_eq!(board.currently_holds(UserId(1), RoleId(2)), Some(false));
    assert_eq!(board.roles_of(UserId(1)), Some(Vec::new()));
}

#[test]
fn a_granted_role_is_carried_until_it_is_revoked() {
    let mut board = RoleBoard::new();
    assert!(board.grant(UserId(1), RoleId(2)));
    assert_eq!(board.currently_holds(UserId(1), RoleId(2)), Some(true));
    assert_eq!(board.currently_holds(UserId(1), RoleId(3)), Some(false));
    assert_eq!(board.currently_holds(UserId(2), RoleId(2)), Some(false));
    assert!(board.revoke(UserId(1), RoleId(2)));
    assert_eq!(board.currently_holds(UserId(1), RoleId(2)), Some(false));
}

#[test]
fn to_grant_twice_is_to_grant_once() {
    let mut board = RoleBoard::new();
    assert!(board.grant(UserId(1), RoleId(2)));
    assert!(board.grant(UserId(1), RoleId(2)));
    assert_eq!(board.roles_of(UserId(1)), Some(vec![RoleId(2)]));
    assert!(board.revoke(UserId(1), RoleId(2)));
    assert_eq!(board.currently_holds(UserId(1), RoleId(2)), Some(false));
    assert_eq!(board.roles_of(UserId(1)), Some(Vec::new()));
}

#[test]
fn to_revoke_what_is_not_carried_is_no_error() {
    let mut board = RoleBoard::new();
    assert!(board.revoke(UserId(1), RoleId(2)));
    board.grant(UserId(1), RoleId(3));
    assert!(board.revoke(UserId(1), RoleId(2)));
    assert!(board.revoke(UserId(1), RoleId(2)));
    assert_eq!(board.currently_holds(UserId(1), RoleId(3)), Some(true));
}

#[test]
fn a_member_carries_the_roles_granted_to_him() {
    let mut board = RoleBoard::new();
    board.grant(UserId(1), RoleId(2));
    board.grant(UserId(9), RoleId(2));
    board.grant(UserId(1), RoleId(5));
    board.grant(UserId(9), RoleId(6));
    let mut roles = board.roles_of(UserId(1)).unwrap();
    roles.sort_by_key(|r| r.0);
    assert_eq!(roles, vec![RoleId(2), RoleId(5)]);
    board.revoke(UserId(1), RoleId(2));
    assert_eq!(board.roles_of(UserId(1)), Some(vec![RoleId(5)]));
    assert_eq!(board.currently_holds(UserId(9), RoleId(2)), Some(true));
}

#[test]
fn a_board_that_is_offline_fails_every_call() {
    let mut board = RoleBoard::new();
    board.grant(UserId(1), RoleId(2));
    board.set_online(false);
    assert!(!board.is_online());
    assert!(!board.grant(UserId(1), RoleId(3)));
    assert!(!board.revoke(UserId(1), RoleId(2)));
    assert_eq!(board.currently_holds(UserId(1), RoleId(2)), None);
    assert_eq!(board.roles_of(UserId(1)), None);
    board.set_online(true);
    assert_eq!(board.currently_holds(UserId(1), RoleId(2)), Some(true));
    assert_eq!(board.currently_holds(UserId(1), RoleId(3)), Some(false));
}

#[test]
fn a_list_of_roles_names_what_it_names() {
    let roles = vec![RoleId(1), RoleId(5), RoleId(9)];
    assert!(has_role(&roles, RoleId(1)));
    assert!(has_role(&roles, RoleId(9)));
    assert!(!has_role(&roles, RoleId(2)));
    assert!(!has_role(&Vec::new(), RoleId(1)));
}
