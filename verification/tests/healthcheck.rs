use shame_bot::engine::Engine;
use shame_bot::healthcheck::check;
use shame_bot::healthcheck::duty;
use shame_bot::healthcheck::healthcheck;
use shame_bot::healthcheck::Duty;
use shame_bot::healthcheck::PassReport;
use shame_bot::healthcheck::release_overdue;
use shame_bot::healthcheck::validate_kenneling;
use shame_bot::healthcheck::Verdict;
use shame_bot::ids::GuildId;
use shame_bot::ids::RoleId;
use shame_bot::ids::UserId;
use shame_bot::lifecycle::KennelError;
use shame_bot::types::Kenneling;
use shame_bot::types::Server;

fn kenneling() -> Kenneling {
    Kenneling {
        id: 1,
        guild_id: GuildId(10),
        author_id: UserId(20),
        victim_id: UserId(30),
        role_id: RoleId(40),
        kenneled_at: 1000,
        kennel_length: 60,
        released_at: None,
        msg_announce_id: None,
        kennel_msg_id: None,
    }
}

fn settings(guild: u64, role: u64) -> Server {
    Server {
        guild_id: GuildId(guild),
        command_name: String::from("kennel"),
        announcement_message: String::new(),
        release_message: String::new(),
        role_id: RoleId(role),
        kennel_channel: None,
        kennel_message: String::new(),
    }
}

#[test]
fn a_member_who_carries_the_role_is_left_alone() {
    let roles = vec![RoleId(1), RoleId(40)];
    assert_eq!(
        validate_kenneling(&kenneling(), Some(RoleId(40)), Some(&roles), 1010),
        Verdict::Kept
    );
}

#[test]
fn a_member_without_the_role_has_served_his_time() {
    let roles = vec![RoleId(1), RoleId(2)];
    assert_eq!(
        validate_kenneling(&kenneling(), Some(RoleId(40)), Some(&roles), 1010),
        Verdict::Stale {
            after: Kenneling { released_at: Some(1010), kennel_length: 10, ..kenneling() }
        }
    );
    assert_eq!(
        validate_kenneling(&kenneling(), Some(RoleId(40)), Some(&Vec::new()), 1000),
        Verdict::Stale {
            after: Kenneling { released_at: Some(1000), kennel_length: 0, ..kenneling() }
        }
    );
}

#[test]
fn the_role_that_counts_is_the_one_the_guild_has_set_by_now() {
    let roles = vec![RoleId(40)];
    let found = validate_kenneling(&kenneling(), Some(RoleId(41)), Some(&roles), 1010);
    assert!(matches!(found, Verdict::Stale { .. }));
    let roles = vec![RoleId(41)];
    let found = validate_kenneling(&kenneling(), Some(RoleId(41)), Some(&roles), 1010);
    assert_eq!(found, Verdict::Kept);
}

#[test]
fn a_kenneling_that_is_not_in_force_is_left_alone() {
    let none = Vec::new();
    assert_eq!(validate_kenneling(&kenneling(), Some(RoleId(40)), Some(&none), 1060), Verdict::Kept);
    let released = kenneling().release(1005);
    assert_eq!(validate_kenneling(&released, Some(RoleId(40)), Some(&none), 1010), Verdict::Kept);
    assert_eq!(validate_kenneling(&released, None, None, 1010), Verdict::Kept);
}

#[test]
fn a_kenneling_that_cannot_be_checked_stays() {
    let none = Vec::new();
    assert_eq!(
        validate_kenneling(&kenneling(), None, Some(&none), 1010),
        Verdict::Failed { error: KennelError::NoConfiguration }
    );
    assert_eq!(
        validate_kenneling(&kenneling(), Some(RoleId(40)), None, 1010),
        Verdict::Failed { error: KennelError::ApplierUnavailable }
    );
    assert_eq!(
        validate_kenneling(&kenneling(), None, None, 1010),
        Verdict::Failed { error: KennelError::NoConfiguration }
    );
}

#[test]
fn one_pass_finds_every_stale_kenneling_and_no_other() {
    let mut engine = Engine::new();
    engine.servers.set(settings(1, 11));
    engine.servers.set(settings(2, 22));
    let a = engine.apply(GuildId(1), UserId(7), UserId(100), "1m", 1000).unwrap();
    let b = engine.apply(GuildId(1), UserId(7), UserId(101), "1m", 1000).unwrap();
    let c = engine.apply(GuildId(2), UserId(7), UserId(102), "1m", 1000).unwrap();
    let d = engine.apply(GuildId(2), UserId(7), UserId(103), "5s", 1000).unwrap();
    engine.board.revoke(UserId(100), RoleId(11));
    engine.board.revoke(UserId(102), RoleId(22));
    engine.board.revoke(UserId(103), RoleId(22));

    assert_eq!(check(&mut engine, 1030), Some(2));
    assert_eq!(
        engine.store.get(a.id),
        Some(Kenneling { released_at: Some(1030), kennel_length: 30, ..a })
    );
    assert_eq!(engine.store.get(b.id), Some(b));
    assert_eq!(
        engine.store.get(c.id),
        Some(Kenneling { released_at: Some(1030), kennel_length: 30, ..c })
    );
    assert_eq!(engine.store.get(d.id), Some(d));
    assert_eq!(engine.currently_holds(UserId(100), RoleId(11)), Some(false));
    assert_eq!(engine.currently_holds(UserId(101), RoleId(11)), Some(true));

    assert_eq!(check(&mut engine, 1030), Some(0));
    assert_eq!(check(&mut engine, 1031), Some(0));
}

#[test]
fn the_pass_grants_nothing() {
    let mut engine = Engine::new();
    engine.servers.set(settings(1, 11));
    engine.apply(GuildId(1), UserId(7), UserId(100), "1m", 1000).unwrap();
    engine.board.revoke(UserId(100), RoleId(11));
    check(&mut engine, 1001);
    assert_eq!(engine.board.roles_of(UserId(100)), Some(Vec::new()));
}

#[test]
fn the_pass_follows_a_change_of_role() {
    let mut engine = Engine::new();
    engine.servers.set(settings(1, 11));
    let a = engine.apply(GuildId(1), UserId(7), UserId(100), "1m", 1000).unwrap();
    engine.servers.set(settings(1, 12));
    engine.board.revoke(UserId(100), RoleId(11));
    engine.board.grant(UserId(100), RoleId(12));
    assert_eq!(check(&mut engine, 1010), Some(0));
    assert_eq!(engine.store.get(a.id), Some(a));
    engine.board.revoke(UserId(100), RoleId(12));
    assert_eq!(check(&mut engine, 1020), Some(1));
    assert_eq!(engine.store.get(a.id).unwrap().released_at, Some(1020));
}

#[test]
fn a_pass_that_cannot_read_the_roles_changes_nothing() {
    let mut engine = Engine::new();
    engine.servers.set(settings(1, 11));
    let a = engine.apply(GuildId(1), UserId(7), UserId(100), "1m", 1000).unwrap();
    engine.board.revoke(UserId(100), RoleId(11));
    engine.board.set_online(false);
    assert_eq!(check(&mut engine, 1010), Some(0));
    assert_eq!(engine.store.get(a.id), Some(a));
    engine.board.set_online(true);
    assert_eq!(check(&mut engine, 1011), Some(1));
    assert_eq!(engine.store.get(a.id).unwrap().released_at, Some(1011));
}

#[test]
fn a_pass_without_a_store_does_nothing() {
    let mut engine = Engine::new();
    engine.servers.set(settings(1, 11));
    let a = engine.apply(GuildId(1), UserId(7), UserId(100), "1m", 1000).unwrap();
    engine.board.revoke(UserId(100), RoleId(11));
    engine.store.set_online(false);
    assert_eq!(check(&mut engine, 1010), None);
    assert_eq!(release_overdue(&mut engine, 2000), Err(KennelError::StoreUnavailable));
    engine.store.set_online(true);
    assert_eq!(engine.store.get(a.id), Some(a));
}

#[test]
fn the_pass_does_not_end_what_is_overdue() {
    let mut engine = Engine::new();
    engine.servers.set(settings(1, 11));
    let a = engine.apply(GuildId(1), UserId(7), UserId(100), "5s", 1000).unwrap();
    assert_eq!(check(&mut engine, 1005), Some(0));
    assert_eq!(engine.store.get(a.id), Some(a));
    assert_eq!(engine.currently_holds(UserId(100), RoleId(11)), Some(true));
}

#[test]
fn the_sweep_ends_what_is_overdue_and_nothing_else() {
    let mut engine = Engine::new();
    engine.servers.set(settings(1, 11));
    let a = engine.apply(GuildId(1), UserId(7), UserId(100), "5s", 1000).unwrap();
    let b = engine.apply(GuildId(1), UserId(7), UserId(101), "10s", 1000).unwrap();
    let c = engine.apply(GuildId(1), UserId(7), UserId(102), "1m", 1000).unwrap();
    assert_eq!(release_overdue(&mut engine, 1004), Ok(0));
    assert_eq!(release_overdue(&mut engine, 1010), Ok(2));
    assert_eq!(engine.store.get(a.id), Some(Kenneling { released_at: Some(1010), ..a }));
    assert_eq!(engine.store.get(b.id), Some(Kenneling { released_at: Some(1010), ..b }));
    assert_eq!(engine.store.get(c.id), Some(c));
    assert_eq!(engine.currently_holds(UserId(100), RoleId(11)), Some(false));
    assert_eq!(engine.currently_holds(UserId(101), RoleId(11)), Some(false));
    assert_eq!(engine.currently_holds(UserId(102), RoleId(11)), Some(true));
    assert_eq!(release_overdue(&mut engine, 1010), Ok(0));
    assert_eq!(release_overdue(&mut engine, 1060), Ok(1));
    assert_eq!(engine.store.active(1060), Some(Vec::new()));
}

#[test]
fn the_pass_has_one_duty_to_each_record() {
    let k = kenneling();
    assert_eq!(duty(&k, 0), Duty::Validate);
    assert_eq!(duty(&k, 1000), Duty::Validate);
    assert_eq!(duty(&k, 1059), Duty::Validate);
    assert_eq!(duty(&k, 1060), Duty::Release);
    assert_eq!(duty(&k, u64::MAX), Duty::Release);
    assert_eq!(duty(&k.release(1010), 1005), Duty::Nothing);
    assert_eq!(duty(&k.release(1010), 5000), Duty::Nothing);
    assert_eq!(duty(&k.truncate(1010), 1020), Duty::Nothing);
}

#[test]
fn a_whole_pass_releases_what_is_overdue_and_finds_what_is_stale() {
    let mut engine = Engine::new();
    engine.servers.set(settings(1, 11));
    let a = engine.apply(GuildId(1), UserId(7), UserId(100), "5s", 1000).unwrap();
    let b = engine.apply(GuildId(1), UserId(7), UserId(101), "1m", 1000).unwrap();
    let c = engine.apply(GuildId(1), UserId(7), UserId(102), "1m", 1000).unwrap();
    let d = engine.apply(GuildId(1), UserId(7), UserId(100), "1m", 1001).unwrap();
    engine.board.revoke(UserId(101), RoleId(11));

    assert_eq!(healthcheck(&mut engine, 1010), PassReport { released: Ok(1), stale: Some(2) });
    assert_eq!(engine.store.get(a.id), Some(Kenneling { released_at: Some(1010), ..a }));
    assert_eq!(
        engine.store.get(b.id),
        Some(Kenneling { released_at: Some(1010), kennel_length: 10, ..b })
    );
    assert_eq!(engine.store.get(c.id), Some(c));
    // The release of the first kenneling took the role that the fourth leaned on.
    assert_eq!(
        engine.store.get(d.id),
        Some(Kenneling { released_at: Some(1010), kennel_length: 9, ..d })
    );
    assert_eq!(engine.currently_holds(UserId(102), RoleId(11)), Some(true));
    assert_eq!(healthcheck(&mut engine, 1010), PassReport { released: Ok(0), stale: Some(0) });
}

#[test]
fn a_whole_pass_says_what_it_could_not_do() {
    let mut engine = Engine::new();
    engine.servers.set(settings(1, 11));
    let a = engine.apply(GuildId(1), UserId(7), UserId(100), "5s", 1000).unwrap();
    engine.board.set_online(false);
    assert_eq!(
        healthcheck(&mut engine, 1010),
        PassReport { released: Err(KennelError::ApplierUnavailable), stale: Some(0) }
    );
    engine.board.set_online(true);
    engine.store.set_online(false);
    assert_eq!(
        healthcheck(&mut engine, 1010),
        PassReport { released: Err(KennelError::StoreUnavailable), stale: None }
    );
    engine.store.set_online(true);
    assert_eq!(engine.store.get(a.id), Some(a));
    assert_eq!(healthcheck(&mut engine, 1010), PassReport { released: Ok(1), stale: Some(0) });
}
