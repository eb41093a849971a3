use committee_relay::auth::{authorize, find_committee, holds_role, AuthError};
use committee_relay::config::{Committee, Config};
use committee_relay::roles::{
    in_configured_guild, join, plan_roles, resolve_committee, GuildRole, JoinOutcome, RolePlan,
};

const GUILD: u64 = 100;
const DELEGATE: u64 = 200;
const LEGAL: u64 = 11;
const FINANCE: u64 = 12;
const PRESS: u64 = 13;

fn committee(name: &str, role_id: u64, channel_id: u64) -> Committee {
    Committee::new(name.to_string(), role_id.to_string(), channel_id.to_string()).unwrap()
}

fn config() -> Config {
    Config::new(
        "t".to_string(),
        GUILD.to_string(),
        DELEGATE.to_string(),
        "300".to_string(),
        "400".to_string(),
        vec![
            committee("Legal", LEGAL, 21),
            committee("Finance", FINANCE, 22),
            committee("Press", PRESS, 23),
        ],
    )
    .unwrap()
}

fn guild_roles() -> Vec<GuildRole> {
    vec![
        GuildRole { id: DELEGATE, name: "Delegate".to_string() },
        GuildRole { id: LEGAL, name: "Legal Committee".to_string() },
        GuildRole { id: FINANCE, name: "Treasury".to_string() },
        GuildRole { id: 999, name: "Press".to_string() },
    ]
}

fn plan(remove: &[u64], add: &[u64]) -> RolePlan {
    RolePlan { remove: remove.to_vec(), add: add.to_vec() }
}

/// The roles a member holds once the plan is carried out.
fn carry_out(roles: &[u64], plan: &RolePlan) -> Vec<u64> {
    let mut after: Vec<u64> = roles.iter().copied().filter(|r| !plan.remove.contains(r)).collect();
    after.extend(plan.add.iter().copied());
    after
}

#[test]
fn holds_role_looks_through_all_roles() {
    assert!(holds_role(&[1, 2, 3], 3));
    assert!(holds_role(&[1, 2, 3], 1));
    assert!(!holds_role(&[1, 2, 3], 4));
    assert!(!holds_role(&[], 0));
}

#[test]
fn stranger_is_unacquainted() {
    assert_eq!(authorize(&config(), None), Err(AuthError::Unacquainted));
}

#[test]
fn member_without_delegate_role_is_refused() {
    let c = config();
    assert_eq!(authorize(&c, Some(&[])), Err(AuthError::NotDelegate));
    assert_eq!(authorize(&c, Some(&[LEGAL])), Err(AuthError::NotDelegate));
    assert_eq!(authorize(&c, Some(&[LEGAL, FINANCE, 300, 400])), Err(AuthError::NotDelegate));
}

#[test]
fn delegate_without_committee_is_refused() {
    let c = config();
    assert_eq!(authorize(&c, Some(&[DELEGATE])), Err(AuthError::UnknownCommittee));
    assert_eq!(authorize(&c, Some(&[DELEGATE, 300, 999])), Err(AuthError::UnknownCommittee));
}

#[test]
fn delegate_on_one_committee_is_authorized_for_it() {
    let c = config();
    assert_eq!(authorize(&c, Some(&[LEGAL, DELEGATE])), Ok(0));
    assert_eq!(authorize(&c, Some(&[DELEGATE, FINANCE])), Ok(1));
    assert_eq!(authorize(&c, Some(&[PRESS, DELEGATE])), Ok(2));
}

#[test]
fn of_several_committees_the_first_configured_wins() {
    let c = config();
    assert_eq!(authorize(&c, Some(&[PRESS, FINANCE, DELEGATE])), Ok(1));
    assert_eq!(authorize(&c, Some(&[DELEGATE, PRESS, LEGAL, FINANCE])), Ok(0));
    assert_eq!(find_committee(c.committees(), &[PRESS, FINANCE]), Some(1));
    assert_eq!(find_committee(c.committees(), &[]), None);
}

#[test]
fn authorization_with_no_committees_configured() {
    let c = Config::new(
        "t".to_string(),
        "1".to_string(),
        "2".to_string(),
        "3".to_string(),
        "4".to_string(),
        Vec::new(),
    )
    .unwrap();
    assert_eq!(authorize(&c, Some(&[2])), Err(AuthError::UnknownCommittee));
}

#[test]
fn guild_must_be_the_configured_one() {
    let c = config();
    assert!(in_configured_guild(&c, Some(GUILD)));
    assert!(!in_configured_guild(&c, Some(GUILD + 1)));
    assert!(!in_configured_guild(&c, None));
}

#[test]
fn committee_by_its_name_in_any_case() {
    let c = config();
    assert_eq!(resolve_committee(&c, "Finance", &guild_roles()), Some(1));
    assert_eq!(resolve_committee(&c, "finance", &guild_roles()), Some(1));
    assert_eq!(resolve_committee(&c, "FINANCE", &guild_roles()), Some(1));
    assert_eq!(resolve_committee(&c, "lEgAl", &[]), Some(0));
}

#[test]
fn committee_by_the_name_of_its_role() {
    let c = config();
    assert_eq!(resolve_committee(&c, "treasury", &guild_roles()), Some(1));
    assert_eq!(resolve_committee(&c, "LEGAL COMMITTEE", &guild_roles()), Some(0));
}

#[test]
fn role_name_counts_only_for_the_committee_with_that_role() {
    let c = config();
    assert_eq!(resolve_committee(&c, "delegate", &guild_roles()), None);
    assert_eq!(resolve_committee(&c, "treasury", &[]), None);
}

#[test]
fn unknown_name_resolves_to_nothing() {
    let c = config();
    assert_eq!(resolve_committee(&c, "Sports", &guild_roles()), None);
    assert_eq!(resolve_committee(&c, "", &guild_roles()), None);
    assert_eq!(resolve_committee(&c, "Finance ", &guild_roles()), None);
}

#[test]
fn of_several_names_the_first_configured_wins() {
    let c = Config::new(
        "t".to_string(),
        "1".to_string(),
        "2".to_string(),
        "3".to_string(),
        "4".to_string(),
        vec![committee("Alpha", 5, 6), committee("Beta", 7, 8), committee("beta", 9, 10)],
    )
    .unwrap();
    let roles = vec![GuildRole { id: 5, name: "Beta".to_string() }];
    assert_eq!(resolve_committee(&c, "BETA", &roles), Some(0));
    assert_eq!(resolve_committee(&c, "BETA", &[]), Some(1));
}

#[test]
fn joining_with_no_roles_gives_both() {
    assert_eq!(plan_roles(&config(), 1, &[]), plan(&[], &[FINANCE, DELEGATE]));
}

#[test]
fn joining_from_another_committee_swaps_the_role() {
    assert_eq!(plan_roles(&config(), 1, &[LEGAL, DELEGATE]), plan(&[LEGAL], &[FINANCE]));
}

#[test]
fn joining_from_two_committees_removes_the_other() {
    assert_eq!(plan_roles(&config(), 1, &[LEGAL, FINANCE]), plan(&[LEGAL], &[DELEGATE]));
}

#[test]
fn joining_removes_every_other_committee_role() {
    assert_eq!(
        plan_roles(&config(), 0, &[PRESS, 300, FINANCE, LEGAL, DELEGATE]),
        plan(&[PRESS, FINANCE], &[])
    );
}

#[test]
fn joining_leaves_other_roles_alone() {
    assert_eq!(plan_roles(&config(), 2, &[300, 400, 999]), plan(&[], &[PRESS, DELEGATE]));
}

#[test]
fn joining_names_a_repeated_role_once() {
    assert_eq!(plan_roles(&config(), 1, &[LEGAL, LEGAL, PRESS, LEGAL]).remove, vec![LEGAL, PRESS]);
}

#[test]
fn joining_when_committee_role_is_the_delegate_role() {
    let c = Config::new(
        "t".to_string(),
        "1".to_string(),
        "7".to_string(),
        "3".to_string(),
        "4".to_string(),
        vec![committee("Only", 7, 8)],
    )
    .unwrap();
    assert_eq!(plan_roles(&c, 0, &[]), plan(&[], &[7]));
    assert_eq!(plan_roles(&c, 0, &[7]), plan(&[], &[]));
}

#[test]
fn joining_twice_changes_nothing_the_second_time() {
    let c = config();
    let before = [FINANCE, DELEGATE];
    let first = plan_roles(&c, 1, &before);
    assert_eq!(first, plan(&[], &[]));
    let after = carry_out(&before, &first);
    assert_eq!(plan_roles(&c, 1, &after), plan(&[], &[]));
    assert_eq!(
        join(&c, Some(GUILD), "Finance", &guild_roles(), &before),
        JoinOutcome::Assigned { committee: 1, plan: plan(&[], &[]) }
    );
    assert_eq!(
        join(&c, Some(GUILD), "Finance", &guild_roles(), &after),
        JoinOutcome::Assigned { committee: 1, plan: plan(&[], &[]) }
    );
}

#[test]
fn joining_settles_after_one_change() {
    let c = config();
    for before in [vec![], vec![LEGAL], vec![PRESS, LEGAL, 300], vec![DELEGATE, PRESS]] {
        let first = plan_roles(&c, 1, &before);
        let after = carry_out(&before, &first);
        assert!(after.contains(&FINANCE));
        assert!(after.contains(&DELEGATE));
        assert!(!after.contains(&LEGAL));
        assert!(!after.contains(&PRESS));
        assert_eq!(plan_roles(&c, 1, &after), plan(&[], &[]));
    }
}

#[test]
fn member_of_legal_and_finance_joins_finance() {
    assert_eq!(
        join(&config(), Some(GUILD), "Finance", &guild_roles(), &[LEGAL, FINANCE]),
        JoinOutcome::Assigned { committee: 1, plan: plan(&[LEGAL], &[DELEGATE]) }
    );
}

#[test]
fn join_outside_the_guild_changes_nothing() {
    let c = config();
    assert_eq!(join(&c, None, "Finance", &guild_roles(), &[LEGAL]), JoinOutcome::WrongGuild);
    assert_eq!(join(&c, Some(5), "Finance", &guild_roles(), &[LEGAL]), JoinOutcome::WrongGuild);
    assert_eq!(join(&c, Some(5), "Sports", &guild_roles(), &[LEGAL]), JoinOutcome::WrongGuild);
}

#[test]
fn join_with_unknown_name_changes_nothing() {
    assert_eq!(
        join(&config(), Some(GUILD), "Sports", &guild_roles(), &[LEGAL]),
        JoinOutcome::UnknownCommittee
    );
}

#[test]
fn join_by_role_name() {
    assert_eq!(
        join(&config(), Some(GUILD), "Treasury", &guild_roles(), &[DELEGATE]),
        JoinOutcome::Assigned { committee: 1, plan: plan(&[], &[FINANCE]) }
    );
}
