//! Joining a committee: which committee a name stands for, and which roles
//! the member loses and gains.
//!
//! A member who joins a committee gives up the roles of all other
//! committees and is given the committee's role and the delegate role, as
//! far as they do not hold them already.

use crate::config::{committee_views, Committee, CommitteeView, Config, ConfigView};
use vstd::prelude::*;

verus! {

/// A role of the guild, as the platform reports it.
#[derive(Debug, PartialEq, Eq)]
pub struct GuildRole {
    pub id: u64,
    pub name: String,
}

/// The roles to take from a member and the roles to give, each without
/// repetition. The removal comes first.
#[derive(Debug, PartialEq, Eq)]
pub struct RolePlan {
    pub remove: Vec<u64>,
    pub add: Vec<u64>,
}

/// What becomes of a request to join.
#[derive(Debug, PartialEq, Eq)]
pub enum JoinOutcome {
    /// The command was not given in the configured guild. Nothing changes.
    WrongGuild,
    /// No committee goes by the name given. Nothing changes.
    UnknownCommittee,
    /// The member joins the committee at this position of the configuration.
    Assigned { committee: usize, plan: RolePlan },
}

/// What `str::to_lowercase` returns: the text with every character replaced
/// by its lowercase form as Unicode defines it, independent of any locale.
pub uninterp spec fn lowercase(s: Seq<char>) -> Seq<char>;

/// `str::to_lowercase`.
#[verifier::external_body]
pub(crate) fn to_lowercase(s: &str) -> (r: String)
    ensures
        r@ == lowercase(s@),
{
    s.to_lowercase()
}

/// Whether two names are the same but for the case of their letters.
pub open spec fn same_name(a: Seq<char>, b: Seq<char>) -> bool {
    lowercase(a) == lowercase(b)
}

/// Whether the guild has a role with this identifier that goes by `query`.
pub open spec fn role_named(guild_roles: Seq<GuildRole>, id: u64, query: Seq<char>) -> bool {
    exists|k: int|
        0 <= k < guild_roles.len() && (#[trigger] guild_roles[k]).id == id && same_name(
            query,
            guild_roles[k].name@,
        )
}

/// Whether `query` names the committee: by its own name or by the name of
/// its role.
pub open spec fn names_committee(
    c: CommitteeView,
    guild_roles: Seq<GuildRole>,
    query: Seq<char>,
) -> bool {
    same_name(query, c.name) || role_named(guild_roles, c.role_id, query)
}

/// The position of the first committee that `query` names.
pub open spec fn first_named(
    committees: Seq<CommitteeView>,
    guild_roles: Seq<GuildRole>,
    query: Seq<char>,
) -> Option<int>
    decreases committees.len(),
{
    if committees.len() == 0 {
        None
    } else {
        match first_named(committees.drop_last(), guild_roles, query) {
            Some(i) => Some(i),
            None => if names_committee(committees.last(), guild_roles, query) {
                Some(committees.len() - 1)
            } else {
                None
            },
        }
    }
}

/// Whether `role` is the role of some committee.
pub open spec fn is_committee_role(committees: Seq<CommitteeView>, role: u64) -> bool {
    exists|j: int| 0 <= j < committees.len() && (#[trigger] committees[j]).role_id == role
}

/// Whether `role` is the role of a committee other than the one joined.
pub open spec fn other_committee_role(
    committees: Seq<CommitteeView>,
    target: u64,
    role: u64,
) -> bool {
    role != target && is_committee_role(committees, role)
}

/// The roles to take from a member who joins the committee with the role
/// `target`: the roles of other committees that the member holds, in the
/// order in which the member holds them, each once.
pub open spec fn removals(committees: Seq<CommitteeView>, target: u64, roles: Seq<u64>) -> Seq<
    u64,
>
    decreases roles.len(),
{
    if roles.len() == 0 {
        Seq::empty()
    } else {
        let front = removals(committees, target, roles.drop_last());
        let r = roles.last();
        if other_committee_role(committees, target, r) && !front.contains(r) {
            front.push(r)
        } else {
            front
        }
    }
}

/// The roles to give to a member who joins the committee with the role
/// `target`: that role and the delegate role, as far as the member holds
/// neither, each once.
pub open spec fn additions(target: u64, delegate: u64, roles: Seq<u64>) -> Seq<u64> {
    let first = if roles.contains(target) {
        Seq::<u64>::empty()
    } else {
        seq![target]
    };
    if roles.contains(delegate) || delegate == target {
        first
    } else {
        first.push(delegate)
    }
}

/// Whether a member holds `role` once `remove` was taken from `roles` and
/// `add` was given.
pub open spec fn held_after(roles: Seq<u64>, remove: Seq<u64>, add: Seq<u64>, role: u64) -> bool {
    (roles.contains(role) && !remove.contains(role)) || add.contains(role)
}

/// Whether the command was given in the guild that the bot serves.
pub fn in_configured_guild(config: &Config, guild_id: Option<u64>) -> (r: bool)
    ensures
        r == (guild_id == Some(config@.guild_id)),
{
    match guild_id {
        Some(id) => id == config.guild_id(),
        None => false,
    }
}

/// Whether the guild has a role with this identifier whose name, in
/// lowercase, is `lowered`.
fn role_goes_by(guild_roles: &[GuildRole], id: u64, lowered: &String, Ghost(query): Ghost<
    Seq<char>,
>) -> (r: bool)
    requires
        lowered@ == lowercase(query),
    ensures
        r == role_named(guild_roles@, id, query),
{
    let mut k: usize = 0;
    while k < guild_roles.len()
        invariant
            k <= guild_roles.len(),
            lowered@ == lowercase(query),
            forall|j: int|
                0 <= j < k ==> !((#[trigger] guild_roles@[j]).id == id && same_name(
                    query,
                    guild_roles@[j].name@,
                )),
        decreases guild_roles.len() - k,
    {
        if guild_roles[k].id == id {
            let name = to_lowercase(guild_roles[k].name.as_str());
            if *lowered == name {
                return true;
            }
        }
        k = k + 1;
    }
    false
}

/// Finds the committee that a name stands for.
///
/// The name stands for a committee when, letter case aside, it is the
/// committee's name or the name of the committee's role in the guild. Of
/// several such committees the one configured first is found.
pub fn resolve_committee(config: &Config, query: &str, guild_roles: &[GuildRole]) -> (r: Option<
    usize,
>)
    ensures
        match r {
            Some(i) => i < config@.committees.len() && first_named(
                config@.committees,
                guild_roles@,
                query@,
            ) == Some(i as int),
            None => first_named(config@.committees, guild_roles@, query@) is None,
        },
{
    let committees = config.committees();
    let lowered = to_lowercase(query);
    let ghost views = config@.committees;
    let mut i: usize = 0;
    while i < committees.len()
        invariant
            i <= committees.len(),
            views == config@.committees,
            views == committee_views(committees@),
            lowered@ == lowercase(query@),
            first_named(views.take(i as int), guild_roles@, query@) is None,
        decreases committees.len() - i,
    {
        let c = &committees[i];
        let by_name = lowered == to_lowercase(c.name());
        let found = by_name || role_goes_by(guild_roles, c.role_id(), &lowered, Ghost(query@));
        proof {
            assert(views.take(i + 1).drop_last() =~= views.take(i as int));
            assert(views.take(i + 1).last() == c@);
        }
        if found {
            proof {
                lemma_named_stays(views, guild_roles@, query@, i as int);
            }
            return Some(i);
        }
        i = i + 1;
    }
    assert(views.take(i as int) =~= views);
    None
}

/// A committee found among the first `i + 1` is the one found among all.
proof fn lemma_named_stays(
    committees: Seq<CommitteeView>,
    guild_roles: Seq<GuildRole>,
    query: Seq<char>,
    i: int,
)
    requires
        0 <= i < committees.len(),
        first_named(committees.take(i + 1), guild_roles, query) == Some(i),
    ensures
        first_named(committees, guild_roles, query) == Some(i),
    decreases committees.len(),
{
    if committees.len() == i + 1 {
        assert(committees.take(i + 1) =~= committees);
    } else {
        assert(committees.drop_last().take(i + 1) =~= committees.take(i + 1));
        lemma_named_stays(committees.drop_last(), guild_roles, query, i);
    }
}

/// Whether `role` is the role of a committee other than the one joined.
fn is_other_committee_role(committees: &[Committee], target: u64, role: u64) -> (r: bool)
    ensures
        r == other_committee_role(committee_views(committees@), target, role),
{
    if role == target {
        return false;
    }
    let ghost views = committee_views(committees@);
    let mut j: usize = 0;
    while j < committees.len()
        invariant
            j <= committees.len(),
            role != target,
            views == committee_views(committees@),
            forall|k: int| 0 <= k < j ==> (#[trigger] views[k]).role_id != role,
        decreases committees.len() - j,
    {
        if committees[j].role_id() == role {
            assert(views[j as int] == committees@[j as int]@);
            assert(is_committee_role(views, role));
            return true;
        }
        j = j + 1;
    }
    false
}

/// Whether `role` occurs in `roles`.
fn contains_role(roles: &Vec<u64>, role: u64) -> (r: bool)
    ensures
        r == roles@.contains(role),
{
    let mut i: usize = 0;
    while i < roles.len()
        invariant
            i <= roles.len(),
            forall|j: int| 0 <= j < i ==> roles@[j] != role,
        decreases roles.len() - i,
    {
        if roles[i] == role {
            return true;
        }
        i = i + 1;
    }
    false
}

/// Works out the roles to take and to give when a member joins the committee
/// at position `committee`.
pub fn plan_roles(config: &Config, committee: usize, member_roles: &[u64]) -> (r: RolePlan)
    requires
        committee < config@.committees.len(),
    ensures
        r.remove@ == removals(
            config@.committees,
            config@.committees[committee as int].role_id,
            member_roles@,
        ),
        r.add@ == additions(
            config@.committees[committee as int].role_id,
            config@.delegate_role_id,
            member_roles@,
        ),
{
    let committees = config.committees();
    let ghost views = config@.committees;
    assert(views[committee as int] == committees@[committee as int]@);
    let target = committees[committee].role_id();
    let delegate = config.delegate_role_id();

    let mut remove: Vec<u64> = Vec::new();
    let mut held_target = false;
    let mut held_delegate = false;
    let mut i: usize = 0;
    while i < member_roles.len()
        invariant
            i <= member_roles.len(),
            views == committee_views(committees@),
            remove@ == removals(views, target, member_roles@.take(i as int)),
            held_target == member_roles@.take(i as int).contains(target),
            held_delegate == member_roles@.take(i as int).contains(delegate),
        decreases member_roles.len() - i,
    {
        let role = member_roles[i];
        proof {
            let next = member_roles@.take(i + 1);
            assert(next.drop_last() =~= member_roles@.take(i as int));
            assert(next.last() == role);
            assert forall|x: u64| next.contains(x) <==> (member_roles@.take(i as int).contains(x)
                || x == role) by {
                if next.contains(x) {
                    let k = choose|k: int| 0 <= k < next.len() && next[k] == x;
                    if k < i {
                        assert(member_roles@.take(i as int)[k] == x);
                    }
                }
                if member_roles@.take(i as int).contains(x) {
                    let k = choose|k: int|
                        0 <= k < i && member_roles@.take(i as int)[k] == x;
                    assert(next[k] == x);
                }
                if x == role {
                    assert(next[i as int] == x);
                }
            }
        }
        if is_other_committee_role(committees, target, role) && !contains_role(&remove, role) {
            remove.push(role);
        }
        if role == target {
            held_target = true;
        }
        if role == delegate {
            held_delegate = true;
        }
        i = i + 1;
    }
    assert(member_roles@.take(i as int) =~= member_roles@);

    let mut add: Vec<u64> = Vec::new();
    if !held_target {
        add.push(target);
    }
    if !held_delegate && delegate != target {
        add.push(delegate);
    }
    assert(add@ =~= additions(target, delegate, member_roles@));
    RolePlan { remove, add }
}

/// Decides a request to join, with everything about guild and member at
/// hand.
///
/// `guild_id` is the guild in which the command was given, if it was given
/// in one; `query` the name that the member wrote; `guild_roles` the roles
/// of that guild; `member_roles` the roles that the member holds.
pub fn join(
    config: &Config,
    guild_id: Option<u64>,
    query: &str,
    guild_roles: &[GuildRole],
    member_roles: &[u64],
) -> (r: JoinOutcome)
    ensures
        match r {
            JoinOutcome::WrongGuild => guild_id != Some(config@.guild_id),
            JoinOutcome::UnknownCommittee => guild_id == Some(config@.guild_id) && first_named(
                config@.committees,
                guild_roles@,
                query@,
            ) is None,
            JoinOutcome::Assigned { committee, plan } => {
                &&& guild_id == Some(config@.guild_id)
                &&& first_named(config@.committees, guild_roles@, query@) == Some(committee as int)
                &&& committee < config@.committees.len()
                &&& plan.remove@ == removals(
                    config@.committees,
                    config@.committees[committee as int].role_id,
                    member_roles@,
                )
                &&& plan.add@ == additions(
                    config@.committees[committee as int].role_id,
                    config@.delegate_role_id,
                    member_roles@,
                )
            },
        },
{
    if !in_configured_guild(config, guild_id) {
        return JoinOutcome::WrongGuild;
    }
    match resolve_committee(config, query, guild_roles) {
        None => JoinOutcome::UnknownCommittee,
        Some(committee) => {
            let plan = plan_roles(config, committee, member_roles);
            JoinOutcome::Assigned { committee, plan }
        },
    }
}

/// `first_named` finds a committee exactly when the name stands for one, and
/// the one it finds is the earliest such.
pub proof fn lemma_first_named(
    committees: Seq<CommitteeView>,
    guild_roles: Seq<GuildRole>,
    query: Seq<char>,
)
    ensures
        match first_named(committees, guild_roles, query) {
            Some(i) => {
                &&& 0 <= i < committees.len()
                &&& names_committee(committees[i], guild_roles, query)
                &&& forall|j: int|
                    0 <= j < i ==> !names_committee(#[trigger] committees[j], guild_roles, query)
            },
            None => forall|j: int|
                0 <= j < committees.len() ==> !names_committee(
                    #[trigger] committees[j],
                    guild_roles,
                    query,
                ),
        },
    decreases committees.len(),
{
    if committees.len() > 0 {
        let front = committees.drop_last();
        lemma_first_named(front, guild_roles, query);
        match first_named(front, guild_roles, query) {
            Some(i) => {
                assert(front[i] == committees[i]);
                assert forall|j: int| 0 <= j < i implies !names_committee(
                    #[trigger] committees[j],
                    guild_roles,
                    query,
                ) by {
                    assert(front[j] == committees[j]);
                }
            },
            None => {
                assert forall|j: int| 0 <= j < committees.len() - 1 implies !names_committee(
                    #[trigger] committees[j],
                    guild_roles,
                    query,
                ) by {
                    assert(front[j] == committees[j]);
                }
            },
        }
    }
}

/// The roles taken are exactly the roles of other committees that the member
/// holds, and none is taken twice.
pub proof fn lemma_removals(committees: Seq<CommitteeView>, target: u64, roles: Seq<u64>)
    ensures
        removals(committees, target, roles).no_duplicates(),
        forall|r: u64| #[trigger]
            removals(committees, target, roles).contains(r) <==> roles.contains(r)
                && other_committee_role(committees, target, r),
    decreases roles.len(),
{
    let out = removals(committees, target, roles);
    if roles.len() > 0 {
        let front_roles = roles.drop_last();
        let front = removals(committees, target, front_roles);
        let last = roles.last();
        lemma_removals(committees, target, front_roles);
        assert forall|r: u64| roles.contains(r) <==> (front_roles.contains(r) || r == last) by {
            if roles.contains(r) {
                let k = choose|k: int| 0 <= k < roles.len() && roles[k] == r;
                if k < roles.len() - 1 {
                    assert(front_roles[k] == r);
                }
            }
            if front_roles.contains(r) {
                let k = choose|k: int| 0 <= k < front_roles.len() && front_roles[k] == r;
                assert(roles[k] == r);
            }
            if r == last {
                assert(roles[roles.len() - 1] == r);
            }
        }
        if other_committee_role(committees, target, last) && !front.contains(last) {
            assert(out == front.push(last));
            assert forall|r: u64| out.contains(r) <==> (front.contains(r) || r == last) by {
                if out.contains(r) {
                    let k = choose|k: int| 0 <= k < out.len() && out[k] == r;
                    if k < front.len() {
                        assert(front[k] == r);
                    }
                }
                if front.contains(r) {
                    let k = choose|k: int| 0 <= k < front.len() && front[k] == r;
                    assert(out[k] == r);
                }
                if r == last {
                    assert(out[out.len() - 1] == r);
                }
            }
            assert forall|a: int, b: int| 0 <= a < out.len() && 0 <= b < out.len() && a
                != b implies out[a] != out[b] by {
                if a < front.len() && b < front.len() {
                    assert(front[a] != front[b]);
                } else if a < front.len() {
                    assert(front.contains(front[a]));
                } else if b < front.len() {
                    assert(front.contains(front[b]));
                }
            }
        }
    }
}

/// After joining, the member holds the committee's role and the delegate
/// role and the role of no other committee, provided the delegate role is
/// not itself the role of another committee.
pub proof fn lemma_join_settles(cfg: ConfigView, i: int, roles: Seq<u64>)
    requires
        0 <= i < cfg.committees.len(),
        !other_committee_role(cfg.committees, cfg.committees[i].role_id, cfg.delegate_role_id),
    ensures
        ({
            let target = cfg.committees[i].role_id;
            let remove = removals(cfg.committees, target, roles);
            let add = additions(target, cfg.delegate_role_id, roles);
            &&& held_after(roles, remove, add, target)
            &&& held_after(roles, remove, add, cfg.delegate_role_id)
            &&& forall|r: u64|
                held_after(roles, remove, add, r) ==> !other_committee_role(
                    cfg.committees,
                    target,
                    r,
                )
        }),
{
    let target = cfg.committees[i].role_id;
    let delegate = cfg.delegate_role_id;
    let remove = removals(cfg.committees, target, roles);
    let add = additions(target, delegate, roles);
    lemma_removals(cfg.committees, target, roles);
    assert(remove.contains(target) <==> roles.contains(target) && other_committee_role(
        cfg.committees,
        target,
        target,
    ));
    assert(remove.contains(delegate) <==> roles.contains(delegate) && other_committee_role(
        cfg.committees,
        target,
        delegate,
    ));
    lemma_additions(target, delegate, roles);
    assert forall|r: u64| held_after(roles, remove, add, r) implies !other_committee_role(
        cfg.committees,
        target,
        r,
    ) by {
        assert(remove.contains(r) <==> roles.contains(r) && other_committee_role(
            cfg.committees,
            target,
            r,
        ));
    }
}

/// The roles given are the committee's role and the delegate role, each
/// where the member does not hold it.
pub proof fn lemma_additions(target: u64, delegate: u64, roles: Seq<u64>)
    ensures
        additions(target, delegate, roles).no_duplicates(),
        forall|r: u64| #[trigger]
            additions(target, delegate, roles).contains(r) <==> (r == target || r == delegate)
                && !roles.contains(r),
{
    let add = additions(target, delegate, roles);
    assert forall|r: u64| #[trigger] add.contains(r) <==> (r == target || r == delegate)
        && !roles.contains(r) by {
        if add.contains(r) {
            let k = choose|k: int| 0 <= k < add.len() && add[k] == r;
            assert(add[k] == r);
        }
        if (r == target || r == delegate) && !roles.contains(r) {
            if r == target {
                assert(add[0] == r);
            } else {
                assert(add[add.len() - 1] == r);
            }
        }
    }
}

/// A member who holds the committee's role, the delegate role and the role
/// of no other committee neither loses nor gains a role by joining.
pub proof fn lemma_join_when_settled(cfg: ConfigView, i: int, roles: Seq<u64>)
    requires
        0 <= i < cfg.committees.len(),
        roles.contains(cfg.committees[i].role_id),
        roles.contains(cfg.delegate_role_id),
        forall|r: u64|
            roles.contains(r) ==> !other_committee_role(
                cfg.committees,
                cfg.committees[i].role_id,
                r,
            ),
    ensures
        removals(cfg.committees, cfg.committees[i].role_id, roles) == Seq::<u64>::empty(),
        additions(cfg.committees[i].role_id, cfg.delegate_role_id, roles) == Seq::<u64>::empty(),
{
    let target = cfg.committees[i].role_id;
    let remove = removals(cfg.committees, target, roles);
    lemma_removals(cfg.committees, target, roles);
    if remove.len() > 0 {
        assert(remove.contains(remove[0]));
    }
    assert(remove =~= Seq::<u64>::empty());
}

/// Joining twice changes nothing the second time: whatever the member held
/// before, the roles held after the first change call for no further one,
/// provided the delegate role is not itself the role of another committee.
pub proof fn lemma_join_idempotent(cfg: ConfigView, i: int, roles: Seq<u64>, after: Seq<u64>)
    requires
        0 <= i < cfg.committees.len(),
        !other_committee_role(cfg.committees, cfg.committees[i].role_id, cfg.delegate_role_id),
        forall|r: u64|
            after.contains(r) <==> held_after(
                roles,
                removals(cfg.committees, cfg.committees[i].role_id, roles),
                additions(cfg.committees[i].role_id, cfg.delegate_role_id, roles),
                r,
            ),
    ensures
        removals(cfg.committees, cfg.committees[i].role_id, after) == Seq::<u64>::empty(),
        additions(cfg.committees[i].role_id, cfg.delegate_role_id, after) == Seq::<u64>::empty(),
{
    lemma_join_settles(cfg, i, roles);
    lemma_join_when_settled(cfg, i, after);
}

} // verus!
