//! Who may forward, and to which committee.
//!
//! A requester is authorized when they are a member of the guild, hold the
//! delegate role and hold the role of at least one committee. Where they hold
//! the roles of several, the committee that was configured first is theirs.

use crate::config::{committee_views, Committee, CommitteeView, Config, ConfigView};
use vstd::prelude::*;

verus! {

/// Why a requester may not forward.
#[derive(Debug, Clone, Copy, PartialEq, Eq, Structural)]
pub enum AuthError {
    /// The requester is not a member of the guild.
    Unacquainted,
    /// The requester does not hold the delegate role.
    NotDelegate,
    /// None of the requester's roles is the role of a committee.
    UnknownCommittee,
}

/// The position of the first committee whose role is among `roles`.
pub open spec fn first_committee(committees: Seq<CommitteeView>, roles: Seq<u64>) -> Option<int>
    decreases committees.len(),
{
    if committees.len() == 0 {
        None
    } else {
        match first_committee(committees.drop_last(), roles) {
            Some(i) => Some(i),
            None => if roles.contains(committees.last().role_id) {
                Some(committees.len() - 1)
            } else {
                None
            },
        }
    }
}

/// What is decided for a requester with the given roles; `None` stands
/// for a requester who is not a member of the guild.
pub open spec fn authorization(cfg: ConfigView, member: Option<Seq<u64>>) -> Result<
    int,
    AuthError,
> {
    match member {
        None => Err(AuthError::Unacquainted),
        Some(roles) => if !roles.contains(cfg.delegate_role_id) {
            Err(AuthError::NotDelegate)
        } else {
            match first_committee(cfg.committees, roles) {
                Some(i) => Ok(i),
                None => Err(AuthError::UnknownCommittee),
            }
        },
    }
}

/// `first_committee` finds a committee exactly when some committee's role is
/// held, and the one it finds is the earliest such.
pub proof fn lemma_first_committee(committees: Seq<CommitteeView>, roles: Seq<u64>)
    ensures
        match first_committee(committees, roles) {
            Some(i) => {
                &&& 0 <= i < committees.len()
                &&& roles.contains(committees[i].role_id)
                &&& forall|j: int| 0 <= j < i ==> !roles.contains(#[trigger] committees[j].role_id)
            },
            None => forall|j: int|
                0 <= j < committees.len() ==> !roles.contains(#[trigger] committees[j].role_id),
        },
    decreases committees.len(),
{
    if committees.len() > 0 {
        let front = committees.drop_last();
        lemma_first_committee(front, roles);
        assert forall|j: int| 0 <= j < front.len() implies front[j] == committees[j] by {}
        match first_committee(front, roles) {
            Some(i) => {
                assert(front[i] == committees[i]);
                assert forall|j: int| 0 <= j < i implies !roles.contains(
                    #[trigger] committees[j].role_id,
                ) by {
                    assert(front[j] == committees[j]);
                }
            },
            None => {
                assert forall|j: int| 0 <= j < committees.len() - 1 implies !roles.contains(
                    #[trigger] committees[j].role_id,
                ) by {
                    assert(front[j] == committees[j]);
                }
            },
        }
    }
}

/// Whether `role` is among `roles`.
pub fn holds_role(roles: &[u64], role: u64) -> (r: bool)
    ensures
        r == roles@.contains(role),
{
    let mut i: usize = 0;
    while i < roles.len()
        invariant
            i <= roles.len(),
            forall|j: int| 0 <= j < i ==> roles@[j] != role,
        decreases roles.len() - i,
    {
        if roles[i] == role {
            return true;
        }
        i = i + 1;
    }
    false
}

/// The position of the first committee whose role the member holds.
pub fn find_committee(committees: &[Committee], roles: &[u64]) -> (r: Option<usize>)
    ensures
        match r {
            Some(i) => i < committees@.len() && first_committee(
                committee_views(committees@),
                roles@,
            ) == Some(i as int),
            None => first_committee(committee_views(committees@), roles@) is None,
        },
{
    let ghost views = committee_views(committees@);
    let mut i: usize = 0;
    while i < committees.len()
        invariant
            i <= committees.len(),
            views == committee_views(committees@),
            first_committee(views.take(i as int), roles@) is None,
        decreases committees.len() - i,
    {
        let held = holds_role(roles, committees[i].role_id());
        proof {
            assert(views.take(i + 1).drop_last() =~= views.take(i as int));
            assert(views.take(i + 1).last() == committees[i as int]@);
        }
        if held {
            proof {
                lemma_found_stays(views, roles@, i as int);
            }
            return Some(i);
        }
        i = i + 1;
    }
    assert(views.take(i as int) =~= views);
    None
}

/// A committee found among the first `i + 1` is the one found among all.
proof fn lemma_found_stays(committees: Seq<CommitteeView>, roles: Seq<u64>, i: int)
    requires
        0 <= i < committees.len(),
        first_committee(committees.take(i + 1), roles) == Some(i),
    ensures
        first_committee(committees, roles) == Some(i),
    decreases committees.len(),
{
    if committees.len() == i + 1 {
        assert(committees.take(i + 1) =~= committees);
    } else {
        assert(committees.drop_last().take(i + 1) =~= committees.take(i + 1));
        lemma_found_stays(committees.drop_last(), roles, i);
    }
}

/// Decides whether a requester may forward, and to which committee.
///
/// `member` holds the requester's roles, or nothing where the requester is
/// not a member of the guild. The result is the committee's position in the
/// configuration.
pub fn authorize(config: &Config, member: Option<&[u64]>) -> (r: Result<usize, AuthError>)
    ensures
        match r {
            Ok(i) => i < config@.committees.len() && authorization(
                config@,
                match member {
                    Some(roles) => Some(roles@),
                    None => None,
                },
            ) == Ok::<int, AuthError>(i as int),
            Err(e) => authorization(
                config@,
                match member {
                    Some(roles) => Some(roles@),
                    None => None,
                },
            ) == Err::<int, AuthError>(e),
        },
{
    match member {
        None => Err(AuthError::Unacquainted),
        Some(roles) => {
            if !holds_role(roles, config.delegate_role_id()) {
                return Err(AuthError::NotDelegate);
            }
            match find_committee(config.committees(), roles) {
                Some(i) => Ok(i),
                None => Err(AuthError::UnknownCommittee),
            }
        },
    }
}

/// A member who holds exactly the delegate role and the role of one
/// committee is authorized for that committee, provided no committee
/// configured before it goes by either of the two roles.
pub proof fn lemma_sole_committee(cfg: ConfigView, roles: Seq<u64>, i: int)
    requires
        0 <= i < cfg.committees.len(),
        forall|r: u64|
            roles.contains(r) <==> (r == cfg.committees[i].role_id || r == cfg.delegate_role_id),
        forall|j: int|
            0 <= j < i ==> (#[trigger] cfg.committees[j]).role_id != cfg.committees[i].role_id
                && cfg.committees[j].role_id != cfg.delegate_role_id,
    ensures
        authorization(cfg, Some(roles)) == Ok::<int, AuthError>(i),
{
    lemma_first_committee(cfg.committees, roles);
    assert(roles.contains(cfg.committees[i].role_id));
    match first_committee(cfg.committees, roles) {
        Some(k) => {
            if k < i {
                assert(roles.contains(cfg.committees[k].role_id));
                assert(cfg.committees[k].role_id != cfg.committees[i].role_id);
            }
        },
        None => {},
    }
}

/// A requester who does not hold the delegate role is turned away as such,
/// whatever else they hold.
pub proof fn lemma_not_delegate(cfg: ConfigView, roles: Seq<u64>)
    requires
        !roles.contains(cfg.delegate_role_id),
    ensures
        authorization(cfg, Some(roles)) == Err::<int, AuthError>(AuthError::NotDelegate),
{
}

} // verus!
