//! The bot's configuration: the guild it serves, the roles it knows and the
//! committees it relays to.
//!
//! Identifiers are kept as the decimal text in which they are stored and are
//! read as 64-bit integers. A value of either type can only hold identifiers
//! that read as such, so reading one never fails.

use crate::decimal::{is_numeral, numeral_value, parse_u64, parsed};
use vstd::prelude::*;

verus! {

/// A committee as the contracts see it.
pub struct CommitteeView {
    pub name: Seq<char>,
    pub role_id: u64,
    pub channel_id: u64,
}

/// A configuration as the contracts see it.
pub struct ConfigView {
    pub token: Seq<char>,
    pub guild_id: u64,
    pub delegate_role_id: u64,
    pub staff_role_id: u64,
    pub chair_role_id: u64,
    pub committees: Seq<CommitteeView>,
}

/// A named working group with a role of its own and a private channel.
#[derive(Debug, PartialEq, Eq)]
pub struct Committee {
    name: String,
    role_id: String,
    channel_id: String,
}

/// Everything the bot is told at start-up. Never changed afterwards.
#[derive(Debug, PartialEq, Eq)]
pub struct Config {
    token: String,
    guild_id: String,
    delegate_role_id: String,
    staff_role_id: String,
    chair_role_id: String,
    committees: Vec<Committee>,
}

/// The committees of a list, each as the contracts see it.
pub open spec fn committee_views(s: Seq<Committee>) -> Seq<CommitteeView> {
    s.map_values(|c: Committee| c@)
}

impl View for Committee {
    type V = CommitteeView;

    closed spec fn view(&self) -> CommitteeView {
        CommitteeView {
            name: self.name@,
            role_id: numeral_value(self.role_id@) as u64,
            channel_id: numeral_value(self.channel_id@) as u64,
        }
    }
}

impl View for Config {
    type V = ConfigView;

    closed spec fn view(&self) -> ConfigView {
        ConfigView {
            token: self.token@,
            guild_id: numeral_value(self.guild_id@) as u64,
            delegate_role_id: numeral_value(self.delegate_role_id@) as u64,
            staff_role_id: numeral_value(self.staff_role_id@) as u64,
            chair_role_id: numeral_value(self.chair_role_id@) as u64,
            committees: committee_views(self.committees@),
        }
    }
}

impl Clone for Committee {
    fn clone(&self) -> (r: Self)
        ensures
            r@ == self@,
    {
        proof {
            use_type_invariant(self);
        }
        Committee {
            name: self.name.clone(),
            role_id: self.role_id.clone(),
            channel_id: self.channel_id.clone(),
        }
    }
}

impl Clone for Config {
    fn clone(&self) -> (r: Self)
        ensures
            r@ == self@,
    {
        proof {
            use_type_invariant(self);
        }
        let mut committees: Vec<Committee> = Vec::new();
        let mut i: usize = 0;
        while i < self.committees.len()
            invariant
                i <= self.committees.len(),
                committees.len() == i,
                forall|j: int| 0 <= j < i ==> committees[j]@ == self.committees[j]@,
            decreases self.committees.len() - i,
        {
            committees.push(self.committees[i].clone());
            i = i + 1;
        }
        assert(committee_views(committees@) =~= committee_views(self.committees@));
        Config {
            token: self.token.clone(),
            guild_id: self.guild_id.clone(),
            delegate_role_id: self.delegate_role_id.clone(),
            staff_role_id: self.staff_role_id.clone(),
            chair_role_id: self.chair_role_id.clone(),
            committees,
        }
    }
}

impl Committee {
    #[verifier::type_invariant]
    spec fn well_formed(&self) -> bool {
        is_numeral(self.role_id@) && is_numeral(self.channel_id@)
    }

    /// A committee from its stored form. There is one exactly when both
    /// identifiers are decimal numerals of 64-bit integers.
    pub fn new(name: String, role_id: String, channel_id: String) -> (r: Option<Committee>)
        ensures
            r is Some <==> is_numeral(role_id@) && is_numeral(channel_id@),
            r matches Some(c) ==> c@ == (CommitteeView {
                name: name@,
                role_id: parsed(role_id@)->0,
                channel_id: parsed(channel_id@)->0,
            }),
    {
        if parse_u64(role_id.as_str()).is_none() || parse_u64(channel_id.as_str()).is_none() {
            return None;
        }
        Some(Committee { name, role_id, channel_id })
    }

    /// The committee's display name.
    pub fn name(&self) -> (r: &str)
        ensures
            r@ == self@.name,
    {
        self.name.as_str()
    }

    /// The role that marks a member as belonging to this committee.
    pub fn role_id(&self) -> (r: u64)
        ensures
            r == self@.role_id,
    {
        proof {
            use_type_invariant(self);
        }
        parse_u64(self.role_id.as_str()).unwrap()
    }

    /// The channel in which this committee receives requests.
    pub fn channel_id(&self) -> (r: u64)
        ensures
            r == self@.channel_id,
    {
        proof {
            use_type_invariant(self);
        }
        parse_u64(self.channel_id.as_str()).unwrap()
    }
}

impl Config {
    #[verifier::type_invariant]
    spec fn well_formed(&self) -> bool {
        &&& is_numeral(self.guild_id@)
        &&& is_numeral(self.delegate_role_id@)
        &&& is_numeral(self.staff_role_id@)
        &&& is_numeral(self.chair_role_id@)
    }

    /// A configuration from its stored form. There is one exactly when the
    /// four identifiers are decimal numerals of 64-bit integers.
    pub fn new(
        token: String,
        guild_id: String,
        delegate_role_id: String,
        staff_role_id: String,
        chair_role_id: String,
        committees: Vec<Committee>,
    ) -> (r: Option<Config>)
        ensures
            r is Some <==> is_numeral(guild_id@) && is_numeral(delegate_role_id@) && is_numeral(
                staff_role_id@,
            ) && is_numeral(chair_role_id@),
            r matches Some(c) ==> c@ == (ConfigView {
                token: token@,
                guild_id: parsed(guild_id@)->0,
                delegate_role_id: parsed(delegate_role_id@)->0,
                staff_role_id: parsed(staff_role_id@)->0,
                chair_role_id: parsed(chair_role_id@)->0,
                committees: committee_views(committees@),
            }),
    {
        if parse_u64(guild_id.as_str()).is_none() || parse_u64(delegate_role_id.as_str()).is_none()
            || parse_u64(staff_role_id.as_str()).is_none() || parse_u64(
            chair_role_id.as_str(),
        ).is_none() {
            return None;
        }
        Some(Config { token, guild_id, delegate_role_id, staff_role_id, chair_role_id, committees })
    }

    /// The secret with which the bot signs in.
    pub fn token(&self) -> (r: &str)
        ensures
            r@ == self@.token,
    {
        self.token.as_str()
    }

    /// The guild that the bot serves.
    pub fn guild_id(&self) -> (r: u64)
        ensures
            r == self@.guild_id,
    {
        proof {
            use_type_invariant(self);
        }
        parse_u64(self.guild_id.as_str()).unwrap()
    }

    /// The role that lets a member forward messages.
    pub fn delegate_role_id(&self) -> (r: u64)
        ensures
            r == self@.delegate_role_id,
    {
        proof {
            use_type_invariant(self);
        }
        parse_u64(self.delegate_role_id.as_str()).unwrap()
    }

    /// The role of the staff.
    pub fn staff_role_id(&self) -> (r: u64)
        ensures
            r == self@.staff_role_id,
    {
        proof {
            use_type_invariant(self);
        }
        parse_u64(self.staff_role_id.as_str()).unwrap()
    }

    /// The role of the committee chairs.
    pub fn chair_role_id(&self) -> (r: u64)
        ensures
            r == self@.chair_role_id,
    {
        proof {
            use_type_invariant(self);
        }
        parse_u64(self.chair_role_id.as_str()).unwrap()
    }

    /// The committees, in the order in which they were configured.
    pub fn committees(&self) -> (r: &[Committee])
        ensures
            committee_views(r@) == self@.committees,
    {
        self.committees.as_slice()
    }
}

} // verus!
