//! The persistent record of who may act: one owner, a list of admins, and
//! the bump of the record's own derived address.

use crate::identity::Identity;
use vstd::prelude::*;

verus! {

/// The program's state record. The owner and the admins are two separate
/// ways to be authorized: the owner is not looked for among the admins, and
/// may be listed there too.
#[derive(Clone, Debug, PartialEq, Eq)]
pub struct ProgramState {
    pub owner: Identity,
    pub admins: Vec<Identity>,
    pub bump: u8,
}

/// The state record as a mathematical value.
pub struct ProgramStateView {
    pub owner: Identity,
    pub admins: Seq<Identity>,
    pub bump: u8,
}

impl View for ProgramState {
    type V = ProgramStateView;

    open spec fn view(&self) -> ProgramStateView {
        ProgramStateView { owner: self.owner, admins: self.admins@, bump: self.bump }
    }
}

/// The stored size of a record with `admin_count` admins: an 8-byte
/// discriminator, the 32-byte owner, a 4-byte count, 32 bytes per admin and
/// the bump.
pub open spec fn spec_space_for(admin_count: int) -> int {
    ProgramState::INITIAL_LEN + 32 * admin_count
}

/// The size to ask for before an admin is added to `admin_count` admins.
pub open spec fn spec_grown_space(admin_count: int) -> int {
    spec_space_for(admin_count + 1)
}

/// The size to ask for before an admin is removed from `admin_count`
/// admins: never less than the size of a record without admins.
pub open spec fn spec_shrunk_space(admin_count: int) -> int {
    if admin_count >= 1 {
        spec_space_for(admin_count - 1)
    } else {
        spec_space_for(0)
    }
}

impl ProgramStateView {
    /// `identity` is one of the admins.
    pub open spec fn is_admin(self, identity: Identity) -> bool {
        self.admins.contains(identity)
    }

    /// `identity` is the owner or one of the admins.
    pub open spec fn is_owner_or_admin(self, identity: Identity) -> bool {
        identity == self.owner || self.is_admin(identity)
    }

    /// No admin is listed twice.
    pub open spec fn wf(self) -> bool {
        self.admins.no_duplicates()
    }

    /// The stored size of this record.
    pub open spec fn space(self) -> int {
        spec_space_for(self.admins.len() as int)
    }

    /// The record with `identity` appended to the admins.
    pub open spec fn with_admin(self, identity: Identity) -> ProgramStateView {
        ProgramStateView { admins: self.admins.push(identity), ..self }
    }

    /// The record without the first entry of `identity` among the admins.
    pub open spec fn without_admin(self, identity: Identity) -> ProgramStateView
        recommends
            self.is_admin(identity),
    {
        ProgramStateView {
            admins: self.admins.remove(self.admins.index_of_first(identity).unwrap()),
            ..self
        }
    }

    /// The record with another owner.
    pub open spec fn with_owner(self, owner: Identity) -> ProgramStateView {
        ProgramStateView { owner, ..self }
    }
}

impl ProgramState {
    /// The stored size of a record without admins.
    pub const INITIAL_LEN: usize = 32 + 4 + 1 + 8;

    /// The place of the first entry of `identity` among the admins.
    pub fn admin_position(&self, identity: &Identity) -> (position: Option<usize>)
        ensures
            match position {
                Some(i) => {
                    &&& self@.admins.index_of_first(*identity) == Some(i as int)
                    &&& i < self@.admins.len()
                    &&& self@.admins[i as int] == *identity
                },
                None => self@.admins.index_of_first(*identity) is None,
            },
            position is Some <==> self@.is_admin(*identity),
    {
        let mut i: usize = 0;
        while i < self.admins.len()
            invariant
                i <= self.admins.len(),
                forall|k: int| 0 <= k < i ==> self.admins@[k] != *identity,
            decreases self.admins.len() - i,
        {
            if self.admins[i] == *identity {
                proof {
                    assert(self@.admins[i as int] == *identity);
                    self@.admins.index_of_first_ensures(*identity);
                }
                return Some(i);
            }
            i += 1;
        }
        proof {
            self@.admins.index_of_first_ensures(*identity);
        }
        None
    }

    /// Tells whether `pubkey` is one of the admins.
    pub fn is_admin(&self, pubkey: &Identity) -> (found: bool)
        ensures
            found == self@.is_admin(*pubkey),
            found == self.admins@.contains(*pubkey),
    {
        self.admin_position(pubkey).is_some()
    }

    /// Tells whether `pubkey` is the owner or one of the admins.
    pub fn is_owner_or_admin(&self, pubkey: &Identity) -> (authorized: bool)
        ensures
            authorized == self@.is_owner_or_admin(*pubkey),
            authorized == (*pubkey == self.owner || self.admins@.contains(*pubkey)),
    {
        self.owner == *pubkey || self.is_admin(pubkey)
    }

    /// The stored size of a record with `admin_count` admins.
    pub fn space_for(admin_count: usize) -> (space: usize)
        requires
            spec_space_for(admin_count as int) <= usize::MAX,
        ensures
            space == spec_space_for(admin_count as int),
    {
        Self::INITIAL_LEN + admin_count * 32
    }

    /// The size to resize the record to when an admin is about to be added
    /// to `admin_count` admins: 32 bytes more than it has.
    pub fn grown_space(admin_count: usize) -> (space: usize)
        requires
            spec_grown_space(admin_count as int) <= usize::MAX,
        ensures
            space == spec_grown_space(admin_count as int),
            space == spec_space_for(admin_count as int) + 32,
    {
        Self::INITIAL_LEN + (admin_count + 1) * 32
    }

    /// The size to resize the record to when an admin is about to be
    /// removed from `admin_count` admins: 32 bytes less than it has, and
    /// never less than a record without admins takes.
    pub fn shrunk_space(admin_count: usize) -> (space: usize)
        requires
            spec_space_for(admin_count as int) <= usize::MAX,
        ensures
            space == spec_shrunk_space(admin_count as int),
            admin_count >= 1 ==> space == spec_space_for(admin_count as int) - 32,
            space >= Self::INITIAL_LEN,
    {
        Self::INITIAL_LEN + admin_count.saturating_sub(1) * 32
    }
}

} // verus!
