//! The roles of a store and the members that hold them.

use vstd::prelude::*;
use crate::error::CoreError;
use crate::pubkey::{Pubkey, same_key};

verus! {

/// Max number of roles.
pub const MAX_ROLES: usize = 32;

/// Max number of members.
pub const MAX_MEMBERS: usize = 64;

/// Max length of the name of a role, in bytes.
pub const MAX_ROLE_NAME_LEN: usize = 32;

/// The names of the roles of a store.
pub struct RoleKey;

impl RoleKey {
    /// May restart the store.
    pub const RESTART_ADMIN: &'static str = "RESTART_ADMIN";

    /// Controls the governance token.
    pub const GT_CONTROLLER: &'static str = "GT_CONTROLLER";

    /// Keeps the markets.
    pub const MARKET_KEEPER: &'static str = "MARKET_KEEPER";

    /// Executes orders.
    pub const ORDER_KEEPER: &'static str = "ORDER_KEEPER";

    /// Posts prices.
    pub const PRICE_KEEPER: &'static str = "PRICE_KEEPER";

    /// Switches features.
    pub const FEATURE_KEEPER: &'static str = "FEATURE_KEEPER";

    /// Keeps the configuration.
    pub const CONFIG_KEEPER: &'static str = "CONFIG_KEEPER";

    /// Controls the oracle.
    pub const ORACLE_CONTROLLER: &'static str = "ORACLE_CONTROLLER";
}

/// Whether bit `index` of a role value is set.
pub open spec fn has_bit(value: u32, index: u8) -> bool {
    index < 32 && (value >> (index as u32)) & 1u32 == 1u32
}

/// The role value with bit `index` set or cleared.
pub open spec fn with_bit(value: u32, index: u8, on: bool) -> u32 {
    if index >= 32 {
        value
    } else if on {
        value | (1u32 << (index as u32))
    } else {
        value & !(1u32 << (index as u32))
    }
}

/// Setting or clearing one bit of a role value changes that bit and no other.
pub proof fn lemma_with_bit(value: u32, index: u8, on: bool, other: u8)
    requires
        index < 32,
    ensures
        has_bit(with_bit(value, index, on), other) == (if other == index {
            on
        } else {
            has_bit(value, other)
        }),
        on ==> with_bit(value, index, on) != 0,
{
    let i = index as u32;
    let j = other as u32;
    if other < 32 {
        if other == index {
            assert(((value | (1u32 << i)) >> i) & 1u32 == 1u32) by (bit_vector)
                requires
                    i < 32,
            ;
            assert(((value & !(1u32 << i)) >> i) & 1u32 == 0u32) by (bit_vector)
                requires
                    i < 32,
            ;
        } else {
            assert(((value | (1u32 << i)) >> j) & 1u32 == (value >> j) & 1u32) by (bit_vector)
                requires
                    i < 32,
                    j < 32,
                    i != j,
            ;
            assert(((value & !(1u32 << i)) >> j) & 1u32 == (value >> j) & 1u32) by (bit_vector)
                requires
                    i < 32,
                    j < 32,
                    i != j,
            ;
        }
    }
    assert(value | (1u32 << i) != 0u32) by (bit_vector)
        requires
            i < 32,
    ;
}

fn get_bit(value: u32, index: u8) -> (r: bool)
    ensures
        r == has_bit(value, index),
{
    index < 32 && (value >> (index as u32)) & 1u32 == 1u32
}

fn set_bit(value: u32, index: u8, on: bool) -> (r: u32)
    ensures
        r == with_bit(value, index, on),
{
    if index >= 32 {
        value
    } else if on {
        value | (1u32 << (index as u32))
    } else {
        value & !(1u32 << (index as u32))
    }
}

/// A role: its name, whether it is enabled, and its bit in the role values.
pub struct RoleView {
    pub name: Seq<char>,
    pub enabled: bool,
    pub index: u8,
}

/// A member: its address and its role value, one bit for each role held.
pub struct MemberView {
    pub authority: Seq<u8>,
    pub value: u32,
}

/// The roles of a store in the order in which they were first enabled, and
/// its members in the order in which they joined.
pub struct RoleStoreView {
    pub roles: Seq<RoleView>,
    pub members: Seq<MemberView>,
}

/// Whether a name is short enough for a role.
pub open spec fn name_fits(name: Seq<char>) -> bool {
    vstd::utf8::encode_utf8(name).len() <= MAX_ROLE_NAME_LEN
}

impl RoleStoreView {
    /// The tables are within their capacity, every role has the bit of its
    /// place, and no name and no address occurs twice.
    pub open spec fn wf(self) -> bool {
        &&& self.roles.len() <= MAX_ROLES
        &&& self.members.len() <= MAX_MEMBERS
        &&& forall|i: int| 0 <= i < self.roles.len() ==> (#[trigger] self.roles[i]).index == i
        &&& forall|i: int, j: int|
            0 <= i < j < self.roles.len() ==> (#[trigger] self.roles[i]).name != (
            #[trigger] self.roles[j]).name
        &&& forall|i: int, j: int|
            0 <= i < j < self.members.len() ==> (#[trigger] self.members[i]).authority != (
            #[trigger] self.members[j]).authority
    }

    /// Whether a role of this name is known.
    pub open spec fn knows_role(self, name: Seq<char>) -> bool {
        exists|i: int| 0 <= i < self.roles.len() && (#[trigger] self.roles[i]).name == name
    }

    /// The place of the role of a name, where it is known.
    pub open spec fn role_place(self, name: Seq<char>) -> int {
        choose|i: int| 0 <= i < self.roles.len() && (#[trigger] self.roles[i]).name == name
    }

    /// Whether an address is a member.
    pub open spec fn is_member(self, authority: Seq<u8>) -> bool {
        exists|i: int|
            0 <= i < self.members.len() && (#[trigger] self.members[i]).authority == authority
    }

    /// The place of a member.
    pub open spec fn member_place(self, authority: Seq<u8>) -> int {
        choose|i: int|
            0 <= i < self.members.len() && (#[trigger] self.members[i]).authority == authority
    }

    /// The bit of a role, where it is known.
    pub open spec fn role_index(self, name: Seq<char>) -> Option<u8> {
        if self.knows_role(name) {
            Some(self.roles[self.role_place(name)].index)
        } else {
            None
        }
    }

    /// The bit of a role that must be enabled where it is known.
    pub open spec fn enabled_role_index(self, name: Seq<char>) -> Result<Option<u8>, CoreError> {
        if !self.knows_role(name) {
            Ok(None)
        } else if !self.roles[self.role_place(name)].enabled {
            Err(CoreError::PreconditionsAreNotMet)
        } else {
            Ok(Some(self.roles[self.role_place(name)].index))
        }
    }

    /// The role value of an address, where it is a member.
    pub open spec fn role_value(self, authority: Seq<u8>) -> Option<u32> {
        if self.is_member(authority) {
            Some(self.members[self.member_place(authority)].value)
        } else {
            None
        }
    }

    /// Whether a member holds an enabled role. An address that is no member
    /// is denied; a role that is not known is not found.
    pub open spec fn has_role(
        self,
        authority: Seq<u8>,
        name: Seq<char>,
    ) -> Result<bool, CoreError> {
        if !self.is_member(authority) {
            Err(CoreError::PermissionDenied)
        } else {
            match self.enabled_role_index(name) {
                Err(e) => Err(e),
                Ok(None) => Err(CoreError::NotFound),
                Ok(Some(index)) => Ok(has_bit(self.role_value(authority)->0, index)),
            }
        }
    }

    /// The store after a role is enabled. A known role must be disabled. A
    /// new role takes the next place and needs a name that fits and a table
    /// that is not full.
    pub open spec fn enable_role(self, name: Seq<char>) -> Result<RoleStoreView, CoreError> {
        if self.knows_role(name) {
            let place = self.role_place(name);
            if self.roles[place].enabled {
                Err(CoreError::PreconditionsAreNotMet)
            } else {
                Ok(
                    RoleStoreView {
                        roles: self.roles.update(
                            place,
                            RoleView { enabled: true, ..self.roles[place] },
                        ),
                        ..self
                    },
                )
            }
        } else if !name_fits(name) || self.roles.len() >= MAX_ROLES {
            Err(CoreError::ExceedMaxLengthLimit)
        } else {
            Ok(
                RoleStoreView {
                    roles: self.roles.push(
                        RoleView { name, enabled: true, index: self.roles.len() as u8 },
                    ),
                    ..self
                },
            )
        }
    }

    /// The store after a role is disabled. A known role must be enabled; a
    /// role that is not known changes nothing.
    pub open spec fn disable_role(self, name: Seq<char>) -> Result<RoleStoreView, CoreError> {
        if !self.knows_role(name) {
            Ok(self)
        } else {
            let place = self.role_place(name);
            if !self.roles[place].enabled {
                Err(CoreError::PreconditionsAreNotMet)
            } else {
                Ok(
                    RoleStoreView {
                        roles: self.roles.update(
                            place,
                            RoleView { enabled: false, ..self.roles[place] },
                        ),
                        ..self
                    },
                )
            }
        }
    }

    /// The store after a role is granted. The role must be known and
    /// enabled. A member must not hold the role yet; an address that is no
    /// member joins, which needs a table that is not full.
    pub open spec fn grant(
        self,
        authority: Seq<u8>,
        name: Seq<char>,
    ) -> Result<RoleStoreView, CoreError> {
        match self.enabled_role_index(name) {
            Err(e) => Err(e),
            Ok(None) => Err(CoreError::NotFound),
            Ok(Some(index)) => if self.is_member(authority) {
                let place = self.member_place(authority);
                if has_bit(self.members[place].value, index) {
                    Err(CoreError::PreconditionsAreNotMet)
                } else {
                    Ok(
                        RoleStoreView {
                            members: self.members.update(
                                place,
                                MemberView {
                                    authority,
                                    value: with_bit(self.members[place].value, index, true),
                                },
                            ),
                            ..self
                        },
                    )
                }
            } else if self.members.len() >= MAX_MEMBERS {
                Err(CoreError::ExceedMaxLengthLimit)
            } else {
                Ok(
                    RoleStoreView {
                        members: self.members.push(
                            MemberView { authority, value: with_bit(0, index, true) },
                        ),
                        ..self
                    },
                )
            },
        }
    }

    /// The store after a role is revoked. The role must be known, enabled
    /// or not, and the address a member that holds it. A member that holds
    /// no role any more leaves.
    pub open spec fn revoke(
        self,
        authority: Seq<u8>,
        name: Seq<char>,
    ) -> Result<RoleStoreView, CoreError> {
        match self.role_index(name) {
            None => Err(CoreError::NotFound),
            Some(index) => if !self.is_member(authority) {
                Err(CoreError::PermissionDenied)
            } else {
                let place = self.member_place(authority);
                let value = self.members[place].value;
                if !has_bit(value, index) {
                    Err(CoreError::PreconditionsAreNotMet)
                } else if with_bit(value, index, false) == 0 {
                    Ok(RoleStoreView { members: self.members.remove(place), ..self })
                } else {
                    Ok(
                        RoleStoreView {
                            members: self.members.update(
                                place,
                                MemberView { authority, value: with_bit(value, index, false) },
                            ),
                            ..self
                        },
                    )
                }
            },
        }
    }
}

/// In a well-formed store an address has one place only.
pub proof fn lemma_member_place(store: RoleStoreView, authority: Seq<u8>, place: int)
    requires
        store.wf(),
        0 <= place < store.members.len(),
        store.members[place].authority == authority,
    ensures
        store.is_member(authority),
        store.member_place(authority) == place,
{
    assert(store.is_member(authority));
    let chosen = store.member_place(authority);
    assert(store.members[chosen].authority == authority);
}

/// Every operation that goes through leaves a well-formed store well-formed.
pub proof fn law_role_store_stays_well_formed(
    store: RoleStoreView,
    authority: Seq<u8>,
    name: Seq<char>,
)
    requires
        store.wf(),
    ensures
        store.enable_role(name) matches Ok(next) ==> next.wf(),
        store.disable_role(name) matches Ok(next) ==> next.wf(),
        store.grant(authority, name) matches Ok(next) ==> next.wf(),
        store.revoke(authority, name) matches Ok(next) ==> next.wf(),
{
}

/// A role that was granted is held: the member has it as long as it stays
/// enabled.
pub proof fn law_granted_role_is_held(store: RoleStoreView, authority: Seq<u8>, name: Seq<char>)
    requires
        store.wf(),
        store.grant(authority, name) is Ok,
    ensures
        store.grant(authority, name)->Ok_0.has_role(authority, name) == Ok::<bool, CoreError>(true),
        store.has_role(authority, name) != Ok::<bool, CoreError>(true),
{
    let next = store.grant(authority, name)->Ok_0;
    let index = store.enabled_role_index(name)->Ok_0->0;
    assert(next.roles == store.roles);
    assert(next.knows_role(name) == store.knows_role(name));
    assert(next.role_place(name) == store.role_place(name));
    if store.is_member(authority) {
        let place = store.member_place(authority);
        lemma_with_bit(store.members[place].value, index, true, index);
        lemma_member_place(next, authority, place);
    } else {
        lemma_with_bit(0, index, true, index);
        lemma_member_place(next, authority, store.members.len() as int);
    }
}

/// A role that was revoked is not held any more: the member is either gone,
/// or does not have the role.
pub proof fn law_revoked_role_is_not_held(store: RoleStoreView, authority: Seq<u8>, name: Seq<char>)
    requires
        store.wf(),
        store.revoke(authority, name) is Ok,
    ensures
        store.revoke(authority, name)->Ok_0.has_role(authority, name) != Ok::<bool, CoreError>(
            true,
        ),
{
    let next = store.revoke(authority, name)->Ok_0;
    let index = store.role_index(name)->0;
    let place = store.member_place(authority);
    let value = store.members[place].value;
    assert(next.roles == store.roles);
    assert(next.knows_role(name) == store.knows_role(name));
    assert(next.role_place(name) == store.role_place(name));
    lemma_with_bit(value, index, false, index);
    if with_bit(value, index, false) == 0 {
        if next.is_member(authority) {
            let left = next.member_place(authority);
            assert(next.members[left].authority == authority);
            if left < place {
                assert(store.members[left] == next.members[left]);
            } else {
                assert(store.members[left + 1] == next.members[left]);
            }
            assert(false);
        }
    } else {
        lemma_member_place(next, authority, place);
    }
}

/// Role Metadata.
#[derive(Debug)]
pub struct RoleMetadata {
    name: String,
    enabled: u8,
    index: u8,
}

impl View for RoleMetadata {
    type V = RoleView;

    closed spec fn view(&self) -> RoleView {
        RoleView { name: self.name@, enabled: self.enabled == u8::MAX, index: self.index }
    }
}

impl RoleMetadata {
    /// A `u8` value indicates that this role is enabled.
    pub const ROLE_ENABLED: u8 = u8::MAX;

    /// Create a new role metadata.
    pub fn new(name: &str, index: u8) -> (r: Result<Self, CoreError>)
        ensures
            match r {
                Ok(metadata) => name_fits(name@) && metadata@ == (RoleView {
                    name: name@,
                    enabled: true,
                    index,
                }),
                Err(e) => !name_fits(name@) && e == CoreError::ExceedMaxLengthLimit,
            },
    {
        if name.as_bytes().len() > MAX_ROLE_NAME_LEN {
            return Err(CoreError::ExceedMaxLengthLimit);
        }
        Ok(RoleMetadata { name: name.to_owned(), enabled: u8::MAX, index })
    }

    /// Get the name of this role.
    pub fn name(&self) -> (r: Result<&str, CoreError>)
        ensures
            r matches Ok(name) && name@ == self@.name,
    {
        Ok(self.name.as_str())
    }

    /// Get the index of this role.
    pub fn index(&self) -> (r: u8)
        ensures
            r == self@.index,
    {
        self.index
    }

    /// Enable this role.
    ///
    /// # Errors
    /// Returns Error if this role is already enabled.
    pub fn enable(&mut self) -> (r: Result<(), CoreError>)
        ensures
            match r {
                Ok(()) => !old(self)@.enabled && final(self)@ == (RoleView {
                    enabled: true,
                    ..old(self)@
                }),
                Err(e) => old(self)@.enabled && e == CoreError::PreconditionsAreNotMet
                    && final(self)@ == old(self)@,
            },
    {
        if self.is_enabled() {
            return Err(CoreError::PreconditionsAreNotMet);
        }
        self.set_enable();
        Ok(())
    }

    /// Disable this role.
    ///
    /// # Errors
    /// Returns Error if this role is already disabled.
    pub fn disable(&mut self) -> (r: Result<(), CoreError>)
        ensures
            match r {
                Ok(()) => old(self)@.enabled && final(self)@ == (RoleView {
                    enabled: false,
                    ..old(self)@
                }),
                Err(e) => !old(self)@.enabled && e == CoreError::PreconditionsAreNotMet
                    && final(self)@ == old(self)@,
            },
    {
        if !self.is_enabled() {
            return Err(CoreError::PreconditionsAreNotMet);
        }
        self.set_disable();
        Ok(())
    }

    /// Enable this role.
    fn set_enable(&mut self)
        ensures
            final(self)@ == (RoleView { enabled: true, ..old(self)@ }),
    {
        self.enabled = u8::MAX;
    }

    /// Disable this role.
    fn set_disable(&mut self)
        ensures
            final(self)@ == (RoleView { enabled: false, ..old(self)@ }),
    {
        self.enabled = 0;
    }

    /// Is enabled.
    pub fn is_enabled(&self) -> (r: bool)
        ensures
            r == self@.enabled,
    {
        self.enabled == u8::MAX
    }
}

/// A member of a store.
#[derive(Debug)]
struct Member {
    authority: Pubkey,
    value: u32,
}

/// Roles Store.
#[derive(Debug)]
pub struct RoleStore {
    roles: Vec<RoleMetadata>,
    members: Vec<Member>,
}

impl View for RoleStore {
    type V = RoleStoreView;

    closed spec fn view(&self) -> RoleStoreView {
        RoleStoreView {
            roles: Seq::new(self.roles@.len(), |i: int| self.roles@[i]@),
            members: Seq::new(
                self.members@.len(),
                |i: int|
                    MemberView {
                        authority: self.members@[i].authority@,
                        value: self.members@[i].value,
                    },
            ),
        }
    }
}

impl RoleStore {
    /// The store is within its capacity and holds no name and no address twice.
    pub open spec fn wf(&self) -> bool {
        self@.wf()
    }

    /// A store without roles and members.
    pub fn new() -> (r: Self)
        ensures
            r.wf(),
            r@.roles.len() == 0,
            r@.members.len() == 0,
    {
        RoleStore { roles: Vec::new(), members: Vec::new() }
    }

    fn find_role(&self, role: &str) -> (r: Option<usize>)
        requires
            self.wf(),
        ensures
            match r {
                Some(place) => self@.knows_role(role@) && place == self@.role_place(role@) && place
                    < self.roles@.len(),
                None => !self@.knows_role(role@),
            },
    {
        let name = role.to_owned();
        let mut i: usize = 0;
        while i < self.roles.len()
            invariant
                self.wf(),
                i <= self.roles@.len(),
                name@ == role@,
                forall|j: int| 0 <= j < i ==> (#[trigger] self@.roles[j]).name != role@,
            decreases self.roles@.len() - i,
        {
            if self.roles[i].name == name {
                assert(self@.roles[i as int].name == role@);
                assert(self@.knows_role(role@));
                return Some(i);
            }
            i = i + 1;
        }
        None
    }

    fn find_member(&self, authority: &Pubkey) -> (r: Option<usize>)
        requires
            self.wf(),
        ensures
            match r {
                Some(place) => self@.is_member(authority@) && place == self@.member_place(
                    authority@,
                ) && place < self.members@.len(),
                None => !self@.is_member(authority@),
            },
    {
        let mut i: usize = 0;
        while i < self.members.len()
            invariant
                self.wf(),
                i <= self.members@.len(),
                forall|j: int| 0 <= j < i ==> (#[trigger] self@.members[j]).authority != authority@,
            decreases self.members@.len() - i,
        {
            if same_key(&self.members[i].authority, authority) {
                assert(self@.members[i as int].authority == authority@);
                assert(self@.is_member(authority@));
                return Some(i);
            }
            i = i + 1;
        }
        None
    }

    /// Enable a role.
    pub fn enable_role(&mut self, role: &str) -> (r: Result<(), CoreError>)
        requires
            old(self).wf(),
        ensures
            final(self).wf(),
            match old(self)@.enable_role(role@) {
                Ok(next) => r is Ok && final(self)@ == next,
                Err(e) => r == Err::<(), CoreError>(e) && final(self)@ == old(self)@,
            },
    {
        match self.find_role(role) {
            Some(place) => {
                let updated = RoleMetadata {
                    name: self.roles[place].name.clone(),
                    enabled: self.roles[place].enabled,
                    index: self.roles[place].index,
                };
                let mut updated = updated;
                updated.enable()?;
                self.roles.set(place, updated);
                assert(final(self)@.roles =~= old(self)@.enable_role(role@)->Ok_0.roles);
                assert(final(self)@.members =~= old(self)@.members);
            },
            None => {
                let count = self.roles.len();
                if count >= MAX_ROLES {
                    return Err(CoreError::ExceedMaxLengthLimit);
                }
                let metadata = RoleMetadata::new(role, count as u8)?;
                self.roles.push(metadata);
                assert(final(self)@.roles =~= old(self)@.enable_role(role@)->Ok_0.roles);
                assert(final(self)@.members =~= old(self)@.members);
            },
        }
        Ok(())
    }

    /// Disable a role.
    pub fn disable_role(&mut self, role: &str) -> (r: Result<(), CoreError>)
        requires
            old(self).wf(),
        ensures
            final(self).wf(),
            match old(self)@.disable_role(role@) {
                Ok(next) => r is Ok && final(self)@ == next,
                Err(e) => r == Err::<(), CoreError>(e) && final(self)@ == old(self)@,
            },
    {
        if let Some(place) = self.find_role(role) {
            let mut updated = RoleMetadata {
                name: self.roles[place].name.clone(),
                enabled: self.roles[place].enabled,
                index: self.roles[place].index,
            };
            updated.disable()?;
            self.roles.set(place, updated);
            assert(final(self)@.roles =~= old(self)@.disable_role(role@)->Ok_0.roles);
            assert(final(self)@.members =~= old(self)@.members);
        }
        Ok(())
    }

    /// Get the index of a role.
    pub fn role_index(&self, role: &str) -> (r: Result<Option<u8>, CoreError>)
        requires
            self.wf(),
        ensures
            r == Ok::<Option<u8>, CoreError>(self@.role_index(role@)),
    {
        if let Some(place) = self.find_role(role) {
            Ok(Some(self.roles[place].index))
        } else {
            Ok(None)
        }
    }

    /// Get the index of a enabled role.
    pub fn enabled_role_index(&self, role: &str) -> (r: Result<Option<u8>, CoreError>)
        requires
            self.wf(),
        ensures
            r == self@.enabled_role_index(role@),
    {
        if let Some(place) = self.find_role(role) {
            if !self.roles[place].is_enabled() {
                return Err(CoreError::PreconditionsAreNotMet);
            }
            Ok(Some(self.roles[place].index))
        } else {
            Ok(None)
        }
    }

    /// Check if the given role is granted to the pubkey.
    pub fn has_role(&self, authority: &Pubkey, role: &str) -> (r: Result<bool, CoreError>)
        requires
            self.wf(),
        ensures
            r == self@.has_role(authority@, role@),
    {
        let place = match self.find_member(authority) {
            Some(place) => place,
            None => {
                return Err(CoreError::PermissionDenied);
            },
        };
        let index = match self.enabled_role_index(role)? {
            Some(index) => index,
            None => {
                return Err(CoreError::NotFound);
            },
        };
        Ok(get_bit(self.members[place].value, index))
    }

    /// Grant a role to the pubkey.
    ///
    /// # Errors
    /// - The `role` must be enabled.
    /// - The `authority` must not already have the role.
    pub fn grant(&mut self, authority: &Pubkey, role: &str) -> (r: Result<(), CoreError>)
        requires
            old(self).wf(),
        ensures
            final(self).wf(),
            match old(self)@.grant(authority@, role@) {
                Ok(next) => r is Ok && final(self)@ == next,
                Err(e) => r == Err::<(), CoreError>(e) && final(self)@ == old(self)@,
            },
    {
        let index = match self.enabled_role_index(role)? {
            Some(index) => index,
            None => {
                return Err(CoreError::NotFound);
            },
        };
        match self.find_member(authority) {
            Some(place) => {
                let value = self.members[place].value;
                if get_bit(value, index) {
                    return Err(CoreError::PreconditionsAreNotMet);
                }
                self.members.set(
                    place,
                    Member { authority: *authority, value: set_bit(value, index, true) },
                );
                assert(final(self)@.members =~= old(self)@.grant(authority@, role@)->Ok_0.members);
                assert(final(self)@.roles =~= old(self)@.roles);
            },
            None => {
                if self.members.len() >= MAX_MEMBERS {
                    return Err(CoreError::ExceedMaxLengthLimit);
                }
                self.members.push(Member { authority: *authority, value: set_bit(0, index, true) });
                assert(final(self)@.members =~= old(self)@.grant(authority@, role@)->Ok_0.members);
                assert(final(self)@.roles =~= old(self)@.roles);
            },
        }
        Ok(())
    }

    /// Revoke a role from the pubkey.
    ///
    /// # Errors
    /// - The `authority` must have the role.
    pub fn revoke(&mut self, authority: &Pubkey, role: &str) -> (r: Result<(), CoreError>)
        requires
            old(self).wf(),
        ensures
            final(self).wf(),
            match old(self)@.revoke(authority@, role@) {
                Ok(next) => r is Ok && final(self)@ == next,
                Err(e) => r == Err::<(), CoreError>(e) && final(self)@ == old(self)@,
            },
    {
        // The `role` does not have to be enabled.
        // This is useful when we want to modify the role configuration before enabling it.
        let index = match self.role_index(role)? {
            Some(index) => index,
            None => {
                return Err(CoreError::NotFound);
            },
        };
        let place = match self.find_member(authority) {
            Some(place) => place,
            None => {
                return Err(CoreError::PermissionDenied);
            },
        };
        let value = self.members[place].value;
        if !get_bit(value, index) {
            return Err(CoreError::PreconditionsAreNotMet);
        }
        let value = set_bit(value, index, false);
        // Remove the membership if the authority no longer has a role.
        if value == 0 {
            self.members.remove(place);
        } else {
            self.members.set(place, Member { authority: *authority, value });
        }
        assert(final(self)@.members =~= old(self)@.revoke(authority@, role@)->Ok_0.members);
        assert(final(self)@.roles =~= old(self)@.roles);
        Ok(())
    }

    /// Get the number of roles.
    pub fn num_roles(&self) -> (r: usize)
        ensures
            r == self@.roles.len(),
    {
        self.roles.len()
    }

    /// Get the number of members.
    pub fn num_members(&self) -> (r: usize)
        ensures
            r == self@.members.len(),
    {
        self.members.len()
    }

    /// Get role value for the user.
    pub fn role_value(&self, user: &Pubkey) -> (r: Option<u32>)
        requires
            self.wf(),
        ensures
            r == self@.role_value(user@),
    {
        match self.find_member(user) {
            Some(place) => Some(self.members[place].value),
            None => None,
        }
    }

    /// Get all members.
    pub fn members(&self) -> (r: Vec<Pubkey>)
        ensures
            r@.len() == self@.members.len(),
            forall|i: int| 0 <= i < r@.len() ==> (#[trigger] r@[i])@ == self@.members[i].authority,
    {
        let mut members: Vec<Pubkey> = Vec::new();
        let mut i: usize = 0;
        while i < self.members.len()
            invariant
                i <= self.members@.len(),
                members@.len() == i,
                forall|j: int|
                    0 <= j < i ==> (#[trigger] members@[j])@ == self@.members[j].authority,
            decreases self.members@.len() - i,
        {
            members.push(self.members[i].authority);
            i = i + 1;
        }
        members
    }

    /// Get all roles.
    pub fn roles(&self) -> (r: Vec<&str>)
        ensures
            r@.len() == self@.roles.len(),
            forall|i: int| 0 <= i < r@.len() ==> (#[trigger] r@[i])@ == self@.roles[i].name,
    {
        let mut roles: Vec<&str> = Vec::new();
        let mut i: usize = 0;
        while i < self.roles.len()
            invariant
                i <= self.roles@.len(),
                roles@.len() == i,
                forall|j: int| 0 <= j < i ==> (#[trigger] roles@[j])@ == self@.roles[j].name,
            decreases self.roles@.len() - i,
        {
            roles.push(self.roles[i].name.as_str());
            i = i + 1;
        }
        roles
    }
}

impl Default for RoleStore {
    fn default() -> (r: Self)
        ensures
            r.wf(),
            r@.roles.len() == 0,
            r@.members.len() == 0,
    {
        RoleStore::new()
    }
}

/// Whether an authority may act as the holder of a role: it must hold the
/// role, which must be enabled. An authority that does not is denied.
pub open spec fn only_role_spec(
    store: RoleStoreView,
    authority: Seq<u8>,
    role: Seq<char>,
) -> Result<(), CoreError> {
    match store.has_role(authority, role) {
        Err(e) => Err(e),
        Ok(true) => Ok(()),
        Ok(false) => Err(CoreError::PermissionDenied),
    }
}

/// Who may close an action: its owner at any time; a keeper that holds the
/// expected role once the action is completed or cancelled, or where the
/// check of its completion is skipped for keepers. The result says whether
/// the caller is the owner.
pub open spec fn preprocess_close_spec(
    store: RoleStoreView,
    authority: Seq<u8>,
    owner: Seq<u8>,
    expected_keeper_role: Seq<char>,
    skip_completion_check_for_keeper: bool,
    is_completed_or_cancelled: bool,
) -> Result<bool, CoreError> {
    if authority == owner {
        Ok(true)
    } else {
        match only_role_spec(store, authority, expected_keeper_role) {
            Err(e) => Err(e),
            Ok(()) => if skip_completion_check_for_keeper || is_completed_or_cancelled {
                Ok(false)
            } else {
                Err(CoreError::PermissionDenied)
            },
        }
    }
}

/// Checks that an authority holds a role.
pub fn only_role(store: &RoleStore, authority: &Pubkey, role: &str) -> (r: Result<(), CoreError>)
    requires
        store.wf(),
    ensures
        r == only_role_spec(store@, authority@, role@),
{
    if store.has_role(authority, role)? {
        Ok(())
    } else {
        Err(CoreError::PermissionDenied)
    }
}

/// Decides whether an authority may close an action, and whether it is its owner.
pub fn preprocess_close(
    store: &RoleStore,
    authority: &Pubkey,
    owner: &Pubkey,
    expected_keeper_role: &str,
    skip_completion_check_for_keeper: bool,
    is_completed_or_cancelled: bool,
) -> (r: Result<bool, CoreError>)
    requires
        store.wf(),
    ensures
        r == preprocess_close_spec(
            store@,
            authority@,
            owner@,
            expected_keeper_role@,
            skip_completion_check_for_keeper,
            is_completed_or_cancelled,
        ),
{
    if same_key(authority, owner) {
        Ok(true)
    } else {
        only_role(store, authority, expected_keeper_role)?;
        if skip_completion_check_for_keeper || is_completed_or_cancelled {
            Ok(false)
        } else {
            Err(CoreError::PermissionDenied)
        }
    }
}

} // verus!
