//! The header of an instruction that waits for its time lock.

use vstd::prelude::*;
use crate::error::CoreError;
use crate::pubkey::{Pubkey, is_default, is_default_spec, optional_address, same_key};

verus! {

/// The bytes of a header in an instruction buffer.
pub const HEADER_SPACE: usize = 224;

/// The bytes of one account in an instruction buffer.
pub const ACCOUNT_SPACE: usize = 33;

/// The bytes that stand before the header in an instruction buffer.
pub const DISCRIMINATOR_SPACE: usize = 8;

/// Instruction Header.
#[derive(Clone, Copy, Debug, PartialEq, Eq)]
pub struct InstructionHeader {
    pub version: u8,
    pub is_approved: bool,
    pub wallet_bump: u8,
    /// Approved ts.
    pub approved_at: i64,
    /// Executor.
    pub executor: Pubkey,
    /// Program ID.
    pub program_id: Pubkey,
    /// Number of accounts.
    pub num_accounts: u16,
    /// Data length.
    pub data_len: u16,
    pub rent_receiver: Pubkey,
    pub approver: Pubkey,
}

/// The time from which an instruction approved at `approved_at` is
/// executable under a delay: the time of approval plus the delay, at most
/// the end of time.
pub open spec fn executable_at(approved_at: i64, delay: u32) -> int {
    if approved_at + delay > i64::MAX {
        i64::MAX as int
    } else {
        approved_at + delay
    }
}

impl InstructionHeader {
    /// The bytes that a buffer needs for a header, its data and its accounts.
    pub open spec fn init_space_spec(num_accounts: u16, data_len: u16) -> int {
        HEADER_SPACE + data_len + num_accounts * ACCOUNT_SPACE
    }

    /// Whether the instruction can be approved by an approver: it is not
    /// approved, it has no approver yet, and the approver is not the default
    /// address.
    pub open spec fn approve_spec(self, approver: Seq<u8>) -> Result<(), CoreError> {
        if self.is_approved || !is_default_spec(self.approver@) {
            Err(CoreError::PreconditionsAreNotMet)
        } else if is_default_spec(approver) {
            Err(CoreError::InvalidArgument)
        } else {
            Ok(())
        }
    }

    /// Whether the instruction is executable at a time under a delay: it is
    /// approved and the delay has passed since.
    pub open spec fn is_executable_spec(self, delay: u32, now: i64) -> bool {
        self.is_approved && now >= executable_at(self.approved_at, delay)
    }

    /// Get space.
    pub fn init_space(num_accounts: u16, data_len: u16) -> (r: usize)
        ensures
            r == Self::init_space_spec(num_accounts, data_len),
    {
        assert(num_accounts * ACCOUNT_SPACE <= 0xffff * 33) by (nonlinear_arith)
            requires
                num_accounts <= 0xffff,
                ACCOUNT_SPACE == 33,
        ;
        HEADER_SPACE + (data_len as usize) + (num_accounts as usize) * ACCOUNT_SPACE
    }

    /// Approve at the time `now`.
    pub fn approve(&mut self, approver: Pubkey, now: i64) -> (r: Result<(), CoreError>)
        ensures
            r == old(self).approve_spec(approver@),
            r is Ok ==> *final(self) == (InstructionHeader {
                is_approved: true,
                approved_at: now,
                approver,
                ..*old(self)
            }),
            r is Err ==> *final(self) == *old(self),
    {
        if self.is_approved() {
            return Err(CoreError::PreconditionsAreNotMet);
        }
        if !is_default(&self.approver) {
            return Err(CoreError::PreconditionsAreNotMet);
        }
        if is_default(&approver) {
            return Err(CoreError::InvalidArgument);
        }
        self.is_approved = true;
        self.approved_at = now;
        self.approver = approver;
        Ok(())
    }

    /// Returns whether the instruction is approved.
    pub fn is_approved(&self) -> (r: bool)
        ensures
            r == self.is_approved,
    {
        self.is_approved
    }

    /// Get the approved timestamp.
    pub fn approved_at(&self) -> (r: Option<i64>)
        ensures
            r == (if self.is_approved { Some(self.approved_at) } else { None }),
    {
        if self.is_approved() {
            Some(self.approved_at)
        } else {
            None
        }
    }

    /// Get approver.
    pub fn apporver(&self) -> (r: Option<&Pubkey>)
        ensures
            r is Some == !is_default_spec(self.approver@),
            r matches Some(approver) ==> approver@ == self.approver@,
    {
        optional_address(&self.approver)
    }

    /// Return whether the instruction is executable at the time `now`.
    pub fn is_executable(&self, delay: u32, now: i64) -> (r: Result<bool, CoreError>)
        ensures
            r == Ok::<bool, CoreError>(self.is_executable_spec(delay, now)),
    {
        let approved_at = match self.approved_at() {
            Some(approved_at) => approved_at,
            None => {
                return Ok(false);
            },
        };
        let sum: i128 = (approved_at as i128) + (delay as i128);
        let executable_at: i64 = if sum > 0x7fff_ffff_ffff_ffff {
            0x7fff_ffff_ffff_ffff
        } else {
            sum as i64
        };
        Ok(now >= executable_at)
    }

    /// Get executor.
    pub fn executor(&self) -> (r: &Pubkey)
        ensures
            *r == self.executor,
    {
        &self.executor
    }

    /// Get rent receiver.
    pub fn rent_receiver(&self) -> (r: &Pubkey)
        ensures
            *r == self.rent_receiver,
    {
        &self.rent_receiver
    }
}

/// An account of a buffered instruction.
#[derive(Clone, Copy, Debug, PartialEq, Eq)]
pub struct InstructionAccount {
    pub pubkey: Pubkey,
    pub is_signer: bool,
    pub is_writable: bool,
}

/// An account as it is handed to a buffered instruction.
#[derive(Clone, Copy, Debug, PartialEq, Eq)]
pub struct AccountMeta {
    pub pubkey: Pubkey,
    pub is_writable: bool,
}

/// Where the parts of an instruction lie in its buffer: the data from
/// `data_start` to `accounts_start`, the accounts from there to the end.
#[derive(Clone, Copy, Debug, PartialEq, Eq, Structural)]
pub struct InstructionLayout {
    pub header_start: usize,
    pub data_start: usize,
    pub accounts_start: usize,
    pub end: usize,
}

/// Whether an index is among the signers.
pub open spec fn is_signer_spec(signers: Seq<u16>, index: int) -> bool {
    exists|i: int| 0 <= i < signers.len() && #[trigger] signers[i] == index
}

/// The account of a buffered instruction at an index: a signer where its
/// index is among the signers.
pub open spec fn account_spec(
    accounts: Seq<AccountMeta>,
    signers: Seq<u16>,
    index: int,
) -> InstructionAccount {
    InstructionAccount {
        pubkey: accounts[index].pubkey,
        is_signer: is_signer_spec(signers, index),
        is_writable: accounts[index].is_writable,
    }
}

/// Whether the accounts can be buffered: no account but the wallet of the
/// executor signs.
pub open spec fn accounts_are_valid(
    wallet: Seq<u8>,
    accounts: Seq<AccountMeta>,
    signers: Seq<u16>,
) -> bool {
    forall|i: int|
        0 <= i < accounts.len() && is_signer_spec(signers, i) ==> (#[trigger] accounts[i]).pubkey@
            == wallet
}

fn contains(signers: &Vec<u16>, index: u16) -> (r: bool)
    ensures
        r == is_signer_spec(signers@, index as int),
{
    let mut i: usize = 0;
    while i < signers.len()
        invariant
            i <= signers@.len(),
            forall|j: int| 0 <= j < i ==> signers@[j] != index,
        decreases signers@.len() - i,
    {
        if signers[i] == index {
            return true;
        }
        i = i + 1;
    }
    false
}

/// Where the parts of an instruction lie in a buffer of `len` bytes. The
/// buffer must hold the discriminator, the header and the data; that it
/// also holds the accounts is checked.
pub fn load_instruction(
    len: usize,
    header: &InstructionHeader,
) -> (r: Result<InstructionLayout, CoreError>)
    requires
        len >= DISCRIMINATOR_SPACE + HEADER_SPACE + header.data_len,
    ensures
        match r {
            Ok(layout) => {
                &&& layout == (InstructionLayout {
                    header_start: DISCRIMINATOR_SPACE,
                    data_start: (DISCRIMINATOR_SPACE + HEADER_SPACE) as usize,
                    accounts_start: (DISCRIMINATOR_SPACE + HEADER_SPACE + header.data_len) as usize,
                    end: len,
                })
                &&& layout.end - layout.accounts_start >= header.num_accounts * ACCOUNT_SPACE
            },
            Err(e) => e == CoreError::Internal && len - (DISCRIMINATOR_SPACE + HEADER_SPACE
                + header.data_len) < header.num_accounts * ACCOUNT_SPACE,
        },
{
    let data_start = DISCRIMINATOR_SPACE + HEADER_SPACE;
    let accounts_start = data_start + (header.data_len as usize);
    assert(header.num_accounts * ACCOUNT_SPACE <= 0xffff * 33) by (nonlinear_arith)
        requires
            header.num_accounts <= 0xffff,
            ACCOUNT_SPACE == 33,
    ;
    let expected_accounts_len = (header.num_accounts as usize) * ACCOUNT_SPACE;
    if len - accounts_start < expected_accounts_len {
        return Err(CoreError::Internal);
    }
    Ok(
        InstructionLayout {
            header_start: DISCRIMINATOR_SPACE,
            data_start,
            accounts_start,
            end: len,
        },
    )
}

/// The header and the accounts of an instruction that is put into a buffer.
///
/// The header names the executor, the program and the receiver of the rent,
/// and counts the data and the accounts; it is not approved. An account is a
/// signer where its index is among the signers, and only the wallet of the
/// executor may be one. More data than `u16::MAX` bytes, more accounts than
/// `u16::MAX`, or another signer than the wallet are refused.
pub fn load_and_init_instruction(
    executor: Pubkey,
    wallet_bump: u8,
    rent_receiver: Pubkey,
    program_id: Pubkey,
    wallet: &Pubkey,
    data_len: usize,
    accounts: &Vec<AccountMeta>,
    signers: &Vec<u16>,
) -> (r: Result<(InstructionHeader, Vec<InstructionAccount>), CoreError>)
    ensures
        match r {
            Ok((header, buffered)) => {
                &&& data_len <= u16::MAX
                &&& accounts@.len() <= u16::MAX
                &&& accounts_are_valid(wallet@, accounts@, signers@)
                &&& header.version == 0
                &&& !header.is_approved
                &&& header.wallet_bump == wallet_bump
                &&& header.approved_at == 0
                &&& header.executor@ == executor@
                &&& header.program_id@ == program_id@
                &&& header.num_accounts == accounts@.len()
                &&& header.data_len == data_len
                &&& header.rent_receiver@ == rent_receiver@
                &&& is_default_spec(header.approver@)
                &&& buffered@.len() == accounts@.len()
                &&& forall|i: int|
                    0 <= i < buffered@.len() ==> #[trigger] buffered@[i] == account_spec(
                        accounts@,
                        signers@,
                        i,
                    )
            },
            Err(e) => e == CoreError::InvalidArgument && (data_len > u16::MAX || accounts@.len()
                > u16::MAX || !accounts_are_valid(wallet@, accounts@, signers@)),
        },
{
    if data_len > 0xffff || accounts.len() > 0xffff {
        return Err(CoreError::InvalidArgument);
    }
    let header = InstructionHeader {
        version: 0,
        is_approved: false,
        wallet_bump,
        approved_at: 0,
        executor,
        program_id,
        num_accounts: accounts.len() as u16,
        data_len: data_len as u16,
        rent_receiver,
        approver: default_pubkey(),
    };
    let mut buffered: Vec<InstructionAccount> = Vec::new();
    let mut idx: usize = 0;
    while idx < accounts.len()
        invariant
            accounts@.len() <= u16::MAX,
            idx <= accounts@.len(),
            buffered@.len() == idx,
            forall|i: int|
                0 <= i < idx ==> #[trigger] buffered@[i] == account_spec(accounts@, signers@, i),
            forall|i: int|
                0 <= i < idx && is_signer_spec(signers@, i) ==> (#[trigger] accounts@[i]).pubkey@
                    == wallet@,
        decreases accounts@.len() - idx,
    {
        let account = &accounts[idx];
        let is_signer = contains(signers, idx as u16);
        if is_signer {
            // Currently only the executor wallet is allowed to be a signer.
            if !same_key(wallet, &account.pubkey) {
                return Err(CoreError::InvalidArgument);
            }
        }
        buffered.push(
            InstructionAccount {
                pubkey: account.pubkey,
                is_signer,
                is_writable: account.is_writable,
            },
        );
        idx = idx + 1;
    }
    Ok((header, buffered))
}

/// The default address.
pub fn default_pubkey() -> (r: Pubkey)
    ensures
        is_default_spec(r@),
{
    [0, 0, 0, 0, 0, 0, 0, 0, 0, 0, 0, 0, 0, 0, 0, 0, 0, 0, 0, 0, 0, 0, 0, 0, 0, 0, 0, 0, 0, 0, 0, 0]
}

} // verus!
