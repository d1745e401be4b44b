//! The permissioned list program's rules: a list belongs to its authority,
//! and only the authority changes it.

use vstd::prelude::*;

use crate::account::{
    address_check, assert_address, assert_owned_by, assert_signer, assert_system_account,
    assert_system_program, assert_uninitialized, assert_writable, owner_check, signer_check,
    system_account_check, system_program_check, uninitialized_check, writable_check,
    AccountInfo,
};
use crate::error::ProgramError;
use crate::pubkey::{derive_address, seeds_of, Pubkey};
use crate::wire::{
    lemma_array_round_trip, lemma_concat_assoc, lemma_pubkey_round_trip, parse_array,
    parse_pubkey, read_array, read_pubkey, rest_of, value_of,
};

verus! {

/// Tag of the address of a list: the bytes of `list`.
pub const LIST_SEED: [u8; 4] = [108, 105, 115, 116];

/// Why the permissioned list program refuses an instruction.
#[derive(Clone, Copy, Debug, PartialEq, Eq, Structural)]
pub enum ErrorCode {
    /// Not Authorized
    NotAuthorized,
}

/// A list: who may change it.
#[derive(Clone, Copy, Debug, PartialEq, Eq)]
pub struct ListMetadata {
    pub authority: Pubkey,
}

/// An entry of a list. That the entry exists says that the user is on the
/// list; it holds nothing.
#[derive(Clone, Copy, Debug, PartialEq, Eq, Structural)]
pub struct EntryMetadata {
}

/// Only the authority of the list may.
pub open spec fn authorized(list: ListMetadata, signer: Pubkey) -> Result<(), ErrorCode> {
    if list.authority == signer {
        Ok(())
    } else {
        Err(ErrorCode::NotAuthorized)
    }
}

/// Creates a list that belongs to the signer.
pub fn create_list(list: &mut ListMetadata, signer: &Pubkey) -> (r: Result<(), ErrorCode>)
    ensures
        r == Ok::<(), ErrorCode>(()),
        final(list).authority == *signer,
{
    list.authority = *signer;
    Ok(())
}

/// Deletes a list: only its authority may.
pub fn delete_list(list: &ListMetadata, signer: &Pubkey) -> (r: Result<(), ErrorCode>)
    ensures
        r == authorized(*list, *signer),
{
    if list.authority != *signer {
        return Err(ErrorCode::NotAuthorized);
    }
    Ok(())
}

/// Adds a user to a list: only the authority of the list may.
pub fn add_user(list: &ListMetadata, signer: &Pubkey) -> (r: Result<(), ErrorCode>)
    ensures
        r == authorized(*list, *signer),
{
    if list.authority != *signer {
        return Err(ErrorCode::NotAuthorized);
    }
    Ok(())
}

/// Removes a user from a list: only the authority of the list may.
pub fn remove_user(list: &ListMetadata, signer: &Pubkey) -> (r: Result<(), ErrorCode>)
    ensures
        r == authorized(*list, *signer),
{
    if list.authority != *signer {
        return Err(ErrorCode::NotAuthorized);
    }
    Ok(())
}

/// The seeds of the list of an authority: `list` and the authority.
pub open spec fn list_address_seeds(authority: Pubkey) -> Seq<Seq<u8>> {
    seq![LIST_SEED@, authority@]
}

/// The seeds of the entry of a user on a list: the list and the user.
pub open spec fn entry_address_seeds(list: Pubkey, user: Pubkey) -> Seq<Seq<u8>> {
    seq![list@, user@]
}

/// The address of the list of an authority, where there is one.
pub fn try_get_list_address(program_id: &Pubkey, authority: &Pubkey) -> (r: Option<Pubkey>)
    ensures
        r == match derive_address(list_address_seeds(*authority), *program_id) {
            Some((address, _)) => Some(address),
            None => None,
        },
{
    let tag: &'static [u8; 4] = &LIST_SEED;
    let seeds = [tag.as_slice(), authority.as_ref()];
    assert(seeds_of(seeds) =~= list_address_seeds(*authority));
    match Pubkey::try_find_address(&seeds, program_id) {
        Some((address, _)) => Some(address),
        None => None,
    }
}

/// The address of the entry of a user on a list, where there is one.
pub fn try_get_entry_address(program_id: &Pubkey, list: &Pubkey, user: &Pubkey) -> (r: Option<
    Pubkey,
>)
    ensures
        r == match derive_address(entry_address_seeds(*list, *user), *program_id) {
            Some((address, _)) => Some(address),
            None => None,
        },
{
    let seeds = [list.as_ref(), user.as_ref()];
    assert(seeds_of(seeds) =~= entry_address_seeds(*list, *user));
    match Pubkey::try_find_address(&seeds, program_id) {
        Some((address, _)) => Some(address),
        None => None,
    }
}

// ---------------------------------------------------------------------------
// The accounts of the instructions
// ---------------------------------------------------------------------------

/// The mark of the program on the accounts that hold its lists.
pub const LIST_METADATA_DISCRIMINATOR: [u8; 8] = [245, 77, 238, 20, 114, 17, 94, 226];

/// The mark of the program on the accounts that stand for entries.
pub const ENTRY_METADATA_DISCRIMINATOR: [u8; 8] = [216, 40, 159, 85, 150, 23, 233, 191];

/// Bytes of the account of a list: the mark and the authority.
pub const LIST_METADATA_LEN: usize = 8 + 32;

/// Bytes of the account of an entry: the mark.
pub const ENTRY_METADATA_LEN: usize = 8;

/// The address derived for the list of an authority.
pub open spec fn list_address(program_id: Pubkey, authority: Pubkey) -> Option<Pubkey> {
    match derive_address(list_address_seeds(authority), program_id) {
        Some((address, _)) => Some(address),
        None => None,
    }
}

/// The address derived for the entry of a user on a list.
pub open spec fn entry_address(program_id: Pubkey, list: Pubkey, user: Pubkey) -> Option<Pubkey> {
    match derive_address(entry_address_seeds(list, user), program_id) {
        Some((address, _)) => Some(address),
        None => None,
    }
}

/// What the account of a list holds: the mark and the authority.
pub open spec fn wire_list(list: ListMetadata) -> Seq<u8> {
    LIST_METADATA_DISCRIMINATOR@ + list.authority@
}

/// The list that an account holds for the program: the program must own the
/// account, and its data must begin with the mark and an authority.
pub open spec fn stored_list(program_id: Pubkey, info: &AccountInfo) -> Result<
    ListMetadata,
    ProgramError,
> {
    let mark = parse_array::<8>(info.data@);
    let authority = parse_pubkey(rest_of(mark));
    if owner_check(info, program_id) is Err {
        Err(ProgramError::IllegalOwner)
    } else if mark is None || authority is None {
        Err(ProgramError::BorshIoError)
    } else if value_of(mark) != LIST_METADATA_DISCRIMINATOR {
        Err(ProgramError::InvalidAccountData)
    } else {
        Ok(ListMetadata { authority: value_of(authority) })
    }
}

/// The account stands for an entry: the program owns it, and its data
/// begins with the mark of entries.
pub open spec fn stored_entry(program_id: Pubkey, info: &AccountInfo) -> Result<
    EntryMetadata,
    ProgramError,
> {
    let mark = parse_array::<8>(info.data@);
    if owner_check(info, program_id) is Err {
        Err(ProgramError::IllegalOwner)
    } else if mark is None {
        Err(ProgramError::BorshIoError)
    } else if value_of(mark) != ENTRY_METADATA_DISCRIMINATOR {
        Err(ProgramError::InvalidAccountData)
    } else {
        Ok(EntryMetadata {  })
    }
}

/// Reads the list that the account holds for the program.
pub fn get_stored_list(program_id: &Pubkey, info: &AccountInfo) -> (r: Result<
    ListMetadata,
    ProgramError,
>)
    ensures
        r == stored_list(*program_id, info),
{
    assert_owned_by(info, program_id)?;
    assert(info.data@.skip(0) =~= info.data@);
    let (mark, pos) = match read_array::<8>(info.data.as_slice(), 0) {
        Some(x) => x,
        None => {
            return Err(ProgramError::BorshIoError);
        },
    };
    let (authority, _) = match read_pubkey(info.data.as_slice(), pos) {
        Some(x) => x,
        None => {
            return Err(ProgramError::BorshIoError);
        },
    };
    if !crate::wire::same_bytes(&mark, &LIST_METADATA_DISCRIMINATOR) {
        return Err(ProgramError::InvalidAccountData);
    }
    Ok(ListMetadata { authority })
}

/// Reads the entry that the account stands for.
pub fn get_stored_entry(program_id: &Pubkey, info: &AccountInfo) -> (r: Result<
    EntryMetadata,
    ProgramError,
>)
    ensures
        r == stored_entry(*program_id, info),
{
    assert_owned_by(info, program_id)?;
    assert(info.data@.skip(0) =~= info.data@);
    let (mark, _) = match read_array::<8>(info.data.as_slice(), 0) {
        Some(x) => x,
        None => {
            return Err(ProgramError::BorshIoError);
        },
    };
    if !crate::wire::same_bytes(&mark, &ENTRY_METADATA_DISCRIMINATOR) {
        return Err(ProgramError::InvalidAccountData);
    }
    Ok(EntryMetadata {  })
}

/// The bytes of the account of a list.
pub fn serialize_list(list: &ListMetadata) -> (r: Vec<u8>)
    ensures
        r@ == wire_list(*list),
        r@.len() == LIST_METADATA_LEN,
{
    let mut out: Vec<u8> = Vec::new();
    out.extend_from_slice(LIST_METADATA_DISCRIMINATOR.as_slice());
    out.extend_from_slice(list.authority.as_ref());
    out
}

/// A list is read back from the bytes of its account, whatever follows
/// them.
pub proof fn lemma_list_round_trip(program_id: Pubkey, info: &AccountInfo, list: ListMetadata, rest: Seq<u8>)
    requires
        info.owner == program_id,
        info.data@ == wire_list(list) + rest,
    ensures
        stored_list(program_id, info) == Ok::<ListMetadata, ProgramError>(list),
{
    lemma_array_round_trip::<8>(LIST_METADATA_DISCRIMINATOR, list.authority@ + rest);
    lemma_pubkey_round_trip(list.authority, rest);
    lemma_concat_assoc(LIST_METADATA_DISCRIMINATOR@, list.authority@, rest);
}

/// The list of the signer: a list of the program that can be written to, at
/// the address derived for the signer.
pub open spec fn list_of_signer(program_id: Pubkey, list: &AccountInfo, signer: &AccountInfo) -> Result<
    ListMetadata,
    ProgramError,
> {
    if signer_check(signer) is Err {
        Err(ProgramError::MissingRequiredSignature)
    } else if writable_check(signer) is Err {
        Err(ProgramError::Immutable)
    } else if stored_list(program_id, list) is Err {
        stored_list(program_id, list)
    } else if writable_check(list) is Err {
        Err(ProgramError::Immutable)
    } else if address_check(list, list_address(program_id, signer.key)) is Err {
        Err(ProgramError::InvalidSeeds)
    } else {
        stored_list(program_id, list)
    }
}

fn get_list_of_signer(program_id: &Pubkey, list: &AccountInfo, signer: &AccountInfo) -> (r: Result<
    ListMetadata,
    ProgramError,
>)
    ensures
        r == list_of_signer(*program_id, list, signer),
{
    assert_signer(signer)?;
    assert_writable(signer)?;
    let stored = get_stored_list(program_id, list)?;
    assert_writable(list)?;
    assert_address(list, try_get_list_address(program_id, &signer.key))?;
    Ok(stored)
}

/// The accounts of `create_list`.
#[derive(Clone, Debug, PartialEq, Eq)]
pub struct CreateList {
    /// Who pays for the list, and whose it is.
    pub signer: AccountInfo,
    /// The account that is to hold the list.
    pub list: AccountInfo,
    pub system_program: AccountInfo,
}

impl CreateList {
    /// The signer signed and pays, the account of the list is new and is the
    /// one derived for the signer, and the system program is the system
    /// program.
    pub open spec fn accounts_check(&self, program_id: Pubkey) -> Result<(), ProgramError> {
        if signer_check(&self.signer) is Err {
            signer_check(&self.signer)
        } else if writable_check(&self.signer) is Err {
            writable_check(&self.signer)
        } else if uninitialized_check(&self.list) is Err {
            uninitialized_check(&self.list)
        } else if address_check(&self.list, list_address(program_id, self.signer.key)) is Err {
            Err(ProgramError::InvalidSeeds)
        } else {
            system_program_check(&self.system_program)
        }
    }

    pub fn try_accounts(&self, program_id: &Pubkey) -> (r: Result<(), ProgramError>)
        ensures
            r == self.accounts_check(*program_id),
    {
        assert_signer(&self.signer)?;
        assert_writable(&self.signer)?;
        assert_uninitialized(&self.list)?;
        assert_address(&self.list, try_get_list_address(program_id, &self.signer.key))?;
        assert_system_program(&self.system_program)
    }
}

/// The accounts of `delete_list`.
#[derive(Clone, Debug, PartialEq, Eq)]
pub struct DeleteList {
    pub signer: AccountInfo,
    pub list: AccountInfo,
}

impl DeleteList {
    /// The signer signed, and the list is the signer's.
    pub open spec fn accounts_check(&self, program_id: Pubkey) -> Result<
        ListMetadata,
        ProgramError,
    > {
        list_of_signer(program_id, &self.list, &self.signer)
    }

    pub fn try_accounts(&self, program_id: &Pubkey) -> (r: Result<ListMetadata, ProgramError>)
        ensures
            r == self.accounts_check(*program_id),
    {
        get_list_of_signer(program_id, &self.list, &self.signer)
    }
}

/// The accounts of `add_user`.
#[derive(Clone, Debug, PartialEq, Eq)]
pub struct AddUser {
    pub signer: AccountInfo,
    pub list: AccountInfo,
    /// The account that is to stand for the entry.
    pub entry: AccountInfo,
    /// Who is put on the list.
    pub user: AccountInfo,
    pub system_program: AccountInfo,
}

impl AddUser {
    /// The signer signed, the list is the signer's, the account of the entry
    /// is new and is the one derived for the user on the list, the user is a
    /// plain account that can be written to, and the system program is the
    /// system program.
    pub open spec fn accounts_check(&self, program_id: Pubkey) -> Result<
        ListMetadata,
        ProgramError,
    > {
        let list = list_of_signer(program_id, &self.list, &self.signer);
        if list is Err {
            list
        } else if uninitialized_check(&self.entry) is Err {
            Err(uninitialized_check(&self.entry)->Err_0)
        } else if address_check(
            &self.entry,
            entry_address(program_id, self.list.key, self.user.key),
        ) is Err {
            Err(ProgramError::InvalidSeeds)
        } else if system_account_check(&self.user) is Err {
            Err(ProgramError::IllegalOwner)
        } else if writable_check(&self.user) is Err {
            Err(ProgramError::Immutable)
        } else if system_program_check(&self.system_program) is Err {
            Err(ProgramError::IncorrectProgramId)
        } else {
            list
        }
    }

    pub fn try_accounts(&self, program_id: &Pubkey) -> (r: Result<ListMetadata, ProgramError>)
        ensures
            r == self.accounts_check(*program_id),
    {
        let list = get_list_of_signer(program_id, &self.list, &self.signer)?;
        assert_uninitialized(&self.entry)?;
        assert_address(
            &self.entry,
            try_get_entry_address(program_id, &self.list.key, &self.user.key),
        )?;
        assert_system_account(&self.user)?;
        assert_writable(&self.user)?;
        assert_system_program(&self.system_program)?;
        Ok(list)
    }
}

/// The accounts of `remove_user`.
#[derive(Clone, Debug, PartialEq, Eq)]
pub struct RemoveUser {
    pub signer: AccountInfo,
    pub list: AccountInfo,
    /// The account that stands for the entry.
    pub entry: AccountInfo,
    /// Who is taken off the list.
    pub user: AccountInfo,
}

impl RemoveUser {
    /// The signer signed, the list is the signer's, the entry is an entry of
    /// the program that can be written to, at the address derived for the
    /// user on the list, and the user is a plain account that can be written
    /// to.
    pub open spec fn accounts_check(&self, program_id: Pubkey) -> Result<
        ListMetadata,
        ProgramError,
    > {
        let list = list_of_signer(program_id, &self.list, &self.signer);
        if list is Err {
            list
        } else if stored_entry(program_id, &self.entry) is Err {
            Err(stored_entry(program_id, &self.entry)->Err_0)
        } else if writable_check(&self.entry) is Err {
            Err(ProgramError::Immutable)
        } else if address_check(
            &self.entry,
            entry_address(program_id, self.list.key, self.user.key),
        ) is Err {
            Err(ProgramError::InvalidSeeds)
        } else if system_account_check(&self.user) is Err {
            Err(ProgramError::IllegalOwner)
        } else if writable_check(&self.user) is Err {
            Err(ProgramError::Immutable)
        } else {
            list
        }
    }

    pub fn try_accounts(&self, program_id: &Pubkey) -> (r: Result<ListMetadata, ProgramError>)
        ensures
            r == self.accounts_check(*program_id),
    {
        let list = get_list_of_signer(program_id, &self.list, &self.signer)?;
        get_stored_entry(program_id, &self.entry)?;
        assert_writable(&self.entry)?;
        assert_address(
            &self.entry,
            try_get_entry_address(program_id, &self.list.key, &self.user.key),
        )?;
        assert_system_account(&self.user)?;
        assert_writable(&self.user)?;
        Ok(list)
    }
}

} // verus!
