//! The addresses at which records are stored. The address of a record is
//! derived from a tag for its kind and the identities of the records it
//! belongs to, so that it can be computed without a directory.

use vstd::prelude::*;
use vstd::bytes::{spec_u64_to_le_bytes, u64_to_le_bytes};
use vstd::slice::slice_to_vec;
use vstd::string::StringSliceAdditionalSpecFns;
use crate::pubkey::Pubkey;

verus! {

/// The kinds of stored records.
#[derive(Clone, Copy, Debug, PartialEq, Eq, Structural)]
pub enum RecordKind {
    AccessController,
    Role,
    Member,
    TokenValidator,
    WhitelistedToken,
    Fundlock,
    FundlockTokenVault,
    ClientBalance,
    Withdrawals,
    Ledger,
    Contract,
    Position,
}

/// The tag of a kind of record: the bytes of its name.
pub open spec fn record_tag(kind: RecordKind) -> Seq<u8> {
    match kind {
        RecordKind::AccessController => "access_controller".spec_bytes(),
        RecordKind::Role => "role".spec_bytes(),
        RecordKind::Member => "member".spec_bytes(),
        RecordKind::TokenValidator => "token_validator".spec_bytes(),
        RecordKind::WhitelistedToken => "whitelisted_token".spec_bytes(),
        RecordKind::Fundlock => "fundlock".spec_bytes(),
        RecordKind::FundlockTokenVault => "fundlock_token_vault".spec_bytes(),
        RecordKind::ClientBalance => "client_balance".spec_bytes(),
        RecordKind::Withdrawals => "withdrawals".spec_bytes(),
        RecordKind::Ledger => "ledger".spec_bytes(),
        RecordKind::Contract => "contract".spec_bytes(),
        RecordKind::Position => "position".spec_bytes(),
    }
}

/// The seeds of a record: the tag of its kind, then what identifies it among
/// the records of its kind, in the order given.
pub open spec fn record_seeds(kind: RecordKind, parents: Seq<Seq<u8>>) -> Seq<Seq<u8>> {
    seq![record_tag(kind)] + parents
}

/// The largest number of seeds from which an address is derived, the bump
/// seed counted in.
pub const MAX_SEEDS: usize = 16;

/// The largest number of bytes in a seed.
pub const MAX_SEED_LEN: usize = 32;

/// Whether the derivation admits the seeds: with the bump seed that it adds
/// they are no more than `MAX_SEEDS`, and none is longer than `MAX_SEED_LEN`.
pub open spec fn seeds_admitted(seeds: Seq<Seq<u8>>) -> bool {
    &&& seeds.len() < MAX_SEEDS
    &&& forall|i: int| 0 <= i < seeds.len() ==> (#[trigger] seeds[i]).len() <= MAX_SEED_LEN
}

/// The address that the program `program_id` derives from `seeds`, together
/// with the bump seed that the derivation settled on; none where no address
/// can be derived from them.
pub uninterp spec fn program_address(seeds: Seq<Seq<u8>>, program_id: Seq<u8>) -> Option<
    (Seq<u8>, u8),
>;

/// Derives a program address by `Pubkey::try_find_program_address` of
/// `solana_program::pubkey`, which `anchor_lang::prelude` hands on. The
/// contract claims two things of it. What it returns depends on the seeds
/// and the program's identity alone, so that it can be named
/// `program_address` of them. And it returns nothing for seeds that it does
/// not admit: it gives up on the first bump seed where the seeds with the
/// bump seed are more than 16 or one of them is longer than 32 bytes.
///
/// What the address is, is not claimed: the function hashes the seeds, a
/// bump seed that it counts down from 255 and the program's identity, and
/// returns the first hash that is no point of the curve, with its bump seed.
#[verifier::external_body]
fn try_find_program_address(seeds: &Vec<Vec<u8>>, program_id: &Pubkey) -> (found: Option<
    (Pubkey, u8),
>)
    ensures
        program_address(seeds.deep_view(), program_id@) == match found {
            Some((address, bump)) => Some((address@, bump)),
            None => None,
        },
        found is Some ==> seeds_admitted(seeds.deep_view()),
{
    let slices: Vec<&[u8]> = seeds.iter().map(|seed| seed.as_slice()).collect();
    let program = anchor_lang::prelude::Pubkey::new_from_array(program_id.bytes);
    anchor_lang::prelude::Pubkey::try_find_program_address(&slices, &program).map(
        |(address, bump)| (Pubkey { bytes: address.to_bytes() }, bump),
    )
}

impl RecordKind {
    /// The tag of this kind of record.
    pub fn tag(&self) -> (tag: Vec<u8>)
        ensures
            tag@ == record_tag(*self),
    {
        let name = match self {
            RecordKind::AccessController => "access_controller",
            RecordKind::Role => "role",
            RecordKind::Member => "member",
            RecordKind::TokenValidator => "token_validator",
            RecordKind::WhitelistedToken => "whitelisted_token",
            RecordKind::Fundlock => "fundlock",
            RecordKind::FundlockTokenVault => "fundlock_token_vault",
            RecordKind::ClientBalance => "client_balance",
            RecordKind::Withdrawals => "withdrawals",
            RecordKind::Ledger => "ledger",
            RecordKind::Contract => "contract",
            RecordKind::Position => "position",
        };
        slice_to_vec(name.as_bytes())
    }
}

/// The address and bump of the record of a kind that `parents` identify,
/// where the program can derive one.
pub fn locate(kind: RecordKind, parents: &Vec<Vec<u8>>, program_id: &Pubkey) -> (found: Option<
    (Pubkey, u8),
>)
    ensures
        program_address(record_seeds(kind, parents.deep_view()), program_id@) == match found {
            Some((address, bump)) => Some((address@, bump)),
            None => None,
        },
        found is Some ==> seeds_admitted(record_seeds(kind, parents.deep_view())),
{
    let mut seeds: Vec<Vec<u8>> = Vec::new();
    seeds.push(kind.tag());
    let mut index: usize = 0;
    while index < parents.len()
        invariant
            index <= parents@.len(),
            seeds@.len() == index + 1,
            seeds@[0]@ == record_tag(kind),
            forall|i: int| 0 <= i < index ==> (#[trigger] seeds@[i + 1])@ == parents@[i]@,
        decreases parents@.len() - index,
    {
        let mut seed: Vec<u8> = Vec::new();
        let parent = &parents[index];
        let mut at: usize = 0;
        while at < parent.len()
            invariant
                at <= parent@.len(),
                seed@ == parent@.take(at as int),
            decreases parent@.len() - at,
        {
            seed.push(parent[at]);
            at += 1;
        }
        seeds.push(seed);
        index += 1;
    }
    assert(seeds.deep_view() =~= record_seeds(kind, parents.deep_view())) by {
        let left = seeds.deep_view();
        let right = record_seeds(kind, parents.deep_view());
        assert forall|i: int| 0 <= i < left.len() implies left[i] == right[i] by {
            if i > 0 {
                assert(seeds@[(i - 1) + 1]@ == parents@[i - 1]@);
            }
        }
    }
    try_find_program_address(&seeds, program_id)
}

/// The seeds of the contract with `contract_id` in `ledger`: the tag, the
/// ledger's identity, and the id in little-endian bytes.
pub open spec fn contract_seeds(ledger: Pubkey, contract_id: u64) -> Seq<Seq<u8>> {
    record_seeds(RecordKind::Contract, seq![ledger@, spec_u64_to_le_bytes(contract_id)])
}

/// The seeds of the position of `client` in the contract stored at
/// `contract`: the tag and the two identities.
pub open spec fn position_seeds(contract: Pubkey, client: Pubkey) -> Seq<Seq<u8>> {
    record_seeds(RecordKind::Position, seq![contract@, client@])
}

/// The seeds of the balance that the holder of the token account
/// `client_ata` has in the vault `vault`: the tag and the two identities.
pub open spec fn client_balance_seeds(vault: Pubkey, client_ata: Pubkey) -> Seq<Seq<u8>> {
    record_seeds(RecordKind::ClientBalance, seq![vault@, client_ata@])
}

/// The seeds of the queue of withdrawals of the balance stored at
/// `client_balance`, under the fundlock stored at `fundlock`: the tag and the
/// two identities.
pub open spec fn withdrawals_seeds(fundlock: Pubkey, client_balance: Pubkey) -> Seq<Seq<u8>> {
    record_seeds(RecordKind::Withdrawals, seq![fundlock@, client_balance@])
}

/// The address and bump of the record of a kind that two identities
/// identify.
fn locate_by_two(kind: RecordKind, first: &Pubkey, second: &Pubkey, program_id: &Pubkey) -> (found:
    Option<(Pubkey, u8)>)
    ensures
        program_address(record_seeds(kind, seq![first@, second@]), program_id@) == match found {
            Some((address, bump)) => Some((address@, bump)),
            None => None,
        },
{
    let mut parents: Vec<Vec<u8>> = Vec::new();
    parents.push(first.to_vec());
    parents.push(second.to_vec());
    assert(parents.deep_view() =~= seq![first@, second@]) by {
        assert(parents.deep_view()[0] =~= first@);
        assert(parents.deep_view()[1] =~= second@);
    }
    locate(kind, &parents, program_id)
}

/// The address and bump of the contract with `contract_id` in `ledger`, where
/// the program can derive one.
pub fn contract_address(ledger: &Pubkey, contract_id: u64, program_id: &Pubkey) -> (found: Option<
    (Pubkey, u8),
>)
    ensures
        program_address(contract_seeds(*ledger, contract_id), program_id@) == match found {
            Some((address, bump)) => Some((address@, bump)),
            None => None,
        },
{
    let mut parents: Vec<Vec<u8>> = Vec::new();
    parents.push(ledger.to_vec());
    parents.push(u64_to_le_bytes(contract_id));
    assert(parents.deep_view() =~= seq![ledger@, spec_u64_to_le_bytes(contract_id)]) by {
        assert(parents.deep_view()[0] =~= ledger@);
        assert(parents.deep_view()[1] =~= spec_u64_to_le_bytes(contract_id));
    }
    locate(RecordKind::Contract, &parents, program_id)
}

/// The address and bump of the position of `client` in the contract stored at
/// `contract`, where the program can derive one.
pub fn position_address(contract: &Pubkey, client: &Pubkey, program_id: &Pubkey) -> (found: Option<
    (Pubkey, u8),
>)
    ensures
        program_address(position_seeds(*contract, *client), program_id@) == match found {
            Some((address, bump)) => Some((address@, bump)),
            None => None,
        },
{
    locate_by_two(RecordKind::Position, contract, client, program_id)
}

/// The address and bump of the balance that the holder of the token account
/// `client_ata` has in the vault `vault`, where the program can derive one.
pub fn client_balance_address(vault: &Pubkey, client_ata: &Pubkey, program_id: &Pubkey) -> (found:
    Option<(Pubkey, u8)>)
    ensures
        program_address(client_balance_seeds(*vault, *client_ata), program_id@) == match found {
            Some((address, bump)) => Some((address@, bump)),
            None => None,
        },
{
    locate_by_two(RecordKind::ClientBalance, vault, client_ata, program_id)
}

/// The address and bump of the queue of withdrawals of the balance stored at
/// `client_balance`, where the program can derive one.
pub fn withdrawals_address(fundlock: &Pubkey, client_balance: &Pubkey, program_id: &Pubkey) -> (found:
    Option<(Pubkey, u8)>)
    ensures
        program_address(withdrawals_seeds(*fundlock, *client_balance), program_id@) == match found {
            Some((address, bump)) => Some((address@, bump)),
            None => None,
        },
{
    locate_by_two(RecordKind::Withdrawals, fundlock, client_balance, program_id)
}

} // verus!
