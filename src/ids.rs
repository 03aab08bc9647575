//! Account identifiers and scoped signing authorities.
use anchor_lang::solana_program::pubkey::Pubkey;
use vstd::prelude::*;
use vstd::string::{StrSliceExecFns, StringSliceAdditionalSpecFns};

verus! {

/// Identifier of an account on the host platform (32 bytes).
#[derive(Clone, Copy, Debug, PartialEq, Eq)]
pub struct AccountId {
    pub bytes: [u8; 32],
}

impl View for AccountId {
    type V = Seq<u8>;

    open spec fn view(&self) -> Seq<u8> {
        self.bytes@
    }
}

impl AccountId {
    pub fn new(bytes: [u8; 32]) -> (r: AccountId)
        ensures
            r.bytes == bytes,
    {
        AccountId { bytes }
    }

    /// Compares two identifiers byte by byte.
    pub fn same(&self, other: &AccountId) -> (r: bool)
        ensures
            r == (self@ == other@),
    {
        let mut i: usize = 0;
        while i < 32
            invariant
                i <= 32,
                self@.len() == 32,
                other@.len() == 32,
                forall|j: int| 0 <= j < i ==> self@[j] == other@[j],
            decreases 32 - i,
        {
            if self.bytes[i] != other.bytes[i] {
                return false;
            }
            i = i + 1;
        }
        assert(self@ =~= other@);
        true
    }

    /// The identifier's bytes as a vector.
    pub fn to_vec(&self) -> (r: Vec<u8>)
        ensures
            r@ == self@,
    {
        let mut out: Vec<u8> = Vec::new();
        let mut i: usize = 0;
        while i < 32
            invariant
                i <= 32,
                self@.len() == 32,
                out@ == self@.subrange(0, i as int),
            decreases 32 - i,
        {
            out.push(self.bytes[i]);
            i = i + 1;
            assert(out@ =~= self@.subrange(0, i as int));
        }
        assert(self@.subrange(0, 32) =~= self@);
        out
    }
}

/// Whether `id` occurs in `list`.
pub open spec fn listed(list: Seq<AccountId>, id: Seq<u8>) -> bool {
    exists|i: int| 0 <= i < list.len() && #[trigger] list[i]@ == id
}

/// Membership test on an allow-list of identifiers.
pub fn contains_id(list: &Vec<AccountId>, id: &AccountId) -> (r: bool)
    ensures
        r == listed(list@, id@),
{
    let mut i: usize = 0;
    while i < list.len()
        invariant
            i <= list@.len(),
            forall|j: int| 0 <= j < i ==> #[trigger] list@[j]@ != id@,
        decreases list@.len() - i,
    {
        if list[i].same(id) {
            return true;
        }
        i = i + 1;
    }
    false
}

/// The program-derived address that the host assigns to a list of seeds
/// under a program id, if one exists.
pub uninterp spec fn program_address_of(seeds: Seq<Seq<u8>>, program: Seq<u8>) -> Option<Seq<u8>>;

pub open spec fn seeds_view(seeds: Seq<Vec<u8>>) -> Seq<Seq<u8>> {
    seeds.map_values(|s: Vec<u8>| s@)
}

/// Relies on Pubkey::try_find_program_address: the derived address depends on
/// the seeds and the program id alone, and is absent when no bump seed gives
/// an address off the curve (or the seeds exceed the host's limits).
#[verifier::external_body]
fn find_program_address(seeds: &Vec<Vec<u8>>, program: &AccountId) -> (r: Option<AccountId>)
    ensures
        match r {
            Some(a) => program_address_of(seeds_view(seeds@), program@) == Some(a@),
            None => program_address_of(seeds_view(seeds@), program@) is None,
        },
{
    let refs: Vec<&[u8]> = seeds.iter().map(|s| s.as_slice()).collect();
    let program = Pubkey::new_from_array(program.bytes);
    Pubkey::try_find_program_address(&refs, &program).map(|(a, _)| AccountId { bytes: a.to_bytes() })
}

/// The seeds of a scoped authority: a label followed by the identifiers of
/// the module and of its counterparties.
pub open spec fn authority_seeds(label: Seq<u8>, keys: Seq<AccountId>) -> Seq<Seq<u8>> {
    seq![label] + keys.map_values(|k: AccountId| k@)
}

/// The scoped signing authority for `label` and `keys` under `program`.
pub open spec fn authority_of(label: Seq<u8>, keys: Seq<AccountId>, program: Seq<u8>) -> Option<
    Seq<u8>,
> {
    program_address_of(authority_seeds(label, keys), program)
}

/// Derives the scoped signing authority that the host attributes to
/// `program` for the seeds `label, keys[0], keys[1], ...`. No private key
/// exists for it: only `program` can sign on its behalf.
pub fn derive_authority(label: &str, keys: &Vec<AccountId>, program: &AccountId) -> (r: Option<
    AccountId,
>)
    ensures
        match r {
            Some(a) => authority_of(label.spec_bytes(), keys@, program@) == Some(a@),
            None => authority_of(label.spec_bytes(), keys@, program@) is None,
        },
{
    let mut seeds: Vec<Vec<u8>> = Vec::new();
    seeds.push(label.as_bytes_vec());
    let mut i: usize = 0;
    while i < keys.len()
        invariant
            i <= keys@.len(),
            seeds_view(seeds@) =~= authority_seeds(label.spec_bytes(), keys@.subrange(0, i as int)),
        decreases keys@.len() - i,
    {
        let k = keys[i].to_vec();
        let ghost prev = keys@.subrange(0, i as int);
        let ghost before = seeds@;
        seeds.push(k);
        i = i + 1;
        proof {
            let next = keys@.subrange(0, i as int);
            assert(next =~= prev.push(keys@[i - 1]));
            assert(next.map_values(|k: AccountId| k@) =~= prev.map_values(|k: AccountId| k@).push(
                keys@[i - 1]@,
            ));
            assert(seeds@ =~= before.push(k));
            assert(seeds_view(seeds@) =~= seeds_view(before).push(k@));
            let lab = seq![label.spec_bytes()];
            assert(lab + prev.map_values(|k: AccountId| k@).push(keys@[i - 1]@) =~= (lab
                + prev.map_values(|k: AccountId| k@)).push(keys@[i - 1]@));
        }
    }
    assert(keys@.subrange(0, keys@.len() as int) =~= keys@);
    find_program_address(&seeds, program)
}

} // verus!
