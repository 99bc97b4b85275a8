//! Account resolution: which persistent identifier represents the vending
//! state. A cached identifier is reused when the ledger knows it and its
//! owning program matches; otherwise a fresh account is provisioned and its
//! identifier overwrites the cache.

use vstd::prelude::*;
use crate::errors::VendingError;
use crate::ids::{AccountId, pubkey_of_text, text_of_pubkey};
use crate::instruction::{build, instr_data, AccountSet, Operation};
use crate::orchestrate::{operation_transaction, TransactionPlan};

verus! {

/// What reading the cache decides: fetch the cached identifier from the
/// ledger, or go straight to provisioning.
#[derive(Debug)]
pub enum ResolveStep {
    NeedFetch(AccountId),
    ProvisionNew,
}

/// The ledger's answer for a cached identifier: the account is missing, or it
/// exists and is owned by the given program.
#[derive(Debug)]
pub enum FetchOutcome {
    Missing,
    Owned(AccountId),
}

/// The resolver decision: reuse the cached identifier, or provision anew.
/// The two expected conditions that demand provisioning — `AccountNotFound`
/// and `OwnershipMismatch` — are signals, not failures of the run.
#[derive(Debug)]
pub enum Resolution {
    Reuse(AccountId),
    Provision(VendingError),
}

/// The identifier a resolver step will fetch, if any.
pub open spec fn step_view(r: ResolveStep) -> Option<Seq<u8>> {
    match r {
        ResolveStep::NeedFetch(id) => Some(id@),
        ResolveStep::ProvisionNew => None,
    }
}

/// The owning program the ledger reported, if the account exists.
pub open spec fn fetch_view(o: FetchOutcome) -> Option<Seq<u8>> {
    match o {
        FetchOutcome::Owned(p) => Some(p@),
        FetchOutcome::Missing => None,
    }
}

/// The identifier a resolution reuses, if any.
pub open spec fn resolution_view(r: Resolution) -> Option<Seq<u8>> {
    match r {
        Resolution::Reuse(id) => Some(id@),
        Resolution::Provision(_) => None,
    }
}

/// The view of an optional cache text.
pub open spec fn cache_view(c: Option<&str>) -> Option<Seq<char>> {
    match c {
        Some(s) => Some(s@),
        None => None,
    }
}

/// The identifier a cache content denotes: present and valid base-58 text of
/// a 32-byte key, or nothing.
pub open spec fn spec_cached_id(cache: Option<Seq<char>>) -> Option<Seq<u8>> {
    match cache {
        Some(s) => pubkey_of_text(s),
        None => None,
    }
}

/// The decision on a cached identifier, given the ledger's answer: reuse it
/// exactly when the account exists and its owning program is the expected one.
pub open spec fn spec_after_fetch(cached: Seq<u8>, owner: Option<Seq<u8>>, program: Seq<u8>) -> Option<
    Seq<u8>,
> {
    match owner {
        Some(p) => if p == program {
            Some(cached)
        } else {
            None
        },
        None => None,
    }
}

/// The whole resolution as a function of the cache content and the ledger's
/// answer for the cached identifier: `Some` is the identifier to reuse,
/// `None` demands provisioning.
pub open spec fn spec_resolution(
    cache: Option<Seq<char>>,
    owner_of_cached: Option<Seq<u8>>,
    program: Seq<u8>,
) -> Option<Seq<u8>> {
    match spec_cached_id(cache) {
        Some(id) => spec_after_fetch(id, owner_of_cached, program),
        None => None,
    }
}

/// Reads the cache content: a present, parsable identifier is fetched next;
/// an absent or malformed cache goes straight to provisioning.
pub fn start_resolve(cache: Option<&str>) -> (r: ResolveStep)
    ensures
        step_view(r) == spec_cached_id(cache_view(cache)),
        r matches ResolveStep::NeedFetch(id) ==> id.wf(),
{
    match cache {
        None => ResolveStep::ProvisionNew,
        Some(s) => match AccountId::parse_text(s) {
            Some(id) => ResolveStep::NeedFetch(id),
            None => ResolveStep::ProvisionNew,
        },
    }
}

/// Judges the cached identifier by the ledger's answer: reused exactly when
/// the account exists and its owning-program tag equals the expected program.
pub fn after_fetch(cached: AccountId, outcome: &FetchOutcome, program: &AccountId) -> (r:
    Resolution)
    ensures
        resolution_view(r) == spec_after_fetch(cached@, fetch_view(*outcome), program@),
        r matches Resolution::Reuse(id) ==> id@ == cached@,
        outcome is Missing ==> r == Resolution::Provision(VendingError::AccountNotFound),
        (outcome matches FetchOutcome::Owned(p) && p@ != program@) ==> r == Resolution::Provision(
            VendingError::OwnershipMismatch,
        ),
{
    match outcome {
        FetchOutcome::Missing => Resolution::Provision(VendingError::AccountNotFound),
        FetchOutcome::Owned(p) => {
            if p.same_as(program) {
                Resolution::Reuse(cached)
            } else {
                Resolution::Provision(VendingError::OwnershipMismatch)
            }
        },
    }
}

/// The cache line that persists an identifier: its base-58 text, which a
/// later resolution parses back to the same identifier.
pub fn cache_line_for(id: &AccountId) -> (line: String)
    requires
        id.wf(),
    ensures
        line@ == text_of_pubkey(id@),
        spec_cached_id(Some(line@)) == Some(id@),
{
    id.to_text()
}

/// Everything provisioning a fresh state account takes: fund the new account
/// with the queried rent-exemption balance for the 48-byte layout and assign
/// it to the program (one submission), then initialize it (a second
/// submission), and overwrite the cache with the new identifier's text.
#[derive(Debug)]
pub struct ProvisionPlan {
    pub funder: AccountId,
    pub new_account: AccountId,
    pub lamports: u64,
    pub space: u64,
    pub owner_program: AccountId,
    pub create_signers: Vec<AccountId>,
    pub init: TransactionPlan,
    pub cache_line: String,
}

/// Plans the provisioning of a fresh state account identified by `fresh`,
/// paid by `payer`, owned by `program`, initialized under `owner`, and funded
/// with `rent_lamports`.
pub fn provision_plan(
    payer: &AccountId,
    owner: &AccountId,
    fresh: &AccountId,
    program: &AccountId,
    rent_lamports: u64,
) -> (p: ProvisionPlan)
    requires
        payer.wf(),
        owner.wf(),
        fresh.wf(),
        program.wf(),
    ensures
        p.funder@ == payer@,
        p.new_account@ == fresh@,
        p.lamports == rent_lamports,
        p.space == 48,
        p.owner_program@ == program@,
        p.create_signers@.len() == 2,
        p.create_signers@[0]@ == payer@,
        p.create_signers@[1]@ == fresh@,
        p.init.instructions@.len() == 1,
        p.init.instructions@[0].program@ == program@,
        p.init.instructions@[0].data@ == instr_data(Operation::Initialize, 0),
        p.init.instructions@[0].accounts@.len() == 2,
        p.init.instructions@[0].accounts@[0]@ == (owner@, false, true),
        p.init.instructions@[0].accounts@[1]@ == (fresh@, true, false),
        p.init.fee_payer@ == payer@,
        p.init.signers@.len() == 2,
        p.init.signers@[0]@ == payer@,
        p.init.signers@[1]@ == owner@,
        p.cache_line@ == text_of_pubkey(fresh@),
        spec_cached_id(Some(p.cache_line@)) == Some(fresh@),
{
    let placeholder = AccountId::zeroed();
    let set = AccountSet {
        owner: owner.duplicate(),
        state: fresh.duplicate(),
        buyer: placeholder.duplicate(),
        buyer_token: placeholder.duplicate(),
        owner_token: placeholder.duplicate(),
        token_program: placeholder.duplicate(),
        system_program: placeholder,
    };
    let init_instr = build(Operation::Initialize, 0, program, &set);
    let init = operation_transaction(init_instr, payer, owner);
    let mut create_signers: Vec<AccountId> = Vec::new();
    create_signers.push(payer.duplicate());
    create_signers.push(fresh.duplicate());
    let cache_line = cache_line_for(fresh);
    ProvisionPlan {
        funder: payer.duplicate(),
        new_account: fresh.duplicate(),
        lamports: rent_lamports,
        space: 48,
        owner_program: program.duplicate(),
        create_signers,
        init,
        cache_line,
    }
}

/// Law: resolver idempotence. The resolution is a function of the cache
/// content and the ledger's answer alone, so over an unchanged cache whose
/// text denotes an identifier the ledger reports as owned by the expected
/// program, every resolution — a first and a second alike — returns that same
/// identifier and never demands provisioning.
pub proof fn lemma_resolver_idempotent(cache: Seq<char>, program: Seq<u8>)
    ensures
        spec_cached_id(Some(cache)) matches Some(id) ==> spec_resolution(
            Some(cache),
            Some(program),
            program,
        ) == Some(id),
{
}

/// Law: resolver self-healing. When the ledger reports the cached identifier
/// missing, resolution demands provisioning; and once the text of a freshly
/// provisioned identifier overwrites the cache — text that parses back to
/// exactly that identifier — the next resolution over a ledger that owns it
/// reuses exactly the provisioned identifier.
pub proof fn lemma_resolver_self_healing(
    cache: Seq<char>,
    healed: Seq<char>,
    fresh: Seq<u8>,
    program: Seq<u8>,
)
    ensures
        spec_resolution(Some(cache), None, program) is None,
        pubkey_of_text(healed) == Some(fresh) ==> spec_resolution(
            Some(healed),
            Some(program),
            program,
        ) == Some(fresh),
{
}

} // verus!
