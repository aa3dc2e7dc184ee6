//! Off-chain checking of a claim transaction: find this program's claim
//! instruction in a decoded message, re-derive the addresses it must name, and
//! compare them position by position.

use vstd::prelude::*;
use vstd::string::StringSliceAdditionalSpecFns;
use crate::address::Address;
use crate::discriminator::{claim_discriminator, claim_tag, claim_v2_discriminator, claim_v2_tag};
use crate::pda::{
    associated_token_address, associated_token_key, named_referral_address, named_referral_seeds,
    program_address, project_address, project_authority_address, project_authority_seeds,
    project_seeds, referral_token_address, referral_token_seeds,
};
use crate::program_ids::{referral_program_id, referral_program_key};
use crate::helper::{ata_key, claim_accounts, claim_v2_programs, ClaimV2Params};
use crate::instruction::{metas, Instruction};

verus! {

/// An instruction of a decoded message: accounts are indexes into the
/// message's account keys.
#[derive(Clone, Debug)]
pub struct CompiledInstruction {
    pub program_id_index: u8,
    pub accounts: Vec<u8>,
    pub data: Vec<u8>,
}

/// A decoded transaction message: its account keys and top-level instructions.
#[derive(Clone, Debug)]
pub struct Message {
    pub account_keys: Vec<Address>,
    pub instructions: Vec<CompiledInstruction>,
}

/// An instruction with its program and accounts resolved to addresses.
#[derive(Clone, Debug)]
pub struct SimpleInstruction {
    pub program_id: Address,
    pub accounts: Vec<Address>,
    pub data: Vec<u8>,
}

/// Project information for validation.
#[derive(Clone, Copy, Debug)]
pub struct ProjectInfo {
    pub base: Address,
    pub admin: Address,
}

/// The summary of a claim. The claim instruction carries no amount or share
/// (both are computed from the live balance when it executes), so `amount` and
/// `share_bps` are informational placeholders, to be confirmed against the
/// claim event.
#[derive(Clone, Copy, Debug)]
pub struct ClaimDetails {
    pub amount: u64,
    pub share_bps: u16,
    pub project: Address,
    pub partner: Address,
    pub mint: Address,
}

impl View for ClaimDetails {
    type V = (u64, u16, Seq<u8>, Seq<u8>, Seq<u8>);

    open spec fn view(&self) -> (u64, u16, Seq<u8>, Seq<u8>, Seq<u8>) {
        (self.amount, self.share_bps, self.project@, self.partner@, self.mint@)
    }
}

/// The amount reported for a claim whose amount is not known off-chain.
pub const UNVERIFIED_AMOUNT: u64 = 1_000_000;

/// The share reported for a claim whose share is not known off-chain.
pub const UNVERIFIED_SHARE_BPS: u16 = 5000;

/// Both claim layouts have this many accounts.
pub const CLAIM_ACCOUNT_COUNT: usize = 12;

/// Why a claim transaction is not trusted.
#[derive(Clone, Copy, Debug, PartialEq, Eq, Structural)]
pub enum ValidationError {
    NoReferralInstruction,
    InsufficientAccounts,
    PdaDerivationFailed,
    ProjectPdaMismatch,
    ReferralAccountPdaMismatch,
    ReferralTokenAccountMismatch,
    PartnerMismatch,
    MintMismatch,
}

impl ValidationError {
    /// A short description of the error.
    pub fn message(&self) -> (r: &'static str)
        ensures
            *self == ValidationError::NoReferralInstruction ==> r@ == "No referral instruction found"@,
            *self == ValidationError::InsufficientAccounts ==> r@ == "Not enough accounts for claim instruction"@,
            *self == ValidationError::PdaDerivationFailed ==> r@ == "Failed to derive PDA"@,
            *self == ValidationError::ProjectPdaMismatch ==> r@ == "Project PDA mismatch"@,
            *self == ValidationError::ReferralAccountPdaMismatch ==> r@ == "Referral account PDA mismatch"@,
            *self == ValidationError::ReferralTokenAccountMismatch ==> r@ == "Referral token account mismatch"@,
            *self == ValidationError::PartnerMismatch ==> r@ == "Partner mismatch"@,
            *self == ValidationError::MintMismatch ==> r@ == "Mint mismatch"@,
    {
        match self {
            ValidationError::NoReferralInstruction => "No referral instruction found",
            ValidationError::InsufficientAccounts => "Not enough accounts for claim instruction",
            ValidationError::PdaDerivationFailed => "Failed to derive PDA",
            ValidationError::ProjectPdaMismatch => "Project PDA mismatch",
            ValidationError::ReferralAccountPdaMismatch => "Referral account PDA mismatch",
            ValidationError::ReferralTokenAccountMismatch => "Referral token account mismatch",
            ValidationError::PartnerMismatch => "Partner mismatch",
            ValidationError::MintMismatch => "Mint mismatch",
        }
    }
}

/// The addresses' views.
pub open spec fn keys_view(keys: Seq<Address>) -> Seq<Seq<u8>> {
    keys.map_values(|a: Address| a@)
}

/// Every index of `ix` names one of the message's keys.
pub open spec fn resolves(m: Message, ix: CompiledInstruction) -> bool {
    &&& (ix.program_id_index as int) < m.account_keys@.len()
    &&& forall|j: int| 0 <= j < ix.accounts@.len() ==> (#[trigger] ix.accounts@[j] as int) < m.account_keys@.len()
}

/// The accounts of `ix`, resolved.
pub open spec fn resolved_accounts(m: Message, ix: CompiledInstruction) -> Seq<Seq<u8>> {
    ix.accounts@.map_values(|k: u8| m.account_keys@[k as int]@)
}

/// `data` opens with `tag`.
pub open spec fn opens_with(data: Seq<u8>, tag: Seq<u8>) -> bool {
    tag.len() <= data.len() && data.subrange(0, tag.len() as int) == tag
}

/// The instruction at `i` is a claim (either scheme) addressed to this program.
pub open spec fn is_claim_at(m: Message, i: int) -> bool {
    let ix = m.instructions@[i];
    &&& resolves(m, ix)
    &&& m.account_keys@[ix.program_id_index as int]@ == referral_program_key()
    &&& (opens_with(ix.data@, claim_tag()) || opens_with(ix.data@, claim_v2_tag()))
}

/// The first claim instruction at or after `i`.
pub open spec fn first_claim_from(m: Message, i: int) -> Option<int>
    decreases m.instructions@.len() - i,
{
    if i < 0 || i >= m.instructions@.len() {
        None
    } else if is_claim_at(m, i) {
        Some(i)
    } else {
        first_claim_from(m, i + 1)
    }
}

proof fn first_claim_skips(m: Message, i: int)
    requires
        0 <= i < m.instructions@.len(),
        !is_claim_at(m, i),
    ensures
        first_claim_from(m, i) == first_claim_from(m, i + 1),
{
}

fn opens_with_tag(data: &Vec<u8>, tag: &Vec<u8>) -> (r: bool)
    ensures
        r == opens_with(data@, tag@),
{
    if tag.len() > data.len() {
        return false;
    }
    let mut i: usize = 0;
    while i < tag.len()
        invariant
            tag@.len() <= data@.len(),
            0 <= i <= tag@.len(),
            forall|j: int| 0 <= j < i ==> data@[j] == tag@[j],
        decreases tag@.len() - i,
    {
        if data[i] != tag[i] {
            return false;
        }
        i = i + 1;
    }
    assert(data@.subrange(0, tag@.len() as int) =~= tag@);
    true
}

/// The instruction's accounts resolved to addresses, or `None` where an index
/// is out of range.
fn resolve_accounts(m: &Message, ix: &CompiledInstruction) -> (r: Option<Vec<Address>>)
    ensures
        r matches Some(v) ==> (forall|j: int| 0 <= j < ix.accounts@.len() ==> (#[trigger] ix.accounts@[j] as int) < m.account_keys@.len())
            && keys_view(v@) == resolved_accounts(*m, *ix),
        r is None ==> !(forall|j: int| 0 <= j < ix.accounts@.len() ==> (#[trigger] ix.accounts@[j] as int) < m.account_keys@.len()),
{
    let mut out: Vec<Address> = Vec::new();
    let mut i: usize = 0;
    while i < ix.accounts.len()
        invariant
            0 <= i <= ix.accounts@.len(),
            forall|j: int| 0 <= j < i ==> (#[trigger] ix.accounts@[j] as int) < m.account_keys@.len(),
            out@.len() == i,
            keys_view(out@) == resolved_accounts(*m, *ix).subrange(0, i as int),
        decreases ix.accounts@.len() - i,
    {
        let k = ix.accounts[i] as usize;
        if k >= m.account_keys.len() {
            return None;
        }
        let ghost before = out@;
        out.push(m.account_keys[k]);
        i = i + 1;
        assert forall|j: int| 0 <= j < i implies #[trigger] keys_view(out@)[j] == resolved_accounts(*m, *ix)[j] by {
            if j < i - 1 {
                assert(out@[j] == before[j]);
                assert(keys_view(before)[j] == resolved_accounts(*m, *ix).subrange(0, i - 1)[j]);
            }
        }
        assert(keys_view(out@) =~= resolved_accounts(*m, *ix).subrange(0, i as int));
    }
    assert(resolved_accounts(*m, *ix).subrange(0, i as int) =~= resolved_accounts(*m, *ix));
    Some(out)
}

/// The first top-level instruction that targets this program and opens with a
/// claim tag (either scheme), with its accounts resolved.
pub fn find_referral_instruction(message: &Message) -> (r: Option<(usize, SimpleInstruction)>)
    ensures
        r matches Some((i, s)) ==> first_claim_from(*message, 0) == Some(i as int)
            && s.program_id@ == referral_program_key()
            && keys_view(s.accounts@) == resolved_accounts(*message, message.instructions@[i as int])
            && s.data@ == message.instructions@[i as int].data@,
        r is None ==> first_claim_from(*message, 0) is None,
{
    let program_id = referral_program_id();
    let claim = claim_discriminator();
    let claim_v2 = claim_v2_discriminator();
    let mut i: usize = 0;
    while i < message.instructions.len()
        invariant
            0 <= i <= message.instructions@.len(),
            program_id@ == referral_program_key(),
            claim@ == claim_tag(),
            claim_v2@ == claim_v2_tag(),
            first_claim_from(*message, 0) == first_claim_from(*message, i as int),
        decreases message.instructions@.len() - i,
    {
        let ix = &message.instructions[i];
        let idx = ix.program_id_index as usize;
        if idx < message.account_keys.len() && message.account_keys[idx].same_as(&program_id)
            && (opens_with_tag(&ix.data, &claim) || opens_with_tag(&ix.data, &claim_v2)) {
            match resolve_accounts(message, ix) {
                Some(accounts) => {
                    assert(is_claim_at(*message, i as int));
                    let s = SimpleInstruction {
                        program_id: message.account_keys[idx],
                        accounts,
                        data: ix.data.clone(),
                    };
                    return Some((i, s));
                },
                None => {},
            }
        }
        proof {
            first_claim_skips(*message, i as int);
        }
        i = i + 1;
    }
    None
}

} // verus!

verus! {

/// A result's view: the summary's view or the error.
pub open spec fn details_view(r: Result<ClaimDetails, ValidationError>) -> Result<
    (u64, u16, Seq<u8>, Seq<u8>, Seq<u8>),
    ValidationError,
> {
    match r {
        Ok(d) => Ok(d@),
        Err(e) => Err(e),
    }
}

/// The expected referral token account: under the second scheme the referral
/// account's canonical token account, under the first
/// ["referral_ata", referral account, mint].
pub open spec fn expected_token_account(second_scheme: bool, referral: Seq<u8>, mint: Seq<u8>) -> Option<Seq<u8>> {
    if second_scheme {
        associated_token_key(referral, mint)
    } else {
        match program_address(referral_token_seeds(referral, mint), referral_program_key()) {
            Some((a, _)) => Some(a),
            None => None,
        }
    }
}

/// What full validation decides. The first claim instruction is taken; it
/// must have the twelve claim accounts; the project (position 1) must be
/// ["project", base], the referral account (position 4) ["referral", project,
/// name], the referral token account (position 5) the one its scheme expects,
/// and the partner (position 6) and mint (position 8) those given. The first
/// check that fails decides the error.
pub open spec fn validate_spec(
    m: Message,
    project_base: Seq<u8>,
    partner: Seq<u8>,
    name: Seq<u8>,
    mint: Seq<u8>,
) -> Result<(u64, u16, Seq<u8>, Seq<u8>, Seq<u8>), ValidationError> {
    match first_claim_from(m, 0) {
        None => Err(ValidationError::NoReferralInstruction),
        Some(i) => {
            let ix = m.instructions@[i];
            let acc = resolved_accounts(m, ix);
            if acc.len() < 12 {
                Err(ValidationError::InsufficientAccounts)
            } else {
                match program_address(project_seeds(project_base), referral_program_key()) {
                    None => Err(ValidationError::PdaDerivationFailed),
                    Some((project, _)) => if acc[1] != project {
                        Err(ValidationError::ProjectPdaMismatch)
                    } else {
                        match program_address(named_referral_seeds(project, name), referral_program_key()) {
                            None => Err(ValidationError::PdaDerivationFailed),
                            Some((referral, _)) => if acc[4] != referral {
                                Err(ValidationError::ReferralAccountPdaMismatch)
                            } else {
                                match expected_token_account(opens_with(ix.data@, claim_v2_tag()), referral, mint) {
                                    None => Err(ValidationError::PdaDerivationFailed),
                                    Some(t) => if acc[5] != t {
                                        Err(ValidationError::ReferralTokenAccountMismatch)
                                    } else if acc[6] != partner {
                                        Err(ValidationError::PartnerMismatch)
                                    } else if acc[8] != mint {
                                        Err(ValidationError::MintMismatch)
                                    } else {
                                        Ok((UNVERIFIED_AMOUNT, UNVERIFIED_SHARE_BPS, project, partner, mint))
                                    },
                                }
                            },
                        }
                    },
                }
            }
        },
    }
}

/// What best-effort extraction reports: the first claim instruction's project
/// (position 1), partner (position 6) and mint (position 8), unchecked.
pub open spec fn extract_spec(m: Message) -> Result<(u64, u16, Seq<u8>, Seq<u8>, Seq<u8>), ValidationError> {
    match first_claim_from(m, 0) {
        None => Err(ValidationError::NoReferralInstruction),
        Some(i) => {
            let acc = resolved_accounts(m, m.instructions@[i]);
            if acc.len() < 12 {
                Err(ValidationError::InsufficientAccounts)
            } else {
                Ok((UNVERIFIED_AMOUNT, UNVERIFIED_SHARE_BPS, acc[1], acc[6], acc[8]))
            }
        },
    }
}

fn expected_referral_token_account(second_scheme: bool, referral: &Address, mint: &Address) -> (r: Option<Address>)
    ensures
        r matches Some(a) ==> expected_token_account(second_scheme, referral@, mint@) == Some(a@),
        r is None ==> expected_token_account(second_scheme, referral@, mint@) is None,
{
    if second_scheme {
        associated_token_address(referral, mint)
    } else {
        match referral_token_address(referral, mint, &referral_program_id()) {
            Some((a, _)) => Some(a),
            None => None,
        }
    }
}

/// Validates a claim transaction's message against the expected project base,
/// partner, referral name and mint.
pub fn validate_claim_transaction(
    message: &Message,
    project_base: &Address,
    partner: &Address,
    name: &str,
    mint: &Address,
) -> (r: Result<ClaimDetails, ValidationError>)
    ensures
        details_view(r) == validate_spec(*message, project_base@, partner@, name.spec_bytes(), mint@),
{
    let (index, instruction) = match find_referral_instruction(message) {
        Some(found) => found,
        None => return Err(ValidationError::NoReferralInstruction),
    };
    let ghost acc = resolved_accounts(*message, message.instructions@[index as int]);
    assert(acc.len() == instruction.accounts@.len());
    if instruction.accounts.len() < CLAIM_ACCOUNT_COUNT {
        return Err(ValidationError::InsufficientAccounts);
    }
    assert(acc[1] == instruction.accounts@[1]@);
    assert(acc[4] == instruction.accounts@[4]@);
    assert(acc[5] == instruction.accounts@[5]@);
    assert(acc[6] == instruction.accounts@[6]@);
    assert(acc[8] == instruction.accounts@[8]@);
    let program_id = referral_program_id();
    let project = match project_address(project_base, &program_id) {
        Some((a, _)) => a,
        None => return Err(ValidationError::PdaDerivationFailed),
    };
    if !instruction.accounts[1].same_as(&project) {
        return Err(ValidationError::ProjectPdaMismatch);
    }
    let referral = match named_referral_address(&project, name, &program_id) {
        Some((a, _)) => a,
        None => return Err(ValidationError::PdaDerivationFailed),
    };
    if !instruction.accounts[4].same_as(&referral) {
        return Err(ValidationError::ReferralAccountPdaMismatch);
    }
    let second_scheme = opens_with_tag(&instruction.data, &claim_v2_discriminator());
    let token_account = match expected_referral_token_account(second_scheme, &referral, mint) {
        Some(a) => a,
        None => return Err(ValidationError::PdaDerivationFailed),
    };
    if !instruction.accounts[5].same_as(&token_account) {
        return Err(ValidationError::ReferralTokenAccountMismatch);
    }
    if !instruction.accounts[6].same_as(partner) {
        return Err(ValidationError::PartnerMismatch);
    }
    if !instruction.accounts[8].same_as(mint) {
        return Err(ValidationError::MintMismatch);
    }
    Ok(ClaimDetails {
        amount: UNVERIFIED_AMOUNT,
        share_bps: UNVERIFIED_SHARE_BPS,
        project,
        partner: *partner,
        mint: *mint,
    })
}

/// Reads a claim's summary without re-deriving any address: a best-effort,
/// untrusted report.
pub fn extract_claim_details(message: &Message) -> (r: Result<ClaimDetails, ValidationError>)
    ensures
        details_view(r) == extract_spec(*message),
{
    let (index, instruction) = match find_referral_instruction(message) {
        Some(found) => found,
        None => return Err(ValidationError::NoReferralInstruction),
    };
    let ghost acc = resolved_accounts(*message, message.instructions@[index as int]);
    assert(acc.len() == instruction.accounts@.len());
    if instruction.accounts.len() < CLAIM_ACCOUNT_COUNT {
        return Err(ValidationError::InsufficientAccounts);
    }
    assert(acc[1] == instruction.accounts@[1]@);
    assert(acc[6] == instruction.accounts@[6]@);
    assert(acc[8] == instruction.accounts@[8]@);
    Ok(ClaimDetails {
        amount: UNVERIFIED_AMOUNT,
        share_bps: UNVERIFIED_SHARE_BPS,
        project: instruction.accounts[1],
        partner: instruction.accounts[6],
        mint: instruction.accounts[8],
    })
}

} // verus!

verus! {

/// The resolved accounts of the first claim instruction.
pub open spec fn first_claim_accounts(m: Message) -> Seq<Seq<u8>> {
    resolved_accounts(m, m.instructions@[first_claim_from(m, 0)->Some_0])
}

/// A claim whose project account (position 1 of the claim layout) is not the
/// project derived from the given base is refused with a project mismatch,
/// while best-effort extraction still reports that account as the project.
pub proof fn project_mismatch_is_refused_but_extracted(
    m: Message,
    project_base: Seq<u8>,
    partner: Seq<u8>,
    name: Seq<u8>,
    mint: Seq<u8>,
)
    requires
        first_claim_from(m, 0) is Some,
        first_claim_accounts(m).len() >= 12,
        program_address(project_seeds(project_base), referral_program_key()) is Some,
        first_claim_accounts(m)[1] != program_address(project_seeds(project_base), referral_program_key())->Some_0.0,
    ensures
        validate_spec(m, project_base, partner, name, mint) == Err::<(u64, u16, Seq<u8>, Seq<u8>, Seq<u8>), ValidationError>(
            ValidationError::ProjectPdaMismatch,
        ),
        extract_spec(m) matches Ok(d) && d.2 == first_claim_accounts(m)[1],
{
}

/// The accounts' addresses alone.
pub open spec fn meta_keys(metas: Seq<(Seq<u8>, bool, bool)>) -> Seq<Seq<u8>> {
    metas.map_values(|t: (Seq<u8>, bool, bool)| t.0)
}

proof fn lemma_first_claim(m: Message, k: int, i: int)
    requires
        0 <= k <= i < m.instructions@.len(),
        is_claim_at(m, i),
        forall|j: int| k <= j < i ==> !is_claim_at(m, j),
    ensures
        first_claim_from(m, k) == Some(i),
    decreases i - k,
{
    if k < i {
        lemma_first_claim(m, k + 1, i);
    }
}

/// An instruction that `create_claim_v2_instruction` builds for this program,
/// for the project derived from `project_base` and its referral account named
/// `name`, passes validation with the same base, partner, name and mint once a
/// message holds it, at index `i`, with no other claim instruction of this
/// program before it (the validator reads the first one).
pub proof fn encoded_claim_v2_validates(
    params: ClaimV2Params,
    ix: Instruction,
    m: Message,
    i: int,
    project_base: Seq<u8>,
    name: Seq<u8>,
)
    requires
        program_address(project_seeds(project_base), referral_program_key()) matches Some((p, _))
            && p == params.project_pubkey@,
        program_address(named_referral_seeds(params.project_pubkey@, name), referral_program_key()) matches Some((
            a,
            _,
        )) && a == params.referral_account_pubkey@,
        associated_token_key(params.referral_account_pubkey@, params.mint_pubkey@) is Some,
        ix.program_id@ == referral_program_key(),
        ix.data@ == claim_v2_tag(),
        metas(ix.accounts@) == claim_accounts(
            params.payer_pubkey@,
            params.project_pubkey@,
            params.admin_pubkey@,
            ata_key(params.admin_pubkey@, params.mint_pubkey@),
            params.referral_account_pubkey@,
            ata_key(params.referral_account_pubkey@, params.mint_pubkey@),
            params.partner_pubkey@,
            ata_key(params.partner_pubkey@, params.mint_pubkey@),
            params.mint_pubkey@,
        ) + claim_v2_programs(params.token_program_id@),
        0 <= i < m.instructions@.len(),
        forall|j: int| 0 <= j < i ==> !is_claim_at(m, j),
        resolves(m, m.instructions@[i]),
        m.account_keys@[m.instructions@[i].program_id_index as int]@ == ix.program_id@,
        resolved_accounts(m, m.instructions@[i]) == meta_keys(metas(ix.accounts@)),
        m.instructions@[i].data@ == ix.data@,
    ensures
        validate_spec(m, project_base, params.partner_pubkey@, name, params.mint_pubkey@) == Ok::<
            (u64, u16, Seq<u8>, Seq<u8>, Seq<u8>),
            ValidationError,
        >((UNVERIFIED_AMOUNT, UNVERIFIED_SHARE_BPS, params.project_pubkey@, params.partner_pubkey@, params.mint_pubkey@)),
{
    let ixi = m.instructions@[i];
    assert(ixi.data@.subrange(0, 8) =~= claim_v2_tag());
    assert(is_claim_at(m, i));
    lemma_first_claim(m, 0, i);
    let acc = resolved_accounts(m, ixi);
    let keys = meta_keys(metas(ix.accounts@));
    assert(keys.len() == 12);
    assert(acc[1] == params.project_pubkey@);
    assert(acc[4] == params.referral_account_pubkey@);
    assert(acc[5] == ata_key(params.referral_account_pubkey@, params.mint_pubkey@));
    assert(acc[6] == params.partner_pubkey@);
    assert(acc[8] == params.mint_pubkey@);
    assert(opens_with(ixi.data@, claim_v2_tag()));
}

} // verus!

verus! {

/// The project address under this program: ["project", base].
pub fn derive_project_pda(base: &Address) -> (r: Option<(Address, u8)>)
    ensures
        r matches Some((a, b)) ==> program_address(project_seeds(base@), referral_program_key()) == Some((a@, b)),
        r is None ==> program_address(project_seeds(base@), referral_program_key()) is None,
{
    project_address(base, &referral_program_id())
}

/// The project authority address under this program: ["project_authority", base].
pub fn derive_project_authority_pda(base: &Address) -> (r: Option<(Address, u8)>)
    ensures
        r matches Some((a, b)) ==> program_address(project_authority_seeds(base@), referral_program_key()) == Some((a@, b)),
        r is None ==> program_address(project_authority_seeds(base@), referral_program_key()) is None,
{
    project_authority_address(base, &referral_program_id())
}

/// The named referral account under this program: ["referral", project, name].
pub fn derive_referral_account_pda(project: &Address, name: &str) -> (r: Option<(Address, u8)>)
    ensures
        r matches Some((a, b)) ==> program_address(named_referral_seeds(project@, name.spec_bytes()), referral_program_key())
            == Some((a@, b)),
        r is None ==> program_address(named_referral_seeds(project@, name.spec_bytes()), referral_program_key()) is None,
{
    named_referral_address(project, name, &referral_program_id())
}

/// The first-scheme referral token account under this program:
/// ["referral_ata", referral account, mint].
pub fn derive_referral_token_account_pda(referral_account: &Address, mint: &Address) -> (r: Option<(Address, u8)>)
    ensures
        r matches Some((a, b)) ==> program_address(referral_token_seeds(referral_account@, mint@), referral_program_key())
            == Some((a@, b)),
        r is None ==> program_address(referral_token_seeds(referral_account@, mint@), referral_program_key()) is None,
{
    referral_token_address(referral_account, mint, &referral_program_id())
}

} // verus!
