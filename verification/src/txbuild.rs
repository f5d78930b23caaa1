use vstd::prelude::*;
use vstd::bytes::spec_u64_to_le_bytes;
use vstd::bytes::u64_to_le_bytes;
use solana_sdk::compute_budget::ComputeBudgetInstruction;
use solana_sdk::instruction::AccountMeta;
use solana_sdk::instruction::Instruction;
use solana_sdk::pubkey::Pubkey;
use solana_sdk::signature::Keypair;
use solana_sdk::signer::Signer;
use solana_sdk::transaction::Transaction;
use crate::errors::MinerError;

verus! {

/// One account the program instruction touches: its address and whether it
/// signs or is written.
#[derive(Clone, Copy, Debug)]
pub struct AccountSpec {
    pub key: [u8; 32],
    pub is_signer: bool,
    pub is_writable: bool,
}

/// What a transaction asks the program to do: submit a mined proof, or claim
/// rewards to the beneficiary named in the account list.
#[derive(Clone, Copy, Debug)]
pub enum TxKind {
    Mine { nonce: u64, proof_hash: [u8; 32] },
    Claim { amount: u64 },
}

/// The payload bytes of the program instruction: a one-byte tag, then the
/// kind's fields, integers little-endian.
pub open spec fn kind_data(k: TxKind) -> Seq<u8> {
    match k {
        TxKind::Mine { nonce, proof_hash } => seq![0u8] + spec_u64_to_le_bytes(nonce)
            + proof_hash@,
        TxKind::Claim { amount } => seq![1u8] + spec_u64_to_le_bytes(amount),
    }
}

/// Appends a byte slice to a buffer.
fn push_slice(dst: &mut Vec<u8>, src: &[u8])
    ensures
        final(dst)@ == old(dst)@ + src@,
{
    let mut i: usize = 0;
    while i < src.len()
        invariant
            0 <= i <= src@.len(),
            dst@ == old(dst)@ + src@.subrange(0, i as int),
        decreases src@.len() - i,
    {
        proof {
            assert(old(dst)@ + src@.subrange(0, i as int) + seq![src@[i as int]] =~= old(dst)@
                + src@.subrange(0, i as int + 1));
        }
        let b = *vstd::slice::slice_index_get(src, i);
        dst.push(b);
        i = i + 1;
    }
    proof {
        assert(old(dst)@ + src@.subrange(0, src@.len() as int) =~= old(dst)@ + src@);
    }
}

/// Encodes the instruction payload for a kind.
pub fn encode_kind(k: &TxKind) -> (r: Vec<u8>)
    ensures
        r@ == kind_data(*k),
{
    let mut out: Vec<u8> = Vec::new();
    match k {
        TxKind::Mine { nonce, proof_hash } => {
            out.push(0u8);
            proof {
                assert(out@ =~= seq![0u8]);
            }
            let nb = u64_to_le_bytes(*nonce);
            push_slice(&mut out, nb.as_slice());
            push_slice(&mut out, proof_hash.as_slice());
            proof {
                assert(out@ =~= kind_data(*k));
            }
        },
        TxKind::Claim { amount } => {
            out.push(1u8);
            proof {
                assert(out@ =~= seq![1u8]);
            }
            let nb = u64_to_le_bytes(*amount);
            push_slice(&mut out, nb.as_slice());
            proof {
                assert(out@ =~= kind_data(*k));
            }
        },
    }
    out
}

/// The ed25519 public key belonging to 32 secret-key bytes, as the ledger
/// crate derives it: a function of the secret alone.
pub uninterp spec fn pubkey_of(secret: Seq<u8>) -> Seq<u8>;

/// Relies on solana_sdk's Keypair::new_from_array and Signer::pubkey: the
/// public key is derived from the 32 secret bytes alone, with no failure
/// case.
#[verifier::external_body]
fn derive_pubkey(secret: &[u8; 32]) -> (r: [u8; 32])
    ensures
        r@ == pubkey_of(secret@),
{
    Keypair::new_from_array(*secret).pubkey().to_bytes()
}

/// Every account marked as a signer is the fee payer itself, so the one
/// keypair can supply every signature the compiled message asks for. The
/// ledger crate aborts the build on a message that needs a signature nobody
/// provides, so the builders demand this of their callers.
pub open spec fn signers_are_payer(accounts: Seq<AccountSpec>, secret: Seq<u8>) -> bool {
    forall|i: int|
        0 <= i < accounts.len() && (#[trigger] accounts[i]).is_signer ==> accounts[i].key@
            == pubkey_of(secret)
}

/// Whether two 32-byte keys are identical.
fn keys_equal(a: &[u8; 32], b: &[u8; 32]) -> (r: bool)
    ensures
        r == (a@ == b@),
{
    let mut i: usize = 0;
    while i < 32
        invariant
            0 <= i <= 32,
            forall|j: int| 0 <= j < i ==> a@[j] == b@[j],
        decreases 32 - i,
    {
        if a[i] != b[i] {
            return false;
        }
        i = i + 1;
    }
    proof {
        assert(a@ =~= b@);
    }
    true
}

/// Checks an account list against the fee payer: it stays within the
/// transaction's key budget, and every signer-marked entry is the payer
/// itself.
fn check_accounts(accounts: &Vec<AccountSpec>, signer_secret: &[u8; 32]) -> (r: bool)
    ensures
        r == (accounts@.len() <= 200 && signers_are_payer(accounts@, signer_secret@)),
{
    if accounts.len() > 200 {
        return false;
    }
    let payer = derive_pubkey(signer_secret);
    let mut i: usize = 0;
    while i < accounts.len()
        invariant
            0 <= i <= accounts@.len(),
            payer@ == pubkey_of(signer_secret@),
            forall|k: int|
                0 <= k < i ==> ((#[trigger] accounts@[k]).is_signer ==> accounts@[k].key@
                    == pubkey_of(signer_secret@)),
        decreases accounts@.len() - i,
    {
        let a = accounts[i];
        if a.is_signer {
            if !keys_equal(&a.key, &payer) {
                proof {
                    assert((#[trigger] accounts@[i as int]).is_signer && accounts@[i as int].key@
                        != pubkey_of(signer_secret@));
                }
                return false;
            }
        }
        i = i + 1;
    }
    true
}

/// The serialized signed transaction the ledger crate assembles from these
/// inputs. Assembly and ed25519 signing are deterministic, so the bytes are
/// a function of the inputs alone; nothing is assumed about their layout.
pub uninterp spec fn signed_tx_of(
    program_id: Seq<u8>,
    accounts: Seq<AccountSpec>,
    data: Seq<u8>,
    compute_unit_limit: u32,
    priority_fee: u64,
    recent_blockhash: Seq<u8>,
    signer_secret: Seq<u8>,
) -> Seq<u8>;

/// Relies on solana_sdk's Transaction::new_signed_with_payer, fed a
/// compute-unit-limit instruction, a compute-unit-price instruction carrying
/// the priority fee, and the program instruction, in that order, signed by
/// the keypair derived from the 32 secret-key bytes as fee payer, and on
/// bincode's serialization of the result. Keypair derivation, message
/// assembly, ed25519 signing and serialization are all deterministic, so the
/// returned bytes depend on the arguments alone. The call aborts on a
/// message that asks for a signature the one keypair cannot give, or on more
/// account keys than the message header can count, so both are excluded
/// here.
#[verifier::external_body]
fn sign_and_serialize(
    program_id: &[u8; 32],
    accounts: &Vec<AccountSpec>,
    data: &Vec<u8>,
    compute_unit_limit: u32,
    priority_fee: u64,
    recent_blockhash: &[u8; 32],
    signer_secret: &[u8; 32],
) -> (r: Vec<u8>)
    requires
        accounts@.len() <= 200,
        signers_are_payer(accounts@, signer_secret@),
    ensures
        r@ == signed_tx_of(
            program_id@,
            accounts@,
            data@,
            compute_unit_limit,
            priority_fee,
            recent_blockhash@,
            signer_secret@,
        ),
{
    let kp = Keypair::new_from_array(*signer_secret);
    let metas = accounts.iter().map(
        |a| AccountMeta { pubkey: Pubkey::new_from_array(a.key), is_signer: a.is_signer, is_writable: a.is_writable },
    ).collect();
    let ixs = [
        ComputeBudgetInstruction::set_compute_unit_limit(compute_unit_limit),
        ComputeBudgetInstruction::set_compute_unit_price(priority_fee),
        Instruction { program_id: Pubkey::new_from_array(*program_id), accounts: metas, data: data.clone() },
    ];
    let blockhash = solana_sdk::hash::Hash::new_from_array(*recent_blockhash);
    let tx = Transaction::new_signed_with_payer(&ixs, Some(&kp.pubkey()), &[&kp], blockhash);
    bincode::serialize(&tx).unwrap()
}

/// Builds and signs one transaction: the compute-unit budget and the
/// priority fee stand as dedicated instructions ahead of the program
/// instruction, whose payload encodes the kind; the signer pays the fee and
/// the transaction is bound to the given blockhash. Callers owe the account
/// conditions; `try_build_transaction` checks them first instead.
pub fn build_transaction(
    kind: &TxKind,
    priority_fee: u64,
    compute_unit_limit: u32,
    program_id: &[u8; 32],
    accounts: &Vec<AccountSpec>,
    recent_blockhash: &[u8; 32],
    signer_secret: &[u8; 32],
) -> (r: Vec<u8>)
    requires
        accounts@.len() <= 200,
        signers_are_payer(accounts@, signer_secret@),
    ensures
        r@ == signed_tx_of(
            program_id@,
            accounts@,
            kind_data(*kind),
            compute_unit_limit,
            priority_fee,
            recent_blockhash@,
            signer_secret@,
        ),
{
    let data = encode_kind(kind);
    sign_and_serialize(
        program_id,
        accounts,
        &data,
        compute_unit_limit,
        priority_fee,
        recent_blockhash,
        signer_secret,
    )
}

/// Checks the account list against the fee payer, then builds and signs the
/// transaction; a list that is over the key budget, or marks an account
/// other than the payer as a signer, is refused before anything is built.
pub fn try_build_transaction(
    kind: &TxKind,
    priority_fee: u64,
    compute_unit_limit: u32,
    program_id: &[u8; 32],
    accounts: &Vec<AccountSpec>,
    recent_blockhash: &[u8; 32],
    signer_secret: &[u8; 32],
) -> (r: Result<Vec<u8>, MinerError>)
    ensures
        r is Ok <==> (accounts@.len() <= 200 && signers_are_payer(accounts@, signer_secret@)),
        r is Err ==> r->Err_0 == MinerError::InvalidConfig,
        r is Ok ==> (r->Ok_0)@ == signed_tx_of(
            program_id@,
            accounts@,
            kind_data(*kind),
            compute_unit_limit,
            priority_fee,
            recent_blockhash@,
            signer_secret@,
        ),
{
    if !check_accounts(accounts, signer_secret) {
        return Err(MinerError::InvalidConfig);
    }
    Ok(
        build_transaction(
            kind,
            priority_fee,
            compute_unit_limit,
            program_id,
            accounts,
            recent_blockhash,
            signer_secret,
        ),
    )
}

/// Resolves the amount a claim requests: an unspecified amount claims the
/// whole claimable balance, which the caller reads immediately before
/// building; an explicit amount must not exceed that balance.
pub fn resolve_claim_amount(requested: Option<u64>, claimable: u64) -> (r: Result<u64, MinerError>)
    ensures
        requested is None ==> r is Ok && r->Ok_0 == claimable,
        requested is Some && requested->0 <= claimable ==> r is Ok && r->Ok_0 == requested->0,
        requested is Some && requested->0 > claimable ==> r is Err && r->Err_0
            == MinerError::InsufficientBalance,
{
    match requested {
        None => Ok(claimable),
        Some(a) => {
            if a <= claimable {
                Ok(a)
            } else {
                Err(MinerError::InsufficientBalance)
            }
        },
    }
}

/// Checks the account list, resolves the claim against the current
/// claimable balance, and builds the signed claim transaction for the
/// resolved amount. A bad account list is refused as a configuration error;
/// a claim above the balance as insufficient; nothing is built in either
/// case.
pub fn build_claim_transaction(
    requested: Option<u64>,
    claimable: u64,
    priority_fee: u64,
    compute_unit_limit: u32,
    program_id: &[u8; 32],
    accounts: &Vec<AccountSpec>,
    recent_blockhash: &[u8; 32],
    signer_secret: &[u8; 32],
) -> (r: Result<Vec<u8>, MinerError>)
    ensures
        r is Ok <==> (accounts@.len() <= 200 && signers_are_payer(accounts@, signer_secret@) && (
        requested is None || requested->0 <= claimable)),
        !(accounts@.len() <= 200 && signers_are_payer(accounts@, signer_secret@)) ==> r is Err
            && r->Err_0 == MinerError::InvalidConfig,
        accounts@.len() <= 200 && signers_are_payer(accounts@, signer_secret@) && requested is Some
            && requested->0 > claimable ==> r is Err && r->Err_0
            == MinerError::InsufficientBalance,
        r is Ok ==> (r->Ok_0)@ == signed_tx_of(
            program_id@,
            accounts@,
            kind_data(TxKind::Claim { amount: if requested is Some { requested->0 } else { claimable } }),
            compute_unit_limit,
            priority_fee,
            recent_blockhash@,
            signer_secret@,
        ),
{
    if !check_accounts(accounts, signer_secret) {
        return Err(MinerError::InvalidConfig);
    }
    let amount = match resolve_claim_amount(requested, claimable) {
        Ok(a) => a,
        Err(e) => {
            return Err(e);
        },
    };
    let kind = TxKind::Claim { amount };
    Ok(
        build_transaction(
            &kind,
            priority_fee,
            compute_unit_limit,
            program_id,
            accounts,
            recent_blockhash,
            signer_secret,
        ),
    )
}

/// Rebuilding with identical kind, fee, limit, program, accounts, blockhash
/// and signer yields a byte-identical signed transaction: the build has no
/// hidden randomness.
pub proof fn lemma_build_deterministic(
    k1: TxKind,
    k2: TxKind,
    pid1: Seq<u8>,
    pid2: Seq<u8>,
    accts1: Seq<AccountSpec>,
    accts2: Seq<AccountSpec>,
    limit1: u32,
    limit2: u32,
    fee1: u64,
    fee2: u64,
    bh1: Seq<u8>,
    bh2: Seq<u8>,
    sk1: Seq<u8>,
    sk2: Seq<u8>,
)
    requires
        k1 == k2,
        pid1 == pid2,
        accts1 == accts2,
        limit1 == limit2,
        fee1 == fee2,
        bh1 == bh2,
        sk1 == sk2,
    ensures
        signed_tx_of(pid1, accts1, kind_data(k1), limit1, fee1, bh1, sk1) == signed_tx_of(
            pid2,
            accts2,
            kind_data(k2),
            limit2,
            fee2,
            bh2,
            sk2,
        ),
{
}

} // verus!
