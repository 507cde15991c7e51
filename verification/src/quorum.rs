//! The guardian quorum verifier: a batch of detached signatures over a
//! query payload is admitted only when the guardian set is active, the
//! batch reaches a two-thirds-plus-one quorum, guardian indices strictly
//! increase, and every signature recovers to the claimed guardian key.

use vstd::prelude::*;
use crate::error::QueriesSolanaVerifyError;
use crate::ids::AccountId;

verus! {

/// What the keccak-256 digest of a byte string is; determined by the
/// bytes alone.
pub uninterp spec fn keccak_of(data: Seq<u8>) -> Seq<u8>;

/// What public key an ECDSA recovery yields for a digest, recovery id and
/// 64-byte signature, or none when recovery fails; determined by the
/// arguments alone.
pub uninterp spec fn recover_of(digest: Seq<u8>, recovery_id: u8, signature: Seq<u8>) -> Option<
    Seq<u8>,
>;

/// Relies on solana_program's `keccak::hash`: a 32-byte digest of the
/// input bytes alone.
#[verifier::external_body]
fn keccak256(data: &Vec<u8>) -> (r: Vec<u8>)
    ensures
        r@ == keccak_of(data@),
        r@.len() == 32,
{
    anchor_lang::solana_program::keccak::hash(data.as_slice()).to_bytes().to_vec()
}

/// Relies on solana_program's `secp256k1_recover`: the recovered 64-byte
/// public key is a function of digest, recovery id and signature alone,
/// and every failure (bad digest length, invalid recovery id, rejected
/// signature) yields an error.
#[verifier::external_body]
fn secp256k1_recover_key(digest: &Vec<u8>, recovery_id: u8, signature: &Vec<u8>) -> (r: Option<
    Vec<u8>,
>)
    ensures
        match r {
            Some(pk) => recover_of(digest@, recovery_id, signature@) == Some(pk@) && pk@.len()
                == 64,
            None => recover_of(digest@, recovery_id, signature@) == None::<Seq<u8>>,
        },
{
    match anchor_lang::solana_program::secp256k1_recover::secp256k1_recover(
        digest.as_slice(),
        recovery_id,
        signature.as_slice(),
    ) {
        Ok(pk) => Some(pk.to_bytes().to_vec()),
        Err(_) => None,
    }
}

/// Relies on wormhole_raw_vaas's `utils::quorum`: two thirds of the set,
/// rounded down, plus one.
#[verifier::external_body]
fn quorum_wrapper(n: usize) -> (r: usize)
    requires
        n * 2 <= usize::MAX,
    ensures
        r == n * 2 / 3 + 1,
{
    wormhole_raw_vaas::utils::quorum(n)
}

/// The number of guardian signatures a batch needs before it is trusted.
pub fn quorum(n: usize) -> (r: usize)
    requires
        n * 2 <= usize::MAX,
    ensures
        r == n * 2 / 3 + 1,
{
    quorum_wrapper(n)
}

/// Relies on wormhole_raw_vaas's `GuardianSetSig`: a 66-byte entry is the
/// guardian index (byte 0), 64 signature bytes, and a recovery id (byte
/// 65); any other length is refused by its parser.
#[verifier::external_body]
fn parse_guardian_sig(bytes: &Vec<u8>) -> (r: Option<(u8, Vec<u8>, u8)>)
    ensures
        match r {
            Some(parts) => {
                &&& bytes@.len() == 66
                &&& parts.0 == bytes@[0]
                &&& parts.1@ == bytes@.subrange(1, 65)
                &&& parts.2 == bytes@[65]
            },
            None => bytes@.len() != 66,
        },
{
    match wormhole_raw_vaas::GuardianSetSig::try_from(bytes.as_slice()) {
        Ok(sig) => Some((sig.guardian_index(), sig.rs().to_vec(), sig.recovery_id())),
        Err(_) => None,
    }
}

/// The versioned roster of guardian keys (20-byte addresses each).
#[derive(Debug)]
pub struct WormholeGuardianSet {
    pub index: u32,
    pub keys: Vec<Vec<u8>>,
    pub creation_time: u32,
    pub expiration_time: u32,
}

impl WormholeGuardianSet {
    /// Every key is a 20-byte address.
    pub open spec fn wf(&self) -> bool {
        forall|i: int| 0 <= i < self.keys@.len() ==> (#[trigger] self.keys@[i])@.len() == 20
    }

    /// An expiration of zero means "current"; otherwise the set is active
    /// until its expiration time passes.
    pub fn is_active(&self, timestamp: &u32) -> (r: bool)
        ensures
            r == (self.expiration_time == 0 || self.expiration_time >= *timestamp),
    {
        self.expiration_time == 0 || self.expiration_time >= *timestamp
    }
}

/// The staged batch of signatures awaiting verification.
#[derive(Debug)]
pub struct GuardianSignatures {
    pub refund_recipient: AccountId,
    pub guardian_signatures: Vec<Vec<u8>>,
}

impl GuardianSignatures {
    /// The bytes a staged batch of `n` signatures occupies beyond its
    /// discriminant: a 32-byte recipient, a 4-byte count, 66 per entry.
    pub fn compute_size(n: usize) -> (r: usize)
        requires
            32 + 4 + n * 66 <= usize::MAX,
        ensures
            r == 32 + 4 + n * 66,
    {
        32 + 4 + n * 66
    }
}

/// Stages signatures: the first call creates the batch for its payer, and
/// only that payer may append more.
pub fn post_signatures(
    existing: &mut Option<GuardianSignatures>,
    payer: AccountId,
    guardian_signatures: Vec<Vec<u8>>,
) -> (r: Result<(), QueriesSolanaVerifyError>)
    ensures
        match r {
            Ok(()) => match *old(existing) {
                Some(gs) => {
                    &&& gs.refund_recipient == payer
                    &&& (*final (existing) matches Some(gs2) && gs2.refund_recipient == payer
                        && gs2.guardian_signatures@ == gs.guardian_signatures@
                        + guardian_signatures@)
                },
                None => (*final (existing) matches Some(gs2) && gs2.refund_recipient == payer
                    && gs2.guardian_signatures@ == guardian_signatures@),
            },
            Err(e) => {
                &&& e == QueriesSolanaVerifyError::WriteAuthorityMismatch
                &&& (*old(existing) matches Some(gs) && gs.refund_recipient != payer)
                &&& *final (existing) == *old(existing)
            },
        },
{
    let mut incoming = guardian_signatures;
    match existing {
        Some(gs) => {
            if gs.refund_recipient != payer {
                return Err(QueriesSolanaVerifyError::WriteAuthorityMismatch);
            }
            gs.guardian_signatures.append(&mut incoming);
            Ok(())
        },
        None => {
            *existing = Some(
                GuardianSignatures { refund_recipient: payer, guardian_signatures: incoming },
            );
            Ok(())
        },
    }
}

/// The outcome of checking the batch from entry `i` on, with `last` the
/// previously accepted guardian index: each entry must be 66 bytes, carry
/// a strictly increasing in-range guardian index, and recover to that
/// guardian's key.
pub open spec fn spec_verify_from(
    digest: Seq<u8>,
    sigs: Seq<Seq<u8>>,
    keys: Seq<Seq<u8>>,
    i: int,
    last: Option<u8>,
) -> Result<(), QueriesSolanaVerifyError>
    decreases sigs.len() - i,
{
    if i < 0 || i >= sigs.len() {
        Ok(())
    } else {
        let sig = sigs[i];
        if sig.len() != 66 {
            Err(QueriesSolanaVerifyError::InvalidSignature)
        } else {
            let index = sig[0];
            if (match last {
                Some(l) => index <= l,
                None => false,
            }) {
                Err(QueriesSolanaVerifyError::InvalidGuardianIndexNonIncreasing)
            } else if index >= keys.len() {
                Err(QueriesSolanaVerifyError::InvalidGuardianIndexOutOfRange)
            } else {
                match recover_of(digest, sig[65], sig.subrange(1, 65)) {
                    Some(pk) => {
                        if keccak_of(pk).subrange(12, 32) == keys[index as int] {
                            spec_verify_from(digest, sigs, keys, i + 1, Some(index))
                        } else {
                            Err(QueriesSolanaVerifyError::InvalidGuardianKeyRecovery)
                        }
                    },
                    None => Err(QueriesSolanaVerifyError::InvalidSignature),
                }
            }
        }
    }
}

/// The digest guardians sign: the query protocol's fixed prefix, followed
/// by the keccak-256 of the payload, hashed once more.
pub open spec fn spec_query_digest(prefix: Seq<u8>, bytes: Seq<u8>) -> Seq<u8> {
    keccak_of(prefix + keccak_of(bytes))
}

/// The whole batch decision: an expired set, then a missing quorum, then
/// the per-signature checks in order.
pub open spec fn spec_verify_signatures(
    bytes: Seq<u8>,
    sigs: Seq<Seq<u8>>,
    keys: Seq<Seq<u8>>,
    expiration_time: u32,
    prefix: Seq<u8>,
    current_timestamp: u32,
) -> Result<(), QueriesSolanaVerifyError> {
    if !(expiration_time == 0 || expiration_time >= current_timestamp) {
        Err(QueriesSolanaVerifyError::GuardianSetExpired)
    } else if sigs.len() < keys.len() * 2 / 3 + 1 {
        Err(QueriesSolanaVerifyError::NoQuorum)
    } else {
        spec_verify_from(spec_query_digest(prefix, bytes), sigs, keys, 0, None)
    }
}

/// Copies the low 20 bytes of a 32-byte keccak digest: the address form
/// of a recovered public key.
fn digest_tail20(h: &Vec<u8>) -> (r: Vec<u8>)
    requires
        h@.len() == 32,
    ensures
        r@ == h@.subrange(12, 32),
{
    let mut r: Vec<u8> = Vec::new();
    let mut i: usize = 12;
    while i < 32
        invariant
            12 <= i <= 32,
            h@.len() == 32,
            r@ == h@.subrange(12, i as int),
        decreases 32 - i,
    {
        r.push(h[i]);
        proof {
            assert(r@ =~= h@.subrange(12, i + 1));
        }
        i = i + 1;
    }
    r
}

/// Whether two byte strings hold the same bytes.
pub fn bytes_eq(a: &Vec<u8>, b: &Vec<u8>) -> (r: bool)
    ensures
        r == (a@ == b@),
{
    let n = a.len();
    if n != b.len() {
        proof {
            assert(a@ != b@);
        }
        return false;
    }
    let mut i: usize = 0;
    while i < n
        invariant
            n == a@.len() && n == b@.len(),
            0 <= i <= n,
            forall|j: int| 0 <= j < i ==> a@[j] == b@[j],
        decreases n - i,
    {
        if a[i] != b[i] {
            return false;
        }
        i = i + 1;
    }
    proof {
        assert(a@ =~= b@);
    }
    true
}

/// Appends every byte of `src` to `out`.
fn extend_bytes(out: &mut Vec<u8>, src: &Vec<u8>)
    ensures
        final (out)@ == old(out)@ + src@,
{
    let n = src.len();
    let mut i: usize = 0;
    proof {
        assert(out@ =~= old(out)@ + src@.subrange(0, 0));
    }
    while i < n
        invariant
            n == src@.len(),
            0 <= i <= n,
            out@ == old(out)@ + src@.subrange(0, i as int),
        decreases n - i,
    {
        out.push(src[i]);
        proof {
            assert(out@ =~= old(out)@ + src@.subrange(0, i + 1));
        }
        i = i + 1;
    }
    proof {
        assert(src@.subrange(0, n as int) =~= src@);
    }
}

/// Builds the digest guardians sign over a query payload.
pub fn query_message_digest(message_prefix: &Vec<u8>, bytes: &Vec<u8>) -> (r: Vec<u8>)
    ensures
        r@ == spec_query_digest(message_prefix@, bytes@),
        r@.len() == 32,
{
    let inner = keccak256(bytes);
    let mut message_hash: Vec<u8> = Vec::new();
    extend_bytes(&mut message_hash, message_prefix);
    extend_bytes(&mut message_hash, &inner);
    proof {
        assert(message_hash@ =~= message_prefix@ + inner@);
    }
    keccak256(&message_hash)
}

/// Checks that one signature recovers, through keccak-based address
/// derivation, to exactly the guardian key supplied.
pub fn verify_guardian_signature(
    rs: &Vec<u8>,
    recovery_id: u8,
    guardian_pubkey: &Vec<u8>,
    digest: &Vec<u8>,
) -> (r: Result<(), QueriesSolanaVerifyError>)
    ensures
        match recover_of(digest@, recovery_id, rs@) {
            Some(pk) => {
                if keccak_of(pk).subrange(12, 32) == guardian_pubkey@ {
                    r is Ok
                } else {
                    r == Err::<(), QueriesSolanaVerifyError>(
                        QueriesSolanaVerifyError::InvalidGuardianKeyRecovery,
                    )
                }
            },
            None => r == Err::<(), QueriesSolanaVerifyError>(
                QueriesSolanaVerifyError::InvalidSignature,
            ),
        },
{
    let pk = match secp256k1_recover_key(digest, recovery_id, rs) {
        Some(pk) => pk,
        None => {
            return Err(QueriesSolanaVerifyError::InvalidSignature);
        },
    };
    let hashed = keccak256(&pk);
    let recovered = digest_tail20(&hashed);
    if bytes_eq(&recovered, guardian_pubkey) {
        Ok(())
    } else {
        Err(QueriesSolanaVerifyError::InvalidGuardianKeyRecovery)
    }
}

/// Verifies a staged signature batch against a guardian set: active set,
/// quorum met, strictly increasing in-range guardian indices, and every
/// signature recovering to its guardian's key — all of it, or a first
/// failure and nothing admitted.
pub fn verify_signatures(
    bytes: &Vec<u8>,
    guardian_signatures: &GuardianSignatures,
    guardian_set: &WormholeGuardianSet,
    message_prefix: &Vec<u8>,
    current_timestamp: u32,
) -> (r: Result<(), QueriesSolanaVerifyError>)
    requires
        guardian_set.wf(),
        guardian_set.keys@.len() * 2 <= usize::MAX,
    ensures
        r == spec_verify_signatures(
            bytes@,
            guardian_signatures.guardian_signatures.deep_view(),
            guardian_set.keys.deep_view(),
            guardian_set.expiration_time,
            message_prefix@,
            current_timestamp,
        ),
{
    let ghost sigs = guardian_signatures.guardian_signatures.deep_view();
    let ghost keys = guardian_set.keys.deep_view();
    if !guardian_set.is_active(&current_timestamp) {
        return Err(QueriesSolanaVerifyError::GuardianSetExpired);
    }
    let q = quorum(guardian_set.keys.len());
    let n_sigs = guardian_signatures.guardian_signatures.len();
    if n_sigs < q {
        return Err(QueriesSolanaVerifyError::NoQuorum);
    }
    let digest = query_message_digest(message_prefix, bytes);
    let ghost dg = digest@;

    let mut i: usize = 0;
    let mut last_index: Option<u8> = None;
    while i < n_sigs
        invariant
            guardian_set.wf(),
            digest@ == dg,
            sigs == guardian_signatures.guardian_signatures.deep_view(),
            keys == guardian_set.keys.deep_view(),
            n_sigs == sigs.len(),
            keys.len() == guardian_set.keys@.len(),
            guardian_set.expiration_time == 0 || guardian_set.expiration_time
                >= current_timestamp,
            n_sigs >= keys.len() * 2 / 3 + 1,
            dg == spec_query_digest(message_prefix@, bytes@),
            0 <= i <= n_sigs,
            spec_verify_from(dg, sigs, keys, 0, None) == spec_verify_from(
                dg,
                sigs,
                keys,
                i as int,
                last_index,
            ),
        decreases n_sigs - i,
    {
        let sig_bytes = &guardian_signatures.guardian_signatures[i];
        proof {
            assert(sigs[i as int] == sig_bytes.deep_view());
            assert(sig_bytes.deep_view() =~= sig_bytes@);
        }
        let (index, rs2, recovery_id) = match parse_guardian_sig(sig_bytes) {
            Some(parts) => parts,
            None => {
                return Err(QueriesSolanaVerifyError::InvalidSignature);
            },
        };
        match last_index {
            Some(l) => {
                if index <= l {
                    return Err(QueriesSolanaVerifyError::InvalidGuardianIndexNonIncreasing);
                }
            },
            None => {},
        }
        if (index as usize) >= guardian_set.keys.len() {
            return Err(QueriesSolanaVerifyError::InvalidGuardianIndexOutOfRange);
        }
        let guardian_pubkey = &guardian_set.keys[index as usize];
        proof {
            assert(keys[index as int] == guardian_pubkey.deep_view());
            assert(guardian_pubkey.deep_view() =~= guardian_pubkey@);
        }
        match verify_guardian_signature(&rs2, recovery_id, guardian_pubkey, &digest) {
            Ok(()) => {},
            Err(e) => {
                return Err(e);
            },
        }
        last_index = Some(index);
        i = i + 1;
    }
    Ok(())
}

} // verus!
