//! Sapling key operations for host applications: each returns 0 on success and a
//! negative code naming the input that did not decode. The cryptography is the
//! `sapling-crypto` crate's; its results are named below and taken as given.
use vstd::prelude::*;

verus! {

/// The incoming viewing key (32 bytes) of a 96-byte full viewing key; `None` when
/// the key does not decode.
pub uninterp spec fn sapling_fvk_ivk(fvk: Seq<u8>) -> Option<Seq<u8>>;

/// Whether a full viewing key and a diversifier key form a diversifiable full viewing key.
pub uninterp spec fn sapling_dfvk_valid(fvk: Seq<u8>, dk: Seq<u8>) -> bool;

/// The canonical encoding of a 43-byte payment address; `None` when it does not decode.
pub uninterp spec fn sapling_address_encoding(receiver: Seq<u8>) -> Option<Seq<u8>>;

/// The diversifier index and scope (0 external, 1 internal) at which a diversifiable
/// full viewing key produces `receiver`; `None` when it does not produce it.
pub uninterp spec fn sapling_dfvk_decrypt(fvk: Seq<u8>, dk: Seq<u8>, receiver: Seq<u8>) -> Option<
    (Seq<u8>, u8),
>;

/// The order of the Jubjub scalar field.
pub open spec fn jubjub_order() -> nat {
    let base = u64::MAX as nat + 1;
    0xd097_0e5e_d6f7_2cb7nat + base * (0xa668_2093_ccc8_1082nat + base * (0x0667_3b01_0134_3b00nat
        + base * 0x0e7d_b4ea_6533_afa9nat))
}

/// The little-endian value of `b`.
pub open spec fn le_value(b: Seq<u8>) -> nat
    decreases b.len(),
{
    if b.len() == 0 {
        0
    } else {
        b[0] as nat + 256 * le_value(b.skip(1))
    }
}

/// Whether 32 bytes are the canonical encoding of a Jubjub scalar: read as a
/// little-endian integer, they are below the field's order.
pub open spec fn jubjub_scalar_valid(b: Seq<u8>) -> bool {
    le_value(b) < jubjub_order()
}

/// The encoded Sapling address of a diversifiable full viewing key at diversifier
/// `d` (external scope); `None` when `d` is not a valid diversifier.
pub uninterp spec fn sapling_dfvk_address(fvk: Seq<u8>, dk: Seq<u8>, d: Seq<u8>) -> Option<Seq<u8>>;

/// Whether 32 bytes are the canonical encoding of a Jubjub curve point.
pub uninterp spec fn jubjub_point_valid(b: Seq<u8>) -> bool;

/// Whether a 96-byte full viewing key opens with a curve point (`ak`). Decoding one
/// that does not makes `sapling-crypto` 0.1 panic instead of failing.
pub open spec fn fvk_ak_decodes(fvk: Seq<u8>) -> bool {
    jubjub_point_valid(fvk.subrange(0, 32))
}

/// Whether the 32 bytes at `start` are a canonical scalar (an `ask`). Decoding an
/// expanded spending key whose `ask` is not makes `sapling-crypto` 0.1 panic.
pub open spec fn ask_decodes(key: Seq<u8>, start: int) -> bool {
    jubjub_scalar_valid(key.subrange(start, start + 32))
}

/// Offset of the expanded spending key in an encoded extended spending key.
pub const ESK_EXPSK_OFFSET: usize = 41;

/// The index to which a diversifier key maps the diversifier of `receiver`.
pub uninterp spec fn sapling_dk_index(dk: Seq<u8>, receiver: Seq<u8>) -> Seq<u8>;

/// The diversifier that a diversifier key produces at index `j`, if valid.
pub uninterp spec fn sapling_dk_diversifier(dk: Seq<u8>, j: Seq<u8>) -> Option<Seq<u8>>;

/// The encoded payment address of an incoming viewing key at diversifier `d`, if any.
pub uninterp spec fn sapling_ivk_address(ivk: Seq<u8>, d: Seq<u8>) -> Option<Seq<u8>>;

/// The first index at or above `j` with a valid diversifier, and that diversifier.
pub uninterp spec fn sapling_dk_find(dk: Seq<u8>, j: Seq<u8>) -> Option<(Seq<u8>, Seq<u8>)>;

/// The child (169 bytes) of an extended spending key at a hardened index; `None`
/// when the key does not decode.
pub uninterp spec fn sapling_esk_child(esk: Seq<u8>, index: u32) -> Option<Seq<u8>>;

/// The internal full viewing key and diversifier key derived from an external pair;
/// `None` when the full viewing key does not decode.
pub uninterp spec fn sapling_internal_fvk(fvk: Seq<u8>, dk: Seq<u8>) -> Option<(Seq<u8>, Seq<u8>)>;

/// The internal extended spending key of an extended spending key; `None` when it
/// does not decode.
pub uninterp spec fn sapling_esk_internal(esk: Seq<u8>) -> Option<Seq<u8>>;

/// The expanded spending key (96 bytes) of a spending key.
pub uninterp spec fn sapling_expanded_sk(sk: Seq<u8>) -> Seq<u8>;

/// The full viewing key (96 bytes) of an expanded spending key; `None` when it
/// does not decode.
pub uninterp spec fn sapling_expsk_fvk(expsk: Seq<u8>) -> Option<Seq<u8>>;

/// Relies on `FullViewingKey::read` and `ViewingKey::ivk` (then `SaplingIvk::to_repr`).
#[verifier::external_body]
fn fvk_ivk_bytes(fvk: &[u8; 96]) -> (r: Option<[u8; 32]>)
    requires
        fvk_ak_decodes(fvk@),
    ensures
        match r {
            Some(a) => sapling_fvk_ivk(fvk@) == Some(a@),
            None => sapling_fvk_ivk(fvk@) is None,
        },
{
    match sapling_crypto::keys::FullViewingKey::read(&fvk[..]) {
        Ok(k) => Some(k.vk.ivk().to_repr()),
        Err(_) => None,
    }
}

/// Relies on `DiversifiableFullViewingKey::from_bytes` over `fvk` followed by `dk`.
#[verifier::external_body]
fn dfvk_valid(fvk: &[u8; 96], dk: &[u8; 32]) -> (r: bool)
    requires
        fvk_ak_decodes(fvk@),
    ensures
        r == sapling_dfvk_valid(fvk@, dk@),
{
    let mut key = [0u8; 128];
    key[..96].copy_from_slice(fvk);
    key[96..].copy_from_slice(dk);
    sapling_crypto::zip32::DiversifiableFullViewingKey::from_bytes(&key).is_some()
}

/// Relies on `DiversifiableFullViewingKey::from_bytes` over `fvk` followed by `dk`,
/// then `diversified_address` and `PaymentAddress::to_bytes`.
#[verifier::external_body]
pub(crate) fn dfvk_diversified_address(fvk: &[u8; 96], dk: &[u8; 32], d: &[u8]) -> (r: Option<[u8; 43]>)
    requires
        fvk_ak_decodes(fvk@),
        d@.len() == 11,
    ensures
        match r {
            Some(a) => sapling_dfvk_address(fvk@, dk@, d@) == Some(a@),
            None => sapling_dfvk_address(fvk@, dk@, d@) is None,
        },
{
    let mut key = [0u8; 128];
    key[..96].copy_from_slice(fvk);
    key[96..].copy_from_slice(dk);
    let dfvk = sapling_crypto::zip32::DiversifiableFullViewingKey::from_bytes(&key)?;
    let div = sapling_crypto::Diversifier(d.try_into().unwrap());
    match dfvk.diversified_address(div) {
        Some(a) => Some(a.to_bytes()),
        None => None,
    }
}

/// Relies on `PaymentAddress::from_bytes` and `PaymentAddress::to_bytes`.
#[verifier::external_body]
fn address_encoding(receiver: &[u8; 43]) -> (r: Option<[u8; 43]>)
    ensures
        match r {
            Some(a) => sapling_address_encoding(receiver@) == Some(a@),
            None => sapling_address_encoding(receiver@) is None,
        },
{
    match sapling_crypto::PaymentAddress::from_bytes(receiver) {
        Some(a) => Some(a.to_bytes()),
        None => None,
    }
}

/// Relies on `DiversifiableFullViewingKey::decrypt_diversifier`.
#[verifier::external_body]
fn dfvk_decrypt_diversifier(fvk: &[u8; 96], dk: &[u8; 32], receiver: &[u8; 43]) -> (r: Option<
    ([u8; 11], u8),
>)
    requires
        fvk_ak_decodes(fvk@),
    ensures
        match r {
            Some((idx, s)) => sapling_dfvk_decrypt(fvk@, dk@, receiver@) == Some((idx@, s)),
            None => sapling_dfvk_decrypt(fvk@, dk@, receiver@) is None,
        },
{
    let mut key = [0u8; 128];
    key[..96].copy_from_slice(fvk);
    key[96..].copy_from_slice(dk);
    let dfvk = sapling_crypto::zip32::DiversifiableFullViewingKey::from_bytes(&key)?;
    let addr = sapling_crypto::PaymentAddress::from_bytes(receiver)?;
    match dfvk.decrypt_diversifier(&addr)? {
        (idx, zip32::Scope::External) => Some((*idx.as_bytes(), 0)),
        (idx, zip32::Scope::Internal) => Some((*idx.as_bytes(), 1)),
    }
}

/// Relies on `jubjub::Fr::from_bytes` on the 32 bytes of `b` at `start`: it accepts
/// exactly the little-endian values below the modulus.
#[verifier::external_body]
fn scalar_valid(b: &[u8], start: usize) -> (r: bool)
    requires
        start + 32 <= b@.len(),
    ensures
        r == jubjub_scalar_valid(b@.subrange(start as int, start + 32)),
{
    jubjub::Fr::from_bytes(&b[start..start + 32].try_into().unwrap()).is_some().into()
}

/// Relies on `jubjub::AffinePoint::from_bytes` on the 32 bytes of `b` at `start`.
#[verifier::external_body]
pub(crate) fn point_valid(b: &[u8], start: usize) -> (r: bool)
    requires
        start + 32 <= b@.len(),
    ensures
        r == jubjub_point_valid(b@.subrange(start as int, start + 32)),
{
    jubjub::AffinePoint::from_bytes(b[start..start + 32].try_into().unwrap()).is_some().into()
}

/// Relies on `DiversifierKey::diversifier_index` applied to the diversifier that
/// opens the address encoding.
#[verifier::external_body]
fn dk_index(dk: &[u8; 32], receiver: &[u8; 43]) -> (r: [u8; 11])
    ensures
        r@ == sapling_dk_index(dk@, receiver@),
{
    let d = sapling_crypto::Diversifier(receiver[..11].try_into().unwrap());
    *sapling_crypto::zip32::DiversifierKey::from_bytes(*dk).diversifier_index(&d).as_bytes()
}

/// Relies on `DiversifierKey::diversifier`.
#[verifier::external_body]
fn dk_diversifier(dk: &[u8; 32], j: &[u8; 11]) -> (r: Option<[u8; 11]>)
    ensures
        match r {
            Some(d) => sapling_dk_diversifier(dk@, j@) == Some(d@),
            None => sapling_dk_diversifier(dk@, j@) is None,
        },
{
    let key = sapling_crypto::zip32::DiversifierKey::from_bytes(*dk);
    key.diversifier(zip32::DiversifierIndex::from(*j)).map(|d| d.0)
}

/// Relies on `SaplingIvk::to_payment_address` (then `PaymentAddress::to_bytes`).
#[verifier::external_body]
fn ivk_address(ivk: &[u8; 32], d: &[u8; 11]) -> (r: Option<[u8; 43]>)
    requires
        jubjub_scalar_valid(ivk@.subrange(0, 32)),
    ensures
        match r {
            Some(a) => sapling_ivk_address(ivk@, d@) == Some(a@),
            None => sapling_ivk_address(ivk@, d@) is None,
        },
{
    let fr = Option::<jubjub::Fr>::from(jubjub::Fr::from_bytes(ivk))?;
    let key = sapling_crypto::SaplingIvk(fr);
    match key.to_payment_address(sapling_crypto::Diversifier(*d)) {
        Some(a) => Some(a.to_bytes()),
        None => None,
    }
}

/// Relies on `DiversifierKey::find_diversifier`.
#[verifier::external_body]
fn dk_find(dk: &[u8; 32], j: &[u8; 11]) -> (r: Option<([u8; 11], [u8; 11])>)
    ensures
        match r {
            Some((i, d)) => sapling_dk_find(dk@, j@) == Some((i@, d@)),
            None => sapling_dk_find(dk@, j@) is None,
        },
{
    let key = sapling_crypto::zip32::DiversifierKey::from_bytes(*dk);
    let (i, d) = key.find_diversifier(zip32::DiversifierIndex::from(*j))?;
    Some((*i.as_bytes(), d.0))
}

/// Relies on `ExtendedSpendingKey::from_bytes`, `derive_child` and `to_bytes`.
/// `derive_child` panics only if a derived `ask` is zero, an event of negligible
/// probability that no condition on the inputs short of the hash itself excludes.
#[verifier::external_body]
fn esk_child(esk: &[u8; 169], index: u32) -> (r: Option<[u8; 169]>)
    requires
        index >= 0x8000_0000,
        ask_decodes(esk@, ESK_EXPSK_OFFSET as int),
    ensures
        match r {
            Some(c) => sapling_esk_child(esk@, index) == Some(c@),
            None => sapling_esk_child(esk@, index) is None,
        },
{
    let i = zip32::ChildIndex::from_index(index)?;
    match sapling_crypto::zip32::ExtendedSpendingKey::from_bytes(esk) {
        Ok(k) => Some(k.derive_child(i).to_bytes()),
        Err(_) => None,
    }
}

/// Relies on `FullViewingKey::read` and `sapling_derive_internal_fvk`.
#[verifier::external_body]
fn internal_fvk_pair(fvk: &[u8; 96], dk: &[u8; 32]) -> (r: Option<([u8; 96], [u8; 32])>)
    requires
        fvk_ak_decodes(fvk@),
    ensures
        match r {
            Some((f, d)) => sapling_internal_fvk(fvk@, dk@) == Some((f@, d@)),
            None => sapling_internal_fvk(fvk@, dk@) is None,
        },
{
    let key = sapling_crypto::keys::FullViewingKey::read(&fvk[..]).ok()?;
    let dk = sapling_crypto::zip32::DiversifierKey::from_bytes(*dk);
    let (f, d) = sapling_crypto::zip32::sapling_derive_internal_fvk(&key, &dk);
    Some((f.to_bytes(), *d.as_bytes()))
}

/// Relies on `ExtendedSpendingKey::from_bytes`, `derive_internal` and `to_bytes`.
#[verifier::external_body]
fn esk_internal(esk: &[u8; 169]) -> (r: Option<[u8; 169]>)
    requires
        ask_decodes(esk@, ESK_EXPSK_OFFSET as int),
    ensures
        match r {
            Some(c) => sapling_esk_internal(esk@) == Some(c@),
            None => sapling_esk_internal(esk@) is None,
        },
{
    match sapling_crypto::zip32::ExtendedSpendingKey::from_bytes(esk) {
        Ok(k) => Some(k.derive_internal().to_bytes()),
        Err(_) => None,
    }
}

/// Relies on `ExpandedSpendingKey::from_spending_key` and `to_bytes`. It panics
/// only if the derived `ask` is zero, which has negligible probability.
#[verifier::external_body]
fn expanded_sk(sk: &[u8; 32]) -> (r: [u8; 96])
    ensures
        r@ == sapling_expanded_sk(sk@),
{
    sapling_crypto::keys::ExpandedSpendingKey::from_spending_key(sk).to_bytes()
}

/// Relies on `ExpandedSpendingKey::from_bytes`,
/// `FullViewingKey::from_expanded_spending_key` and `FullViewingKey::to_bytes`.
#[verifier::external_body]
fn expsk_fvk(expsk: &[u8; 96]) -> (r: Option<[u8; 96]>)
    requires
        ask_decodes(expsk@, 0),
    ensures
        match r {
            Some(f) => sapling_expsk_fvk(expsk@) == Some(f@),
            None => sapling_expsk_fvk(expsk@) is None,
        },
{
    match sapling_crypto::keys::ExpandedSpendingKey::from_bytes(expsk) {
        Ok(k) => Some(sapling_crypto::keys::FullViewingKey::from_expanded_spending_key(&k).to_bytes()),
        Err(_) => None,
    }
}

/// The smallest hardened ZIP 32 child index.
pub const HARDENED: u32 = 0x8000_0000;

/// Writes the incoming viewing key of `fvk` to `ivk` and returns 0; returns -1,
/// leaving `ivk` as it was, when `fvk` does not decode.
pub fn derive_sapling_ivk_from_fvk(fvk: &[u8; 96], ivk: &mut [u8; 32]) -> (r: i32)
    ensures
        !fvk_ak_decodes(fvk@) ==> r == -1 && *final(ivk) == *old(ivk),
        fvk_ak_decodes(fvk@) ==> match sapling_fvk_ivk(fvk@) {
            Some(k) => r == 0 && final(ivk)@ == k,
            None => r == -1 && *final(ivk) == *old(ivk),
        },
{
    if !point_valid(fvk, 0) {
        return -1;
    }
    match fvk_ivk_bytes(fvk) {
        Some(k) => {
            *ivk = k;
            0
        },
        None => -1,
    }
}

/// Finds the diversifier index and scope at which the key `fvk`, `dk` produces
/// `receiver`, writes them and returns 0. Returns -1 when the key does not decode,
/// -2 when the receiver does not decode, and 1 when the key did not produce the
/// receiver; the outputs are then left as they were.
pub fn decrypt_sapling_diversifier(
    fvk: &[u8; 96],
    dk: &[u8; 32],
    receiver: &[u8; 43],
    diversifier_index: &mut [u8; 11],
    scope: &mut u8,
) -> (r: i32)
    ensures
        !fvk_ak_decodes(fvk@) ==> r == -1,
        fvk_ak_decodes(fvk@) && !sapling_dfvk_valid(fvk@, dk@) ==> r == -1,
        fvk_ak_decodes(fvk@) && sapling_dfvk_valid(fvk@, dk@) && sapling_address_encoding(receiver@) is None ==> r == -2,
        fvk_ak_decodes(fvk@) && sapling_dfvk_valid(fvk@, dk@) && sapling_address_encoding(receiver@) is Some ==> match sapling_dfvk_decrypt(fvk@, dk@, receiver@) {
            Some((idx, s)) => r == 0 && final(diversifier_index)@ == idx && *final(scope) == s,
            None => r == 1,
        },
        r != 0 ==> *final(diversifier_index) == *old(diversifier_index) && *final(scope) == *old(scope),
{
    if !point_valid(fvk, 0) || !dfvk_valid(fvk, dk) {
        return -1;
    }
    if address_encoding(receiver).is_none() {
        return -2;
    }
    match dfvk_decrypt_diversifier(fvk, dk, receiver) {
        Some((idx, s)) => {
            *diversifier_index = idx;
            *scope = s;
            0
        },
        None => 1,
    }
}

/// Checks whether the incoming viewing key `ivk` with diversifier key `dk` produced
/// `receiver`: the diversifier of `receiver` is mapped to its index, the index back
/// to a diversifier, and `ivk` must give the same address there. Writes the index
/// and returns 0 when it does; returns 1 when it does not, -1 when `ivk` does not
/// decode, -2 when `receiver` does not, -3 when the index has no valid diversifier.
pub fn decrypt_sapling_diversifier_with_ivk(
    ivk: &[u8; 32],
    dk: &[u8; 32],
    receiver: &[u8; 43],
    diversifier_index: &mut [u8; 11],
) -> (r: i32)
    ensures
        !jubjub_scalar_valid(ivk@.subrange(0, 32)) ==> r == -1,
        jubjub_scalar_valid(ivk@.subrange(0, 32)) && sapling_address_encoding(receiver@) is None ==> r == -2,
        jubjub_scalar_valid(ivk@.subrange(0, 32)) && sapling_address_encoding(receiver@) is Some ==> {
            let j = sapling_dk_index(dk@, receiver@);
            match sapling_dk_diversifier(dk@, j) {
                None => r == -3,
                Some(d) => if sapling_ivk_address(ivk@, d) == sapling_address_encoding(receiver@) {
                    r == 0 && final(diversifier_index)@ == j
                } else {
                    r == 1
                },
            }
        },
        r != 0 ==> *final(diversifier_index) == *old(diversifier_index),
{
    if !scalar_valid(ivk, 0) {
        return -1;
    }
    let address = match address_encoding(receiver) {
        Some(a) => a,
        None => return -2,
    };
    let j = dk_index(dk, receiver);
    let d = match dk_diversifier(dk, &j) {
        Some(d) => d,
        None => return -3,
    };
    match ivk_address(ivk, &d) {
        Some(regenerated) => {
            if same_address(&regenerated, &address) {
                *diversifier_index = j;
                0
            } else {
                1
            }
        },
        None => 1,
    }
}

fn same_address(a: &[u8; 43], b: &[u8; 43]) -> (r: bool)
    ensures
        r == (a@ == b@),
{
    let mut i: usize = 0;
    while i < 43
        invariant
            0 <= i <= 43,
            a@.len() == 43,
            b@.len() == 43,
            forall|k: int| 0 <= k < i ==> a@[k] == b@[k],
        decreases 43 - i,
    {
        if a[i] != b[i] {
            return false;
        }
        i = i + 1;
    }
    assert(a@ =~= b@);
    true
}

/// Derives the child of the extended spending key `ext_sk` at the hardened index
/// `child_index`, writes it and returns 0. Returns -2 for an index without the
/// hardened bit and -1 when the key does not decode, leaving `child` as it was.
pub fn derive_sapling_child(ext_sk: &[u8; 169], child_index: u32, child: &mut [u8; 169]) -> (r: i32)
    ensures
        child_index < HARDENED ==> r == -2 && *final(child) == *old(child),
        child_index >= HARDENED && !ask_decodes(ext_sk@, ESK_EXPSK_OFFSET as int) ==> r == -1
            && *final(child) == *old(child),
        child_index >= HARDENED && ask_decodes(ext_sk@, ESK_EXPSK_OFFSET as int) ==> match sapling_esk_child(ext_sk@, child_index) {
            Some(c) => r == 0 && final(child)@ == c,
            None => r == -1 && *final(child) == *old(child),
        },
{
    if child_index < HARDENED {
        return -2;
    }
    if !scalar_valid(ext_sk, ESK_EXPSK_OFFSET) {
        return -1;
    }
    match esk_child(ext_sk, child_index) {
        Some(c) => {
            *child = c;
            0
        },
        None => -1,
    }
}

/// Derives the internal full viewing key and diversifier key of `fvk`, `dk`, writes
/// them and returns 0; returns -1 when `fvk` does not decode.
pub fn derive_internal_fvk_sapling(
    fvk: &[u8; 96],
    dk: &[u8; 32],
    internal_fvk: &mut [u8; 96],
    internal_dk: &mut [u8; 32],
) -> (r: i32)
    ensures
        !fvk_ak_decodes(fvk@) ==> r == -1 && *final(internal_fvk) == *old(internal_fvk)
            && *final(internal_dk) == *old(internal_dk),
        fvk_ak_decodes(fvk@) ==> match sapling_internal_fvk(fvk@, dk@) {
            Some((f, d)) => r == 0 && final(internal_fvk)@ == f && final(internal_dk)@ == d,
            None => r == -1 && *final(internal_fvk) == *old(internal_fvk) && *final(internal_dk)
                == *old(internal_dk),
        },
{
    if !point_valid(fvk, 0) {
        return -1;
    }
    match internal_fvk_pair(fvk, dk) {
        Some((f, d)) => {
            *internal_fvk = f;
            *internal_dk = d;
            0
        },
        None => -1,
    }
}

/// Derives the internal extended spending key of `ext_sk`, writes it and returns 0;
/// returns -1 when `ext_sk` does not decode.
pub fn derive_internal_sk_sapling(ext_sk: &[u8; 169], internal_ext_sk: &mut [u8; 169]) -> (r: i32)
    ensures
        !ask_decodes(ext_sk@, ESK_EXPSK_OFFSET as int) ==> r == -1 && *final(internal_ext_sk)
            == *old(internal_ext_sk),
        ask_decodes(ext_sk@, ESK_EXPSK_OFFSET as int) ==> match sapling_esk_internal(ext_sk@) {
            Some(k) => r == 0 && final(internal_ext_sk)@ == k,
            None => r == -1 && *final(internal_ext_sk) == *old(internal_ext_sk),
        },
{
    if !scalar_valid(ext_sk, ESK_EXPSK_OFFSET) {
        return -1;
    }
    match esk_internal(ext_sk) {
        Some(k) => {
            *internal_ext_sk = k;
            0
        },
        None => -1,
    }
}

/// Writes the expanded spending key of the spending key `sk`.
pub fn get_sapling_expanded_sk(sk: &[u8; 32], expsk: &mut [u8; 96])
    ensures
        final(expsk)@ == sapling_expanded_sk(sk@),
{
    *expsk = expanded_sk(sk);
}

/// Writes the full viewing key of the expanded spending key `expsk` and returns 0;
/// returns -1 when `expsk` does not decode.
pub fn get_sapling_fvk_from_expanded_sk(expsk: &[u8; 96], fvk: &mut [u8; 96]) -> (r: i32)
    ensures
        !ask_decodes(expsk@, 0) ==> r == -1 && *final(fvk) == *old(fvk),
        ask_decodes(expsk@, 0) ==> match sapling_expsk_fvk(expsk@) {
            Some(f) => r == 0 && final(fvk)@ == f,
            None => r == -1 && *final(fvk) == *old(fvk),
        },
{
    if !scalar_valid(expsk, 0) {
        return -1;
    }
    match expsk_fvk(expsk) {
        Some(f) => {
            *fvk = f;
            0
        },
        None => -1,
    }
}

/// Finds the first valid diversifier at or above the index in `diversifier_index`,
/// writes that index back and the address of `ivk` there to `receiver`, and returns
/// 0. Returns -1 when `ivk` does not decode, -2 when no valid diversifier follows,
/// and -3 when `ivk` gives no address at the diversifier found.
pub fn get_sapling_receiver(
    ivk: &[u8; 32],
    dk: &[u8; 32],
    diversifier_index: &mut [u8; 11],
    receiver: &mut [u8; 43],
) -> (r: i32)
    ensures
        !jubjub_scalar_valid(ivk@.subrange(0, 32)) ==> r == -1 && *final(diversifier_index) == *old(
            diversifier_index,
        ) && *final(receiver) == *old(receiver),
        jubjub_scalar_valid(ivk@.subrange(0, 32)) ==> match sapling_dk_find(dk@, old(diversifier_index)@) {
            None => r == -2 && *final(diversifier_index) == *old(diversifier_index)
                && *final(receiver) == *old(receiver),
            Some((i, d)) => final(diversifier_index)@ == i && match sapling_ivk_address(ivk@, d) {
                Some(a) => r == 0 && final(receiver)@ == a,
                None => r == -3 && *final(receiver) == *old(receiver),
            },
        },
{
    if !scalar_valid(ivk, 0) {
        return -1;
    }
    let start = *diversifier_index;
    match dk_find(dk, &start) {
        Some((i, d)) => {
            *diversifier_index = i;
            match ivk_address(ivk, &d) {
                Some(a) => {
                    *receiver = a;
                    0
                },
                None => -3,
            }
        },
        None => -2,
    }
}

} // verus!
