//! Wire formats: the 8-byte discriminators that tag records and instructions,
//! little-endian integers, and the vault account's 48-byte layout.
use vstd::prelude::*;
use vstd::string::StringSliceAdditionalSpecFns;
use crate::state::{Pubkey, Vault};

verus! {

broadcast use vstd::array::group_array_axioms;

/// The SHA-256 digest of some bytes.
pub uninterp spec fn sha256_of(data: Seq<u8>) -> Seq<u8>;

/// Relies on solana_program::hash::hash, re-exported by anchor_lang, which
/// returns the SHA-256 digest of its argument.
#[verifier::external_body]
fn sha256(data: &[u8]) -> (r: [u8; 32])
    ensures
        r@ == sha256_of(data@),
{
    anchor_lang::solana_program::hash::hash(data).to_bytes()
}

/// The discriminator derived from a name: the first 8 bytes of its digest.
pub open spec fn discriminator_of(preimage: Seq<u8>) -> Seq<u8> {
    Seq::new(8, |i: int| sha256_of(preimage)[i])
}

/// Computes the discriminator of `preimage`.
pub fn discriminator(preimage: &[u8]) -> (r: [u8; 8])
    ensures
        r@ == discriminator_of(preimage@),
{
    let h = sha256(preimage);
    let r = [h[0], h[1], h[2], h[3], h[4], h[5], h[6], h[7]];
    proof {
        assert(r@ =~= discriminator_of(preimage@));
    }
    r
}

/// The 8 little-endian bytes of `n`.
pub open spec fn le_bytes(n: u64) -> Seq<u8> {
    seq![
        n as u8,
        (n >> 8u64) as u8,
        (n >> 16u64) as u8,
        (n >> 24u64) as u8,
        (n >> 32u64) as u8,
        (n >> 40u64) as u8,
        (n >> 48u64) as u8,
        (n >> 56u64) as u8,
    ]
}

/// The number whose little-endian bytes are `b[0..8]`.
pub open spec fn le_value(b: Seq<u8>) -> u64
    recommends
        b.len() >= 8,
{
    le_value8(b[0], b[1], b[2], b[3], b[4], b[5], b[6], b[7])
}

pub open spec fn le_value8(b0: u8, b1: u8, b2: u8, b3: u8, b4: u8, b5: u8, b6: u8, b7: u8) -> u64 {
    (b0 as u64) | ((b1 as u64) << 8u64) | ((b2 as u64) << 16u64) | ((b3 as u64) << 24u64) | ((
    b4 as u64) << 32u64) | ((b5 as u64) << 40u64) | ((b6 as u64) << 48u64) | ((b7 as u64)
        << 56u64)
}

/// Reading back the bytes of a number gives the number.
pub proof fn lemma_le_round_trip(n: u64)
    ensures
        le_value(le_bytes(n)) == n,
{
    assert(le_value8(
        n as u8,
        (n >> 8u64) as u8,
        (n >> 16u64) as u8,
        (n >> 24u64) as u8,
        (n >> 32u64) as u8,
        (n >> 40u64) as u8,
        (n >> 48u64) as u8,
        (n >> 56u64) as u8,
    ) == n) by (bit_vector);
}

/// Appends the little-endian bytes of `n`.
pub fn push_u64_le(out: &mut Vec<u8>, n: u64)
    ensures
        final(out)@ == old(out)@ + le_bytes(n),
{
    out.push(n as u8);
    out.push((n >> 8u64) as u8);
    out.push((n >> 16u64) as u8);
    out.push((n >> 24u64) as u8);
    out.push((n >> 32u64) as u8);
    out.push((n >> 40u64) as u8);
    out.push((n >> 48u64) as u8);
    out.push((n >> 56u64) as u8);
    proof {
        assert(final(out)@ =~= old(out)@ + le_bytes(n));
    }
}

/// Reads the little-endian number at `data[at..at + 8]`.
pub fn read_u64_le(data: &[u8], at: usize) -> (r: u64)
    requires
        at + 8 <= data@.len(),
    ensures
        r == le_value(data@.subrange(at as int, at + 8)),
{
    let r = (data[at] as u64) | ((data[at + 1] as u64) << 8u64) | ((data[at + 2] as u64) << 16u64)
        | ((data[at + 3] as u64) << 24u64) | ((data[at + 4] as u64) << 32u64) | ((data[at + 5] as u64)
        << 40u64) | ((data[at + 6] as u64) << 48u64) | ((data[at + 7] as u64) << 56u64);
    r
}

/// Appends every byte of `bytes`.
pub fn push_all(out: &mut Vec<u8>, bytes: &[u8])
    ensures
        final(out)@ == old(out)@ + bytes@,
{
    let mut i: usize = 0;
    while i < bytes.len()
        invariant
            i <= bytes@.len(),
            out@ == old(out)@ + bytes@.subrange(0, i as int),
        decreases bytes@.len() - i,
    {
        out.push(bytes[i]);
        i = i + 1;
        proof {
            assert(out@ =~= old(out)@ + bytes@.subrange(0, i as int));
        }
    }
    proof {
        assert(bytes@.subrange(0, i as int) =~= bytes@);
    }
}

/// Whether `data[at..at + 8]` is the discriminator `tag`.
pub fn tagged_at(data: &[u8], at: usize, tag: &[u8; 8]) -> (r: bool)
    requires
        at + 8 <= data@.len(),
    ensures
        r == (data@.subrange(at as int, at + 8) == tag@),
{
    let n = data.len();
    let mut i: usize = 0;
    while i < 8
        invariant
            i <= 8,
            at + 8 <= data@.len(),
            n == data@.len(),
            forall|j: int| 0 <= j < i ==> data@[at + j] == tag@[j],
        decreases 8 - i,
    {
        if data[at + i] != tag[i] {
            return false;
        }
        i = i + 1;
    }
    proof {
        assert(data@.subrange(at as int, at + 8) =~= tag@);
    }
    true
}

/// Size of a vault account: discriminator, owner key and balance.
pub const VAULT_LEN: usize = Vault::LEN;

/// The vault record's account discriminator.
pub open spec fn vault_discriminator() -> Seq<u8> {
    discriminator_of("account:Vault".spec_bytes())
}

/// The bytes of a vault account: `discriminator ‖ owner ‖ balance (LE)`.
pub open spec fn vault_bytes(v: Vault) -> Seq<u8> {
    tagged_vault_bytes(vault_discriminator(), v)
}

/// The bytes of a vault record under the discriminator `tag`.
pub open spec fn tagged_vault_bytes(tag: Seq<u8>, v: Vault) -> Seq<u8> {
    tag + v.owner.bytes@ + le_bytes(v.balance)
}

/// A record of `tag` followed by a little-endian amount, as events are logged.
pub fn tagged_amount(tag: &[u8; 8], amount: u64) -> (r: Vec<u8>)
    ensures
        r@ == tag@ + le_bytes(amount),
{
    let mut out: Vec<u8> = Vec::new();
    push_all(&mut out, tag);
    push_u64_le(&mut out, amount);
    out
}

/// Writes `v` under the discriminator `tag`.
pub fn write_vault(tag: &[u8; 8], v: &Vault) -> (r: Vec<u8>)
    ensures
        r@ == tagged_vault_bytes(tag@, *v),
        r@.len() == VAULT_LEN,
{
    let mut out: Vec<u8> = Vec::new();
    push_all(&mut out, tag);
    push_all(&mut out, &v.owner.bytes);
    push_u64_le(&mut out, v.balance);
    out
}

/// Reads a vault record tagged `tag` from account bytes; bytes past the record
/// are ignored.
pub fn read_vault(data: &[u8], tag: &[u8; 8]) -> (r: Result<Vault, AccountDataError>)
    ensures
        data@.len() < 8 ==> r == Err::<Vault, AccountDataError>(
            AccountDataError::DiscriminatorNotFound,
        ),
        data@.len() >= 8 && data@.subrange(0, 8) != tag@ ==> r == Err::<Vault, AccountDataError>(
            AccountDataError::DiscriminatorMismatch,
        ),
        data@.len() >= 8 && data@.subrange(0, 8) == tag@ && data@.len() < VAULT_LEN ==> r == Err::<
            Vault,
            AccountDataError,
        >(AccountDataError::DidNotDeserialize),
        data@.len() >= VAULT_LEN && data@.subrange(0, 8) == tag@ ==> r is Ok
            && r->Ok_0.owner.bytes@ == data@.subrange(8, 40) && r->Ok_0.balance == le_value(
            data@.subrange(40, 48),
        ),
{
    if data.len() < 8 {
        return Err(AccountDataError::DiscriminatorNotFound);
    }
    if !tagged_at(data, 0, tag) {
        return Err(AccountDataError::DiscriminatorMismatch);
    }
    if data.len() < VAULT_LEN {
        return Err(AccountDataError::DidNotDeserialize);
    }
    let mut bytes = [0u8; 32];
    let mut i: usize = 0;
    while i < KEY_BYTES
        invariant
            i <= KEY_BYTES,
            data@.len() >= VAULT_LEN,
            forall|j: int| 0 <= j < i ==> bytes@[j] == data@[8 + j],
        decreases KEY_BYTES - i,
    {
        bytes[i] = data[8 + i];
        i = i + 1;
    }
    proof {
        assert(bytes@ =~= data@.subrange(8, 40));
    }
    let balance = read_u64_le(data, 40);
    Ok(Vault { owner: Pubkey { bytes }, balance })
}

/// Failures when reading a vault account's bytes.
#[derive(Clone, Copy, Debug, PartialEq, Eq, Structural)]
pub enum AccountDataError {
    /// Fewer than 8 bytes: no discriminator.
    DiscriminatorNotFound,
    /// The bytes are tagged as another record type.
    DiscriminatorMismatch,
    /// The record is cut short.
    DidNotDeserialize,
}

impl Vault {
    /// The account bytes of the record.
    pub fn try_serialize(&self) -> (r: Vec<u8>)
        ensures
            r@ == vault_bytes(*self),
            r@.len() == VAULT_LEN,
    {
        let tag = discriminator("account:Vault".as_bytes());
        write_vault(&tag, self)
    }

    /// Reads a record from account bytes. Bytes past the record are ignored.
    pub fn try_deserialize(data: &[u8]) -> (r: Result<Vault, AccountDataError>)
        ensures
            data@.len() < 8 ==> r == Err::<Vault, AccountDataError>(
                AccountDataError::DiscriminatorNotFound,
            ),
            data@.len() >= 8 && data@.subrange(0, 8) != vault_discriminator() ==> r == Err::<
                Vault,
                AccountDataError,
            >(AccountDataError::DiscriminatorMismatch),
            data@.len() >= 8 && data@.subrange(0, 8) == vault_discriminator() && data@.len()
                < VAULT_LEN ==> r == Err::<Vault, AccountDataError>(
                AccountDataError::DidNotDeserialize,
            ),
            data@.len() >= VAULT_LEN && data@.subrange(0, 8) == vault_discriminator() ==> r is Ok
                && r->Ok_0.owner.bytes@ == data@.subrange(8, 40) && r->Ok_0.balance == le_value(
                data@.subrange(40, 48),
            ),
    {
        let tag = discriminator("account:Vault".as_bytes());
        read_vault(data, &tag)
    }
}

const KEY_BYTES: usize = 32;

/// Reading back a vault's account bytes gives the vault: the tag, then the
/// owner's key and the balance.
pub proof fn lemma_vault_bytes_round_trip(tag: Seq<u8>, v: Vault)
    requires
        tag.len() == 8,
    ensures
        tagged_vault_bytes(tag, v).len() == VAULT_LEN,
        tagged_vault_bytes(tag, v).subrange(0, 8) == tag,
        tagged_vault_bytes(tag, v).subrange(8, 40) == v.owner.bytes@,
        le_value(tagged_vault_bytes(tag, v).subrange(40, 48)) == v.balance,
{
    let b = tagged_vault_bytes(tag, v);
    assert(b.subrange(0, 8) =~= tag);
    assert(b.subrange(8, 40) =~= v.owner.bytes@);
    assert(b.subrange(40, 48) =~= le_bytes(v.balance));
    lemma_le_round_trip(v.balance);
}

} // verus!
