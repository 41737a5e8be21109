use vault_turbin::codec::{discriminator, read_vault, tagged_amount, write_vault, AccountDataError};
use vault_turbin::errors::InstructionError;
use vault_turbin::events::{DepositEvent, WithdrawEvent};
use vault_turbin::instructions::{SignerAccount, VaultAccount};
use vault_turbin::program::{
    decode_instruction, decode_tagged, instruction_tags, process_instruction, InstructionData,
    InstructionTags,
};
use vault_turbin::state::{Pubkey, Vault};

const VAULT_TAG: [u8; 8] = [211, 8, 232, 43, 2, 152, 117, 119];
const DEPOSIT_EVENT_TAG: [u8; 8] = [120, 248, 61, 83, 31, 142, 107, 144];
const WITHDRAW_EVENT_TAG: [u8; 8] = [22, 9, 133, 26, 160, 44, 71, 192];
const INIT_IX: [u8; 8] = [195, 230, 213, 135, 144, 148, 142, 85];
const DEPOSIT_IX: [u8; 8] = [28, 162, 208, 235, 199, 114, 83, 71];
const WITHDRAW_IX: [u8; 8] = [255, 220, 34, 225, 172, 205, 44, 82];
const CLOSE_IX: [u8; 8] = [246, 44, 75, 59, 60, 149, 29, 168];

fn sample_vault() -> Vault {
    let mut k = [0u8; 32];
    for (i, b) in k.iter_mut().enumerate() {
        *b = i as u8 + 1;
    }
    Vault { owner: Pubkey::new_from_array(k), balance: 0x0102_0304_0506_0708 }
}

#[test]
fn discriminators_are_digest_prefixes() {
    assert_eq!(discriminator(b"account:Vault"), VAULT_TAG);
    assert_eq!(discriminator(b"event:DepositEvent"), DEPOSIT_EVENT_TAG);
    let tags = instruction_tags();
    assert_eq!(tags.initialize, INIT_IX);
    assert_eq!(tags.deposit, DEPOSIT_IX);
    assert_eq!(tags.withdraw, WITHDRAW_IX);
    assert_eq!(tags.close, CLOSE_IX);
}

#[test]
fn amount_is_little_endian() {
    let tag = [1, 2, 3, 4, 5, 6, 7, 8];
    assert_eq!(
        tagged_amount(&tag, 0x1122_3344_5566_7788),
        vec![1, 2, 3, 4, 5, 6, 7, 8, 0x88, 0x77, 0x66, 0x55, 0x44, 0x33, 0x22, 0x11]
    );
}

#[test]
fn event_records() {
    let mut d = DEPOSIT_EVENT_TAG.to_vec();
    d.extend_from_slice(&1000u64.to_le_bytes());
    assert_eq!(DepositEvent { amount: 1000 }.data(), d);
    let mut w = WITHDRAW_EVENT_TAG.to_vec();
    w.extend_from_slice(&400u64.to_le_bytes());
    assert_eq!(WithdrawEvent { amount: 400 }.data(), w);
}

#[test]
fn vault_layout() {
    let v = sample_vault();
    let bytes = v.try_serialize();
    assert_eq!(bytes.len(), 48);
    assert_eq!(&bytes[..8], &VAULT_TAG);
    assert_eq!(&bytes[8..40], &v.owner.bytes);
    assert_eq!(&bytes[40..], &[8, 7, 6, 5, 4, 3, 2, 1]);
    assert_eq!(Vault::try_deserialize(&bytes), Ok(v));
}

#[test]
fn vault_read_with_own_tag() {
    let tag = [9u8; 8];
    let v = sample_vault();
    let mut bytes = write_vault(&tag, &v);
    assert_eq!(&bytes[..8], &tag);
    bytes.push(0xAA);
    assert_eq!(read_vault(&bytes, &tag), Ok(v));
    assert_eq!(read_vault(&bytes[..7], &tag), Err(AccountDataError::DiscriminatorNotFound));
    assert_eq!(read_vault(&bytes[..47], &tag), Err(AccountDataError::DidNotDeserialize));
    assert_eq!(read_vault(&bytes, &[8u8; 8]), Err(AccountDataError::DiscriminatorMismatch));
}

#[test]
fn vault_deserialize_errors() {
    let bytes = sample_vault().try_serialize();
    assert_eq!(Vault::try_deserialize(&bytes[..3]), Err(AccountDataError::DiscriminatorNotFound));
    assert_eq!(Vault::try_deserialize(&bytes[..20]), Err(AccountDataError::DidNotDeserialize));
    let mut other = bytes.clone();
    other[0] ^= 1;
    assert_eq!(Vault::try_deserialize(&other), Err(AccountDataError::DiscriminatorMismatch));
}

#[test]
fn decode_with_own_tags() {
    let tags = InstructionTags { initialize: [1; 8], deposit: [2; 8], withdraw: [3; 8], close: [4; 8] };
    assert_eq!(decode_tagged(&[1; 8], &tags), Ok(InstructionData::Initialize));
    assert_eq!(decode_tagged(&[4; 9], &tags), Ok(InstructionData::Close));
    let mut d = vec![2u8; 8];
    d.extend_from_slice(&5u64.to_le_bytes());
    assert_eq!(decode_tagged(&d, &tags), Ok(InstructionData::Deposit { amount: 5 }));
    let mut w = vec![3u8; 8];
    w.extend_from_slice(&6u64.to_le_bytes());
    assert_eq!(decode_tagged(&w, &tags), Ok(InstructionData::Withdraw { amount: 6 }));
    assert_eq!(decode_tagged(&w[..15], &tags), Err(InstructionError::InstructionDidNotDeserialize));
    assert_eq!(decode_tagged(&[5; 8], &tags), Err(InstructionError::InstructionFallbackNotFound));
    assert_eq!(decode_tagged(&[1; 7], &tags), Err(InstructionError::InstructionMissing));
}

#[test]
fn decode_program_instructions() {
    let mut d = DEPOSIT_IX.to_vec();
    d.extend_from_slice(&1000u64.to_le_bytes());
    assert_eq!(decode_instruction(&d), Ok(InstructionData::Deposit { amount: 1000 }));
    assert_eq!(decode_instruction(&CLOSE_IX), Ok(InstructionData::Close));
    assert_eq!(decode_instruction(&DEPOSIT_IX), Err(InstructionError::InstructionDidNotDeserialize));
}

#[test]
fn process_full_lifecycle() {
    let owner_key = Pubkey::new_from_array([7; 32]);
    let system = Pubkey::new_from_array([0; 32]);
    let rent = 1_224_960;
    let mut vault = VaultAccount { record: None, lamports: 0 };
    let mut owner = SignerAccount { key: owner_key, is_signer: true, lamports: 5_000_000 };

    assert_eq!(process_instruction(&mut vault, &mut owner, system, rent, &INIT_IX), Ok(vec![]));
    assert_eq!(vault.record, Some(Vault { owner: owner_key, balance: 0 }));

    let mut d = DEPOSIT_IX.to_vec();
    d.extend_from_slice(&1000u64.to_le_bytes());
    let log = process_instruction(&mut vault, &mut owner, system, rent, &d).unwrap();
    assert_eq!(log, DepositEvent { amount: 1000 }.data());

    let mut w = WITHDRAW_IX.to_vec();
    w.extend_from_slice(&10_000u64.to_le_bytes());
    assert_eq!(
        process_instruction(&mut vault, &mut owner, system, rent, &w),
        Err(InstructionError::Vault(vault_turbin::errors::VaultError::InsufficientBalance))
    );
    assert_eq!(vault.record.unwrap().balance, 1000);

    assert_eq!(
        process_instruction(&mut vault, &mut owner, system, rent, &[0; 8]),
        Err(InstructionError::InstructionFallbackNotFound)
    );

    assert_eq!(process_instruction(&mut vault, &mut owner, system, rent, &CLOSE_IX), Ok(vec![]));
    assert_eq!(vault, VaultAccount { record: None, lamports: 0 });
    assert_eq!(owner.lamports, 5_000_000);
}
