use pump_sniper::wallet::{
    address, keypair_from_decoded_bytes, load_keypair, parse_address, sign_transaction, token_account, wallet_address,
    KeyError,
};
use solana_sdk::message::{Message, VersionedMessage};
use solana_sdk::pubkey::Pubkey;
use solana_sdk::signature::{Keypair, Signature, Signer};
use solana_sdk::transaction::VersionedTransaction;

const ZERO_SEED: &str = "11111111111111111111111111111111";
const ZERO_SEED_ADDRESS: &str = "4zvwRjXUKGfvwnParsHAS3HuSVzV5cA4McphgmoCtajS";

fn unsigned(payer: &Pubkey) -> Vec<u8> {
    let message = Message::new_with_blockhash(&[], Some(payer), &solana_sdk::hash::Hash::default());
    let tx = VersionedTransaction {
        signatures: vec![Signature::default()],
        message: VersionedMessage::Legacy(message),
    };
    bincode::serialize(&tx).unwrap()
}

#[test]
fn a_seed_is_a_private_key() {
    let k = load_keypair(ZERO_SEED).unwrap();
    assert_eq!(k.len(), 64);
    assert_eq!(&k[..32], &[0u8; 32]);
    assert_eq!(wallet_address(&k), ZERO_SEED_ADDRESS);
}

#[test]
fn a_whole_key_pair_is_a_private_key() {
    let text = format!("  {ZERO_SEED}{ZERO_SEED_ADDRESS}\n");
    let k = load_keypair(&text).unwrap();
    assert_eq!(wallet_address(&k), ZERO_SEED_ADDRESS);
    assert_eq!(k, load_keypair(ZERO_SEED).unwrap());
}

#[test]
fn the_public_key_is_the_one_of_the_signer() {
    let pair = Keypair::new();
    let text = pair.to_base58_string();
    let k = load_keypair(&text).unwrap();
    assert_eq!(k, pair.to_bytes().to_vec());
    assert_eq!(wallet_address(&k), pair.pubkey().to_string());
}

#[test]
fn keys_that_are_not_base58() {
    let e = load_keypair("0OIl").unwrap_err();
    assert!(matches!(e, KeyError::InvalidBase58(_)));
    let own = bs58::decode("0OIl").into_vec().unwrap_err();
    assert_eq!(e.message(), format!("Invalid base58 PRIVATE_KEY: {own}"));
}

#[test]
fn keys_of_the_wrong_length() {
    let e = load_keypair("Cn8eVZg").unwrap_err();
    assert!(matches!(e, KeyError::WrongLength(5)));
    assert_eq!(e.message(), "PRIVATE_KEY decoded to 5 bytes, expected 32 or 64");
    assert!(matches!(load_keypair("").unwrap_err(), KeyError::WrongLength(0)));
}

#[test]
fn key_pairs_that_do_not_match() {
    let mut bytes = load_keypair(ZERO_SEED).unwrap();
    bytes[0] = 1;
    let e = keypair_from_decoded_bytes(&bytes).unwrap_err();
    assert!(matches!(e, KeyError::InvalidKeypair(_)));
    assert!(e.message().starts_with("Invalid 64-byte private key: "));
}

#[test]
fn a_bad_seed_in_words() {
    assert_eq!(KeyError::InvalidSeed("why".to_string()).message(), "Invalid 32-byte private key seed: why");
}

#[test]
fn addresses_read_back() {
    let key = [7u8; 32];
    let text = address(key);
    assert_eq!(text, Pubkey::from(key).to_string());
    assert_eq!(parse_address(&text), Some(key));
    assert_eq!(parse_address("not an address"), None);
    assert_eq!(parse_address("Cn8eVZg"), None);
}

#[test]
fn token_accounts_are_derived_from_owner_and_mint() {
    let owner = Pubkey::from([1u8; 32]);
    let mint = Pubkey::from([2u8; 32]);
    let token_program = "TokenkegQfeZyiNwAJbNbGKPFXCWuBvf9Ss623VQ5DA".parse::<Pubkey>().unwrap();
    let program = "ATokenGPvbdGVxr1b2hvZbsiqW5xWH25efTNsLJA8knL".parse::<Pubkey>().unwrap();
    let (expected, _) =
        Pubkey::find_program_address(&[owner.as_ref(), token_program.as_ref(), mint.as_ref()], &program);
    assert_eq!(token_account([1u8; 32], [2u8; 32]), expected.to_bytes());
    assert_ne!(token_account([2u8; 32], [1u8; 32]), expected.to_bytes());
}

#[test]
fn transactions_are_signed() {
    let pair = Keypair::new();
    let raw = unsigned(&pair.pubkey());
    let signed = sign_transaction(&raw, &pair.to_bytes()).unwrap();
    let tx: VersionedTransaction = bincode::deserialize(&signed.bytes).unwrap();
    assert_eq!(tx.signatures.len(), 1);
    assert_eq!(signed.signature, Some(tx.signatures[0].to_string()));
    let before: VersionedTransaction = bincode::deserialize(&raw).unwrap();
    assert_eq!(tx.message, before.message);
    assert_eq!(tx.signatures[0], pair.sign_message(&tx.message.serialize()));
}

#[test]
fn only_the_signer_can_sign() {
    let pair = Keypair::new();
    let raw = unsigned(&Pubkey::from([9u8; 32]));
    assert!(sign_transaction(&raw, &pair.to_bytes()).is_err());
    assert!(sign_transaction(&[1, 2, 3], &pair.to_bytes()).is_err());
    assert!(sign_transaction(&unsigned(&pair.pubkey()), &[0u8; 3]).is_err());
}
