//! Keys, addresses and signatures.

use crate::state::optional_text;
use crate::text::{decimal, decimal_text, is_space, trim, trimmed, white_space_around_does_not_count};
use base64::Engine;
use solana_sdk::signature::SeedDerivable;
use vstd::prelude::*;
use vstd::string::*;

verus! {

/// Bytes of an ed25519 seed.
pub const SEED_BYTES: usize = 32;

/// Bytes of an ed25519 key pair: the seed, then the public key.
pub const KEYPAIR_BYTES: usize = 64;

/// Why a private key was refused.
#[derive(Debug)]
pub enum KeyError {
    /// The text is not base58.
    InvalidBase58(String),
    /// The bytes are no seed.
    InvalidSeed(String),
    /// The bytes are no key pair.
    InvalidKeypair(String),
    /// The text decodes to this many bytes.
    WrongLength(usize),
}

/// What a key error holds.
pub enum KeyErrorView {
    InvalidBase58(Seq<char>),
    InvalidSeed(Seq<char>),
    InvalidKeypair(Seq<char>),
    WrongLength(nat),
}

impl View for KeyError {
    type V = KeyErrorView;

    open spec fn view(&self) -> KeyErrorView {
        match *self {
            KeyError::InvalidBase58(e) => KeyErrorView::InvalidBase58(e@),
            KeyError::InvalidSeed(e) => KeyErrorView::InvalidSeed(e@),
            KeyError::InvalidKeypair(e) => KeyErrorView::InvalidKeypair(e@),
            KeyError::WrongLength(n) => KeyErrorView::WrongLength(n as nat),
        }
    }
}

impl KeyErrorView {
    /// The error in words.
    pub open spec fn text(self) -> Seq<char> {
        match self {
            KeyErrorView::InvalidBase58(e) => "Invalid base58 PRIVATE_KEY: "@ + e,
            KeyErrorView::InvalidSeed(e) => "Invalid 32-byte private key seed: "@ + e,
            KeyErrorView::InvalidKeypair(e) => "Invalid 64-byte private key: "@ + e,
            KeyErrorView::WrongLength(n) => "PRIVATE_KEY decoded to "@ + decimal_text(n)
                + " bytes, expected 32 or 64"@,
        }
    }
}

impl KeyError {
    /// The error in words.
    pub fn message(&self) -> (r: String)
        ensures
            r@ == self@.text(),
    {
        match self {
            KeyError::InvalidBase58(e) => {
                let mut s = "Invalid base58 PRIVATE_KEY: ".to_owned();
                s.append(e.as_str());
                s
            },
            KeyError::InvalidSeed(e) => {
                let mut s = "Invalid 32-byte private key seed: ".to_owned();
                s.append(e.as_str());
                s
            },
            KeyError::InvalidKeypair(e) => {
                let mut s = "Invalid 64-byte private key: ".to_owned();
                s.append(e.as_str());
                s
            },
            KeyError::WrongLength(n) => {
                let mut s = "PRIVATE_KEY decoded to ".to_owned();
                let d = decimal(*n as u128);
                s.append(d.as_str());
                s.append(" bytes, expected 32 or 64");
                s
            },
        }
    }
}

/// What `bs58::decode` makes of a text: the bytes, or the message of its error.
pub uninterp spec fn base58_decoded(text: Seq<char>) -> Result<Seq<u8>, Seq<char>>;

/// `bs58::decode(..).into_vec()`, which depends on the text alone.
#[verifier::external_body]
fn base58_decode(text: &str) -> (r: Result<Vec<u8>, String>)
    ensures
        match r {
            Ok(b) => base58_decoded(text@) == Ok::<Seq<u8>, Seq<char>>(b@),
            Err(e) => base58_decoded(text@) == Err::<Seq<u8>, Seq<char>>(e@),
        },
{
    bs58::decode(text).into_vec().map_err(|e| e.to_string())
}

/// Whether a text is read as the given bytes.
pub open spec fn decodes_to(text: Seq<char>, bytes: Seq<u8>) -> bool {
    base58_decoded(text) == Ok::<Seq<u8>, Seq<char>>(bytes)
}

/// What `bs58::encode` makes of bytes.
pub uninterp spec fn base58_encoded(bytes: Seq<u8>) -> Seq<char>;

/// `bs58::encode(..).into_string()`, which depends on the bytes alone; decoding
/// the text gives the bytes back.
#[verifier::external_body]
pub(crate) fn base58_encode(bytes: &[u8]) -> (r: String)
    ensures
        r@ == base58_encoded(bytes@),
        decodes_to(r@, bytes@),
{
    bs58::encode(bytes).into_string()
}

/// `solana_sdk`'s `Keypair`, carried without being looked into.
#[verifier::external_type_specification]
#[verifier::external_body]
pub struct ExKeypair(solana_sdk::signature::Keypair);

/// The bytes of a key pair: the seed, then the public key.
pub uninterp spec fn key_bytes(key: solana_sdk::signature::Keypair) -> Seq<u8>;

/// `Keypair::to_bytes`.
#[verifier::external_body]
fn bytes_of_key(key: &solana_sdk::signature::Keypair) -> (r: Vec<u8>)
    ensures
        r@ == key_bytes(*key),
        r@.len() == KEYPAIR_BYTES,
{
    key.to_bytes().to_vec()
}

/// What `Keypair::from_seed` makes of a seed: the bytes of the key pair, or the
/// message of its error.
pub uninterp spec fn keypair_of_seed(seed: Seq<u8>) -> Result<Seq<u8>, Seq<char>>;

/// `Keypair::from_seed`, which depends on the seed alone. A seed of the right
/// length is accepted, and the key pair starts with it.
#[verifier::external_body]
fn keypair_from_seed(seed: &[u8]) -> (r: Result<solana_sdk::signature::Keypair, String>)
    requires
        seed@.len() == SEED_BYTES,
    ensures
        match r {
            Ok(k) => keypair_of_seed(seed@) == Ok::<Seq<u8>, Seq<char>>(key_bytes(k)),
            Err(e) => keypair_of_seed(seed@) == Err::<Seq<u8>, Seq<char>>(e@),
        },
        r is Ok,
        key_bytes(r->Ok_0).take(SEED_BYTES as int) == seed@,
{
    solana_sdk::signature::Keypair::from_seed(seed).map_err(|e| e.to_string())
}

/// What `Keypair::from_bytes` makes of bytes: the bytes of the key pair, or the
/// message of its error.
pub uninterp spec fn keypair_of_bytes(bytes: Seq<u8>) -> Result<Seq<u8>, Seq<char>>;

/// `Keypair::from_bytes`, which depends on the bytes alone. A key pair that is
/// accepted consists of the bytes that it was read from.
#[verifier::external_body]
fn keypair_from_bytes(bytes: &[u8]) -> (r: Result<solana_sdk::signature::Keypair, String>)
    ensures
        match r {
            Ok(k) => keypair_of_bytes(bytes@) == Ok::<Seq<u8>, Seq<char>>(key_bytes(k)) && key_bytes(k) == bytes@,
            Err(e) => keypair_of_bytes(bytes@) == Err::<Seq<u8>, Seq<char>>(e@),
        },
{
    solana_sdk::signature::Keypair::from_bytes(bytes).map_err(|e| e.to_string())
}

/// The bytes and errors of a result, by what they hold.
pub open spec fn key_result(r: Result<Vec<u8>, KeyError>) -> Result<Seq<u8>, KeyErrorView> {
    match r {
        Ok(k) => Ok(k@),
        Err(e) => Err(e@),
    }
}

/// The key pair that decoded bytes stand for: 32 bytes are a seed, 64 bytes a
/// whole key pair.
pub open spec fn keypair_from_decoded(bytes: Seq<u8>) -> Result<Seq<u8>, KeyErrorView> {
    if bytes.len() == SEED_BYTES {
        match keypair_of_seed(bytes) {
            Ok(k) => Ok(k),
            Err(e) => Err(KeyErrorView::InvalidSeed(e)),
        }
    } else if bytes.len() == KEYPAIR_BYTES {
        match keypair_of_bytes(bytes) {
            Ok(k) => Ok(k),
            Err(e) => Err(KeyErrorView::InvalidKeypair(e)),
        }
    } else {
        Err(KeyErrorView::WrongLength(bytes.len()))
    }
}

/// The key pair that a private key in base58 stands for.
pub open spec fn keypair_from_text(private_key: Seq<char>) -> Result<Seq<u8>, KeyErrorView> {
    match base58_decoded(trim(private_key)) {
        Ok(b) => keypair_from_decoded(b),
        Err(e) => Err(KeyErrorView::InvalidBase58(e)),
    }
}

/// The key pair that decoded bytes stand for.
pub fn keypair_from_decoded_bytes(bytes: &[u8]) -> (r: Result<Vec<u8>, KeyError>)
    ensures
        key_result(r) == keypair_from_decoded(bytes@),
        bytes@.len() == SEED_BYTES ==> r is Ok,
        r matches Ok(k) ==> k@.len() == KEYPAIR_BYTES && k@.take(SEED_BYTES as int) == bytes@.take(SEED_BYTES as int),
{
    let n: usize = bytes.len();
    if n == SEED_BYTES {
        proof {
            assert(bytes@.take(SEED_BYTES as int) =~= bytes@);
        }
        match keypair_from_seed(bytes) {
            Ok(k) => Ok(bytes_of_key(&k)),
            Err(e) => Err(KeyError::InvalidSeed(e)),
        }
    } else if n == KEYPAIR_BYTES {
        match keypair_from_bytes(bytes) {
            Ok(k) => Ok(bytes_of_key(&k)),
            Err(e) => Err(KeyError::InvalidKeypair(e)),
        }
    } else {
        Err(KeyError::WrongLength(n))
    }
}

/// Reads a private key: base58, white space around it ignored, of a seed or of
/// a whole key pair. Gives the 64 bytes of the key pair.
pub fn load_keypair(private_key: &str) -> (r: Result<Vec<u8>, KeyError>)
    ensures
        key_result(r) == keypair_from_text(private_key@),
        r matches Ok(k) ==> k@.len() == KEYPAIR_BYTES,
{
    match base58_decode(trimmed(private_key)) {
        Ok(bytes) => keypair_from_decoded_bytes(bytes.as_slice()),
        Err(e) => Err(KeyError::InvalidBase58(e)),
    }
}

/// The text form of a public key.
pub uninterp spec fn address_text(key: Seq<u8>) -> Seq<char>;

/// The public key that a text stands for.
pub uninterp spec fn address_of(text: Seq<char>) -> Option<Seq<u8>>;

/// `Pubkey` printed, which depends on the key alone; reading the text gives the
/// key back.
#[verifier::external_body]
fn print_pubkey(key: [u8; 32]) -> (r: String)
    ensures
        r@ == address_text(key@),
        address_of(r@) == Some(key@),
{
    solana_sdk::pubkey::Pubkey::from(key).to_string()
}

/// `Pubkey` read from a text, which depends on the text alone.
#[verifier::external_body]
fn read_pubkey(text: &str) -> (r: Option<[u8; 32]>)
    ensures
        match r {
            Some(k) => address_of(text@) == Some(k@),
            None => address_of(text@) == None::<Seq<u8>>,
        },
{
    text.parse::<solana_sdk::pubkey::Pubkey>().ok().map(|k| k.to_bytes())
}

/// The text form of a public key.
pub fn address(key: [u8; 32]) -> (r: String)
    ensures
        r@ == address_text(key@),
        address_of(r@) == Some(key@),
{
    print_pubkey(key)
}

/// The public key that a text stands for.
pub fn parse_address(text: &str) -> (r: Option<[u8; 32]>)
    ensures
        match r {
            Some(k) => address_of(text@) == Some(k@),
            None => address_of(text@) == None::<Seq<u8>>,
        },
{
    read_pubkey(text)
}

/// The public key of a key pair: its second half.
pub open spec fn public_half(keypair: Seq<u8>) -> Seq<u8> {
    keypair.skip(SEED_BYTES as int)
}

/// The address of a key pair's public key.
pub fn wallet_address(keypair: &[u8]) -> (r: String)
    requires
        keypair@.len() == KEYPAIR_BYTES,
    ensures
        r@ == address_text(public_half(keypair@)),
{
    let mut key: [u8; 32] = [0u8; 32];
    let mut i: usize = 0;
    while i < 32
        invariant
            i <= 32,
            keypair@.len() == KEYPAIR_BYTES,
            forall|j: int| 0 <= j < i ==> key@[j] == keypair@[SEED_BYTES + j],
        decreases 32 - i,
    {
        key[i] = keypair[SEED_BYTES + i];
        i += 1;
    }
    proof {
        assert(key@ =~= public_half(keypair@));
    }
    print_pubkey(key)
}

/// The token account that `get_associated_token_address` gives an owner for a
/// mint.
pub uninterp spec fn associated_account(owner: Seq<u8>, mint: Seq<u8>) -> Seq<u8>;

/// `get_associated_token_address`, which depends on the owner and the mint
/// alone. It panics if none of 255 bump seeds leads off the curve, of which no
/// instance is known.
#[verifier::external_body]
fn associated_token_address(owner: [u8; 32], mint: [u8; 32]) -> (r: [u8; 32])
    ensures
        r@ == associated_account(owner@, mint@),
{
    spl_associated_token_account::get_associated_token_address(&owner.into(), &mint.into()).to_bytes()
}

/// The token account of an owner for a mint.
pub fn token_account(owner: [u8; 32], mint: [u8; 32]) -> (r: [u8; 32])
    ensures
        r@ == associated_account(owner@, mint@),
{
    associated_token_address(owner, mint)
}

/// A signed transaction.
#[derive(Debug)]
pub struct Signed {
    /// The transaction as it goes over the wire.
    pub bytes: Vec<u8>,
    /// Its first signature in base58, where it has one.
    pub signature: Option<String>,
}

/// What a signed transaction holds.
pub struct SignedView {
    pub bytes: Seq<u8>,
    pub signature: Option<Seq<char>>,
}

impl View for Signed {
    type V = SignedView;

    open spec fn view(&self) -> SignedView {
        SignedView { bytes: self.bytes@, signature: optional_text(self.signature) }
    }
}

/// `solana_sdk`'s `VersionedTransaction`, carried without being looked into.
#[verifier::external_type_specification]
#[verifier::external_body]
pub struct ExTransaction(solana_sdk::transaction::VersionedTransaction);

/// What a transaction holds: the version of its message, none for a legacy one,
/// the bytes of the message, and its signatures in base58.
pub struct TransactionView {
    pub version: Option<u8>,
    pub message: Seq<u8>,
    pub signatures: Seq<Seq<char>>,
}

/// What a `VersionedTransaction` holds.
pub uninterp spec fn transaction_of(t: solana_sdk::transaction::VersionedTransaction) -> TransactionView;

/// What `bincode::deserialize` makes of bytes: the transaction that they encode,
/// or the message of its error.
pub uninterp spec fn transaction_decoded(bytes: Seq<u8>) -> Result<TransactionView, Seq<char>>;

/// `bincode::deserialize` into a `VersionedTransaction`, which depends on the
/// bytes alone. What was decoded can be encoded.
#[verifier::external_body]
fn decode_transaction(bytes: &[u8]) -> (r: Result<solana_sdk::transaction::VersionedTransaction, String>)
    ensures
        match r {
            Ok(t) => {
                &&& transaction_decoded(bytes@) == Ok::<TransactionView, Seq<char>>(transaction_of(t))
                &&& transaction_encoded(transaction_of(t)) is Ok
            },
            Err(e) => transaction_decoded(bytes@) == Err::<TransactionView, Seq<char>>(e@),
        },
{
    bincode::deserialize(bytes).map_err(|e| e.to_string())
}

/// The signatures that `VersionedTransaction::try_new` puts on a message with
/// one key pair, or the message of its error.
pub uninterp spec fn message_signed(
    version: Option<u8>,
    message: Seq<u8>,
    keypair: Seq<u8>,
) -> Result<Seq<Seq<char>>, Seq<char>>;

/// `VersionedTransaction::try_new` on the message of a transaction, with one key
/// pair. The signatures depend on the message and the key pair alone, and the
/// message stays as it is. One signer makes one signature. A message that cannot
/// be encoded makes it panic.
#[verifier::external_body]
fn sign_message(
    unsigned: solana_sdk::transaction::VersionedTransaction,
    key: &solana_sdk::signature::Keypair,
) -> (r: Result<solana_sdk::transaction::VersionedTransaction, String>)
    requires
        transaction_encoded(transaction_of(unsigned)) is Ok,
    ensures
        match r {
            Ok(t) => {
                &&& message_signed(
                    transaction_of(unsigned).version,
                    transaction_of(unsigned).message,
                    key_bytes(*key),
                ) == Ok::<Seq<Seq<char>>, Seq<char>>(transaction_of(t).signatures)
                &&& transaction_of(t).version == transaction_of(unsigned).version
                &&& transaction_of(t).message == transaction_of(unsigned).message
                &&& transaction_of(t).signatures.len() == 1
            },
            Err(e) => message_signed(
                transaction_of(unsigned).version,
                transaction_of(unsigned).message,
                key_bytes(*key),
            ) == Err::<Seq<Seq<char>>, Seq<char>>(e@),
        },
{
    solana_sdk::transaction::VersionedTransaction::try_new(unsigned.message, &[key]).map_err(|e| e.to_string())
}

/// What `bincode::serialize` makes of a transaction: its bytes, or the message of
/// the error.
pub uninterp spec fn transaction_encoded(t: TransactionView) -> Result<Seq<u8>, Seq<char>>;

/// `bincode::serialize` of a `VersionedTransaction`, which depends on what the
/// transaction holds alone.
#[verifier::external_body]
fn encode_transaction(t: &solana_sdk::transaction::VersionedTransaction) -> (r: Result<Vec<u8>, String>)
    ensures
        match r {
            Ok(b) => transaction_encoded(transaction_of(*t)) == Ok::<Seq<u8>, Seq<char>>(b@),
            Err(e) => transaction_encoded(transaction_of(*t)) == Err::<Seq<u8>, Seq<char>>(e@),
        },
{
    bincode::serialize(t).map_err(|e| e.to_string())
}

/// The first of some signatures.
pub open spec fn first_of(signatures: Seq<Seq<char>>) -> Option<Seq<char>> {
    if signatures.len() > 0 {
        Some(signatures[0])
    } else {
        None
    }
}

/// The first of a transaction's signatures, as `Signature` prints itself.
#[verifier::external_body]
fn first_signature(t: &solana_sdk::transaction::VersionedTransaction) -> (r: Option<String>)
    ensures
        optional_text(r) == first_of(transaction_of(*t).signatures),
{
    t.signatures.first().map(|s| s.to_string())
}

/// The transaction that bytes encode, signed with a key pair: its message as it
/// was decoded, under the signatures that the key pair puts on it.
pub open spec fn transaction_signed(unsigned: Seq<u8>, keypair: Seq<u8>) -> Result<SignedView, Seq<char>> {
    match (transaction_decoded(unsigned), keypair_of_bytes(keypair)) {
        (Err(e), _) => Err(e),
        (Ok(_), Err(e)) => Err(e),
        (Ok(t), Ok(key)) => match message_signed(t.version, t.message, key) {
            Err(e) => Err(e),
            Ok(signatures) => match transaction_encoded(TransactionView { signatures, ..t }) {
                Err(e) => Err(e),
                Ok(bytes) => Ok(SignedView { bytes, signature: first_of(signatures) }),
            },
        },
    }
}

/// Signs an encoded transaction.
pub fn sign_transaction(unsigned: &[u8], keypair: &[u8]) -> (r: Result<Signed, String>)
    ensures
        match r {
            Ok(t) => transaction_signed(unsigned@, keypair@) == Ok::<SignedView, Seq<char>>(t@) && t.signature is Some,
            Err(e) => transaction_signed(unsigned@, keypair@) == Err::<SignedView, Seq<char>>(e@),
        },
{
    let tx = match decode_transaction(unsigned) {
        Ok(t) => t,
        Err(e) => return Err(e),
    };
    let key = match keypair_from_bytes(keypair) {
        Ok(k) => k,
        Err(e) => return Err(e),
    };
    let signed = match sign_message(tx, &key) {
        Ok(t) => t,
        Err(e) => return Err(e),
    };
    match encode_transaction(&signed) {
        Ok(bytes) => Ok(Signed { bytes, signature: first_signature(&signed) }),
        Err(e) => Err(e),
    }
}

/// The base64 digit for six bits.
pub open spec fn base64_digit(n: int) -> char {
    if n < 26 {
        ('A' as int + n) as char
    } else if n < 52 {
        ('a' as int + (n - 26)) as char
    } else if n < 62 {
        ('0' as int + (n - 52)) as char
    } else if n == 62 {
        '+'
    } else {
        '/'
    }
}

/// Bytes in base64: four digits for three bytes, padded with `=`.
pub open spec fn base64_text(b: Seq<u8>) -> Seq<char>
    decreases b.len(),
{
    if b.len() == 0 {
        seq![]
    } else if b.len() == 1 {
        seq![base64_digit(b[0] as int / 4), base64_digit(b[0] as int % 4 * 16), '=', '=']
    } else if b.len() == 2 {
        seq![
            base64_digit(b[0] as int / 4),
            base64_digit(b[0] as int % 4 * 16 + b[1] as int / 16),
            base64_digit(b[1] as int % 16 * 4),
            '=',
        ]
    } else {
        seq![
            base64_digit(b[0] as int / 4),
            base64_digit(b[0] as int % 4 * 16 + b[1] as int / 16),
            base64_digit(b[1] as int % 16 * 4 + b[2] as int / 64),
            base64_digit(b[2] as int % 64),
        ] + base64_text(b.skip(3))
    }
}

/// `base64`'s `STANDARD` engine: the standard alphabet, padded.
#[verifier::external_body]
pub(crate) fn base64_encode(bytes: &[u8]) -> (r: String)
    ensures
        r@ == base64_text(bytes@),
{
    base64::engine::general_purpose::STANDARD.encode(bytes)
}

/// Encoding in base64 takes four characters for every three bytes begun.
pub proof fn base64_length(b: Seq<u8>)
    ensures
        base64_text(b).len() == (b.len() + 2) / 3 * 4,
    decreases b.len(),
{
    if b.len() > 2 {
        base64_length(b.skip(3));
    }
}

/// The length of a private key decides what it is: 32 bytes are a seed, 64 a key pair,
/// and any other number is an error that says how many there were. A seed or key pair
/// that is refused is an error of its own kind.
pub proof fn the_length_of_a_key_decides(bytes: Seq<u8>)
    ensures
        ({
            let r = keypair_from_decoded(bytes);
            &&& r is Ok <==> (bytes.len() == 32 && keypair_of_seed(bytes) is Ok) || (bytes.len() == 64
                && keypair_of_bytes(bytes) is Ok)
            &&& bytes.len() == 32 && r is Ok ==> r->Ok_0 == keypair_of_seed(bytes)->Ok_0
            &&& bytes.len() == 64 && r is Ok ==> r->Ok_0 == keypair_of_bytes(bytes)->Ok_0
            &&& bytes.len() == 32 && r is Err ==> r->Err_0 == KeyErrorView::InvalidSeed(keypair_of_seed(bytes)->Err_0)
            &&& bytes.len() == 64 && r is Err ==> r->Err_0 == KeyErrorView::InvalidKeypair(
                keypair_of_bytes(bytes)->Err_0,
            )
            &&& bytes.len() != 32 && bytes.len() != 64 ==> r == Err::<Seq<u8>, KeyErrorView>(
                KeyErrorView::WrongLength(bytes.len()),
            )
        }),
{
}

/// A private key is what its text decodes to, white space around it ignored; a text that
/// does not decode is an error with what the decoder said.
pub proof fn a_key_is_what_its_text_decodes_to(before: Seq<char>, text: Seq<char>, behind: Seq<char>)
    requires
        forall|k: int| 0 <= k < before.len() ==> is_space(#[trigger] before[k]),
        forall|k: int| 0 <= k < behind.len() ==> is_space(#[trigger] behind[k]),
    ensures
        keypair_from_text(before + text + behind) == keypair_from_text(text),
        match base58_decoded(trim(text)) {
            Ok(bytes) => keypair_from_text(text) == keypair_from_decoded(bytes),
            Err(e) => keypair_from_text(text) == Err::<Seq<u8>, KeyErrorView>(KeyErrorView::InvalidBase58(e)),
        },
{
    white_space_around_does_not_count(before, text, behind);
}

/// Each error names what is wrong with the key.
pub proof fn key_errors_name_what_is_wrong(e: Seq<char>, n: nat)
    ensures
        KeyErrorView::InvalidBase58(e).text() == "Invalid base58 PRIVATE_KEY: "@ + e,
        KeyErrorView::InvalidSeed(e).text() == "Invalid 32-byte private key seed: "@ + e,
        KeyErrorView::InvalidKeypair(e).text() == "Invalid 64-byte private key: "@ + e,
        KeyErrorView::WrongLength(n).text() == "PRIVATE_KEY decoded to "@ + decimal_text(n)
            + " bytes, expected 32 or 64"@,
{
}

/// The public key is the second half of a key pair, byte by byte.
pub proof fn the_second_half_is_public(keypair: Seq<u8>)
    requires
        keypair.len() == 64,
    ensures
        public_half(keypair).len() == 32,
        forall|i: int| 0 <= i < 32 ==> #[trigger] public_half(keypair)[i] == keypair[32 + i],
{
}

/// A transaction is signed exactly where it can be decoded, the key pair can be read, it
/// signs the message, and the outcome can be encoded; what fails first is the error. What
/// was signed is the message that was decoded, in its version, and what goes out is that
/// message with the new signatures.
pub proof fn what_is_signed_is_what_was_decoded(unsigned: Seq<u8>, keypair: Seq<u8>)
    ensures
        match transaction_decoded(unsigned) {
            Err(e) => transaction_signed(unsigned, keypair) == Err::<SignedView, Seq<char>>(e),
            Ok(t) => match keypair_of_bytes(keypair) {
                Err(e) => transaction_signed(unsigned, keypair) == Err::<SignedView, Seq<char>>(e),
                Ok(key) => match message_signed(t.version, t.message, key) {
                    Err(e) => transaction_signed(unsigned, keypair) == Err::<SignedView, Seq<char>>(e),
                    Ok(signatures) => {
                        let out = transaction_encoded(
                            TransactionView { version: t.version, message: t.message, signatures },
                        );
                        &&& out is Err ==> transaction_signed(unsigned, keypair) == Err::<SignedView, Seq<char>>(
                            out->Err_0,
                        )
                        &&& out is Ok ==> transaction_signed(unsigned, keypair) is Ok && transaction_signed(
                            unsigned,
                            keypair,
                        )->Ok_0.bytes == out->Ok_0
                        &&& out is Ok && signatures.len() > 0 ==> transaction_signed(
                            unsigned,
                            keypair,
                        )->Ok_0.signature == Some(signatures[0])
                        &&& out is Ok && signatures.len() == 0 ==> transaction_signed(
                            unsigned,
                            keypair,
                        )->Ok_0.signature is None
                    },
                },
            },
        },
{
}

/// A key and an error are handed on as they are.
pub proof fn keys_are_handed_on(k: Vec<u8>, e: KeyError)
    ensures
        key_result(Ok(k)) == Ok::<Seq<u8>, KeyErrorView>(k@),
        key_result(Err(e)) == Err::<Seq<u8>, KeyErrorView>(e@),
{
}

} // verus!
