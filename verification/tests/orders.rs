use base64::Engine;
use pump_sniper::orders::{
    balance_request, execute_trade, fetch_sol_balance, jito_outcome, order, outgoing, pool, rpc_outcome,
    send_bundle_request, send_jito, send_rpc, send_transaction_request, OrderNumbers, Outgoing, Side,
};
use pump_sniper::wallet::Signed;
use solana_sdk::message::{Message, VersionedMessage};
use solana_sdk::signature::{Keypair, Signature, Signer};
use solana_sdk::transaction::VersionedTransaction;

fn numbers() -> OrderNumbers<'static> {
    OrderNumbers { amount: "0.03", slippage: "25.0", priority_fee: "0.0002" }
}

#[test]
fn pools() {
    assert_eq!(pool(Side::Sell, true), "pump-amm");
    assert_eq!(pool(Side::Sell, false), "pump");
    assert_eq!(pool(Side::Buy, true), "pump");
    assert_eq!(pool(Side::Buy, false), "pump");
}

#[test]
fn a_purchase_order() {
    let text = order("W", Side::Buy, "M", true, false, &numbers());
    assert_eq!(
        text,
        r#"{"action":"buy","amount":0.03,"denominatedInSol":"true","mint":"M","pool":"pump","priorityFee":0.0002,"publicKey":"W","slippage":25.0}"#
    );
    let v: serde_json::Value = serde_json::from_str(&text).unwrap();
    assert_eq!(v.to_string(), text);
    assert!(order("W", Side::Buy, "M", false, false, &numbers()).contains(r#""denominatedInSol":"false""#));
}

#[test]
fn a_sale_order_is_of_everything() {
    assert_eq!(
        order("W", Side::Sell, "M", true, true, &numbers()),
        r#"{"action":"sell","amount":"100%","denominatedInSol":"false","mint":"M","pool":"pump-amm","priorityFee":0.0002,"publicKey":"W","slippage":25.0}"#
    );
}

#[test]
fn requests() {
    assert_eq!(
        send_transaction_request("AA=="),
        r#"{"id":1,"jsonrpc":"2.0","method":"sendTransaction","params":["AA==",{"encoding":"base64","maxRetries":0,"preflightCommitment":"processed","skipPreflight":true}]}"#
    );
    assert_eq!(send_bundle_request("tx"), r#"{"id":1,"jsonrpc":"2.0","method":"sendBundle","params":[["tx"]]}"#);
    assert_eq!(balance_request("W"), r#"{"id":1,"jsonrpc":"2.0","method":"getBalance","params":["W"]}"#);
}

#[test]
fn signed_transactions_go_out_in_base64_or_base58() {
    for n in 0..10u8 {
        let bytes: Vec<u8> = (0..n).map(|i| 251u8.wrapping_mul(i).wrapping_add(n)).collect();
        let t = Signed { bytes: bytes.clone(), signature: Some("SIG".to_string()) };
        let Outgoing::Rpc { payload } = outgoing(&t, false) else { panic!() };
        let encoded = base64::engine::general_purpose::STANDARD.encode(&bytes);
        assert_eq!(payload, send_transaction_request(&encoded));
        let Outgoing::Jito { payload, signature } = outgoing(&t, true) else { panic!() };
        assert_eq!(payload, send_bundle_request(&bs58::encode(&bytes).into_string()));
        assert_eq!(signature.as_deref(), Some("SIG"));
    }
}

#[test]
fn a_bundle_needs_a_signature() {
    let t = Signed { bytes: vec![1], signature: None };
    let Outgoing::Jito { signature, .. } = outgoing(&t, true) else { panic!() };
    assert_eq!(signature, None);
    assert_eq!(send_jito(b"{}", signature).unwrap_err(), "Signed transaction has no signature");
}

#[test]
fn answers_to_an_order() {
    let key = Keypair::new();
    let k = key.to_bytes();
    assert_eq!(
        execute_trade(false, "400 Bad Request", b"no", "no", &k, false).unwrap_err(),
        "PumpPortal HTTP 400 Bad Request: no"
    );
    assert_eq!(
        execute_trade(true, "200 OK", b"", "", &k, false).unwrap_err(),
        "PumpPortal returned an empty transaction"
    );
    assert!(execute_trade(true, "200 OK", b"junk", "junk", &k, false).is_err());
}

#[test]
fn an_order_is_signed_and_sent() {
    let key = Keypair::new();
    let message = Message::new_with_blockhash(&[], Some(&key.pubkey()), &solana_sdk::hash::Hash::default());
    let raw = bincode::serialize(&VersionedTransaction {
        signatures: vec![Signature::default()],
        message: VersionedMessage::Legacy(message),
    })
    .unwrap();
    let Ok(Outgoing::Rpc { payload }) = execute_trade(true, "200 OK", &raw, "", &key.to_bytes(), false) else {
        panic!()
    };
    let v: serde_json::Value = serde_json::from_str(&payload).unwrap();
    let bytes = base64::engine::general_purpose::STANDARD.decode(v["params"][0].as_str().unwrap()).unwrap();
    let tx: VersionedTransaction = bincode::deserialize(&bytes).unwrap();
    assert_eq!(tx.signatures[0], key.sign_message(&tx.message.serialize()));
    let Ok(Outgoing::Jito { payload, signature }) = execute_trade(true, "200 OK", &raw, "", &key.to_bytes(), true)
    else {
        panic!()
    };
    assert_eq!(signature, Some(tx.signatures[0].to_string()));
    assert_eq!(payload, send_bundle_request(&bs58::encode(&bytes).into_string()));
}

#[test]
fn replies_to_a_transaction() {
    assert_eq!(send_rpc(br#"{"result":"SIG"}"#).unwrap(), "SIG");
    assert_eq!(
        send_rpc(br#"{"result":"SIG","error":{"code": -1}}"#).unwrap_err(),
        r#"RPC sendTransaction error: {"code":-1}"#
    );
    assert_eq!(send_rpc(br#"{"result":5, "id": 1}"#).unwrap_err(), r#"RPC returned no signature: {"id":1,"result":5}"#);
    assert_eq!(send_rpc(b"[]").unwrap_err(), "RPC returned no signature: []");
    assert_eq!(send_rpc(br#"{"error":null}"#).unwrap_err(), "RPC sendTransaction error: null");
    assert_eq!(send_rpc(b"<html>").unwrap_err(), "error decoding response body");
    assert_eq!(send_rpc(&[0xff]).unwrap_err(), "error decoding response body");
}

#[test]
fn replies_to_a_bundle() {
    assert_eq!(send_jito(br#"{"result":"bundle"}"#, Some("SIG".to_string())).unwrap(), "SIG");
    assert_eq!(send_jito(b"7", Some("SIG".to_string())).unwrap(), "SIG");
    assert_eq!(send_jito(br#"{"error":"full"}"#, Some("SIG".to_string())).unwrap_err(), r#"Jito error: "full""#);
    assert!(send_jito(b"", Some("SIG".to_string())).is_err());
}

#[test]
fn outcomes_from_plain_values() {
    let some = |s: &str| Some(s.to_string());
    assert_eq!(rpc_outcome(some("e"), some("r"), "w".to_string()).unwrap_err(), "RPC sendTransaction error: e");
    assert_eq!(rpc_outcome(None, some("r"), "w".to_string()).unwrap(), "r");
    assert_eq!(rpc_outcome(None, None, "w".to_string()).unwrap_err(), "RPC returned no signature: w");
    assert_eq!(jito_outcome(None, some("s")).unwrap(), "s");
    assert_eq!(jito_outcome(some("e"), some("s")).unwrap_err(), "Jito error: e");
}

#[test]
fn balances() {
    assert_eq!(fetch_sol_balance(br#"{"result":{"value":1500000000}}"#), Ok(1_500_000_000));
    assert_eq!(
        fetch_sol_balance(br#"{"result":{"value":-1}}"#).unwrap_err(),
        r#"getBalance returned no value: {"result":{"value":-1}}"#
    );
    assert_eq!(fetch_sol_balance(b"{}").unwrap_err(), "getBalance returned no value: {}");
    assert_eq!(fetch_sol_balance(b"{").unwrap_err(), "error decoding response body");
}
