use marketplace_v2::abi::{decode_token_id, ArgsError};
use marketplace_v2::handlers::{
    handle_advance, handle_application_defined_methods, handle_decoded_advance, handle_erc20_deposit,
    handle_erc721_deposit, handle_inspect, handle_purchase_token, AdvanceError, AdvanceInput,
    route_request, BalanceReport, DecodedKind, InputKind, InspectAnswer, InspectCall, InspectRequest, RequestError,
    RequestKind,
};
use marketplace_v2::hexcodec::{hex_payload, hex_to_string, HexError, HexStringError};
use marketplace_v2::ledger::{Action, Emission, LedgerCall, Outcome, Reply, Report, Run, TokenAmount, TokenId};
use marketplace_v2::storage::{zero_address_string, Storage};

const ERC721_PORTAL: &str = "0xc700d52F5290e978e9CAe7D1E092935263b60051";
const ERC20_PORTAL: &str = "0xc700D6aDd016eECd59d989C028214Eaa0fCC0051";
const ERC20_TOKEN: &str = "0xFBdB734EF6a23aD76863CbA6f10d0C5CBBD8342C";
const ERC721_TOKEN: &str = "0xBa46623aD94AB45850c4ecbA9555D26328917c3B";
const SELLER: &str = "0xAbCd000000000000000000000000000000000001";
const BUYER: &str = "0x0000000000000000000000000000000000000002";
const APP: &str = "0x1111111111111111111111111111111111111111";

fn storage() -> Storage {
    Storage::new(
        ERC721_PORTAL.to_string(),
        ERC20_PORTAL.to_string(),
        ERC721_TOKEN.to_string(),
        ERC20_TOKEN.to_string(),
        100,
    )
}

fn word(value: u128) -> Vec<u8> {
    let mut w = vec![0u8; 16];
    w.extend_from_slice(&value.to_be_bytes());
    w
}

fn purchase_payload(token_id: u128) -> Vec<u8> {
    let mut p = vec![0x30, 0x48, 0xf5, 0x12];
    p.extend(word(token_id));
    p
}

/// Walks a run, answering each ledger call with the next reply.
fn drive(storage: &mut Storage, start: (Run, Action), replies: &[Reply]) -> (Vec<LedgerCall>, Action) {
    let (mut run, mut action) = start;
    let mut calls = Vec::new();
    let mut i = 0;
    loop {
        match action {
            Action::Call(call) => {
                calls.push(call);
                action = run.step(storage, replies[i]);
                i += 1;
            }
            finish => return (calls, finish),
        }
    }
}

fn deposit(storage: &mut Storage, token_id: u128, sender: &str) {
    let start = handle_erc721_deposit(AdvanceInput::Erc721Deposit {
        token: ERC721_TOKEN.to_lowercase(),
        sender: sender.to_string(),
        token_id: TokenId { high: 0, low: token_id },
    });
    let (_, action) = drive(storage, start, &[Reply::Accepted; 3]);
    assert!(matches!(action, Action::Finish { outcome: Outcome::Completed, emission: None }));
}

#[test]
fn hex_to_string_reads_text_with_and_without_prefix() {
    assert_eq!(hex_to_string("0x48656c6c6f").unwrap(), "Hello");
    assert_eq!(hex_to_string("48656C6c6F").unwrap(), "Hello");
    assert_eq!(hex_to_string("").unwrap(), "");
}

#[test]
fn hex_to_string_errors() {
    assert_eq!(hex_to_string("0x123"), Err(HexStringError::Hex(HexError::OddLength)));
    assert_eq!(
        hex_to_string("0x4g"),
        Err(HexStringError::Hex(HexError::InvalidHexCharacter { c: 'g', index: 1 }))
    );
    assert_eq!(
        hex_to_string("zz11"),
        Err(HexStringError::Hex(HexError::InvalidHexCharacter { c: 'z', index: 0 }))
    );
    assert_eq!(hex_to_string("0xff"), Err(HexStringError::Utf8));
}

#[test]
fn hex_payload_encodes_message_bytes() {
    assert_eq!(hex_payload("hello"), "0x68656c6c6f");
    assert_eq!(hex_payload("0xab"), "0x6162");
    assert_eq!(hex_payload(""), "0x");
    assert_eq!(hex_payload("é"), "0xc3a9");
}

#[test]
fn payload_round_trip() {
    for m in ["Token purchased", "0x0xab", "AssetId Id: 3, Deposited by User: 0xab", "ünïcödé"] {
        let expected = m.strip_prefix("0x").unwrap_or(m);
        assert_eq!(hex_to_string(&hex_payload(m)).unwrap(), expected);
    }
}

#[test]
fn token_id_decoding() {
    assert_eq!(decode_token_id(&word(7)), Ok(7));
    assert_eq!(decode_token_id(&word(u128::MAX)), Ok(u128::MAX));
    let mut long = word(0x0102);
    long.extend(word(9));
    assert_eq!(decode_token_id(&long), Ok(0x0102));
    assert_eq!(decode_token_id(&word(7)[..31]), Err(ArgsError::AbiDecode));
    assert_eq!(decode_token_id(&[]), Err(ArgsError::AbiDecode));
}

#[test]
fn new_storage_is_empty() {
    let s = storage();
    assert!(s.get_listed_tokens().is_empty());
    assert_eq!(s.get_erc721_token_owner(1), None);
    assert_eq!(*s.app_address(), zero_address_string());
    assert_eq!(s.list_price(), 100);
    assert_eq!(s.erc20_token(), ERC20_TOKEN);
}

#[test]
fn deposit_lists_once_and_records_lowercase_owner() {
    let mut s = storage();
    s.record_erc721_deposit(5, SELLER);
    s.record_erc721_deposit(5, BUYER);
    s.record_erc721_deposit(3, SELLER);
    assert_eq!(s.get_listed_tokens(), vec![5, 3]);
    assert_eq!(s.get_erc721_token_owner(5).unwrap(), BUYER);
    assert_eq!(s.get_erc721_token_owner(3).unwrap(), &SELLER.to_lowercase());
    assert!(s.is_listed(3));
}

#[test]
fn deposit_then_sale() {
    let mut s = storage();
    s.record_erc721_deposit(1, SELLER);
    s.record_erc721_deposit(2, SELLER);
    s.record_erc721_deposit(3, SELLER);
    s.complete_sale(2);
    assert_eq!(s.get_listed_tokens(), vec![1, 3]);
    assert_eq!(*s.get_erc721_token_owner(2).unwrap(), zero_address_string());
    assert_eq!(s.get_erc721_token_owner(1).unwrap(), &SELLER.to_lowercase());
    // a sold token deposited again is listed and owned anew
    s.record_erc721_deposit(2, BUYER);
    assert_eq!(s.get_listed_tokens(), vec![1, 3, 2]);
    assert_eq!(s.get_erc721_token_owner(2).unwrap(), BUYER);
    // selling an unknown token changes nothing
    s.complete_sale(42);
    assert_eq!(s.get_listed_tokens(), vec![1, 3, 2]);
    assert_eq!(s.get_erc721_token_owner(42), None);
}

#[test]
fn advance_routing() {
    let mut s = storage();
    assert_eq!(handle_advance(&mut s, None, Some(APP)), Err(AdvanceError::MissingSender));
    assert_eq!(handle_advance(&mut s, Some(BUYER), None), Err(AdvanceError::MissingAppContract));
    assert_eq!(*s.app_address(), zero_address_string());
    assert_eq!(
        handle_advance(&mut s, Some(&ERC721_PORTAL.to_uppercase().replace("0X", "0x")), Some(APP)),
        Ok(InputKind::Erc721Deposit)
    );
    assert_eq!(s.app_address(), APP);
    assert_eq!(
        handle_advance(&mut s, Some(&ERC20_PORTAL.to_lowercase()), Some(BUYER)),
        Ok(InputKind::Erc20Deposit)
    );
    assert_eq!(handle_advance(&mut s, Some(BUYER), Some(BUYER)), Ok(InputKind::Auto));
    // the application address is adopted once
    assert_eq!(s.app_address(), APP);
}

#[test]
fn erc20_deposit_script() {
    let mut s = storage();
    let start = handle_erc20_deposit(AdvanceInput::Erc20Deposit {
        token: ERC20_TOKEN.to_string(),
        sender: SELLER.to_string(),
    });
    let (calls, action) = drive(&mut s, start, &[Reply::Accepted; 3]);
    assert_eq!(calls.len(), 3);
    assert!(matches!(&calls[0], LedgerCall::RetrieveAccount { address } if address == SELLER));
    assert!(matches!(&calls[1], LedgerCall::RetrieveErc20Asset { token } if *token == ERC20_TOKEN.to_lowercase()));
    assert!(matches!(
        &calls[2],
        LedgerCall::Deposit { asset: 1, account: 0, amount: TokenAmount::Deposited }
    ));
    match action {
        Action::Finish { outcome: Outcome::Completed, emission: Some(Emission::Erc20Deposited { asset: 1, depositor }) } => {
            assert_eq!(depositor, SELLER)
        }
        other => panic!("unexpected {:?}", other),
    }
    assert!(s.get_listed_tokens().is_empty());
}

#[test]
fn erc20_deposit_refusals() {
    let mut s = storage();
    let start = handle_erc20_deposit(AdvanceInput::Erc20Deposit {
        token: ERC20_TOKEN.to_string(),
        sender: SELLER.to_string(),
    });
    let (_, action) = drive(&mut s, start, &[Reply::Accepted, Reply::Accepted, Reply::Refused]);
    assert!(matches!(
        action,
        Action::Finish { outcome: Outcome::LedgerRefused, emission: Some(Emission::Report(Report::DepositFailed)) }
    ));
    let start = handle_erc20_deposit(AdvanceInput::Erc20Deposit {
        token: ERC20_TOKEN.to_string(),
        sender: SELLER.to_string(),
    });
    let (_, action) = drive(&mut s, start, &[Reply::Refused]);
    assert!(matches!(action, Action::Finish { outcome: Outcome::LedgerRefused, emission: None }));
    let (_, action) = handle_erc20_deposit(AdvanceInput::Other);
    assert!(matches!(
        action,
        Action::Finish { outcome: Outcome::InvalidInput, emission: Some(Emission::Report(Report::InvalidErc20Input)) }
    ));
}

#[test]
fn erc721_deposit_lists_token() {
    let mut s = storage();
    let start = handle_erc721_deposit(AdvanceInput::Erc721Deposit {
        token: ERC721_TOKEN.to_lowercase(),
        sender: SELLER.to_string(),
        token_id: TokenId { high: 0, low: 9 },
    });
    let (calls, action) = drive(&mut s, start, &[Reply::Accepted; 3]);
    assert!(matches!(&calls[1], LedgerCall::RetrieveErc721Asset { token_id: TokenId { high: 0, low: 9 }, .. }));
    assert!(matches!(&calls[2], LedgerCall::Deposit { asset: 1, account: 0, amount: TokenAmount::Units(1) }));
    assert!(matches!(action, Action::Finish { outcome: Outcome::Completed, emission: None }));
    assert_eq!(s.get_listed_tokens(), vec![9]);
    assert_eq!(s.get_erc721_token_owner(9).unwrap(), &SELLER.to_lowercase());
}

#[test]
fn erc721_deposit_refused_changes_nothing() {
    let mut s = storage();
    let start = handle_erc721_deposit(AdvanceInput::Erc721Deposit {
        token: ERC721_TOKEN.to_lowercase(),
        sender: SELLER.to_string(),
        token_id: TokenId { high: 0, low: 9 },
    });
    let (_, action) = drive(&mut s, start, &[Reply::Accepted, Reply::Accepted, Reply::Refused]);
    assert!(matches!(
        action,
        Action::Finish { outcome: Outcome::LedgerRefused, emission: Some(Emission::Report(Report::DepositFailed)) }
    ));
    assert!(s.get_listed_tokens().is_empty());
    let (_, action) = handle_erc721_deposit(AdvanceInput::Other);
    assert!(matches!(
        action,
        Action::Finish { outcome: Outcome::InvalidInput, emission: Some(Emission::Report(Report::InvalidErc721Input)) }
    ));
}

#[test]
fn purchase_sells_listed_token() {
    let mut s = storage();
    handle_advance(&mut s, Some(ERC721_PORTAL), Some(APP)).unwrap();
    deposit(&mut s, 5, SELLER);
    let start = handle_application_defined_methods(
        &s,
        AdvanceInput::Unidentified { msg_sender: BUYER.to_string(), payload: purchase_payload(5) },
    );
    let (calls, action) = drive(&mut s, start, &[Reply::Accepted; 6]);
    assert_eq!(calls.len(), 6);
    assert!(matches!(&calls[0], LedgerCall::RetrieveAccount { address } if *address == SELLER.to_lowercase()));
    assert!(matches!(&calls[1], LedgerCall::RetrieveAccount { address } if address == BUYER));
    assert!(matches!(&calls[2], LedgerCall::RetrieveErc20Asset { token } if token == ERC20_TOKEN));
    assert!(matches!(&calls[3], LedgerCall::RetrieveErc721Asset { token, token_id: TokenId { high: 0, low: 5 } } if *token == ERC721_TOKEN.to_lowercase()));
    assert!(matches!(&calls[4], LedgerCall::Transfer { asset: 2, from: 1, to: 0, amount: TokenAmount::Units(100) }));
    assert!(matches!(&calls[5], LedgerCall::Withdraw { asset: 3, account: 0, amount: TokenAmount::Units(1) }));
    match action {
        Action::Finish { outcome: Outcome::Completed, emission: Some(Emission::Voucher(v)) } => {
            assert_eq!(v.token, ERC721_TOKEN);
            assert_eq!(v.token_id, 5);
            assert_eq!(v.receiver, BUYER);
            assert_eq!(v.value, 0);
            assert_eq!(v.application, APP);
        }
        other => panic!("unexpected {:?}", other),
    }
    assert!(s.get_listed_tokens().is_empty());
    assert_eq!(*s.get_erc721_token_owner(5).unwrap(), zero_address_string());
}

#[test]
fn purchase_refused_payment_changes_nothing() {
    let mut s = storage();
    deposit(&mut s, 5, SELLER);
    let start = handle_purchase_token(&s, BUYER.to_string(), &word(5));
    let replies = [Reply::Accepted, Reply::Accepted, Reply::Accepted, Reply::Accepted, Reply::Refused];
    let (_, action) = drive(&mut s, start, &replies);
    assert!(matches!(
        action,
        Action::Finish { outcome: Outcome::LedgerRefused, emission: Some(Emission::Report(Report::PurchaseFailed)) }
    ));
    assert_eq!(s.get_listed_tokens(), vec![5]);
    assert_eq!(s.get_erc721_token_owner(5).unwrap(), &SELLER.to_lowercase());
}

#[test]
fn purchase_refused_withdrawal_keeps_sale() {
    let mut s = storage();
    deposit(&mut s, 5, SELLER);
    let start = handle_purchase_token(&s, BUYER.to_string(), &word(5));
    let mut replies = [Reply::Accepted; 6];
    replies[5] = Reply::Refused;
    let (_, action) = drive(&mut s, start, &replies);
    assert!(matches!(
        action,
        Action::Finish { outcome: Outcome::LedgerRefused, emission: Some(Emission::Report(Report::PurchaseFailed)) }
    ));
    assert!(s.get_listed_tokens().is_empty());
    assert_eq!(*s.get_erc721_token_owner(5).unwrap(), zero_address_string());
}

#[test]
fn purchase_of_unlisted_token_is_reported() {
    let mut s = storage();
    deposit(&mut s, 5, SELLER);
    let (_, action) = handle_purchase_token(&s, BUYER.to_string(), &word(6));
    assert!(matches!(
        action,
        Action::Finish { outcome: Outcome::NotListed, emission: Some(Emission::Report(Report::TokenNotListed)) }
    ));
    let (_, action) = handle_purchase_token(&s, BUYER.to_string(), &[1, 2, 3]);
    assert!(matches!(
        action,
        Action::Finish { outcome: Outcome::BadArguments(ArgsError::AbiDecode), emission: None }
    ));
}

#[test]
fn unsupported_selector_is_reported() {
    let s = storage();
    let (_, action) = handle_application_defined_methods(
        &s,
        AdvanceInput::Unidentified { msg_sender: BUYER.to_string(), payload: vec![0xDE, 0xAD, 0xBE, 0xEF, 1] },
    );
    match action {
        Action::Finish {
            outcome: Outcome::UnsupportedMethod,
            emission: Some(Emission::Report(Report::UnsupportedMethod { selector })),
        } => assert_eq!(selector, "0xdeadbeef"),
        other => panic!("unexpected {:?}", other),
    }
    let (_, action) = handle_application_defined_methods(&s, AdvanceInput::Other);
    assert!(matches!(action, Action::Finish { outcome: Outcome::Ignored, emission: None }));
}

#[test]
fn decoded_advance_dispatch() {
    let mut s = storage();
    let (_, action) = handle_decoded_advance(&s, None);
    assert!(matches!(
        action,
        Action::Finish { outcome: Outcome::Undecodable, emission: Some(Emission::Report(Report::AdvanceDecodeFailed)) }
    ));
    let (_, action) = handle_decoded_advance(&s, Some((DecodedKind::Other, AdvanceInput::Other)));
    assert!(matches!(action, Action::Finish { outcome: Outcome::Ignored, emission: None }));
    let start = handle_decoded_advance(
        &s,
        Some((
            DecodedKind::Erc721Deposit,
            AdvanceInput::Erc721Deposit { token: ERC721_TOKEN.to_lowercase(), sender: SELLER.to_string(), token_id: TokenId { high: 0, low: 4 } },
        )),
    );
    drive(&mut s, start, &[Reply::Accepted; 3]);
    assert_eq!(s.get_listed_tokens(), vec![4]);
    let (_, action) = handle_decoded_advance(
        &s,
        Some((DecodedKind::Erc20Deposit, AdvanceInput::Erc721Deposit { token: String::new(), sender: String::new(), token_id: TokenId { high: 0, low: 1 } })),
    );
    assert!(matches!(
        action,
        Action::Finish { outcome: Outcome::InvalidInput, emission: Some(Emission::Report(Report::InvalidErc20Input)) }
    ));
}

#[test]
fn inspect_answers() {
    let mut s = storage();
    s.record_erc721_deposit(8, SELLER);
    s.record_erc721_deposit(2, SELLER);
    match handle_inspect(&s, InspectRequest::Balance { token_ids: Some(0) }) {
        InspectAnswer::Query { calls, report } => {
            assert_eq!(
                calls,
                vec![InspectCall::RetrieveAccount, InspectCall::RetrieveErc20Asset, InspectCall::Balance { asset: 1, account: 0 }]
            );
            assert_eq!(report, Some(BalanceReport::Erc20));
        }
        other => panic!("unexpected {:?}", other),
    }
    match handle_inspect(&s, InspectRequest::Balance { token_ids: Some(2) }) {
        InspectAnswer::Query { calls, report } => {
            assert_eq!(
                calls,
                vec![
                    InspectCall::RetrieveAccount,
                    InspectCall::RetrieveErc721Asset { id_index: 0 },
                    InspectCall::Balance { asset: 1, account: 0 },
                    InspectCall::RetrieveErc721Asset { id_index: 1 },
                    InspectCall::Balance { asset: 3, account: 0 },
                ]
            );
            assert_eq!(report, Some(BalanceReport::Erc721));
        }
        other => panic!("unexpected {:?}", other),
    }
    match handle_inspect(&s, InspectRequest::Balance { token_ids: None }) {
        InspectAnswer::Query { calls, report } => {
            assert_eq!(calls, vec![InspectCall::RetrieveAccount]);
            assert_eq!(report, None);
        }
        other => panic!("unexpected {:?}", other),
    }
    assert!(matches!(handle_inspect(&s, InspectRequest::OtherKind), InspectAnswer::Nothing));
    assert!(matches!(handle_inspect(&s, InspectRequest::Undecodable), InspectAnswer::Publish(Report::InvalidInspect)));
    match handle_inspect(&s, InspectRequest::Incompatible) {
        InspectAnswer::Publish(Report::ListedTokens { tokens }) => assert_eq!(tokens, vec![8, 2]),
        other => panic!("unexpected {:?}", other),
    }
}

#[test]
fn default_storage_is_empty() {
    let s = Storage::default();
    assert!(s.get_listed_tokens().is_empty());
    assert_eq!(s.app_address(), "");
    assert_eq!(s.list_price(), 0);
    assert_eq!(s.get_erc721_token_owner(0), None);
}

#[test]
fn purchase_script_for_owned_unlisted_token() {
    let mut s = storage();
    s.record_erc721_deposit(5, SELLER);
    s.complete_sale(5);
    let script = s.purchase_erc721_token(BUYER.to_string(), 5);
    assert_eq!(script.steps.len(), 6);
    assert!(matches!(&script.steps[0].call, LedgerCall::RetrieveAccount { address } if *address == zero_address_string()));
    let (_, action) = drive(&mut s, Run::start(script), &[Reply::Accepted; 6]);
    assert!(matches!(action, Action::Finish { outcome: Outcome::Completed, emission: Some(Emission::Voucher(_)) }));
    assert!(s.get_listed_tokens().is_empty());
    assert_eq!(*s.get_erc721_token_owner(5).unwrap(), zero_address_string());
}

#[test]
fn report_texts() {
    assert_eq!(Report::InvalidErc20Input.text(""), "Invalid input data for ERC20 deposit");
    assert_eq!(Report::InvalidErc721Input.text(""), "Invalid input data for ERC721 deposit");
    assert_eq!(Report::DepositFailed.text("no funds"), "Error depositing token:: no funds");
    assert_eq!(Report::TokenNotListed.text(""), "TOKEN NOT LISTED FOR SALE!!");
    assert_eq!(Report::PurchaseFailed.text("x"), "Failed to purchase token");
    assert_eq!(
        Report::UnsupportedMethod { selector: "0xdeadbeef".to_string() }.text(""),
        "Unsupported application-defined method: 0xdeadbeef"
    );
    assert_eq!(
        Report::AdvanceDecodeFailed.text("Unknown"),
        "Error decoding advance request: Unknown"
    );
    assert_eq!(Report::InvalidInspect.text(""), "Invalid inspect request received");
    for tokens in [vec![], vec![0u128], vec![8, 2, 1234567890], vec![u128::MAX, 10, 9]] {
        let refs: Vec<&u128> = tokens.iter().collect();
        assert_eq!(
            Report::ListedTokens { tokens: tokens.clone() }.text(""),
            format!("All listed tokens are: {:?}", refs)
        );
    }
}

#[test]
fn request_routing() {
    assert_eq!(route_request(Some("advance_state")), Ok(RequestKind::Advance));
    assert_eq!(route_request(Some("inspect_state")), Ok(RequestKind::Inspect));
    assert_eq!(route_request(Some("Advance_state")), Ok(RequestKind::Unknown));
    assert_eq!(route_request(None), Err(RequestError::MissingRequestType));
}

#[test]
fn oversized_deposit_id_fails_only_after_acceptance() {
    let mut s = storage();
    let big = TokenId { high: 1, low: 5 };
    // a refused lookup ends the deposit normally
    let start = handle_erc721_deposit(AdvanceInput::Erc721Deposit {
        token: ERC721_TOKEN.to_lowercase(),
        sender: SELLER.to_string(),
        token_id: big,
    });
    let (_, action) = drive(&mut s, start, &[Reply::Accepted, Reply::Refused]);
    assert!(matches!(action, Action::Finish { outcome: Outcome::LedgerRefused, emission: None }));
    // the deposit step itself cannot be committed
    let (mut run, _) = handle_erc721_deposit(AdvanceInput::Erc721Deposit {
        token: ERC721_TOKEN.to_lowercase(),
        sender: SELLER.to_string(),
        token_id: big,
    });
    assert!(run.acceptance_defined());
    run.step(&mut s, Reply::Accepted);
    assert!(run.acceptance_defined());
    run.step(&mut s, Reply::Accepted);
    assert!(!run.acceptance_defined());
    assert!(s.get_listed_tokens().is_empty());
}
