//! The marketplace's answer to each rollup input.
use vstd::prelude::*;
use vstd::string::*;

use crate::abi::{ArgsError, be_value, decode_token_id, lemma_fitting_token_id, token_id_fits};
use crate::hexcodec::{hex_encode, hex_digit, hex_text, lemma_hex_digit, lemma_hex_text_shape};
use crate::ledger::{
    effects_through, Action, ActionView, Effect, EffectView, Emission, EmissionView, Erc721Voucher,
    Erc721VoucherView, LedgerCall, LedgerCallView, Outcome, Report, ReportView, Run, RunView, Script,
    ScriptStep, ScriptStepView, ScriptView, TokenAmount, TokenId,
};
use crate::storage::{Storage, StorageView, zero_address, zero_address_string};
use crate::text::{lowercase, lowercase_of};

verus! {

/// The kind of advance input that the decoder is asked to read.
#[derive(Debug, Clone, Copy, PartialEq, Eq)]
pub enum InputKind {
    /// Sent by the ERC-721 portal.
    Erc721Deposit,
    /// Sent by the ERC-20 portal.
    Erc20Deposit,
    /// Sent by anyone else: the decoder tells the kind.
    Auto,
}

/// Why an advance request was refused before decoding.
#[derive(Debug, Clone, Copy, PartialEq, Eq)]
pub enum AdvanceError {
    /// The request names no sender.
    MissingSender,
    /// The request names no application contract.
    MissingAppContract,
}

/// The decoder to use for a sender: the ERC-721 portal's first, then the
/// ERC-20 portal's, each compared case-insensitively.
pub open spec fn input_kind_for(state: StorageView, sender: Seq<char>) -> InputKind {
    if lowercase_of(sender) == lowercase_of(state.erc721_portal_address) {
        InputKind::Erc721Deposit
    } else if lowercase_of(sender) == lowercase_of(state.erc20_portal_address) {
        InputKind::Erc20Deposit
    } else {
        InputKind::Auto
    }
}

/// The first stage of an advance request: the sender and the application
/// contract it names. The application address is adopted the first time;
/// the result tells which decoder to use.
pub fn handle_advance(storage: &mut Storage, msg_sender: Option<&str>, app_contract: Option<&str>) -> (r:
    Result<InputKind, AdvanceError>)
    ensures
        final(storage)@.well_formed(),
        match (msg_sender, app_contract) {
            (None, _) => r == Err::<InputKind, AdvanceError>(AdvanceError::MissingSender) && final(storage)@
                == old(storage)@,
            (Some(_), None) => r == Err::<InputKind, AdvanceError>(AdvanceError::MissingAppContract)
                && final(storage)@ == old(storage)@,
            (Some(sender), Some(app)) => {
                &&& r == Ok::<InputKind, AdvanceError>(input_kind_for(old(storage)@, sender@))
                &&& final(storage)@ == (StorageView {
                    app_address: if old(storage)@.app_address == zero_address() {
                        app@
                    } else {
                        old(storage)@.app_address
                    },
                    ..old(storage)@
                })
            },
        },
{
    proof {
        use_type_invariant(&*storage);
    }
    let sender = match msg_sender {
        Some(s) => s,
        None => return Err(AdvanceError::MissingSender),
    };
    let app = match app_contract {
        Some(a) => a,
        None => return Err(AdvanceError::MissingAppContract),
    };
    let zero = zero_address_string();
    if *storage.app_address() == zero {
        storage.set_app_address(String::from_str(app));
    }
    let sender_lower = lowercase(sender);
    if sender_lower == lowercase(storage.erc721_portal_address().as_str()) {
        Ok(InputKind::Erc721Deposit)
    } else if sender_lower == lowercase(storage.erc20_portal_address().as_str()) {
        Ok(InputKind::Erc20Deposit)
    } else {
        Ok(InputKind::Auto)
    }
}

/// Advance input data, as the decoder read it. Addresses are written as
/// `0x` and forty hexadecimal digits.
#[derive(Debug)]
pub enum AdvanceInput {
    /// An ERC-20 deposit: the token contract and the depositor (the amount
    /// stays with the holder of the ledger).
    Erc20Deposit { token: String, sender: String },
    /// An ERC-721 deposit: the token contract, the depositor and the token id.
    Erc721Deposit { token: String, sender: String, token_id: TokenId },
    /// A call of the application itself: who sent it and its ABI-encoded bytes.
    Unidentified { msg_sender: String, payload: Vec<u8> },
    /// Any other input.
    Other,
}

/// A script step without effect.
pub open spec fn plain_step(call: LedgerCallView, on_failure: Option<ReportView>) -> ScriptStepView {
    ScriptStepView { call, on_failure, on_success: None }
}

/// The ledger calls of an ERC-20 deposit: find the depositor's account and
/// the token's asset (by its lowercase address), then credit the deposited
/// amount; once credited, a notice names the asset and the depositor.
pub open spec fn erc20_deposit_script(token: Seq<char>, sender: Seq<char>) -> ScriptView {
    ScriptView {
        steps: seq![
            plain_step(LedgerCallView::RetrieveAccount { address: sender }, None),
            plain_step(LedgerCallView::RetrieveErc20Asset { token: lowercase_of(token) }, None),
            plain_step(
                LedgerCallView::Deposit { asset: 1, account: 0, amount: TokenAmount::Deposited },
                Some(ReportView::DepositFailed),
            ),
        ],
        on_completion: Some(EmissionView::Erc20Deposited { asset: 1, depositor: sender }),
    }
}

/// The ledger calls of an ERC-721 deposit: find the depositor's account and
/// the token's asset, then credit the one token; once credited, the token
/// is listed for sale and owned by the depositor.
pub open spec fn erc721_deposit_script(token: Seq<char>, sender: Seq<char>, token_id: TokenId) -> ScriptView {
    ScriptView {
        steps: seq![
            plain_step(LedgerCallView::RetrieveAccount { address: sender }, None),
            plain_step(LedgerCallView::RetrieveErc721Asset { token, token_id }, None),
            ScriptStepView {
                call: LedgerCallView::Deposit { asset: 1, account: 0, amount: TokenAmount::Units(1) },
                on_failure: Some(ReportView::DepositFailed),
                on_success: Some(EffectView::RecordDeposit { token_id, depositor: sender }),
            },
        ],
        on_completion: None,
    }
}

/// How the marketplace answers an input decoded as an ERC-20 deposit:
/// through `erc20_deposit_script`, or, when the data is not that of an
/// ERC-20 deposit, with a report of invalid input.
pub open spec fn answers_erc20_deposit(input: AdvanceInput, run: RunView, action: ActionView) -> bool {
    match input {
        AdvanceInput::Erc20Deposit { token, sender } => {
            &&& run.script == erc20_deposit_script(token@, sender@)
            &&& run.waiting()
            &&& run.position == 0
            &&& action == ActionView::Call(run.script.steps[0].call)
        },
        _ => run.finished && action == (ActionView::Finish {
            outcome: Outcome::InvalidInput,
            emission: Some(EmissionView::Report(ReportView::InvalidErc20Input)),
        }),
    }
}

/// How the marketplace answers an input decoded as an ERC-721 deposit:
/// through `erc721_deposit_script`, or, when the data is not that of an
/// ERC-721 deposit, with a report of invalid input.
pub open spec fn answers_erc721_deposit(input: AdvanceInput, run: RunView, action: ActionView) -> bool {
    match input {
        AdvanceInput::Erc721Deposit { token, sender, token_id } => {
            &&& run.script == erc721_deposit_script(token@, sender@, token_id)
            &&& run.waiting()
            &&& run.position == 0
            &&& action == ActionView::Call(run.script.steps[0].call)
        },
        _ => run.finished && action == (ActionView::Finish {
            outcome: Outcome::InvalidInput,
            emission: Some(EmissionView::Report(ReportView::InvalidErc721Input)),
        }),
    }
}

/// Answers an ERC-20 deposit input.
pub fn handle_erc20_deposit(input: AdvanceInput) -> (r: (Run, Action))
    ensures
        answers_erc20_deposit(input, r.0@, r.1@),
{
    match input {
        AdvanceInput::Erc20Deposit { token, sender } => {
            let mut steps: Vec<ScriptStep> = Vec::new();
            steps.push(
                ScriptStep {
                    call: LedgerCall::RetrieveAccount { address: sender.clone() },
                    on_failure: None,
                    on_success: None,
                },
            );
            steps.push(
                ScriptStep {
                    call: LedgerCall::RetrieveErc20Asset { token: lowercase(token.as_str()) },
                    on_failure: None,
                    on_success: None,
                },
            );
            steps.push(
                ScriptStep {
                    call: LedgerCall::Deposit { asset: 1, account: 0, amount: TokenAmount::Deposited },
                    on_failure: Some(Report::DepositFailed),
                    on_success: None,
                },
            );
            let script = Script {
                steps,
                on_completion: Some(Emission::Erc20Deposited { asset: 1, depositor: sender }),
            };
            assert(script@.steps =~= erc20_deposit_script(token@, sender@).steps);
            Run::start(script)
        },
        _ => Run::finished_with(Outcome::InvalidInput, Some(Emission::Report(Report::InvalidErc20Input))),
    }
}

/// Answers an ERC-721 deposit input.
pub fn handle_erc721_deposit(input: AdvanceInput) -> (r: (Run, Action))
    ensures
        answers_erc721_deposit(input, r.0@, r.1@),
{
    match input {
        AdvanceInput::Erc721Deposit { token, sender, token_id } => {
            let mut steps: Vec<ScriptStep> = Vec::new();
            steps.push(
                ScriptStep {
                    call: LedgerCall::RetrieveAccount { address: sender.clone() },
                    on_failure: None,
                    on_success: None,
                },
            );
            steps.push(
                ScriptStep {
                    call: LedgerCall::RetrieveErc721Asset { token, token_id },
                    on_failure: None,
                    on_success: None,
                },
            );
            steps.push(
                ScriptStep {
                    call: LedgerCall::Deposit { asset: 1, account: 0, amount: TokenAmount::Units(1) },
                    on_failure: Some(Report::DepositFailed),
                    on_success: Some(Effect::RecordDeposit { token_id, depositor: sender }),
                },
            );
            let script = Script { steps, on_completion: None };
            assert(script@.steps =~= erc721_deposit_script(token@, sender@, token_id).steps);
            Run::start(script)
        },
        _ => Run::finished_with(Outcome::InvalidInput, Some(Emission::Report(Report::InvalidErc721Input))),
    }
}

/// The ledger calls of a purchase of a listed token: find the owner's and
/// the buyer's accounts, the payment token's asset and the sold token's
/// asset (by the lowercase contract address), pay the list price from buyer
/// to owner, and take the token out of the owner's account. Every refusal
/// is reported as a failed purchase; an accepted payment commits the sale;
/// at the end a voucher hands the token to the buyer.
pub open spec fn purchase_script(state: StorageView, buyer: Seq<char>, token_id: u128) -> ScriptView {
    ScriptView {
        steps: seq![
            plain_step(
                LedgerCallView::RetrieveAccount { address: state.owners[token_id] },
                Some(ReportView::PurchaseFailed),
            ),
            plain_step(LedgerCallView::RetrieveAccount { address: buyer }, Some(ReportView::PurchaseFailed)),
            plain_step(
                LedgerCallView::RetrieveErc20Asset { token: state.erc20_token },
                Some(ReportView::PurchaseFailed),
            ),
            plain_step(
                LedgerCallView::RetrieveErc721Asset {
                    token: lowercase_of(state.erc721_token),
                    token_id: TokenId::small(token_id),
                },
                Some(ReportView::PurchaseFailed),
            ),
            ScriptStepView {
                call: LedgerCallView::Transfer {
                    asset: 2,
                    from: 1,
                    to: 0,
                    amount: TokenAmount::Units(state.list_price),
                },
                on_failure: Some(ReportView::PurchaseFailed),
                on_success: Some(EffectView::CompleteSale { token_id }),
            },
            plain_step(
                LedgerCallView::Withdraw { asset: 3, account: 0, amount: TokenAmount::Units(1) },
                Some(ReportView::PurchaseFailed),
            ),
        ],
        on_completion: Some(
            EmissionView::Voucher(
                Erc721VoucherView {
                    token: state.erc721_token,
                    token_id,
                    receiver: buyer,
                    value: 0,
                    application: state.app_address,
                },
            ),
        ),
    }
}

/// A purchase changes the marketplace only once the ledger accepts the
/// payment, and then exactly by the sale of the token.
pub proof fn lemma_purchase_commits_on_payment(state: StorageView, buyer: Seq<char>, token_id: u128, k: nat)
    requires
        k <= 6,
    ensures
        effects_through(state, purchase_script(state, buyer, token_id).steps, k) == if k <= 4 {
            state
        } else {
            state.after_sale(token_id)
        },
{
    reveal_with_fuel(effects_through, 7);
}

/// An ERC-721 deposit changes the marketplace only once the ledger accepts
/// the deposit, and then exactly by recording it.
pub proof fn lemma_deposit_commits_on_acceptance(
    state: StorageView,
    token: Seq<char>,
    sender: Seq<char>,
    token_id: u128,
    k: nat,
)
    requires
        k <= 3,
    ensures
        effects_through(state, erc721_deposit_script(token, sender, TokenId::small(token_id)).steps, k)
            == if k <= 2 {
            state
        } else {
            state.after_deposit(token_id, sender)
        },
{
    reveal_with_fuel(effects_through, 4);
}

impl Storage {
    /// The ledger calls that sell a token with a recorded owner to `buyer`.
    pub fn purchase_erc721_token(&self, buyer: String, token_id: u128) -> (r: Script)
        requires
            self@.owners.contains_key(token_id),
        ensures
            r@ == purchase_script(self@, buyer@, token_id),
    {
        let owner = self.get_erc721_token_owner(token_id).unwrap().clone();
        let mut steps: Vec<ScriptStep> = Vec::new();
        steps.push(
            ScriptStep {
                call: LedgerCall::RetrieveAccount { address: owner },
                on_failure: Some(Report::PurchaseFailed),
                on_success: None,
            },
        );
        steps.push(
            ScriptStep {
                call: LedgerCall::RetrieveAccount { address: buyer.clone() },
                on_failure: Some(Report::PurchaseFailed),
                on_success: None,
            },
        );
        steps.push(
            ScriptStep {
                call: LedgerCall::RetrieveErc20Asset { token: self.erc20_token().clone() },
                on_failure: Some(Report::PurchaseFailed),
                on_success: None,
            },
        );
        steps.push(
            ScriptStep {
                call: LedgerCall::RetrieveErc721Asset {
                    token: lowercase(self.erc721_token().as_str()),
                    token_id: TokenId { high: 0, low: token_id },
                },
                on_failure: Some(Report::PurchaseFailed),
                on_success: None,
            },
        );
        steps.push(
            ScriptStep {
                call: LedgerCall::Transfer {
                    asset: 2,
                    from: 1,
                    to: 0,
                    amount: TokenAmount::Units(self.list_price()),
                },
                on_failure: Some(Report::PurchaseFailed),
                on_success: Some(Effect::CompleteSale { token_id }),
            },
        );
        steps.push(
            ScriptStep {
                call: LedgerCall::Withdraw { asset: 3, account: 0, amount: TokenAmount::Units(1) },
                on_failure: Some(Report::PurchaseFailed),
                on_success: None,
            },
        );
        let voucher = Erc721Voucher {
            token: self.erc721_token().clone(),
            token_id,
            receiver: buyer,
            value: 0,
            application: self.app_address().clone(),
        };
        let script = Script { steps, on_completion: Some(Emission::Voucher(voucher)) };
        assert(script@.steps =~= purchase_script(self@, buyer@, token_id).steps);
        script
    }
}

/// How the marketplace answers a purchase call with the given arguments:
/// arguments shorter than one word are refused; a token that is not listed
/// is reported; a listed token is sold through `purchase_script`.
pub open spec fn answers_purchase(
    state: StorageView,
    buyer: Seq<char>,
    args: Seq<u8>,
    run: RunView,
    action: ActionView,
) -> bool {
    if args.len() < 32 {
        run.finished && action == (ActionView::Finish {
            outcome: Outcome::BadArguments(ArgsError::AbiDecode),
            emission: None,
        })
    } else {
        let token_id = be_value(args.subrange(0, 32)) as u128;
        if !state.is_listed(token_id) {
            run.finished && action == (ActionView::Finish {
                outcome: Outcome::NotListed,
                emission: Some(EmissionView::Report(ReportView::TokenNotListed)),
            })
        } else {
            &&& run.script == purchase_script(state, buyer, token_id)
            &&& run.waiting()
            &&& run.position == 0
            &&& action == ActionView::Call(run.script.steps[0].call)
        }
    }
}

/// Answers a purchase call: `input_args` holds the id of the token to buy.
pub fn handle_purchase_token(storage: &Storage, sender: String, input_args: &[u8]) -> (r: (Run, Action))
    requires
        token_id_fits(input_args@),
    ensures
        answers_purchase(storage@, sender@, input_args@, r.0@, r.1@),
        input_args@.len() >= 32 ==> be_value(input_args@.subrange(0, 32))
            < 0x1_0000_0000_0000_0000_0000_0000_0000_0000,
{
    proof {
        use_type_invariant(storage);
    }
    if input_args.len() >= 32 {
        proof {
            lemma_fitting_token_id(input_args@);
        }
    }
    match decode_token_id(input_args) {
        Err(e) => Run::finished_with(Outcome::BadArguments(e), None),
        Ok(token_id) => {
            if !storage.is_listed(token_id) {
                Run::finished_with(Outcome::NotListed, Some(Emission::Report(Report::TokenNotListed)))
            } else {
                let script = storage.purchase_erc721_token(sender, token_id);
                Run::start(script)
            }
        },
    }
}

/// The selector of the purchase call.
pub open spec fn purchase_selector() -> Seq<u8> {
    seq![0x30u8, 0x48u8, 0xf5u8, 0x12u8]
}

/// The selector of an application call as text: `0x` and the lowercase
/// hexadecimal digits of its first four bytes.
pub open spec fn selector_text(payload: Seq<u8>) -> Seq<char> {
    seq!['0', 'x'] + hex_text(payload.take(4))
}

/// The application calls on which the marketplace is defined: a payload of
/// at least four bytes, and, for a purchase, a token id that fits in 128 bits.
pub open spec fn application_call_defined(input: AdvanceInput) -> bool {
    match input {
        AdvanceInput::Unidentified { payload, .. } => {
            &&& payload@.len() >= 4
            &&& payload@.take(4) == purchase_selector() ==> token_id_fits(payload@.skip(4))
        },
        _ => true,
    }
}

proof fn lemma_purchase_selector(b: Seq<u8>)
    requires
        b.len() == 4,
    ensures
        (seq!['0', 'x'] + hex_text(b) == "0x3048f512"@) <==> b == purchase_selector(),
{
    reveal_strlit("0x3048f512");
    lemma_hex_text_shape(b);
    let t = seq!['0', 'x'] + hex_text(b);
    let lit = "0x3048f512"@;
    let sel = purchase_selector();
    lemma_hex_digit(3);
    lemma_hex_digit(0);
    lemma_hex_digit(4);
    lemma_hex_digit(8);
    lemma_hex_digit(15);
    lemma_hex_digit(5);
    lemma_hex_digit(1);
    lemma_hex_digit(2);
    assert(hex_digit(3) == '3' && hex_digit(0) == '0' && hex_digit(4) == '4' && hex_digit(8) == '8');
    assert(hex_digit(15) == 'f' && hex_digit(5) == '5' && hex_digit(1) == '1' && hex_digit(2) == '2');
    if b == sel {
        assert(t =~= lit);
    }
    if t == lit {
        assert forall|k: int| 0 <= k < 4 implies b[k] == sel[k] by {
            lemma_hex_digit(b[k] / 16);
            lemma_hex_digit(b[k] % 16);
            assert(t[2 + 2 * k] == hex_text(b)[2 * k]);
            assert(t[3 + 2 * k] == hex_text(b)[2 * k + 1]);
        }
        assert(b =~= sel);
    }
}

/// How the marketplace answers a call of the application itself: the first
/// four bytes select the method; the purchase method gets the rest as its
/// arguments, any other selector is reported as unsupported; data that is
/// not an application call is ignored.
pub open spec fn answers_application_call(
    state: StorageView,
    input: AdvanceInput,
    run: RunView,
    action: ActionView,
) -> bool {
    match input {
        AdvanceInput::Unidentified { msg_sender, payload } => if payload@.take(4) == purchase_selector() {
            answers_purchase(state, msg_sender@, payload@.skip(4), run, action)
        } else {
            run.finished && action == (ActionView::Finish {
                outcome: Outcome::UnsupportedMethod,
                emission: Some(
                    EmissionView::Report(ReportView::UnsupportedMethod { selector: selector_text(payload@) }),
                ),
            })
        },
        _ => run.finished && action == (ActionView::Finish { outcome: Outcome::Ignored, emission: None }),
    }
}

/// Answers a call of the application itself.
pub fn handle_application_defined_methods(storage: &Storage, input: AdvanceInput) -> (r: (Run, Action))
    requires
        application_call_defined(input),
    ensures
        answers_application_call(storage@, input, r.0@, r.1@),
{
    match input {
        AdvanceInput::Unidentified { msg_sender, payload } => {
            let (first_4_bytes, encoded_args) = payload.as_slice().split_at(4);
            let digits = hex_encode(first_4_bytes);
            let mut text = String::from_str("0x");
            proof {
                reveal_strlit("0x");
            }
            text.append(digits.as_str());
            assert(first_4_bytes@ =~= payload@.take(4));
            assert(encoded_args@ =~= payload@.skip(4));
            proof {
                lemma_hex_text_shape(first_4_bytes@);
                assert(text@ =~= selector_text(payload@));
                assert forall|i: int| 0 <= i < text@.len() implies '\0' <= #[trigger] text@[i] <= '\u{7f}' && !('A' <= text@[i] <= 'Z') by {
                    if i >= 2 {
                        assert(text@[i] == hex_text(first_4_bytes@)[i - 2]);
                    }
                }
            }
            let selector = lowercase(text.as_str());
            assert(selector@ =~= selector_text(payload@));
            let purchase = String::from_str("0x3048f512");
            proof {
                lemma_purchase_selector(payload@.take(4));
            }
            if selector == purchase {
                handle_purchase_token(storage, msg_sender, encoded_args)
            } else {
                Run::finished_with(
                    Outcome::UnsupportedMethod,
                    Some(Emission::Report(Report::UnsupportedMethod { selector })),
                )
            }
        },
        _ => Run::finished_with(Outcome::Ignored, None),
    }
}

/// The kind of an advance input, as the decoder told it.
#[derive(Debug, Clone, Copy, PartialEq, Eq)]
pub enum DecodedKind {
    Erc20Deposit,
    Erc721Deposit,
    Unidentified,
    Other,
}

/// The second stage of an advance request: the decoded input, or `None`
/// where the decoder failed (which is reported). Each kind goes to its
/// handler; other kinds are ignored.
pub fn handle_decoded_advance(storage: &Storage, decoded: Option<(DecodedKind, AdvanceInput)>) -> (r: (
    Run,
    Action,
))
    requires
        decoded matches Some((DecodedKind::Unidentified, input)) ==> application_call_defined(input),
    ensures
        match decoded {
            None => r.0@.finished && r.1@ == (ActionView::Finish {
                outcome: Outcome::Undecodable,
                emission: Some(EmissionView::Report(ReportView::AdvanceDecodeFailed)),
            }),
            Some((DecodedKind::Erc20Deposit, input)) => answers_erc20_deposit(input, r.0@, r.1@),
            Some((DecodedKind::Erc721Deposit, input)) => answers_erc721_deposit(input, r.0@, r.1@),
            Some((DecodedKind::Unidentified, input)) => answers_application_call(storage@, input, r.0@, r.1@),
            Some((DecodedKind::Other, _)) => r.0@.finished && r.1@ == (ActionView::Finish {
                outcome: Outcome::Ignored,
                emission: None,
            }),
        },
{
    match decoded {
        None => Run::finished_with(Outcome::Undecodable, Some(Emission::Report(Report::AdvanceDecodeFailed))),
        Some((DecodedKind::Erc20Deposit, input)) => handle_erc20_deposit(input),
        Some((DecodedKind::Erc721Deposit, input)) => handle_erc721_deposit(input),
        Some((DecodedKind::Unidentified, input)) => handle_application_defined_methods(storage, input),
        Some((DecodedKind::Other, _)) => Run::finished_with(Outcome::Ignored, None),
    }
}

/// An inspect request, as the decoder read it.
#[derive(Debug, Clone, Copy, PartialEq, Eq)]
pub enum InspectRequest {
    /// A balance query; `token_ids` is the number of ERC-721 token ids it
    /// names, if it names a list at all (the ids stay with the holder of the ledger).
    Balance { token_ids: Option<usize> },
    /// A request of another kind.
    OtherKind,
    /// The decoder found the request incompatible with every kind it knows.
    Incompatible,
    /// The decoder failed otherwise.
    Undecodable,
}

/// One ledger query of a balance inspection. Results are kept under the
/// position of the query that produced them.
#[derive(Debug, Clone, Copy, PartialEq, Eq)]
pub enum InspectCall {
    /// The account of the queried address.
    RetrieveAccount,
    /// The asset of the queried ERC-20 token.
    RetrieveErc20Asset,
    /// The asset of the queried ERC-721 contract's token with the given
    /// index in the request's list of ids.
    RetrieveErc721Asset { id_index: usize },
    /// The balance of the asset found at `asset` in the account found at `account`.
    Balance { asset: usize, account: usize },
}

/// Which balance report ends a balance inspection.
#[derive(Debug, Clone, Copy, PartialEq, Eq)]
pub enum BalanceReport {
    /// The one balance found.
    Erc20,
    /// Every balance found, in order.
    Erc721,
}

/// The answer to an inspect request.
#[derive(Debug)]
pub enum InspectAnswer {
    /// Make these ledger queries in order; the first refusal ends the
    /// inspection with that error and no report; otherwise publish `report`.
    Query { calls: Vec<InspectCall>, report: Option<BalanceReport> },
    /// Publish a report.
    Publish(Report),
    /// Nothing to do.
    Nothing,
}

pub enum InspectAnswerView {
    Query { calls: Seq<InspectCall>, report: Option<BalanceReport> },
    Publish(ReportView),
    Nothing,
}

impl View for InspectAnswer {
    type V = InspectAnswerView;

    open spec fn view(&self) -> InspectAnswerView {
        match self {
            InspectAnswer::Query { calls, report } => InspectAnswerView::Query { calls: calls@, report: *report },
            InspectAnswer::Publish(r) => InspectAnswerView::Publish(r@),
            InspectAnswer::Nothing => InspectAnswerView::Nothing,
        }
    }
}

/// For each of `n` ERC-721 ids in turn: its asset, then its balance in the
/// account found first.
pub open spec fn erc721_balance_calls(n: nat) -> Seq<InspectCall> {
    Seq::new(
        2 * n,
        |k: int|
            if k % 2 == 0 {
                InspectCall::RetrieveErc721Asset { id_index: (k / 2) as usize }
            } else {
                InspectCall::Balance { asset: k as usize, account: 0 }
            },
    )
}

/// How the marketplace answers an inspect request: a balance query looks up
/// the account, then, for an empty list of ids, the ERC-20 asset and its
/// balance, for a list of ids, each token's asset and balance; without a
/// list it looks up the account alone. An incompatible request is answered
/// with the listed tokens, an undecodable one with a report.
pub open spec fn inspect_answer(state: StorageView, request: InspectRequest) -> InspectAnswerView {
    match request {
        InspectRequest::Balance { token_ids: Some(n) } => if n == 0 {
            InspectAnswerView::Query {
                calls: seq![
                    InspectCall::RetrieveAccount,
                    InspectCall::RetrieveErc20Asset,
                    InspectCall::Balance { asset: 1, account: 0 },
                ],
                report: Some(BalanceReport::Erc20),
            }
        } else {
            InspectAnswerView::Query {
                calls: seq![InspectCall::RetrieveAccount] + erc721_balance_calls(n as nat),
                report: Some(BalanceReport::Erc721),
            }
        },
        InspectRequest::Balance { token_ids: None } => InspectAnswerView::Query {
            calls: seq![InspectCall::RetrieveAccount],
            report: None,
        },
        InspectRequest::OtherKind => InspectAnswerView::Nothing,
        InspectRequest::Incompatible => InspectAnswerView::Publish(
            ReportView::ListedTokens { tokens: state.listed_tokens },
        ),
        InspectRequest::Undecodable => InspectAnswerView::Publish(ReportView::InvalidInspect),
    }
}

/// Answers an inspect request.
pub fn handle_inspect(storage: &Storage, request: InspectRequest) -> (r: InspectAnswer)
    requires
        request matches InspectRequest::Balance { token_ids: Some(n) } ==> 2 * n + 1 <= usize::MAX,
    ensures
        r@ == inspect_answer(storage@, request),
{
    match request {
        InspectRequest::Balance { token_ids: Some(n) } => {
            let mut calls: Vec<InspectCall> = Vec::new();
            calls.push(InspectCall::RetrieveAccount);
            if n == 0 {
                calls.push(InspectCall::RetrieveErc20Asset);
                calls.push(InspectCall::Balance { asset: 1, account: 0 });
                assert(calls@ =~= seq![
                    InspectCall::RetrieveAccount,
                    InspectCall::RetrieveErc20Asset,
                    InspectCall::Balance { asset: 1, account: 0 },
                ]);
                InspectAnswer::Query { calls, report: Some(BalanceReport::Erc20) }
            } else {
                let mut i: usize = 0;
                while i < n
                    invariant
                        i <= n,
                        2 * n + 1 <= usize::MAX,
                        calls@ =~= seq![InspectCall::RetrieveAccount] + erc721_balance_calls(i as nat),
                    decreases n - i,
                {
                    calls.push(InspectCall::RetrieveErc721Asset { id_index: i });
                    calls.push(InspectCall::Balance { asset: 2 * i + 1, account: 0 });
                    assert(calls@ =~= seq![InspectCall::RetrieveAccount] + erc721_balance_calls((i + 1) as nat));
                    i = i + 1;
                }
                InspectAnswer::Query { calls, report: Some(BalanceReport::Erc721) }
            }
        },
        InspectRequest::Balance { token_ids: None } => {
            let mut calls: Vec<InspectCall> = Vec::new();
            calls.push(InspectCall::RetrieveAccount);
            assert(calls@ =~= seq![InspectCall::RetrieveAccount]);
            InspectAnswer::Query { calls, report: None }
        },
        InspectRequest::OtherKind => InspectAnswer::Nothing,
        InspectRequest::Incompatible => InspectAnswer::Publish(
            Report::ListedTokens { tokens: storage.get_listed_tokens() },
        ),
        InspectRequest::Undecodable => InspectAnswer::Publish(Report::InvalidInspect),
    }
}

/// The kind of a rollup request.
#[derive(Debug, Clone, Copy, PartialEq, Eq)]
pub enum RequestKind {
    Advance,
    Inspect,
    /// Any other request type, which is rejected.
    Unknown,
}

/// A rollup request that names no request type.
#[derive(Debug, Clone, Copy, PartialEq, Eq)]
pub enum RequestError {
    MissingRequestType,
}

/// Sorts a rollup request by its `request_type`: `advance_state`,
/// `inspect_state`, or anything else.
pub fn route_request(request_type: Option<&str>) -> (r: Result<RequestKind, RequestError>)
    ensures
        match request_type {
            None => r == Err::<RequestKind, RequestError>(RequestError::MissingRequestType),
            Some(t) => r == Ok::<RequestKind, RequestError>(
                if t@ == "advance_state"@ {
                    RequestKind::Advance
                } else if t@ == "inspect_state"@ {
                    RequestKind::Inspect
                } else {
                    RequestKind::Unknown
                },
            ),
        },
{
    match request_type {
        None => Err(RequestError::MissingRequestType),
        Some(t) => {
            let t = String::from_str(t);
            if t == String::from_str("advance_state") {
                Ok(RequestKind::Advance)
            } else if t == String::from_str("inspect_state") {
                Ok(RequestKind::Inspect)
            } else {
                Ok(RequestKind::Unknown)
            }
        },
    }
}

} // verus!
