//! What the marketplace's answers are for, stated over their inputs and
//! results.
use vstd::prelude::*;

use crate::abi::{be_value, ArgsError};
use crate::hexcodec::hex_text;
use crate::handlers::{
    answers_application_call, answers_erc20_deposit, answers_erc721_deposit, answers_purchase, input_kind_for,
    inspect_answer,
    purchase_script, AdvanceInput, BalanceReport, InputKind, InspectAnswerView, InspectCall, InspectRequest,
};
use crate::ledger::{
    effect_defined, ActionView, EffectView, EmissionView, LedgerCallView, Outcome, ReportView, RunView,
    TokenAmount, TokenId,
};
use crate::storage::{zero_address, StorageView};
use crate::text::lowercase_of;

verus! {

/// A purchase call for a token that is not listed (in particular one already
/// sold) makes no ledger call: it ends as `NotListed` with the
/// `TokenNotListed` report. A purchase script starts only for a listed token.
pub proof fn lemma_purchase_needs_listing(
    state: StorageView,
    buyer: Seq<char>,
    args: Seq<u8>,
    run: RunView,
    action: ActionView,
)
    requires
        answers_purchase(state, buyer, args, run, action),
        args.len() >= 32,
        be_value(args.subrange(0, 32)) < 0x1_0000_0000_0000_0000_0000_0000_0000_0000,
    ensures
        (action is Call) <==> state.listed_tokens.contains(be_value(args.subrange(0, 32)) as u128),
        state.listed_tokens.contains(be_value(args.subrange(0, 32)) as u128) ==> run.script == purchase_script(
            state,
            buyer,
            be_value(args.subrange(0, 32)) as u128,
        ) && run.position == 0 && !run.finished,
        !state.listed_tokens.contains(be_value(args.subrange(0, 32)) as u128) ==> run.finished && action
            == (ActionView::Finish {
            outcome: Outcome::NotListed,
            emission: Some(EmissionView::Report(ReportView::TokenNotListed)),
        }),
{
}

/// A purchase call whose arguments are shorter than one 32-byte word makes
/// no ledger call and publishes nothing.
pub proof fn lemma_purchase_needs_arguments(
    state: StorageView,
    buyer: Seq<char>,
    args: Seq<u8>,
    run: RunView,
    action: ActionView,
)
    requires
        answers_purchase(state, buyer, args, run, action),
        args.len() < 32,
    ensures
        run.finished,
        action == (ActionView::Finish { outcome: Outcome::BadArguments(ArgsError::AbiDecode), emission: None }),
{
}

/// An application call whose first four bytes are `30 48 f5 12` is a
/// purchase of the token named by the rest, by the call's sender; any other
/// call is reported as unsupported, with `0x` and the lowercase hex digits
/// of its first four bytes, and makes no ledger call.
pub proof fn lemma_application_call_routing(
    state: StorageView,
    msg_sender: String,
    payload: Vec<u8>,
    run: RunView,
    action: ActionView,
)
    requires
        answers_application_call(state, AdvanceInput::Unidentified { msg_sender, payload }, run, action),
        payload@.len() >= 4,
    ensures
        payload@[0] == 0x30 && payload@[1] == 0x48 && payload@[2] == 0xf5 && payload@[3] == 0x12 ==> answers_purchase(
            state,
            msg_sender@,
            payload@.skip(4),
            run,
            action,
        ),
        !(payload@[0] == 0x30 && payload@[1] == 0x48 && payload@[2] == 0xf5 && payload@[3] == 0x12) ==> {
            &&& run.finished
            &&& action == (ActionView::Finish {
                outcome: Outcome::UnsupportedMethod,
                emission: Some(
                    EmissionView::Report(
                        ReportView::UnsupportedMethod {
                            selector: seq!['0', 'x'] + hex_text(payload@.subrange(0, 4)),
                        },
                    ),
                ),
            })
        },
{
    let first = payload@.take(4);
    if payload@[0] == 0x30 && payload@[1] == 0x48 && payload@[2] == 0xf5 && payload@[3] == 0x12 {
        assert(first =~= seq![0x30u8, 0x48u8, 0xf5u8, 0x12u8]);
    } else {
        assert(first != seq![0x30u8, 0x48u8, 0xf5u8, 0x12u8]) by {
            if first == seq![0x30u8, 0x48u8, 0xf5u8, 0x12u8] {
                assert(first[0] == payload@[0] && first[1] == payload@[1] && first[2] == payload@[2] && first[3]
                    == payload@[3]);
            }
        }
        assert(first =~= payload@.subrange(0, 4));
    }
}

/// Once a token is sold, a further purchase call for it is refused as not
/// listed, whoever sends it.
pub proof fn lemma_sold_token_not_sold_again(
    state: StorageView,
    token_id: u128,
    buyer: Seq<char>,
    args: Seq<u8>,
    run: RunView,
    action: ActionView,
)
    requires
        args.len() >= 32,
        be_value(args.subrange(0, 32)) == token_id,
        answers_purchase(state.after_sale(token_id), buyer, args, run, action),
    ensures
        run.finished,
        action == (ActionView::Finish {
            outcome: Outcome::NotListed,
            emission: Some(EmissionView::Report(ReportView::TokenNotListed)),
        }),
{
    let pred = crate::storage::other_than(token_id);
    if state.after_sale(token_id).listed_tokens.contains(token_id) {
        state.listed_tokens.lemma_filter_contains_rev(pred, token_id);
        let i = choose|i: int|
            0 <= i < state.after_sale(token_id).listed_tokens.len() && state.after_sale(token_id).listed_tokens[i]
                == token_id;
        state.listed_tokens.lemma_filter_pred(pred, i);
    }
}

/// In a purchase the buyer pays the list price, in the ERC-20 token, into
/// the account of the token's recorded owner; the sale is committed by that
/// payment; the sold token (of the marketplace's ERC-721 contract) is then
/// taken out of the owner's account, and the voucher hands it to the buyer.
/// Every refusal is reported as a failed purchase.
pub proof fn lemma_purchase_roles(state: StorageView, buyer: Seq<char>, token_id: u128)
    ensures
        ({
            let steps = purchase_script(state, buyer, token_id).steps;
            match (steps[4].call, steps[5].call) {
                (
                    LedgerCallView::Transfer { asset, from, to, amount },
                    LedgerCallView::Withdraw { asset: nft, account, amount: one },
                ) => {
                    &&& steps.len() == 6
                    &&& from < 4 && to < 4 && asset < 4 && nft < 4 && account < 4
                    &&& steps[from as int].call == LedgerCallView::RetrieveAccount { address: buyer }
                    &&& steps[to as int].call == LedgerCallView::RetrieveAccount {
                        address: state.owners[token_id],
                    }
                    &&& steps[asset as int].call == LedgerCallView::RetrieveErc20Asset { token: state.erc20_token }
                    &&& amount == TokenAmount::Units(state.list_price)
                    &&& steps[4].on_success == Some(EffectView::CompleteSale { token_id })
                    &&& steps[nft as int].call == LedgerCallView::RetrieveErc721Asset {
                        token: lowercase_of(state.erc721_token),
                        token_id: TokenId { high: 0, low: token_id },
                    }
                    &&& account == to
                    &&& one == TokenAmount::Units(1)
                    &&& forall|k: int| 0 <= k < 6 ==> #[trigger] steps[k].on_failure == Some(ReportView::PurchaseFailed)
                    &&& forall|k: int| 0 <= k < 6 && k != 4 ==> #[trigger] steps[k].on_success == None::<EffectView>
                    &&& purchase_script(state, buyer, token_id).on_completion matches Some(EmissionView::Voucher(v))
                        && v.receiver == buyer && v.token_id == token_id && v.token == state.erc721_token
                        && v.application == state.app_address && v.value == 0
                },
                _ => false,
            }
        }),
{
}

/// An ERC-721 deposit first looks up the depositor's account, and the
/// deposit step credits exactly one of the deposited token (the asset of
/// that contract and id) to that account; accepting it records the
/// depositor as the owner. Only that step reports a refusal.
pub proof fn lemma_erc721_deposit_credits_depositor(input: AdvanceInput, run: RunView, action: ActionView)
    requires
        answers_erc721_deposit(input, run, action),
        input matches AdvanceInput::Erc721Deposit { .. },
    ensures
        match input {
            AdvanceInput::Erc721Deposit { token, sender, token_id } => {
                let steps = run.script.steps;
                &&& action == ActionView::Call(LedgerCallView::RetrieveAccount { address: sender@ })
                &&& steps.len() == 3
                &&& match steps[2].call {
                    LedgerCallView::Deposit { asset, account, amount } => {
                        &&& asset < 2 && account < 2
                        &&& steps[account as int].call == LedgerCallView::RetrieveAccount { address: sender@ }
                        &&& steps[asset as int].call == LedgerCallView::RetrieveErc721Asset {
                            token: token@,
                            token_id,
                        }
                        &&& amount == TokenAmount::Units(1)
                    },
                    _ => false,
                }
                &&& steps[2].on_success == Some(EffectView::RecordDeposit { token_id, depositor: sender@ })
                &&& steps[2].on_failure == Some(ReportView::DepositFailed)
                &&& steps[0].on_failure == None::<ReportView> && steps[1].on_failure == None::<ReportView>
                &&& steps[0].on_success == None::<EffectView> && steps[1].on_success == None::<EffectView>
            },
            _ => false,
        },
{
}

/// An ERC-20 deposit first looks up the depositor's account, and credits
/// the deposited amount of the token (looked up by its lowercase address)
/// to that account; the notice names the depositor and that asset. No
/// state change is committed.
pub proof fn lemma_erc20_deposit_credits_depositor(input: AdvanceInput, run: RunView, action: ActionView)
    requires
        answers_erc20_deposit(input, run, action),
        input matches AdvanceInput::Erc20Deposit { .. },
    ensures
        match input {
            AdvanceInput::Erc20Deposit { token, sender } => {
                let steps = run.script.steps;
                &&& action == ActionView::Call(LedgerCallView::RetrieveAccount { address: sender@ })
                &&& steps.len() == 3
                &&& match steps[2].call {
                    LedgerCallView::Deposit { asset, account, amount } => {
                        &&& asset < 2 && account < 2
                        &&& steps[account as int].call == LedgerCallView::RetrieveAccount { address: sender@ }
                        &&& steps[asset as int].call == LedgerCallView::RetrieveErc20Asset {
                            token: lowercase_of(token@),
                        }
                        &&& amount == TokenAmount::Deposited
                        &&& run.script.on_completion == Some(
                            EmissionView::Erc20Deposited { asset, depositor: sender@ },
                        )
                    },
                    _ => false,
                }
                &&& steps[2].on_failure == Some(ReportView::DepositFailed)
                &&& forall|k: int| 0 <= k < 3 ==> #[trigger] steps[k].on_success == None::<EffectView>
            },
            _ => false,
        },
{
}

/// A balance query looks up the account first. With an empty list of ids
/// it asks for the ERC-20 asset and its balance and ends with the ERC-20
/// report; with `n` ids it asks, for each id in order, for that token's
/// asset and then its balance in the account (`2n + 1` calls, never the
/// ERC-20 asset) and ends with the ERC-721 report; without a list it asks
/// for the account alone.
pub proof fn lemma_balance_queries(state: StorageView, token_ids: Option<usize>)
    ensures
        match inspect_answer(state, InspectRequest::Balance { token_ids }) {
            InspectAnswerView::Query { calls, report } => {
                &&& calls.len() >= 1 && calls[0] == InspectCall::RetrieveAccount
                &&& forall|k: int| 0 < k < calls.len() ==> #[trigger] calls[k] != InspectCall::RetrieveAccount
                &&& match token_ids {
                    None => calls.len() == 1 && report == None::<BalanceReport>,
                    Some(n) => if n == 0 {
                        &&& report == Some(BalanceReport::Erc20)
                        &&& calls.len() == 3
                        &&& calls[1] == InspectCall::RetrieveErc20Asset
                        &&& calls[2] == InspectCall::Balance { asset: 1, account: 0 }
                    } else {
                        &&& report == Some(BalanceReport::Erc721)
                        &&& calls.len() == 2 * n + 1
                        &&& !calls.contains(InspectCall::RetrieveErc20Asset)
                        &&& forall|k: int|
                            1 <= k < calls.len() ==> #[trigger] calls[k] == if k % 2 == 1 {
                                InspectCall::RetrieveErc721Asset { id_index: ((k - 1) / 2) as usize }
                            } else {
                                InspectCall::Balance { asset: (k - 1) as usize, account: 0 }
                            }
                    },
                }
            },
            _ => false,
        },
{
    match token_ids {
        Some(n) => if n > 0 {
            let calls = seq![InspectCall::RetrieveAccount] + crate::handlers::erc721_balance_calls(n as nat);
            assert forall|k: int| 1 <= k < calls.len() implies #[trigger] calls[k] == if k % 2 == 1 {
                InspectCall::RetrieveErc721Asset { id_index: ((k - 1) / 2) as usize }
            } else {
                InspectCall::Balance { asset: (k - 1) as usize, account: 0 }
            } by {
                assert(calls[k] == crate::handlers::erc721_balance_calls(n as nat)[k - 1]);
            }
            if calls.contains(InspectCall::RetrieveErc20Asset) {
                let k = choose|k: int| 0 <= k < calls.len() && calls[k] == InspectCall::RetrieveErc20Asset;
                assert(calls[k] == crate::handlers::erc721_balance_calls(n as nat)[k - 1]);
            }
            assert forall|k: int| 0 < k < calls.len() implies #[trigger] calls[k] != InspectCall::RetrieveAccount by {
                assert(calls[k] == crate::handlers::erc721_balance_calls(n as nat)[k - 1]);
            }
        },
        None => {},
    }
}

/// An inspect request that is not a balance query: an incompatible request
/// is answered with the tokens listed, in listing order; an undecodable one
/// with the invalid-inspect report; any other kind with nothing.
pub proof fn lemma_other_inspect_answers(state: StorageView)
    ensures
        inspect_answer(state, InspectRequest::Incompatible) == InspectAnswerView::Publish(
            ReportView::ListedTokens { tokens: state.listed_tokens },
        ),
        inspect_answer(state, InspectRequest::Undecodable) == InspectAnswerView::Publish(
            ReportView::InvalidInspect,
        ),
        inspect_answer(state, InspectRequest::OtherKind) == InspectAnswerView::Nothing,
{
}

/// A recorded deposit lists the token (appending it when it was not
/// listed) and makes the depositor's lowercase address its owner; nothing
/// else changes.
pub proof fn lemma_deposit_effect(state: StorageView, token_id: u128, depositor: Seq<char>)
    ensures
        ({
            let after = state.after_deposit(token_id, depositor);
            &&& after.listed_tokens.contains(token_id)
            &&& after.owners.contains_key(token_id) && after.owners[token_id] == lowercase_of(depositor)
            &&& state.listed_tokens.contains(token_id) ==> after.listed_tokens == state.listed_tokens
            &&& !state.listed_tokens.contains(token_id) ==> after.listed_tokens == state.listed_tokens.push(token_id)
            &&& forall|u: u128| u != token_id ==> (#[trigger] after.owners.contains_key(u) == state.owners.contains_key(u)
                && after.owners[u] == state.owners[u])
            &&& after.owners.dom() == state.owners.dom().insert(token_id)
            &&& after.erc721_portal_address == state.erc721_portal_address
            &&& after.erc20_portal_address == state.erc20_portal_address
            &&& after.erc721_token == state.erc721_token && after.erc20_token == state.erc20_token
            &&& after.app_address == state.app_address && after.list_price == state.list_price
        }),
{
    let after = state.after_deposit(token_id, depositor);
    if !state.listed_tokens.contains(token_id) {
        assert(after.listed_tokens[state.listed_tokens.len() as int] == token_id);
    }
    assert(after.owners.dom() =~= state.owners.dom().insert(token_id));
}

/// A committed sale unlists the token, keeping the order of the others,
/// and makes the zero address the owner of a token that had an owner; no
/// owner is added or removed, and nothing else changes.
pub proof fn lemma_sale_effect(state: StorageView, token_id: u128)
    requires
        state.well_formed(),
    ensures
        ({
            let after = state.after_sale(token_id);
            &&& !after.listed_tokens.contains(token_id)
            &&& forall|u: u128| u != token_id ==> (#[trigger] after.listed_tokens.contains(u)
                == state.listed_tokens.contains(u))
            &&& after.listed_tokens.len() <= state.listed_tokens.len()
            &&& after.owners.dom() == state.owners.dom()
            &&& state.owners.contains_key(token_id) ==> after.owners[token_id] == zero_address()
            &&& forall|u: u128| u != token_id && #[trigger] state.owners.contains_key(u) ==> after.owners[u]
                == state.owners[u]
            &&& after.erc721_portal_address == state.erc721_portal_address
            &&& after.erc20_portal_address == state.erc20_portal_address
            &&& after.erc721_token == state.erc721_token && after.erc20_token == state.erc20_token
            &&& after.app_address == state.app_address && after.list_price == state.list_price
        }),
{
    let after = state.after_sale(token_id);
    let pred = crate::storage::other_than(token_id);
    state.listed_tokens.lemma_filter_len(pred);
    if after.listed_tokens.contains(token_id) {
        let i = choose|i: int| 0 <= i < after.listed_tokens.len() && after.listed_tokens[i] == token_id;
        state.listed_tokens.lemma_filter_pred(pred, i);
    }
    assert forall|u: u128| u != token_id implies (#[trigger] after.listed_tokens.contains(u)
        == state.listed_tokens.contains(u)) by {
        if after.listed_tokens.contains(u) {
            state.listed_tokens.lemma_filter_contains_rev(pred, u);
        }
        if state.listed_tokens.contains(u) {
            let i = choose|i: int| 0 <= i < state.listed_tokens.len() && state.listed_tokens[i] == u;
            state.listed_tokens.lemma_filter_contains(pred, i);
        }
    }
    assert(after.owners.dom() =~= state.owners.dom());
}

/// The decoder chosen for a sender depends only on the sender's lowercase
/// form.
pub proof fn lemma_routing_ignores_case(state: StorageView, sender: Seq<char>, other: Seq<char>)
    requires
        lowercase_of(sender) == lowercase_of(other),
    ensures
        input_kind_for(state, sender) == input_kind_for(state, other),
{
}

/// A sender equal to the ERC-721 portal up to letter case is read as an
/// ERC-721 deposit; one equal to the ERC-20 portal (and not the ERC-721
/// portal) up to letter case as an ERC-20 deposit; any other sender is
/// left to the decoder.
pub proof fn lemma_routing_by_portal(state: StorageView, sender: Seq<char>)
    ensures
        lowercase_of(sender) == lowercase_of(state.erc721_portal_address) ==> input_kind_for(state, sender)
            == InputKind::Erc721Deposit,
        lowercase_of(sender) != lowercase_of(state.erc721_portal_address) && lowercase_of(sender)
            == lowercase_of(state.erc20_portal_address) ==> input_kind_for(state, sender)
            == InputKind::Erc20Deposit,
        lowercase_of(sender) != lowercase_of(state.erc721_portal_address) && lowercase_of(sender)
            != lowercase_of(state.erc20_portal_address) ==> input_kind_for(state, sender) == InputKind::Auto,
        input_kind_for(state, state.erc20_portal_address) != InputKind::Auto,
{
}

/// A recorded deposit can be committed exactly for the ids whose high 128
/// bits are zero, id 0 included; other effects can always be committed.
pub proof fn lemma_deposit_effect_defined(token_id: TokenId, depositor: Seq<char>, sold: u128)
    ensures
        effect_defined(Some(EffectView::RecordDeposit { token_id, depositor })) <==> token_id.high == 0,
        effect_defined(Some(EffectView::CompleteSale { token_id: sold })),
        effect_defined(None),
{
}

} // verus!
