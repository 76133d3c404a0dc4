//! The conversation between a marketplace handler and the asset ledger.
//!
//! A handler answers an input with a [`Script`]: the ledger calls to make in
//! order, what to report when one of them fails, which change of the
//! marketplace state a success commits, and what to emit once all have
//! succeeded. A [`Run`] walks a script one reply at a time; whoever holds
//! the ledger performs each [`Action::Call`] and hands back a [`Reply`].
//!
//! The ids that the three kinds of lookup produce are kept by whoever holds
//! the ledger, under the position of the lookup in the script; the
//! operations that use them name those positions.
use vstd::prelude::*;

use crate::abi::ArgsError;
use crate::storage::{Storage, StorageView};
use crate::text::{format_list, list_text};
use vstd::string::*;

verus! {

/// How many units a ledger operation moves.
#[derive(Debug, Clone, Copy, PartialEq, Eq)]
pub enum TokenAmount {
    /// A fixed number of units.
    Units(u128),
    /// The amount that the deposit input carries.
    Deposited,
}

/// A 256-bit token id, as its high and low 128-bit halves.
#[derive(Debug, Clone, Copy, PartialEq, Eq)]
pub struct TokenId {
    pub high: u128,
    pub low: u128,
}

impl TokenId {
    /// The id of a token whose number fits in 128 bits.
    pub open spec fn small(id: u128) -> TokenId {
        TokenId { high: 0, low: id }
    }
}

/// One call to the asset ledger.
#[derive(Debug)]
pub enum LedgerCall {
    /// The account of a wallet address.
    RetrieveAccount { address: String },
    /// The asset of an ERC-20 token contract.
    RetrieveErc20Asset { token: String },
    /// The asset of one token of an ERC-721 contract.
    RetrieveErc721Asset { token: String, token_id: TokenId },
    /// Credit `amount` of the asset found at position `asset` to the account found at position `account`.
    Deposit { asset: usize, account: usize, amount: TokenAmount },
    /// Move `amount` of an asset between two accounts.
    Transfer { asset: usize, from: usize, to: usize, amount: TokenAmount },
    /// Take `amount` of an asset out of an account, for withdrawal.
    Withdraw { asset: usize, account: usize, amount: TokenAmount },
}

pub enum LedgerCallView {
    RetrieveAccount { address: Seq<char> },
    RetrieveErc20Asset { token: Seq<char> },
    RetrieveErc721Asset { token: Seq<char>, token_id: TokenId },
    Deposit { asset: usize, account: usize, amount: TokenAmount },
    Transfer { asset: usize, from: usize, to: usize, amount: TokenAmount },
    Withdraw { asset: usize, account: usize, amount: TokenAmount },
}

impl View for LedgerCall {
    type V = LedgerCallView;

    open spec fn view(&self) -> LedgerCallView {
        match self {
            LedgerCall::RetrieveAccount { address } => LedgerCallView::RetrieveAccount { address: address@ },
            LedgerCall::RetrieveErc20Asset { token } => LedgerCallView::RetrieveErc20Asset { token: token@ },
            LedgerCall::RetrieveErc721Asset { token, token_id } => LedgerCallView::RetrieveErc721Asset {
                token: token@,
                token_id: *token_id,
            },
            LedgerCall::Deposit { asset, account, amount } => LedgerCallView::Deposit {
                asset: *asset,
                account: *account,
                amount: *amount,
            },
            LedgerCall::Transfer { asset, from, to, amount } => LedgerCallView::Transfer {
                asset: *asset,
                from: *from,
                to: *to,
                amount: *amount,
            },
            LedgerCall::Withdraw { asset, account, amount } => LedgerCallView::Withdraw {
                asset: *asset,
                account: *account,
                amount: *amount,
            },
        }
    }
}

impl LedgerCall {
    /// A copy of the call.
    pub fn duplicate(&self) -> (r: LedgerCall)
        ensures
            r@ == self@,
    {
        match self {
            LedgerCall::RetrieveAccount { address } => LedgerCall::RetrieveAccount { address: address.clone() },
            LedgerCall::RetrieveErc20Asset { token } => LedgerCall::RetrieveErc20Asset { token: token.clone() },
            LedgerCall::RetrieveErc721Asset { token, token_id } => LedgerCall::RetrieveErc721Asset {
                token: token.clone(),
                token_id: *token_id,
            },
            LedgerCall::Deposit { asset, account, amount } => LedgerCall::Deposit {
                asset: *asset,
                account: *account,
                amount: *amount,
            },
            LedgerCall::Transfer { asset, from, to, amount } => LedgerCall::Transfer {
                asset: *asset,
                from: *from,
                to: *to,
                amount: *amount,
            },
            LedgerCall::Withdraw { asset, account, amount } => LedgerCall::Withdraw {
                asset: *asset,
                account: *account,
                amount: *amount,
            },
        }
    }
}

/// A report that the rollup publishes.
#[derive(Debug)]
pub enum Report {
    /// An ERC-20 deposit input that does not carry ERC-20 deposit data.
    InvalidErc20Input,
    /// An ERC-721 deposit input that does not carry ERC-721 deposit data.
    InvalidErc721Input,
    /// The ledger refused a deposit (its error text follows).
    DepositFailed,
    /// A purchase of a token that is not listed.
    TokenNotListed,
    /// A purchase that the ledger refused at some step.
    PurchaseFailed,
    /// An application call whose selector the marketplace does not know.
    UnsupportedMethod { selector: String },
    /// An advance input that could not be decoded (the decoder's error follows).
    AdvanceDecodeFailed,
    /// The answer to an inspect input that is not a balance query: the listed tokens.
    ListedTokens { tokens: Vec<u128> },
    /// An inspect input that could not be decoded.
    InvalidInspect,
}

pub enum ReportView {
    InvalidErc20Input,
    InvalidErc721Input,
    DepositFailed,
    TokenNotListed,
    PurchaseFailed,
    UnsupportedMethod { selector: Seq<char> },
    AdvanceDecodeFailed,
    ListedTokens { tokens: Seq<u128> },
    InvalidInspect,
}

impl View for Report {
    type V = ReportView;

    open spec fn view(&self) -> ReportView {
        match self {
            Report::InvalidErc20Input => ReportView::InvalidErc20Input,
            Report::InvalidErc721Input => ReportView::InvalidErc721Input,
            Report::DepositFailed => ReportView::DepositFailed,
            Report::TokenNotListed => ReportView::TokenNotListed,
            Report::PurchaseFailed => ReportView::PurchaseFailed,
            Report::UnsupportedMethod { selector } => ReportView::UnsupportedMethod { selector: selector@ },
            Report::AdvanceDecodeFailed => ReportView::AdvanceDecodeFailed,
            Report::ListedTokens { tokens } => ReportView::ListedTokens { tokens: tokens@ },
            Report::InvalidInspect => ReportView::InvalidInspect,
        }
    }
}

impl Report {
    /// A copy of the report.
    pub fn duplicate(&self) -> (r: Report)
        ensures
            r@ == self@,
    {
        match self {
            Report::InvalidErc20Input => Report::InvalidErc20Input,
            Report::InvalidErc721Input => Report::InvalidErc721Input,
            Report::DepositFailed => Report::DepositFailed,
            Report::TokenNotListed => Report::TokenNotListed,
            Report::PurchaseFailed => Report::PurchaseFailed,
            Report::UnsupportedMethod { selector } => Report::UnsupportedMethod { selector: selector.clone() },
            Report::AdvanceDecodeFailed => Report::AdvanceDecodeFailed,
            Report::ListedTokens { tokens } => Report::ListedTokens { tokens: tokens.clone() },
            Report::InvalidInspect => Report::InvalidInspect,
        }
    }
}

/// The text of a report; `detail` is the ledger's or the decoder's error,
/// where the report carries one.
pub open spec fn report_text(report: ReportView, detail: Seq<char>) -> Seq<char> {
    match report {
        ReportView::InvalidErc20Input => "Invalid input data for ERC20 deposit"@,
        ReportView::InvalidErc721Input => "Invalid input data for ERC721 deposit"@,
        ReportView::DepositFailed => "Error depositing token:: "@ + detail,
        ReportView::TokenNotListed => "TOKEN NOT LISTED FOR SALE!!"@,
        ReportView::PurchaseFailed => "Failed to purchase token"@,
        ReportView::UnsupportedMethod { selector } => "Unsupported application-defined method: "@ + selector,
        ReportView::AdvanceDecodeFailed => "Error decoding advance request: "@ + detail,
        ReportView::ListedTokens { tokens } => "All listed tokens are: "@ + list_text(tokens),
        ReportView::InvalidInspect => "Invalid inspect request received"@,
    }
}

impl Report {
    /// The text that the report publishes.
    pub fn text(&self, detail: &str) -> (r: String)
        ensures
            r@ == report_text(self@, detail@),
    {
        match self {
            Report::InvalidErc20Input => String::from_str("Invalid input data for ERC20 deposit"),
            Report::InvalidErc721Input => String::from_str("Invalid input data for ERC721 deposit"),
            Report::DepositFailed => String::from_str("Error depositing token:: ").concat(detail),
            Report::TokenNotListed => String::from_str("TOKEN NOT LISTED FOR SALE!!"),
            Report::PurchaseFailed => String::from_str("Failed to purchase token"),
            Report::UnsupportedMethod { selector } => String::from_str(
                "Unsupported application-defined method: ",
            ).concat(selector.as_str()),
            Report::AdvanceDecodeFailed => String::from_str("Error decoding advance request: ").concat(detail),
            Report::ListedTokens { tokens } => {
                let list = format_list(tokens);
                String::from_str("All listed tokens are: ").concat(list.as_str())
            },
            Report::InvalidInspect => String::from_str("Invalid inspect request received"),
        }
    }
}

/// What a refused call publishes: its failure report, if it has one.
pub open spec fn failure_emission(report: Option<ReportView>) -> Option<EmissionView> {
    match report {
        Some(r) => Some(EmissionView::Report(r)),
        None => None,
    }
}

/// The fields of an ERC-721 withdrawal voucher.
#[derive(Debug)]
pub struct Erc721Voucher {
    pub token: String,
    pub token_id: u128,
    pub receiver: String,
    pub value: u128,
    pub application: String,
}

pub struct Erc721VoucherView {
    pub token: Seq<char>,
    pub token_id: u128,
    pub receiver: Seq<char>,
    pub value: u128,
    pub application: Seq<char>,
}

impl View for Erc721Voucher {
    type V = Erc721VoucherView;

    open spec fn view(&self) -> Erc721VoucherView {
        Erc721VoucherView {
            token: self.token@,
            token_id: self.token_id,
            receiver: self.receiver@,
            value: self.value,
            application: self.application@,
        }
    }
}

/// What the rollup publishes when a handler is done.
#[derive(Debug)]
pub enum Emission {
    Report(Report),
    /// The notice of an ERC-20 deposit: the asset found at position `asset`, and the depositor.
    Erc20Deposited { asset: usize, depositor: String },
    /// A voucher that hands an ERC-721 token out.
    Voucher(Erc721Voucher),
}

pub enum EmissionView {
    Report(ReportView),
    Erc20Deposited { asset: usize, depositor: Seq<char> },
    Voucher(Erc721VoucherView),
}

impl View for Emission {
    type V = EmissionView;

    open spec fn view(&self) -> EmissionView {
        match self {
            Emission::Report(r) => EmissionView::Report(r@),
            Emission::Erc20Deposited { asset, depositor } => EmissionView::Erc20Deposited {
                asset: *asset,
                depositor: depositor@,
            },
            Emission::Voucher(v) => EmissionView::Voucher(v@),
        }
    }
}

/// A change of the marketplace state that a successful ledger call commits.
#[derive(Debug)]
pub enum Effect {
    /// A deposited token becomes listed and owned by its depositor (its id
    /// must fit in 128 bits).
    RecordDeposit { token_id: TokenId, depositor: String },
    /// A sold token is unlisted and its owner becomes the zero address.
    CompleteSale { token_id: u128 },
}

pub enum EffectView {
    RecordDeposit { token_id: TokenId, depositor: Seq<char> },
    CompleteSale { token_id: u128 },
}

impl View for Effect {
    type V = EffectView;

    open spec fn view(&self) -> EffectView {
        match self {
            Effect::RecordDeposit { token_id, depositor } => EffectView::RecordDeposit {
                token_id: *token_id,
                depositor: depositor@,
            },
            Effect::CompleteSale { token_id } => EffectView::CompleteSale { token_id: *token_id },
        }
    }
}

/// The marketplace state after an effect, if any.
pub open spec fn apply_effect(state: StorageView, effect: Option<EffectView>) -> StorageView {
    match effect {
        None => state,
        Some(EffectView::RecordDeposit { token_id, depositor }) => state.after_deposit(token_id.low, depositor),
        Some(EffectView::CompleteSale { token_id }) => state.after_sale(token_id),
    }
}

/// The marketplace state after the effects of the first `k` steps of a
/// script, applied in order: what a run commits once `k` calls were accepted.
pub open spec fn effects_through(state: StorageView, steps: Seq<ScriptStepView>, k: nat) -> StorageView
    decreases k,
{
    if k == 0 {
        state
    } else {
        apply_effect(effects_through(state, steps, (k - 1) as nat), steps[k - 1].on_success)
    }
}

/// An effect can be committed: a recorded deposit needs an id that fits in
/// 128 bits.
pub open spec fn effect_defined(effect: Option<EffectView>) -> bool {
    match effect {
        Some(EffectView::RecordDeposit { token_id, .. }) => token_id.high == 0,
        _ => true,
    }
}

/// One ledger call of a script.
#[derive(Debug)]
pub struct ScriptStep {
    pub call: LedgerCall,
    /// Published when the ledger refuses the call.
    pub on_failure: Option<Report>,
    /// Committed when the ledger accepts the call.
    pub on_success: Option<Effect>,
}

pub struct ScriptStepView {
    pub call: LedgerCallView,
    pub on_failure: Option<ReportView>,
    pub on_success: Option<EffectView>,
}

pub open spec fn option_view<T: View>(o: Option<T>) -> Option<T::V> {
    match o {
        Some(t) => Some(t@),
        None => None,
    }
}

impl View for ScriptStep {
    type V = ScriptStepView;

    open spec fn view(&self) -> ScriptStepView {
        ScriptStepView {
            call: self.call@,
            on_failure: option_view(self.on_failure),
            on_success: option_view(self.on_success),
        }
    }
}

/// The ledger calls that answer one input.
#[derive(Debug)]
pub struct Script {
    pub steps: Vec<ScriptStep>,
    /// Published once every call has been accepted.
    pub on_completion: Option<Emission>,
}

pub struct ScriptView {
    pub steps: Seq<ScriptStepView>,
    pub on_completion: Option<EmissionView>,
}

impl View for Script {
    type V = ScriptView;

    open spec fn view(&self) -> ScriptView {
        ScriptView {
            steps: self.steps@.map_values(|s: ScriptStep| s@),
            on_completion: option_view(self.on_completion),
        }
    }
}

/// How a handler ended.
#[derive(Debug, Clone, Copy, PartialEq, Eq)]
pub enum Outcome {
    /// Every step was taken.
    Completed,
    /// The input needs nothing of the marketplace.
    Ignored,
    /// The ledger refused a call.
    LedgerRefused,
    /// The input does not carry the data its type promises.
    InvalidInput,
    /// The input could not be decoded.
    Undecodable,
    /// The arguments of an application call could not be read.
    BadArguments(ArgsError),
    /// The token to buy is not listed.
    NotListed,
    /// The application call is not one the marketplace knows.
    UnsupportedMethod,
}

/// What the holder of the ledger is asked to do next.
#[derive(Debug)]
pub enum Action {
    /// Perform this ledger call and reply whether it was accepted.
    Call(LedgerCall),
    /// The handler is done; publish `emission`, if any.
    Finish { outcome: Outcome, emission: Option<Emission> },
}

pub enum ActionView {
    Call(LedgerCallView),
    Finish { outcome: Outcome, emission: Option<EmissionView> },
}

impl View for Action {
    type V = ActionView;

    open spec fn view(&self) -> ActionView {
        match self {
            Action::Call(c) => ActionView::Call(c@),
            Action::Finish { outcome, emission } => ActionView::Finish {
                outcome: *outcome,
                emission: option_view(*emission),
            },
        }
    }
}

/// The ledger's answer to a call.
#[derive(Debug, Clone, Copy, PartialEq, Eq)]
pub enum Reply {
    Accepted,
    Refused,
}

/// A script being walked.
pub struct Run {
    script: Script,
    position: usize,
    finished: bool,
}

pub struct RunView {
    pub script: ScriptView,
    pub position: nat,
    pub finished: bool,
}

impl View for Run {
    type V = RunView;

    closed spec fn view(&self) -> RunView {
        RunView { script: self.script@, position: self.position as nat, finished: self.finished }
    }
}

impl RunView {
    /// The run waits for the reply to the call at `position`.
    pub open spec fn waiting(self) -> bool {
        !self.finished && self.position < self.script.steps.len()
    }
}

impl Run {
    /// A run that ended before any ledger call.
    pub fn finished_with(outcome: Outcome, emission: Option<Emission>) -> (r: (Run, Action))
        ensures
            r.0@.finished,
            r.1@ == (ActionView::Finish { outcome, emission: option_view(emission) }),
    {
        let run = Run { script: Script { steps: Vec::new(), on_completion: None }, position: 0, finished: true };
        (run, Action::Finish { outcome, emission })
    }

    /// Starts a script: its first call, or, for a script without calls, its end.
    pub fn start(script: Script) -> (r: (Run, Action))
        ensures
            r.0@.position == 0,
            script@.steps.len() > 0 ==> r.0@.script == script@ && r.0@.waiting() && r.1@ == ActionView::Call(
                script@.steps[0].call,
            ),
            script@.steps.len() == 0 ==> r.0@.finished && r.1@ == (ActionView::Finish {
                outcome: Outcome::Completed,
                emission: script@.on_completion,
            }),
    {
        if script.steps.len() == 0 {
            let Script { steps, on_completion } = script;
            let run = Run { script: Script { steps, on_completion: None }, position: 0, finished: true };
            (run, Action::Finish { outcome: Outcome::Completed, emission: on_completion })
        } else {
            let first = script.steps[0].call.duplicate();
            (Run { script, position: 0, finished: false }, Action::Call(first))
        }
    }

    /// Whether the pending call's effect can be committed if the ledger
    /// accepts the call.
    pub fn acceptance_defined(&self) -> (r: bool)
        requires
            self@.waiting(),
        ensures
            r == effect_defined(self@.script.steps[self@.position as int].on_success),
    {
        let pos = self.position;
        assert(self.script.steps@[pos as int]@ == self@.script.steps[pos as int]);
        match &self.script.steps[pos].on_success {
            Some(Effect::RecordDeposit { token_id, .. }) => token_id.high == 0,
            _ => true,
        }
    }

    /// Takes the ledger's reply to the pending call. A refusal ends the run
    /// with the call's failure report and leaves the state as it was; an
    /// acceptance commits the call's effect and moves on to the next call,
    /// or, after the last one, ends the run with the script's completion.
    pub fn step(&mut self, storage: &mut Storage, reply: Reply) -> (r: Action)
        requires
            old(self)@.waiting(),
            reply == Reply::Accepted ==> effect_defined(old(self)@.script.steps[old(self)@.position as int].on_success),
        ensures
            final(storage)@.well_formed(),
            final(self)@.script.steps == old(self)@.script.steps,
            ({
                let pos = old(self)@.position;
                let current = old(self)@.script.steps[pos as int];
                let len = old(self)@.script.steps.len();
                match reply {
                    Reply::Refused => {
                        &&& final(self)@.finished
                        &&& final(storage)@ == old(storage)@
                        &&& r@ == (ActionView::Finish {
                            outcome: Outcome::LedgerRefused,
                            emission: failure_emission(current.on_failure),
                        })
                    },
                    Reply::Accepted => {
                        &&& final(storage)@ == apply_effect(old(storage)@, current.on_success)
                        &&& final(self)@.position == pos + 1
                        &&& pos + 1 < len ==> final(self)@.script == old(self)@.script && final(self)@.waiting() && r@ == ActionView::Call(
                            old(self)@.script.steps[pos + 1int].call,
                        )
                        &&& pos + 1 == len ==> final(self)@.finished && r@ == (ActionView::Finish {
                            outcome: Outcome::Completed,
                            emission: old(self)@.script.on_completion,
                        })
                    },
                }
            }),
    {
        proof {
            use_type_invariant(&*storage);
        }
        let pos = self.position;
        let ghost steps = self.script@.steps;
        assert(self.script.steps@[pos as int]@ == steps[pos as int]);
        assert(pos < self.script.steps.len());
        match reply {
            Reply::Refused => {
                self.finished = true;
                let emission = match &self.script.steps[pos].on_failure {
                    Some(report) => Some(Emission::Report(report.duplicate())),
                    None => None,
                };
                Action::Finish { outcome: Outcome::LedgerRefused, emission }
            },
            Reply::Accepted => {
                match &self.script.steps[pos].on_success {
                    Some(Effect::RecordDeposit { token_id, depositor }) => {
                        storage.record_erc721_deposit(token_id.low, depositor.as_str());
                    },
                    Some(Effect::CompleteSale { token_id }) => {
                        storage.complete_sale(*token_id);
                    },
                    None => {},
                }
                self.position = pos + 1;
                if pos + 1 < self.script.steps.len() {
                    assert(self.script.steps@[pos + 1]@ == steps[pos + 1]);
                    Action::Call(self.script.steps[pos + 1].call.duplicate())
                } else {
                    self.finished = true;
                    let emission = self.script.on_completion.take();
                    Action::Finish { outcome: Outcome::Completed, emission }
                }
            },
        }
    }
}

} // verus!
