//! Chainhooks: what a subscriber registers. A chainhook names itself, says
//! which transactions it is after (its predicate) and what is to be done with
//! them (its action).

use vstd::prelude::*;

verus! {

/// How a piece of text is compared with a target.
#[derive(Debug, PartialEq, Eq)]
pub enum MatchingRule {
    Equals(String),
    StartsWith(String),
    EndsWith(String),
}

/// The view of `MatchingRule`.
pub enum MatchingRuleView {
    Equals(Seq<char>),
    StartsWith(Seq<char>),
    EndsWith(Seq<char>),
}

impl View for MatchingRule {
    type V = MatchingRuleView;

    open spec fn view(&self) -> MatchingRuleView {
        match self {
            MatchingRule::Equals(target) => MatchingRuleView::Equals(target@),
            MatchingRule::StartsWith(prefix) => MatchingRuleView::StartsWith(prefix@),
            MatchingRule::EndsWith(suffix) => MatchingRuleView::EndsWith(suffix@),
        }
    }
}

/// A comparison that only knows equality. Its view is the target.
#[derive(Debug, PartialEq, Eq)]
pub enum ExactMatchingRule {
    Equals(String),
}

impl View for ExactMatchingRule {
    type V = Seq<char>;

    open spec fn view(&self) -> Seq<char> {
        match self {
            ExactMatchingRule::Equals(target) => target@,
        }
    }
}

/// What is asked of a burn commitment: that there is one.
#[derive(Clone, Copy, Debug, PartialEq, Eq, Structural)]
pub enum PobPredicate {
    Any,
}

/// What is asked of a reward commitment: that there is one, or that one
/// pays a recipient that meets a rule.
#[derive(Debug, PartialEq, Eq)]
pub enum PoxPredicate {
    Any,
    Recipient(MatchingRule),
}

/// What is asked of a key registration: that there is one.
#[derive(Clone, Copy, Debug, PartialEq, Eq, Structural)]
pub enum KeyRegistrationPredicate {
    Any,
}

/// What is asked of a transfer: that there is one.
#[derive(Clone, Copy, Debug, PartialEq, Eq, Structural)]
pub enum TransferSTXPredicate {
    Any,
}

/// What is asked of a lock: that there is one.
#[derive(Clone, Copy, Debug, PartialEq, Eq, Structural)]
pub enum LockSTXPredicate {
    Any,
}

/// The kinds of predicate.
#[derive(Debug, PartialEq, Eq)]
pub enum BitcoinPredicateType {
    TransactionIdentifierHash(ExactMatchingRule),
    OpReturn(MatchingRule),
    P2pkh(ExactMatchingRule),
    P2sh(ExactMatchingRule),
    P2wpkh(ExactMatchingRule),
    P2wsh(ExactMatchingRule),
    Pob(PobPredicate),
    Pox(PoxPredicate),
    KeyRegistration(KeyRegistrationPredicate),
    TransferSTX(TransferSTXPredicate),
    LockSTX(LockSTXPredicate),
}

/// A predicate as the contracts see it: one variant for each condition that
/// a transaction can be held to.
pub enum BitcoinPredicateView {
    TransactionIdentifierHash(Seq<char>),
    OpReturn(MatchingRuleView),
    P2pkh(Seq<char>),
    P2sh(Seq<char>),
    P2wpkh(Seq<char>),
    P2wsh(Seq<char>),
    PobAny,
    PoxAny,
    PoxRecipient(MatchingRuleView),
    KeyRegistrationAny,
    TransferSTXAny,
    LockSTXAny,
}

impl View for BitcoinPredicateType {
    type V = BitcoinPredicateView;

    open spec fn view(&self) -> BitcoinPredicateView {
        match self {
            BitcoinPredicateType::TransactionIdentifierHash(rule) => {
                BitcoinPredicateView::TransactionIdentifierHash(rule@)
            },
            BitcoinPredicateType::OpReturn(rule) => BitcoinPredicateView::OpReturn(rule@),
            BitcoinPredicateType::P2pkh(rule) => BitcoinPredicateView::P2pkh(rule@),
            BitcoinPredicateType::P2sh(rule) => BitcoinPredicateView::P2sh(rule@),
            BitcoinPredicateType::P2wpkh(rule) => BitcoinPredicateView::P2wpkh(rule@),
            BitcoinPredicateType::P2wsh(rule) => BitcoinPredicateView::P2wsh(rule@),
            BitcoinPredicateType::Pob(PobPredicate::Any) => BitcoinPredicateView::PobAny,
            BitcoinPredicateType::Pox(PoxPredicate::Any) => BitcoinPredicateView::PoxAny,
            BitcoinPredicateType::Pox(PoxPredicate::Recipient(rule)) => {
                BitcoinPredicateView::PoxRecipient(rule@)
            },
            BitcoinPredicateType::KeyRegistration(KeyRegistrationPredicate::Any) => {
                BitcoinPredicateView::KeyRegistrationAny
            },
            BitcoinPredicateType::TransferSTX(TransferSTXPredicate::Any) => {
                BitcoinPredicateView::TransferSTXAny
            },
            BitcoinPredicateType::LockSTX(LockSTXPredicate::Any) => {
                BitcoinPredicateView::LockSTXAny
            },
        }
    }
}

/// The predicate of a chainhook. Its view is that of its kind.
#[derive(Debug, PartialEq, Eq)]
pub struct BitcoinTransactionFilterPredicate {
    pub kind: BitcoinPredicateType,
}

impl View for BitcoinTransactionFilterPredicate {
    type V = BitcoinPredicateView;

    open spec fn view(&self) -> BitcoinPredicateView {
        self.kind@
    }
}

/// Where and how to call when a chainhook triggers.
#[derive(Debug, PartialEq, Eq)]
pub struct HttpHook {
    pub url: String,
    pub method: String,
    pub authorization_header: String,
}

/// The file that takes the payload when a chainhook triggers.
#[derive(Debug, PartialEq, Eq)]
pub struct FileHook {
    pub path: String,
}

/// What is to be done when a chainhook triggers.
#[derive(Debug, PartialEq, Eq)]
pub enum HookAction {
    Http(HttpHook),
    File(FileHook),
    Noop,
}

/// The view of `HookAction`.
pub enum HookActionView {
    Http { url: Seq<char>, method: Seq<char>, authorization_header: Seq<char> },
    File { path: Seq<char> },
    Noop,
}

impl View for HookAction {
    type V = HookActionView;

    open spec fn view(&self) -> HookActionView {
        match self {
            HookAction::Http(http) => HookActionView::Http {
                url: http.url@,
                method: http.method@,
                authorization_header: http.authorization_header@,
            },
            HookAction::File(disk) => HookActionView::File { path: disk.path@ },
            HookAction::Noop => HookActionView::Noop,
        }
    }
}

/// A chainhook.
#[derive(Debug, PartialEq, Eq)]
pub struct BitcoinChainhookSpecification {
    pub uuid: String,
    pub predicate: BitcoinTransactionFilterPredicate,
    pub action: HookAction,
}

/// The view of `BitcoinChainhookSpecification`.
pub struct BitcoinChainhookView {
    pub uuid: Seq<char>,
    pub predicate: BitcoinPredicateView,
    pub action: HookActionView,
}

impl View for BitcoinChainhookSpecification {
    type V = BitcoinChainhookView;

    open spec fn view(&self) -> BitcoinChainhookView {
        BitcoinChainhookView {
            uuid: self.uuid@,
            predicate: self.predicate@,
            action: self.action@,
        }
    }
}

} // verus!
