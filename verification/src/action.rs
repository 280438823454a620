//! From a trigger to the occurrence that the caller delivers.
//!
//! An occurrence is a description: the request to send, the file to write,
//! or the data to hand on. Nothing is sent or written here.

use crate::chain::{
    BitcoinTransactionData,
    BitcoinTransactionView,
    BlockIdentifier,
    BlockIdentifierView,
};
use crate::chainhook::{FileHook, HookAction, HookActionView, HttpHook};
use crate::error::ChainhookError;
use crate::evaluation::{entries_view, BitcoinTriggerChainhook, BitcoinTriggerView, EntryView};
use crate::json::{json_bytes, json_to_vec};
use crate::lookup::ProofLookup;
use crate::payload::{payload_json, serialize_bitcoin_payload_to_json, CONFIRMATIONS};
use crate::matching::text_bytes;
use vstd::prelude::*;
use vstd::slice::slice_to_vec;

verus! {

/// Makes `reqwest::Method` known as a type. Nothing is said of its values.
#[verifier::external_type_specification]
#[verifier::external_body]
pub struct ExHttpMethod(reqwest::Method);

/// A transaction to apply, as an in-process consumer gets it.
#[derive(Debug, PartialEq, Eq)]
pub struct BitcoinApplyTransactionPayload {
    pub transaction: BitcoinTransactionData,
    pub block_identifier: BlockIdentifier,
    pub confirmations: u8,
    pub proof: Option<Vec<u8>>,
}

/// The view of `BitcoinApplyTransactionPayload`.
pub struct BitcoinApplyTransactionPayloadView {
    pub transaction: BitcoinTransactionView,
    pub block_identifier: BlockIdentifierView,
    pub confirmations: u8,
    pub proof: Option<Seq<u8>>,
}

impl View for BitcoinApplyTransactionPayload {
    type V = BitcoinApplyTransactionPayloadView;

    open spec fn view(&self) -> BitcoinApplyTransactionPayloadView {
        BitcoinApplyTransactionPayloadView {
            transaction: self.transaction@,
            block_identifier: self.block_identifier@,
            confirmations: self.confirmations,
            proof: match self.proof {
                Some(bytes) => Some(bytes@),
                None => None,
            },
        }
    }
}

impl Clone for BitcoinApplyTransactionPayload {
    fn clone(&self) -> (copy: Self)
        ensures
            copy@ == self@,
    {
        BitcoinApplyTransactionPayload {
            transaction: self.transaction.clone(),
            block_identifier: self.block_identifier.clone(),
            confirmations: self.confirmations,
            proof: match &self.proof {
                Some(bytes) => Some(slice_to_vec(bytes.as_slice())),
                None => None,
            },
        }
    }
}

/// A transaction to roll back, as an in-process consumer gets it.
#[derive(Debug, PartialEq, Eq)]
pub struct BitcoinRollbackTransactionPayload {
    pub transaction: BitcoinTransactionData,
    pub block_identifier: BlockIdentifier,
    pub confirmations: u8,
}

/// The view of `BitcoinRollbackTransactionPayload`.
pub struct BitcoinRollbackTransactionPayloadView {
    pub transaction: BitcoinTransactionView,
    pub block_identifier: BlockIdentifierView,
    pub confirmations: u8,
}

impl View for BitcoinRollbackTransactionPayload {
    type V = BitcoinRollbackTransactionPayloadView;

    open spec fn view(&self) -> BitcoinRollbackTransactionPayloadView {
        BitcoinRollbackTransactionPayloadView {
            transaction: self.transaction@,
            block_identifier: self.block_identifier@,
            confirmations: self.confirmations,
        }
    }
}

impl Clone for BitcoinRollbackTransactionPayload {
    fn clone(&self) -> (copy: Self)
        ensures
            copy@ == self@,
    {
        BitcoinRollbackTransactionPayload {
            transaction: self.transaction.clone(),
            block_identifier: self.block_identifier.clone(),
            confirmations: self.confirmations,
        }
    }
}

/// The chainhook that an occurrence stems from. Its view is the name of the
/// chainhook.
#[derive(Debug, PartialEq, Eq)]
pub struct BitcoinChainhookPayload {
    pub uuid: String,
}

impl View for BitcoinChainhookPayload {
    type V = Seq<char>;

    open spec fn view(&self) -> Seq<char> {
        self.uuid@
    }
}

impl Clone for BitcoinChainhookPayload {
    fn clone(&self) -> (copy: Self)
        ensures
            copy@ == self@,
    {
        BitcoinChainhookPayload { uuid: self.uuid.clone() }
    }
}

/// The views of `entries`, in order.
pub open spec fn apply_payloads_view(entries: Seq<BitcoinApplyTransactionPayload>) -> Seq<
    BitcoinApplyTransactionPayloadView,
> {
    entries.map_values(|entry: BitcoinApplyTransactionPayload| entry@)
}

/// The views of `entries`, in order.
pub open spec fn rollback_payloads_view(entries: Seq<BitcoinRollbackTransactionPayload>) -> Seq<
    BitcoinRollbackTransactionPayloadView,
> {
    entries.map_values(|entry: BitcoinRollbackTransactionPayload| entry@)
}

/// What an in-process consumer gets for a trigger: copies of its
/// transactions and of the names of their blocks.
#[derive(Debug, PartialEq, Eq)]
pub struct BitcoinChainhookOccurrencePayload {
    pub apply: Vec<BitcoinApplyTransactionPayload>,
    pub rollback: Vec<BitcoinRollbackTransactionPayload>,
    pub chainhook: BitcoinChainhookPayload,
}

/// The view of `BitcoinChainhookOccurrencePayload`.
pub struct BitcoinChainhookOccurrencePayloadView {
    pub apply: Seq<BitcoinApplyTransactionPayloadView>,
    pub rollback: Seq<BitcoinRollbackTransactionPayloadView>,
    pub chainhook: Seq<char>,
}

impl View for BitcoinChainhookOccurrencePayload {
    type V = BitcoinChainhookOccurrencePayloadView;

    open spec fn view(&self) -> BitcoinChainhookOccurrencePayloadView {
        BitcoinChainhookOccurrencePayloadView {
            apply: apply_payloads_view(self.apply@),
            rollback: rollback_payloads_view(self.rollback@),
            chainhook: self.chainhook@,
        }
    }
}

impl Clone for BitcoinChainhookOccurrencePayload {
    fn clone(&self) -> (copy: Self)
        ensures
            copy@ == self@,
    {
        let mut apply: Vec<BitcoinApplyTransactionPayload> = Vec::new();
        let mut i: usize = 0;
        while i < self.apply.len()
            invariant
                i <= self.apply.len(),
                apply.len() == i,
                forall|k: int| 0 <= k < i ==> apply@[k]@ == self.apply@[k]@,
            decreases self.apply.len() - i,
        {
            apply.push(self.apply[i].clone());
            i += 1;
        }
        assert(apply_payloads_view(apply@) =~= apply_payloads_view(self.apply@));
        let mut rollback: Vec<BitcoinRollbackTransactionPayload> = Vec::new();
        let mut j: usize = 0;
        while j < self.rollback.len()
            invariant
                j <= self.rollback.len(),
                rollback.len() == j,
                forall|k: int| 0 <= k < j ==> rollback@[k]@ == self.rollback@[k]@,
            decreases self.rollback.len() - j,
        {
            rollback.push(self.rollback[j].clone());
            j += 1;
        }
        assert(rollback_payloads_view(rollback@) =~= rollback_payloads_view(self.rollback@));
        BitcoinChainhookOccurrencePayload { apply, rollback, chainhook: self.chainhook.clone() }
    }
}

/// An HTTP request to send: its method and target, its headers in order,
/// each a name and a value, and its body.
#[derive(Debug, PartialEq, Eq)]
pub struct BitcoinChainhookHttpRequest {
    pub method: String,
    pub url: String,
    pub headers: Vec<(String, String)>,
    pub body: Vec<u8>,
}

/// The view of `BitcoinChainhookHttpRequest`.
pub struct BitcoinChainhookHttpRequestView {
    pub method: Seq<char>,
    pub url: Seq<char>,
    pub headers: Seq<(Seq<char>, Seq<char>)>,
    pub body: Seq<u8>,
}

/// The views of `headers`, in order.
pub open spec fn headers_view(headers: Seq<(String, String)>) -> Seq<(Seq<char>, Seq<char>)> {
    headers.map_values(|header: (String, String)| (header.0@, header.1@))
}

impl View for BitcoinChainhookHttpRequest {
    type V = BitcoinChainhookHttpRequestView;

    open spec fn view(&self) -> BitcoinChainhookHttpRequestView {
        BitcoinChainhookHttpRequestView {
            method: self.method@,
            url: self.url@,
            headers: headers_view(self.headers@),
            body: self.body@,
        }
    }
}

/// What is to be delivered for a trigger: a request to send, a file to
/// write (its path and its content), or data to hand on.
#[derive(Debug, PartialEq, Eq)]
pub enum BitcoinChainhookOccurrence {
    Http(BitcoinChainhookHttpRequest),
    File(String, Vec<u8>),
    Data(BitcoinChainhookOccurrencePayload),
}

/// The view of `BitcoinChainhookOccurrence`.
pub enum BitcoinChainhookOccurrenceView {
    Http(BitcoinChainhookHttpRequestView),
    File(Seq<char>, Seq<u8>),
    Data(BitcoinChainhookOccurrencePayloadView),
}

impl View for BitcoinChainhookOccurrence {
    type V = BitcoinChainhookOccurrenceView;

    open spec fn view(&self) -> BitcoinChainhookOccurrenceView {
        match self {
            BitcoinChainhookOccurrence::Http(request) => BitcoinChainhookOccurrenceView::Http(
                request@,
            ),
            BitcoinChainhookOccurrence::File(path, content) => BitcoinChainhookOccurrenceView::File(
                path@,
                content@,
            ),
            BitcoinChainhookOccurrence::Data(payload) => BitcoinChainhookOccurrenceView::Data(
                payload@,
            ),
        }
    }
}

/// Whether `byte` may stand in the name of an HTTP method: a letter, a
/// digit, or one of ``! * + - . ^ _ ` | ~``.
pub open spec fn is_method_byte(byte: u8) -> bool {
    ||| byte == 0x21
    ||| byte == 0x2a
    ||| byte == 0x2b
    ||| byte == 0x2d
    ||| byte == 0x2e
    ||| 0x30 <= byte <= 0x39
    ||| 0x41 <= byte <= 0x5a
    ||| byte == 0x5e
    ||| byte == 0x5f
    ||| byte == 0x60
    ||| 0x61 <= byte <= 0x7a
    ||| byte == 0x7c
    ||| byte == 0x7e
}

/// Whether `name` is the name of an HTTP method: it is not empty, and each
/// of its bytes may stand in such a name.
pub open spec fn is_http_method(name: Seq<u8>) -> bool {
    name.len() > 0 && forall|i: int| 0 <= i < name.len() ==> is_method_byte(#[trigger] name[i])
}

/// `reqwest::Method::from_bytes`, with `None` in place of its error. It
/// gives a method exactly for the names that `is_http_method` accepts: the
/// nine methods it knows by name, and every other name made of the bytes it
/// lets through.
#[verifier::external_body]
fn parse_method(name: &[u8]) -> (method: Option<reqwest::Method>)
    ensures
        method is Some <==> is_http_method(name@),
{
    reqwest::Method::from_bytes(name).ok()
}

/// The headers of a request for a chainhook with the authorization
/// `authorization`.
pub open spec fn request_headers(authorization: Seq<char>) -> Seq<(Seq<char>, Seq<char>)> {
    seq![("Content-Type"@, "application/json"@), ("Authorization"@, authorization)]
}

/// The proof of `transaction` as bytes, if `proofs` has one.
pub open spec fn proof_bytes(proofs: Map<Seq<char>, Seq<char>>, transaction: Seq<char>) -> Option<
    Seq<u8>,
> {
    if proofs.dom().contains(transaction) {
        Some(text_bytes(proofs[transaction]))
    } else {
        None
    }
}

/// What an in-process consumer gets for an entry to apply.
pub open spec fn apply_payload(
    proofs: Map<Seq<char>, Seq<char>>,
    entry: EntryView,
) -> BitcoinApplyTransactionPayloadView {
    BitcoinApplyTransactionPayloadView {
        transaction: entry.0,
        block_identifier: entry.1,
        confirmations: CONFIRMATIONS,
        proof: proof_bytes(proofs, entry.0.hash),
    }
}

/// What an in-process consumer gets for an entry to roll back.
pub open spec fn rollback_payload(entry: EntryView) -> BitcoinRollbackTransactionPayloadView {
    BitcoinRollbackTransactionPayloadView {
        transaction: entry.0,
        block_identifier: entry.1,
        confirmations: CONFIRMATIONS,
    }
}

/// What an in-process consumer gets for `trigger`.
pub open spec fn data_payload(
    trigger: BitcoinTriggerView,
    proofs: Map<Seq<char>, Seq<char>>,
) -> BitcoinChainhookOccurrencePayloadView {
    BitcoinChainhookOccurrencePayloadView {
        apply: trigger.apply.map_values(|entry: EntryView| apply_payload(proofs, entry)),
        rollback: trigger.rollback.map_values(|entry: EntryView| rollback_payload(entry)),
        chainhook: trigger.chainhook.uuid,
    }
}

/// The occurrence that carries `body` as its payload, if the action of the
/// chainhook carries a body.
pub open spec fn occurrence_with_body(action: HookActionView, body: Seq<u8>) -> Option<
    BitcoinChainhookOccurrenceView,
> {
    match action {
        HookActionView::Http { url, method, authorization_header } => Some(
            BitcoinChainhookOccurrenceView::Http(
                BitcoinChainhookHttpRequestView {
                    method,
                    url,
                    headers: request_headers(authorization_header),
                    body,
                },
            ),
        ),
        HookActionView::File { path } => Some(BitcoinChainhookOccurrenceView::File(path, body)),
        HookActionView::Noop => None,
    }
}

/// What is to be delivered for `trigger`, or why nothing is.
///
/// The action that does nothing hands the data on. An HTTP action whose
/// method is no HTTP method is malformed. Every other action carries the
/// payload in the bytes that `serde_json` writes for it, and fails where
/// there are none.
pub open spec fn occurrence_of(
    trigger: BitcoinTriggerView,
    proofs: Map<Seq<char>, Seq<char>>,
) -> Result<BitcoinChainhookOccurrenceView, ChainhookError> {
    match trigger.chainhook.action {
        HookActionView::Noop => Ok(
            BitcoinChainhookOccurrenceView::Data(data_payload(trigger, proofs)),
        ),
        HookActionView::Http { method, .. } if !is_http_method(text_bytes(method)) => Err(
            ChainhookError::MalformedActionConfiguration,
        ),
        action => match json_bytes(payload_json(trigger, proofs)) {
            Some(body) => Ok(occurrence_with_body(action, body).unwrap()),
            None => Err(ChainhookError::SerializationFailure),
        },
    }
}

/// What an in-process consumer gets for a trigger holds as many entries to
/// apply and to roll back as the trigger does, each for the transaction and
/// the block at the same place in the trigger.
pub proof fn lemma_data_payload_counts(trigger: BitcoinTriggerView, proofs: Map<Seq<char>, Seq<char>>)
    ensures
        data_payload(trigger, proofs).apply.len() == trigger.apply.len(),
        data_payload(trigger, proofs).rollback.len() == trigger.rollback.len(),
        forall|k: int|
            0 <= k < trigger.apply.len() ==> {
                &&& (#[trigger] data_payload(trigger, proofs).apply[k]).transaction
                    == trigger.apply[k].0
                &&& data_payload(trigger, proofs).apply[k].block_identifier == trigger.apply[k].1
            },
        forall|k: int|
            0 <= k < trigger.rollback.len() ==> {
                &&& (#[trigger] data_payload(trigger, proofs).rollback[k]).transaction
                    == trigger.rollback[k].0
                &&& data_payload(trigger, proofs).rollback[k].block_identifier
                    == trigger.rollback[k].1
            },
{
}

/// The request for the action `http` with the payload `body`.
pub fn http_occurrence(http: &HttpHook, body: Vec<u8>) -> (occurrence: BitcoinChainhookOccurrence)
    ensures
        occurrence_with_body(HookAction::Http(*http)@, body@) == Some(occurrence@),
{
    let mut headers: Vec<(String, String)> = Vec::new();
    headers.push(("Content-Type".to_owned(), "application/json".to_owned()));
    headers.push(("Authorization".to_owned(), http.authorization_header.clone()));
    assert(headers_view(headers@) =~= request_headers(http.authorization_header@));
    BitcoinChainhookOccurrence::Http(
        BitcoinChainhookHttpRequest {
            method: http.method.clone(),
            url: http.url.clone(),
            headers,
            body,
        },
    )
}

/// The file for the action `disk` with the payload `body`.
pub fn file_occurrence(disk: &FileHook, body: Vec<u8>) -> (occurrence: BitcoinChainhookOccurrence)
    ensures
        occurrence_with_body(HookAction::File(*disk)@, body@) == Some(occurrence@),
{
    BitcoinChainhookOccurrence::File(disk.path.clone(), body)
}

/// Copies what `trigger` selected for an in-process consumer.
pub fn data_occurrence<'a>(trigger: BitcoinTriggerChainhook<'a>, proofs: &ProofLookup) -> (payload:
    BitcoinChainhookOccurrencePayload)
    ensures
        payload@ == data_payload(trigger@, proofs@),
{
    let mut apply: Vec<BitcoinApplyTransactionPayload> = Vec::new();
    let mut i: usize = 0;
    while i < trigger.apply.len()
        invariant
            i <= trigger.apply.len(),
            apply.len() == i,
            forall|k: int|
                0 <= k < i ==> (#[trigger] apply@[k])@ == apply_payload(
                    proofs@,
                    entries_view(trigger.apply@)[k],
                ),
        decreases trigger.apply.len() - i,
    {
        let (transaction, block_identifier) = trigger.apply[i];
        let proof_found = match proofs.get(&transaction.transaction_identifier) {
            Some(proof_text) => Some(proof_text.as_str().as_bytes_vec()),
            None => None,
        };
        apply.push(
            BitcoinApplyTransactionPayload {
                transaction: transaction.clone(),
                block_identifier: block_identifier.clone(),
                confirmations: CONFIRMATIONS,
                proof: proof_found,
            },
        );
        i += 1;
    }
    let mut rollback: Vec<BitcoinRollbackTransactionPayload> = Vec::new();
    let mut j: usize = 0;
    while j < trigger.rollback.len()
        invariant
            j <= trigger.rollback.len(),
            rollback.len() == j,
            forall|k: int|
                0 <= k < j ==> (#[trigger] rollback@[k])@ == rollback_payload(
                    entries_view(trigger.rollback@)[k],
                ),
        decreases trigger.rollback.len() - j,
    {
        let (transaction, block_identifier) = trigger.rollback[j];
        rollback.push(
            BitcoinRollbackTransactionPayload {
                transaction: transaction.clone(),
                block_identifier: block_identifier.clone(),
                confirmations: CONFIRMATIONS,
            },
        );
        j += 1;
    }
    let payload = BitcoinChainhookOccurrencePayload {
        apply,
        rollback,
        chainhook: BitcoinChainhookPayload { uuid: trigger.chainhook.uuid.clone() },
    };
    assert(payload@.apply =~= data_payload(trigger@, proofs@).apply);
    assert(payload@.rollback =~= data_payload(trigger@, proofs@).rollback);
    payload
}

/// Turns `trigger` into what is to be delivered for it, according to the
/// action of its chainhook.
///
/// The payload of an HTTP request or of a file is the JSON document
/// `payload_json`, in the bytes that `serde_json` writes for it.
pub fn handle_bitcoin_hook_action<'a>(
    trigger: BitcoinTriggerChainhook<'a>,
    proofs: &ProofLookup,
) -> (handled: Result<BitcoinChainhookOccurrence, ChainhookError>)
    ensures
        match handled {
            Ok(occurrence) => occurrence_of(trigger@, proofs@) matches Ok(expected) && expected
                == occurrence@,
            Err(error) => occurrence_of(trigger@, proofs@) matches Err(expected) && expected
                == error,
        },
{
    let chainhook = trigger.chainhook;
    match &chainhook.action {
        HookAction::Http(http) => {
            match parse_method(http.method.as_str().as_bytes()) {
                Some(_) => {},
                None => {
                    return Err(ChainhookError::MalformedActionConfiguration);
                },
            }
            let payload = serialize_bitcoin_payload_to_json(trigger, proofs);
            match json_to_vec(&payload) {
                Ok(body) => Ok(http_occurrence(http, body)),
                Err(_) => Err(ChainhookError::SerializationFailure),
            }
        },
        HookAction::File(disk) => {
            let payload = serialize_bitcoin_payload_to_json(trigger, proofs);
            match json_to_vec(&payload) {
                Ok(body) => Ok(file_occurrence(disk, body)),
                Err(_) => Err(ChainhookError::SerializationFailure),
            }
        },
        HookAction::Noop => Ok(BitcoinChainhookOccurrence::Data(data_occurrence(trigger, proofs))),
    }
}

} // verus!
