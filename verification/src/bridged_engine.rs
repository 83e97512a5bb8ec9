//! Envelopes for the records that a bridged sync engine takes in and hands
//! out, and the interface of such an engine.

use vstd::prelude::*;
use vstd::string::StringExecFns;

verus! {

/// `serde_json::Value`, a JSON value. Nothing is known of what is inside
/// but what the functions below say.
#[verifier::external_type_specification]
#[verifier::external_body]
pub struct ExJsonValue(serde_json::Value);

/// `serde_json::Error`, which says why reading or writing JSON failed.
#[verifier::external_type_specification]
#[verifier::external_body]
pub struct ExJsonError(serde_json::Error);

/// The JSON value that `serde_json::from_str` reads from `text`, if it
/// reads one.
pub uninterp spec fn json_value_of(text: Seq<char>) -> Option<serde_json::Value>;

/// The members of a JSON object, by their keys. A value that is no object
/// has none.
pub uninterp spec fn json_members(value: serde_json::Value) -> Map<Seq<char>, serde_json::Value>;

/// The text of a JSON string. A value that is no string has none.
pub uninterp spec fn json_string(value: serde_json::Value) -> Option<Seq<char>>;

/// The text that `serde_json::to_string` writes for `value`, if it writes
/// one.
pub uninterp spec fn json_text_of(value: serde_json::Value) -> Option<Seq<char>>;

/// The string kept under `key` in a JSON object, if there is one.
pub open spec fn text_member_of(value: serde_json::Value, key: Seq<char>) -> Option<Seq<char>> {
    if json_members(value).contains_key(key) {
        json_string(json_members(value)[key])
    } else {
        None
    }
}

/// Calls `serde_json::from_str` for a `serde_json::Value`. The contract
/// claims only that the outcome is a function of the text: the value read,
/// or a failure, is the one that `json_value_of` names.
#[verifier::external_body]
fn parse_json(text: &str) -> (res: Result<serde_json::Value, serde_json::Error>)
    ensures
        match res {
            Ok(value) => json_value_of(text@) == Some(value),
            Err(_) => json_value_of(text@) is None,
        },
{
    serde_json::from_str::<serde_json::Value>(text)
}

/// Calls `serde_json::Value::get` with a string key. The contract claims
/// that the result is the member that `json_members` names under `key`, and
/// `None` where the value is no object or has no such key.
#[verifier::external_body]
fn json_member<'a>(value: &'a serde_json::Value, key: &str) -> (res: Option<&'a serde_json::Value>)
    ensures
        match res {
            Some(member) => json_members(*value).contains_key(key@) && json_members(*value)[key@]
                == *member,
            None => !json_members(*value).contains_key(key@),
        },
{
    value.get(key)
}

/// Calls `serde_json::Value::as_str`. The contract claims that the result
/// is the text that `json_string` names, and `None` where the value is no
/// JSON string.
#[verifier::external_body]
fn json_as_str<'a>(value: &'a serde_json::Value) -> (res: Option<&'a str>)
    ensures
        match res {
            Some(text) => json_string(*value) == Some(text@),
            None => json_string(*value) is None,
        },
{
    value.as_str()
}

/// Calls `serde_json::to_string` on a `serde_json::Value`. The contract
/// claims only that the outcome is a function of the value: the text
/// written, or a failure, is the one that `json_text_of` names.
#[verifier::external_body]
fn render_json(value: &serde_json::Value) -> (res: Result<String, serde_json::Error>)
    ensures
        match res {
            Ok(text) => json_text_of(*value) == Some(text@),
            Err(_) => json_text_of(*value) is None,
        },
{
    serde_json::to_string(value)
}

/// The string kept under `key` in a JSON object, if there is one.
fn text_member(value: &serde_json::Value, key: &str) -> (res: Option<String>)
    ensures
        res.deep_view() == text_member_of(*value, key@),
{
    match json_member(value, key) {
        Some(member) => match json_as_str(member) {
            Some(text) => Some(text.to_owned()),
            None => None,
        },
        None => None,
    }
}

/// The ID of an incoming record does not match the ID in its payload.
#[derive(Clone, Debug, PartialEq, Eq)]
pub struct MismatchedIdError {
    pub envelope: String,
    pub payload: String,
}

/// Mathematical model of a [`MismatchedIdError`].
pub struct MismatchModel {
    pub envelope: Seq<char>,
    pub payload: Seq<char>,
}

impl View for MismatchedIdError {
    type V = MismatchModel;

    open spec fn view(&self) -> MismatchModel {
        MismatchModel { envelope: self.envelope@, payload: self.payload@ }
    }
}

/// The text of a [`MismatchedIdError`].
pub open spec fn mismatch_message(e: MismatchModel) -> Seq<char> {
    "ID `"@ + e.envelope + "` in envelope doesn't match `"@ + e.payload + "` in payload"@
}

impl MismatchedIdError {
    /// Says which IDs do not match.
    pub fn message(&self) -> (text: String)
        ensures
            text@ == mismatch_message(self@),
    {
        let text = String::from_str("ID `");
        let text = text.concat(self.envelope.as_str());
        let text = text.concat("` in envelope doesn't match `");
        let text = text.concat(self.payload.as_str());
        text.concat("` in payload")
    }
}

/// Why an envelope could not be opened or made.
#[derive(Clone, Debug, PartialEq, Eq)]
pub enum EnvelopeError {
    /// The cleartext is not JSON, the payload has no string `id`, or the
    /// payload cannot be written as JSON.
    Json,
    /// The payload is for another record than the envelope.
    MismatchedId(MismatchedIdError),
}

/// Mathematical model of an [`EnvelopeError`].
pub enum EnvelopeErrorModel {
    Json,
    MismatchedId(MismatchModel),
}

impl View for EnvelopeError {
    type V = EnvelopeErrorModel;

    open spec fn view(&self) -> EnvelopeErrorModel {
        match self {
            EnvelopeError::Json => EnvelopeErrorModel::Json,
            EnvelopeError::MismatchedId(e) => EnvelopeErrorModel::MismatchedId(e@),
        }
    }
}

/// The payload of a record: a JSON object with the record's ID under `id`.
#[derive(Debug)]
pub struct Payload {
    id: String,
    value: serde_json::Value,
}

/// Mathematical model of a [`Payload`].
pub struct PayloadModel {
    pub id: Seq<char>,
    pub value: serde_json::Value,
}

impl View for Payload {
    type V = PayloadModel;

    closed spec fn view(&self) -> PayloadModel {
        PayloadModel { id: self.id@, value: self.value }
    }
}

impl PayloadModel {
    /// The ID is the string that the JSON value holds under `id`.
    pub open spec fn wf(self) -> bool {
        text_member_of(self.value, "id"@) == Some(self.id)
    }
}

impl Payload {
    /// Takes a JSON value as a payload, if it holds a string under `id`.
    pub fn from_value(value: serde_json::Value) -> (res: Option<Payload>)
        ensures
            match res {
                Some(payload) => payload@.wf() && payload@.value == value,
                None => text_member_of(value, "id"@) is None,
            },
    {
        match text_member(&value, "id") {
            Some(id) => Some(Payload { id, value }),
            None => None,
        }
    }

    /// The record's ID.
    pub fn id(&self) -> (id: &String)
        ensures
            id@ == self@.id,
    {
        &self.id
    }

    /// The payload as JSON.
    pub fn value(&self) -> (value: &serde_json::Value)
        ensures
            *value == self@.value,
    {
        &self.value
    }
}

/// What opening an envelope for `envelope_id` gives, from what was read of
/// its cleartext.
pub open spec fn opened(envelope_id: Seq<char>, parsed: Option<serde_json::Value>) -> Result<
    PayloadModel,
    EnvelopeErrorModel,
> {
    match parsed {
        None => Err(EnvelopeErrorModel::Json),
        Some(value) => match text_member_of(value, "id"@) {
            None => Err(EnvelopeErrorModel::Json),
            Some(id) => if id == envelope_id {
                Ok(PayloadModel { id, value })
            } else {
                Err(
                    EnvelopeErrorModel::MismatchedId(
                        MismatchModel { envelope: envelope_id, payload: id },
                    ),
                )
            },
        },
    }
}

/// The model of what was read of a cleartext.
pub open spec fn parsed_model(parsed: Result<serde_json::Value, serde_json::Error>) -> Option<
    serde_json::Value,
> {
    match parsed {
        Ok(value) => Some(value),
        Err(_) => None,
    }
}

/// The model of the result of opening an envelope.
pub open spec fn opened_model(res: Result<Payload, EnvelopeError>) -> Result<
    PayloadModel,
    EnvelopeErrorModel,
> {
    match res {
        Ok(payload) => Ok(payload@),
        Err(e) => Err(e@),
    }
}

/// Checks what was read of an envelope's cleartext: it has to be JSON with
/// a string under `id`, and that string has to be the envelope's ID.
pub fn check_payload(
    envelope_id: &String,
    parsed: Result<serde_json::Value, serde_json::Error>,
) -> (res: Result<Payload, EnvelopeError>)
    ensures
        opened_model(res) == opened(envelope_id@, parsed_model(parsed)),
        res matches Ok(payload) ==> payload@.wf(),
{
    match parsed {
        Err(_) => Err(EnvelopeError::Json),
        Ok(value) => match Payload::from_value(value) {
            None => Err(EnvelopeError::Json),
            Some(payload) => {
                if payload.id == *envelope_id {
                    Ok(payload)
                } else {
                    Err(
                        EnvelopeError::MismatchedId(
                            MismatchedIdError {
                                envelope: envelope_id.clone(),
                                payload: payload.id,
                            },
                        ),
                    )
                }
            },
        },
    }
}

/// An incoming record: what the server says of it, and its cleartext.
#[derive(Clone, Debug, PartialEq, Eq)]
pub struct IncomingEnvelope {
    pub id: String,
    /// When the server last changed the record, in milliseconds.
    pub modified: i64,
    pub sortindex: Option<i32>,
    cleartext: String,
}

/// Mathematical model of an [`IncomingEnvelope`].
pub struct IncomingModel {
    pub id: Seq<char>,
    pub modified: i64,
    pub sortindex: Option<i32>,
    pub cleartext: Seq<char>,
}

impl View for IncomingEnvelope {
    type V = IncomingModel;

    closed spec fn view(&self) -> IncomingModel {
        IncomingModel {
            id: self.id@,
            modified: self.modified,
            sortindex: self.sortindex,
            cleartext: self.cleartext@,
        }
    }
}

impl IncomingEnvelope {
    /// An envelope for the record `id` with the given cleartext.
    pub fn new(id: String, modified: i64, sortindex: Option<i32>, cleartext: String) -> (envelope:
        IncomingEnvelope)
        ensures
            envelope@ == (IncomingModel { id: id@, modified, sortindex, cleartext: cleartext@ }),
    {
        IncomingEnvelope { id, modified, sortindex, cleartext }
    }

    /// Reads the payload from the cleartext. Fails with `Json` where the
    /// cleartext is not JSON or holds no string under `id`, and with
    /// `MismatchedId` where that string is not the envelope's ID.
    pub fn payload(&self) -> (res: Result<Payload, EnvelopeError>)
        ensures
            opened_model(res) == opened(self@.id, json_value_of(self@.cleartext)),
            res matches Ok(payload) ==> payload@.wf(),
    {
        check_payload(&self.id, parse_json(self.cleartext.as_str()))
    }
}

/// An outgoing record: its ID and its payload as JSON text.
#[derive(Clone, Debug, PartialEq, Eq)]
pub struct OutgoingEnvelope {
    id: String,
    cleartext: String,
}

/// Mathematical model of an [`OutgoingEnvelope`].
pub struct OutgoingModel {
    pub id: Seq<char>,
    pub cleartext: Seq<char>,
}

impl View for OutgoingEnvelope {
    type V = OutgoingModel;

    closed spec fn view(&self) -> OutgoingModel {
        OutgoingModel { id: self.id@, cleartext: self.cleartext@ }
    }
}

impl DeepView for OutgoingEnvelope {
    type V = OutgoingModel;

    open spec fn deep_view(&self) -> OutgoingModel {
        self@
    }
}

/// The envelope for a payload, from what was written of it.
pub open spec fn sealed(id: Seq<char>, written: Option<Seq<char>>) -> Result<
    OutgoingModel,
    EnvelopeErrorModel,
> {
    match written {
        Some(cleartext) => Ok(OutgoingModel { id, cleartext }),
        None => Err(EnvelopeErrorModel::Json),
    }
}

/// The model of the result of making an envelope.
pub open spec fn sealed_model(res: Result<OutgoingEnvelope, EnvelopeError>) -> Result<
    OutgoingModel,
    EnvelopeErrorModel,
> {
    match res {
        Ok(envelope) => Ok(envelope@),
        Err(e) => Err(e@),
    }
}

/// The model of what was written of a payload.
pub open spec fn written_model(written: Result<String, serde_json::Error>) -> Option<Seq<char>> {
    match written {
        Ok(text) => Some(text@),
        Err(_) => None,
    }
}

impl OutgoingEnvelope {
    /// Makes the envelope for the record `id` from what was written of its
    /// payload.
    pub fn seal(id: String, written: Result<String, serde_json::Error>) -> (res: Result<
        OutgoingEnvelope,
        EnvelopeError,
    >)
        ensures
            sealed_model(res) == sealed(id@, written_model(written)),
    {
        match written {
            Ok(cleartext) => Ok(OutgoingEnvelope { id, cleartext }),
            Err(_) => Err(EnvelopeError::Json),
        }
    }

    /// Makes the envelope for a payload. Fails with `Json` where the payload
    /// cannot be written as JSON.
    pub fn new(payload: Payload) -> (res: Result<OutgoingEnvelope, EnvelopeError>)
        ensures
            sealed_model(res) == sealed(payload@.id, json_text_of(payload@.value)),
    {
        let written = render_json(&payload.value);
        OutgoingEnvelope::seal(payload.id, written)
    }

    /// The record's ID.
    pub fn id(&self) -> (id: &String)
        ensures
            id@ == self@.id,
    {
        &self.id
    }

    /// The payload as JSON text.
    pub fn cleartext(&self) -> (cleartext: &String)
        ensures
            cleartext@ == self@.cleartext,
    {
        &self.cleartext
    }
}

/// What applying the staged records gave.
#[derive(Clone, Debug, PartialEq, Eq)]
pub struct ApplyResults {
    /// The records to upload.
    pub envelopes: Vec<OutgoingEnvelope>,
    /// The number of incoming records that changed on both sides and were
    /// merged, where that is reported.
    pub num_reconciled: Option<usize>,
}

impl ApplyResults {
    /// The results with these envelopes and this count.
    pub fn new<N: Into<Option<usize>>>(envelopes: Vec<OutgoingEnvelope>, num_reconciled: N) -> (res:
        ApplyResults)
        ensures
            res.envelopes == envelopes,
            call_ensures(N::into, (num_reconciled,), res.num_reconciled),
    {
        ApplyResults { envelopes, num_reconciled: num_reconciled.into() }
    }
}

impl Default for ApplyResults {
    fn default() -> (res: ApplyResults)
        ensures
            res.envelopes@ == Seq::<OutgoingEnvelope>::empty(),
            res.num_reconciled is None,
    {
        ApplyResults { envelopes: Vec::new(), num_reconciled: None }
    }
}

impl From<Vec<OutgoingEnvelope>> for ApplyResults {
    fn from(envelopes: Vec<OutgoingEnvelope>) -> (res: ApplyResults) {
        ApplyResults { envelopes, num_reconciled: None }
    }
}

impl vstd::std_specs::convert::FromSpecImpl<Vec<OutgoingEnvelope>> for ApplyResults {
    open spec fn obeys_from_spec() -> bool {
        true
    }

    open spec fn from_spec(envelopes: Vec<OutgoingEnvelope>) -> ApplyResults {
        ApplyResults { envelopes, num_reconciled: None }
    }
}

/// What a sync engine has to offer to be driven from outside.
pub trait BridgedEngine {
    /// The type returned for errors.
    type Error;

    /// Initializes the engine. This is called once, when the engine is first
    /// created, before any of the other methods. By default it does nothing.
    fn initialize(&self) -> (res: Result<(), Self::Error>)
        default_ensures
            res is Ok,
    {
        Ok(())
    }

    /// The last sync time of this engine's collection, in milliseconds.
    fn last_sync(&self) -> Result<i64, Self::Error>;

    /// Sets the last sync time, in milliseconds.
    fn set_last_sync(&self, last_sync_millis: i64) -> Result<(), Self::Error>;

    /// The sync ID of this engine's collection.
    fn sync_id(&self) -> Result<Option<String>, Self::Error>;

    /// Resets the sync ID of this engine's collection and all local sync
    /// state. Returns the new ID.
    fn reset_sync_id(&self) -> Result<String, Self::Error>;

    /// Makes sure that the local sync ID is `new_sync_id`, resetting all
    /// local sync state where it was not. Returns the ID that is now
    /// assigned, which the engine may choose to differ.
    fn ensure_current_sync_id(&self, new_sync_id: &str) -> Result<String, Self::Error>;

    /// Stages a batch of incoming records.
    fn store_incoming(&self, incoming_cleartexts: &[IncomingEnvelope]) -> Result<(), Self::Error>;

    /// Applies all staged records. Returns the records to upload.
    fn apply(&self) -> Result<ApplyResults, Self::Error>;

    /// Notes that the records `ids` were uploaded.
    fn set_uploaded(&self, server_modified_millis: i64, ids: &[String]) -> Result<(), Self::Error>;

    /// Notes that all records have been uploaded.
    fn sync_finished(&self) -> Result<(), Self::Error>;

    /// Resets all local sync state, and no user data.
    fn reset(&self) -> Result<(), Self::Error>;

    /// Erases all local user data of this collection, and its sync state.
    fn wipe(&self) -> Result<(), Self::Error>;

    /// Tears down the engine. By default it does nothing.
    fn finalize(&self) -> (res: Result<(), Self::Error>)
        default_ensures
            res is Ok,
    {
        Ok(())
    }
}

} // verus!
