//! Submitting one assertion and judging the sequencer's answer.
//!
//! An assertion transaction carries the visible slot, rollup height and state
//! root that the worker has just read. The rollup rejects it where its own
//! state differs. A rejection is benign in two cases only: the sequencer has
//! reached its stop height, or the rollup had already moved past the asserted
//! height when the transaction ran. Every other failure means that the state
//! has diverged.

use crate::height::{extract_rollup_height_from_error, extracted_height};
use crate::phrase::{contains_phrase, occurs};
use vstd::prelude::*;

verus! {

/// `serde_json::Map`, the object of a JSON document, taken as it is: nothing
/// of its inside is known here but what `json_string_members` stands for.
#[verifier::external_type_specification]
#[verifier::external_body]
#[verifier::reject_recursive_types(K)]
#[verifier::reject_recursive_types(V)]
pub struct ExJsonObject<K, V>(serde_json::Map<K, V>);

/// `serde_json::Value`, a JSON value, taken as it is.
#[verifier::external_type_specification]
#[verifier::external_body]
pub struct ExJsonValue(serde_json::Value);

/// The members of a JSON object that are strings: each key whose value is a
/// JSON string, with that string.
pub uninterp spec fn json_string_members(object: serde_json::Map<String, serde_json::Value>) -> Map<Seq<char>, Seq<char>>;

/// The member `key` of an object's string members, where it has one.
pub open spec fn member(members: Map<Seq<char>, Seq<char>>, key: Seq<char>) -> Option<Seq<char>> {
    if members.contains_key(key) {
        Some(members[key])
    } else {
        None
    }
}

/// `serde_json::Map::get`, narrowed to string members: the text of the member
/// `key` where the object has that member and it is a JSON string, nothing
/// otherwise. Not proved: that the lookup finds exactly the members that
/// `json_string_members` stands for.
#[verifier::external_body]
fn string_member<'a>(
    object: &'a serde_json::Map<String, serde_json::Value>,
    key: &str,
) -> (member: Option<&'a str>)
    ensures
        member is Some <==> json_string_members(*object).contains_key(key@),
        member matches Some(text) ==> text@ == json_string_members(*object)[key@],
{
    match object.get(key) {
        Some(serde_json::Value::String(text)) => Some(text.as_str()),
        _ => None,
    }
}

/// The lowercase hexadecimal digit for a number below sixteen.
pub open spec fn hex_digit(nibble: int) -> char
    recommends
        0 <= nibble < 16,
{
    seq!['0', '1', '2', '3', '4', '5', '6', '7', '8', '9', 'a', 'b', 'c', 'd', 'e', 'f'][nibble]
}

/// A byte string in lowercase hexadecimal: two digits for each byte, the
/// high half of the byte first.
pub open spec fn hex_text(bytes: Seq<u8>) -> Seq<char> {
    Seq::new(
        (2 * bytes.len()) as nat,
        |i: int|
            if i % 2 == 0 {
                hex_digit(bytes[i / 2] as int / 16)
            } else {
                hex_digit(bytes[i / 2] as int % 16)
            },
    )
}

/// `hex::encode`: the bytes in lowercase hexadecimal, two digits for each
/// byte. Not proved: that the text is `hex_text` of the bytes.
#[verifier::external_body]
fn hex_encode(bytes: &Vec<u8>) -> (text: String)
    ensures
        text@ == hex_text(bytes@),
{
    hex::encode(bytes)
}

/// What one assertion transaction claims of the rollup.
///
/// Each request is signed with a key made for it alone, so its nonce is
/// always zero.
#[derive(Debug, PartialEq, Eq)]
pub struct AssertionRequest {
    pub expected_visible_slot: u64,
    pub expected_rollup_height: u64,
    pub expected_state_root: Vec<u8>,
    pub nonce: u64,
}

impl AssertionRequest {
    /// The request that asserts the given triple.
    pub fn new(visible_slot: u64, rollup_height: u64, state_root: Vec<u8>) -> (request: Self)
        ensures
            request == (AssertionRequest {
                expected_visible_slot: visible_slot,
                expected_rollup_height: rollup_height,
                expected_state_root: state_root,
                nonce: 0,
            }),
    {
        AssertionRequest {
            expected_visible_slot: visible_slot,
            expected_rollup_height: rollup_height,
            expected_state_root: state_root,
            nonce: 0,
        }
    }

    /// The expected state root in lowercase hexadecimal, as a log line shows
    /// it.
    pub fn state_root_hex(&self) -> (text: String)
        ensures
            text@ == hex_text(self.expected_state_root@),
    {
        hex_encode(&self.expected_state_root)
    }
}

/// Why a submission failed, as the sequencer's client reports it.
#[derive(Debug, PartialEq, Eq)]
pub struct SubmissionError {
    /// The error as the client prints it.
    pub description: String,
    /// The member `message` of the `details` of the sequencer's own error.
    /// There is none where the failure was not an error response of the
    /// sequencer, or where its details hold no such string.
    pub response_message: Option<String>,
}

/// What the judgement of a failed submission reads.
pub struct SubmissionErrorView {
    pub description: Seq<char>,
    pub response_message: Option<Seq<char>>,
}

impl View for SubmissionError {
    type V = SubmissionErrorView;

    open spec fn view(&self) -> SubmissionErrorView {
        SubmissionErrorView {
            description: self.description@,
            response_message: match self.response_message {
                Some(message) => Some(message@),
                None => None,
            },
        }
    }
}

impl Clone for SubmissionError {
    fn clone(&self) -> (copy: SubmissionError)
        ensures
            copy == *self,
    {
        SubmissionError {
            description: self.description.clone(),
            response_message: match &self.response_message {
                Some(message) => Some(message.clone()),
                None => None,
            },
        }
    }
}

impl SubmissionError {
    /// The error for an error response of the sequencer, whose own message is
    /// the string member `message` of its details.
    pub fn from_error_response(
        description: String,
        details: &serde_json::Map<String, serde_json::Value>,
    ) -> (error: SubmissionError)
        ensures
            error.description == description,
            error@.response_message == member(json_string_members(*details), "message"@),
    {
        let response_message = match string_member(details, "message") {
            Some(message) => Some(message.to_owned()),
            None => None,
        };
        SubmissionError { description, response_message }
    }

    /// The error for a submission that failed without an error response of
    /// the sequencer.
    pub fn from_failure(description: String) -> (error: SubmissionError)
        ensures
            error == (SubmissionError { description, response_message: None }),
    {
        SubmissionError { description, response_message: None }
    }
}

/// How one submission ended.
#[derive(Debug, PartialEq, Eq)]
pub enum AssertionOutcome {
    /// The sequencer took the transaction.
    Accepted,
    /// The sequencer has reached its stop height: the run is ending.
    SkippedStopHeight,
    /// The rollup had already passed the asserted height.
    SkippedTooLate { actual_height: u64 },
    /// The state has diverged, or the submission failed for another reason.
    Fatal(SubmissionError),
}

/// The words with which a sequencer that has reached its stop height refuses
/// a transaction.
pub open spec fn stop_height_phrase() -> Seq<char> {
    "The preferred sequencer has reached the stop height"@
}

/// The characters of a message that may be missing.
pub open spec fn message_text(message: Option<&str>) -> Option<Seq<char>> {
    match message {
        Some(text) => Some(text@),
        None => None,
    }
}

/// The height that a rejection reports, where it reports one that lies
/// strictly above the expected height.
pub open spec fn later_height(message: Option<Seq<char>>, expected_height: u64) -> Option<u64> {
    match message {
        Some(text) => match extracted_height(text) {
            Some(actual) => if actual > expected_height {
                Some(actual)
            } else {
                None
            },
            None => None,
        },
        None => None,
    }
}

/// The outcome of a submission, from the sequencer's answer and the height
/// that the assertion expected.
pub open spec fn classified(
    result: Result<(), SubmissionError>,
    expected_height: u64,
) -> AssertionOutcome {
    match result {
        Ok(_) => AssertionOutcome::Accepted,
        Err(cause) => if occurs(cause@.description, stop_height_phrase()) {
            AssertionOutcome::SkippedStopHeight
        } else {
            match later_height(cause@.response_message, expected_height) {
                Some(actual_height) => AssertionOutcome::SkippedTooLate { actual_height },
                None => AssertionOutcome::Fatal(cause),
            }
        },
    }
}

/// Reads the height out of the sequencer's message and keeps it where it lies
/// strictly above the expected one.
pub fn reported_later_height(message: Option<&str>, expected_height: u64) -> (later: Option<u64>)
    ensures
        later == later_height(message_text(message), expected_height),
{
    match message {
        Some(text) => match extract_rollup_height_from_error(text) {
            Some(actual) => if actual > expected_height {
                Some(actual)
            } else {
                None
            },
            None => None,
        },
        None => None,
    }
}

/// Whether a submission was rejected because the rollup had already passed the
/// expected height: the sequencer answered with an error of its own, whose
/// message reports a height strictly above `expected_height`.
pub fn is_too_late_error(e: &SubmissionError, expected_height: u64) -> (too_late: bool)
    ensures
        too_late == later_height(e@.response_message, expected_height).is_some(),
{
    match &e.response_message {
        Some(message) => reported_later_height(Some(message.as_str()), expected_height).is_some(),
        None => false,
    }
}

/// Judges the sequencer's answer to one assertion.
pub fn classify_submission(
    result: Result<(), SubmissionError>,
    expected_height: u64,
) -> (outcome: AssertionOutcome)
    ensures
        outcome == classified(result, expected_height),
{
    match result {
        Ok(_) => AssertionOutcome::Accepted,
        Err(cause) => {
            if contains_phrase(
                cause.description.as_str(),
                "The preferred sequencer has reached the stop height",
            ) {
                return AssertionOutcome::SkippedStopHeight;
            }
            let later = match &cause.response_message {
                Some(message) => reported_later_height(Some(message.as_str()), expected_height),
                None => None,
            };
            match later {
                Some(actual_height) => AssertionOutcome::SkippedTooLate { actual_height },
                None => AssertionOutcome::Fatal(cause),
            }
        },
    }
}

/// A rejection counts as too late exactly when the sequencer's message
/// reports a height strictly above the expected one. A reported height at or
/// below it is fatal, as is a rejection without such a report, unless the
/// error speaks of the stop height.
pub proof fn law_too_late_only_above_expected(cause: SubmissionError, expected_height: u64)
    ensures
        later_height(cause@.response_message, expected_height) is Some <==> {
            &&& cause@.response_message matches Some(message)
            &&& extracted_height(message) matches Some(actual)
            &&& actual > expected_height
        },
        !occurs(cause@.description, stop_height_phrase()) ==> (classified(
            Err(cause),
            expected_height,
        ) is SkippedTooLate <==> later_height(cause@.response_message, expected_height) is Some),
        !occurs(cause@.description, stop_height_phrase()) && later_height(
            cause@.response_message,
            expected_height,
        ) is None ==> classified(Err(cause), expected_height) == AssertionOutcome::Fatal(cause),
        classified(Err(cause), expected_height) matches AssertionOutcome::SkippedTooLate {
            actual_height,
        } ==> {
            &&& actual_height > expected_height
            &&& cause@.response_message matches Some(message)
            &&& extracted_height(message) == Some(actual_height)
        },
{
}

} // verus!
