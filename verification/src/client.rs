use vstd::prelude::*;

use crate::adapter::AdapterError;
use crate::adapter::adapted_stack;
use crate::adapter::from_native_error;
use crate::record::LogRecord;
use crate::record::is_record;
use crate::record::record_view;
use crate::severity::ErrorsLevel;
use crate::severity::canonical_str;

verus! {

/// An arbitrary JavaScript value handed across the host boundary; opaque to
/// this core.
#[verifier::external_type_specification]
#[verifier::external_body]
pub struct ExJsValue(wasm_bindgen::JsValue);

/// How one dispatch resolves toward the caller: success with no payload, or
/// a failure carrying human-readable text — the host runtime's promise
/// convention of resolve/reject, minus the promise plumbing itself.
#[derive(Debug)]
pub enum Resolution {
    Resolved,
    Rejected(String),
}

/// What a dispatch entry point decides to do: hand one record to the
/// transport collaborator, or reject at once without any transport call.
#[derive(Debug)]
pub enum DispatchPlan {
    Send(LogRecord),
    Reject(String),
}

/// Relies on js_sys::Reflect::get to read the named property of a host value,
/// and on wasm_bindgen::JsValue::as_string to extract the property as text
/// (it yields `Some` only for a JavaScript string). What a property holds
/// depends entirely on the host object, so nothing is assumed of the outcome.
#[verifier::external_body]
fn native_field_text(err: &wasm_bindgen::JsValue, key: &str) -> (r: Option<String>) {
    match js_sys::Reflect::get(err, &wasm_bindgen::JsValue::from_str(key)) {
        Ok(v) => v.as_string(),
        Err(_) => None,
    }
}

/// The reporting client. The configured transport collaborator itself lives
/// with the host shell, outside this core: the client prepares the record
/// each entry point dispatches and translates the transport's outcome back
/// into the caller's convention.
pub struct Cattleya;

impl Cattleya {
    /// Builds the record the custom entry point dispatches. The level is
    /// accepted as a free-form string — deliberately unvalidated, so existing
    /// integrations can pass arbitrary level tags.
    pub fn custom_error(
        &self,
        err_level: String,
        message: String,
        stack_trace: Option<String>,
    ) -> (r: LogRecord)
        ensures
            is_record(r, err_level@, message@, stack_trace.deep_view()),
    {
        LogRecord::new(err_level, message, stack_trace)
    }

    /// Plans the dispatch for a native exception whose `message` and `stack`
    /// fields have been read as text (`None` marks a field that was absent or
    /// not text): a missing message rejects at once with the fixed text and
    /// no transport call; anything else sends an "Error"-level record.
    pub fn plan_native_error(&self, message: Option<String>, stack: Option<String>) -> (r:
        DispatchPlan)
        ensures
            message is None ==> (r matches DispatchPlan::Reject(t) && t@
                == "Could not get error message"@),
            message matches Some(m) ==> (r matches DispatchPlan::Send(rec) && is_record(
                rec,
                "Error"@,
                m@,
                adapted_stack(stack.deep_view()),
            )),
    {
        match from_native_error(message, stack) {
            Result::Ok(rec) => DispatchPlan::Send(rec),
            Result::Err(AdapterError::MissingMessage) => DispatchPlan::Reject(
                "Could not get error message".to_owned(),
            ),
        }
    }

    /// Plans the dispatch for an opaque native exception value. Whatever the
    /// host value holds, the plan either sends an "Error"-level record or
    /// rejects at once with the fixed text; no other outcome exists.
    pub fn from_error(&self, err: &wasm_bindgen::JsValue) -> (r: DispatchPlan)
        ensures
            r matches DispatchPlan::Send(rec) ==> rec.level@ == "Error"@,
            r matches DispatchPlan::Reject(t) ==> t@ == "Could not get error message"@,
    {
        let message = native_field_text(err, "message");
        let stack = native_field_text(err, "stack");
        self.plan_native_error(message, stack)
    }

    /// Builds the record for reporting by severity level: exactly the record
    /// the custom entry point builds when handed the level's canonical
    /// string.
    pub fn log(&self, level: ErrorsLevel, message: String, stack_trace: Option<String>) -> (r:
        LogRecord)
        ensures
            is_record(r, canonical_str(level), message@, stack_trace.deep_view()),
    {
        self.custom_error(level.to_canonical_string(), message, stack_trace)
    }

    /// Translates the transport collaborator's outcome into the caller-facing
    /// resolution: success resolves with no payload; a failure rejects with
    /// the transport's error text verbatim — never wrapped, truncated or
    /// suppressed.
    pub fn complete_send(&self, outcome: Result<(), String>) -> (r: Resolution)
        ensures
            outcome is Ok <==> r is Resolved,
            outcome matches Err(t) ==> (r matches Resolution::Rejected(u) && u@ == t@),
    {
        match outcome {
            Result::Ok(()) => Resolution::Resolved,
            Result::Err(t) => Resolution::Rejected(t),
        }
    }
}

/// Law: reporting by severity level dispatches a record identical to
/// reporting the level's canonical string through the custom entry point —
/// a record meeting `log`'s contract and one meeting `custom_error`'s
/// contract on the canonical string have equal views.
pub proof fn lemma_log_matches_custom_error(
    by_level: LogRecord,
    by_custom: LogRecord,
    level: ErrorsLevel,
    message: Seq<char>,
    stack: Option<Seq<char>>,
)
    requires
        is_record(by_level, canonical_str(level), message, stack),
        is_record(by_custom, canonical_str(level), message, stack),
    ensures
        record_view(by_level) == record_view(by_custom),
{
}

} // verus!
