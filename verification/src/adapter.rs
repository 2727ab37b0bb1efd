use vstd::prelude::*;

use crate::record::LogRecord;
use crate::record::is_record;

verus! {

/// Why a native exception value could not be adapted into a record.
#[derive(Clone, Copy, PartialEq, Eq, Structural, Debug)]
pub enum AdapterError {
    /// The value had no message readable as text. The adapter refuses to
    /// synthesize a placeholder rather than report a misleading record.
    MissingMessage,
}

/// What becomes of the extracted stack field: a stack that is absent, not
/// readable as text, or readable but empty is recorded as "not available".
pub open spec fn adapted_stack(stack: Option<Seq<char>>) -> Option<Seq<char>> {
    match stack {
        Option::Some(s) => if s.len() == 0 {
            Option::None
        } else {
            Option::Some(s)
        },
        Option::None => Option::None,
    }
}

/// Adapts the text fields read off a native exception value into a record
/// with the level fixed to "Error". Each argument holds the field's text
/// when the host value had one readable as text, and is `None` otherwise.
/// A missing message fails the adapter; a missing stack never does.
pub fn from_native_error(message: Option<String>, stack: Option<String>) -> (r: Result<
    LogRecord,
    AdapterError,
>)
    ensures
        r is Ok <==> message is Some,
        message is None ==> (r matches Err(e) && e == AdapterError::MissingMessage),
        message matches Some(m) ==> (r matches Ok(rec) && is_record(
            rec,
            "Error"@,
            m@,
            adapted_stack(stack.deep_view()),
        )),
{
    match message {
        Option::Some(m) => {
            let stack_trace: Option<String> = match stack {
                Option::Some(s) => if s.as_str().is_empty() {
                    Option::None
                } else {
                    Option::Some(s)
                },
                Option::None => Option::None,
            };
            Result::Ok(LogRecord { level: "Error".to_owned(), message: m, stack_trace })
        },
        Option::None => Result::Err(AdapterError::MissingMessage),
    }
}

} // verus!
