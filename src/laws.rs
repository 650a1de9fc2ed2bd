//! Properties that hold across the typed operations, proved over the
//! contracts of the encoder and the decoder.
use vstd::prelude::*;
use crate::command::{body_of, single_member_text, Command};
use crate::error::WebDriverError;
use crate::json::{member, Json};
use crate::keys::{key_code, rendered, text_units, Key, TypingData, TypingUnit};
use crate::session::{is_success, outcome, string_member, text_result, unit_result, Reply};

verus! {

/// Plain text is sent as it is: no character of it is read as a key action.
pub proof fn plain_text_sent_verbatim(keys: TypingData, s: Seq<char>)
    requires
        keys@ == text_units(s),
    ensures
        rendered(keys@) == s,
        body_of(Command::SendAlertText(keys)) == Some(single_member_text("text"@, s)),
{
    assert(rendered(text_units(s)) =~= s);
}

/// A key action followed by plain text is sent as the key's code and then
/// the text, in that order.
pub proof fn key_then_text_in_order(keys: TypingData, k: Key, s: Seq<char>)
    requires
        keys@ == seq![TypingUnit::Press(k)] + text_units(s),
    ensures
        rendered(keys@) == seq![key_code(k)] + s,
        body_of(Command::SendAlertText(keys)) == Some(
            single_member_text("text"@, seq![key_code(k)] + s),
        ),
{
    assert(rendered(keys@) =~= seq![key_code(k)] + s);
}

/// Dismiss, accept and typing succeed on any successful reply whose body is
/// JSON without an error object, whatever its `value` holds or lacks.
pub proof fn unit_operations_succeed(status: u16, body: Json)
    requires
        is_success(status),
        string_member(member(body, "value"@), "error"@) is None,
    ensures
        unit_result(outcome(Reply::Received { status, body: Some(body) })) == Ok::<(), WebDriverError>(()),
{
}

/// An error object in a reply reaches the caller of every alert operation
/// with the driver's code unchanged, whatever the status.
pub proof fn driver_error_surfaces(status: u16, body: Json, code: String)
    requires
        string_member(member(body, "value"@), "error"@) == Some(code),
    ensures
        ({
            let e = WebDriverError::Protocol {
                status,
                error: code,
                message: string_member(member(body, "value"@), "message"@),
            };
            &&& text_result(outcome(Reply::Received { status, body: Some(body) })) == Err::<String, WebDriverError>(e)
            &&& unit_result(outcome(Reply::Received { status, body: Some(body) })) == Err::<(), WebDriverError>(e)
        }),
{
}

/// A text is read only from a string `value`: a reply whose `value` is
/// missing or is not a string gives a decode error, never a text.
pub proof fn text_needs_string_value(status: u16, body: Json)
    requires
        is_success(status),
        string_member(member(body, "value"@), "error"@) is None,
        !(member(body, "value"@) matches Some(Json::Str(_))),
    ensures
        text_result(outcome(Reply::Received { status, body: Some(body) })) is Err,
        text_result(outcome(Reply::Received { status, body: Some(body) })) matches Err(
            WebDriverError::Decode { .. },
        ),
{
}

} // verus!
