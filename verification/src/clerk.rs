//! The client side: the requests that clients hand to the clerk, the clerk's
//! decision on the outcome of a `SET`, and the lines that report outcomes.

use vstd::prelude::*;
use vstd::string::StringExecFns;
use crate::report::set_outcome_text;
use crate::server::set_reply_text;
use crate::text::{contains_text, occurs_at, str_contains};

verus! {

/// A request that a client hands to the clerk, which holds the one
/// connection to the server.
pub enum Op {
    SetValue { key: String, value: Vec<u8> },
    Get { key: String },
}

/// What the clerk sends back to the client after a `SET`.
#[derive(PartialEq, Eq, Structural, Debug, Clone, Copy)]
pub enum SetReply {
    /// Report success.
    Success,
    /// Hand the error of the `SET` on to the client.
    ForwardError,
}

/// The marker of a successful `SET` in the server's reply. The server answers
/// `SET` with `SUCCESS`, which the client library reports as an unexpected
/// frame whose text holds the marker.
pub open spec fn success_marker() -> Seq<char> {
    "SUCCESS"@
}

/// The clerk's decision on the outcome of a `SET` (`Err` holds the text of
/// the error).
pub open spec fn spec_set_reply(outcome: Result<(), Seq<char>>) -> SetReply {
    match outcome {
        Ok(_) => SetReply::Success,
        Err(text) => if contains_text(text, success_marker()) {
            SetReply::Success
        } else {
            SetReply::ForwardError
        },
    }
}

/// The value of the outcome of a `SET`: the error, if any, as its text.
pub open spec fn outcome_view(outcome: Result<(), String>) -> Result<(), Seq<char>> {
    match outcome {
        Ok(u) => Ok(u),
        Err(e) => Err(e@),
    }
}

/// Decides what the clerk reports for the outcome of a `SET`: success when
/// the `SET` succeeded or its error text holds `SUCCESS`, else the error.
pub fn set_reply(outcome: &Result<(), String>) -> (r: SetReply)
    ensures
        r == spec_set_reply(outcome_view(*outcome)),
{
    match outcome {
        Ok(_) => SetReply::Success,
        Err(text) => if str_contains(text.as_str(), "SUCCESS") {
            SetReply::Success
        } else {
            SetReply::ForwardError
        },
    }
}

/// The server's answer to a `SET`, wherever it stands in the error text that
/// the client library makes of it, makes the clerk report success.
pub proof fn lemma_server_set_reply_is_success(before: Seq<char>, after: Seq<char>)
    ensures
        spec_set_reply(Err(before + set_reply_text() + after)) == SetReply::Success,
{
    let t = before + set_reply_text() + after;
    assert(t.subrange(before.len() as int, (before.len() + success_marker().len()) as int)
        =~= success_marker());
    assert(occurs_at(t, success_marker(), before.len() as int));
}

/// The text `SUCCESS` stands in `text` at some position.
pub open spec fn holds_success_at(text: Seq<char>, i: int) -> bool {
    0 <= i && i + 7 <= text.len() && text.subrange(i, i + 7) == "SUCCESS"@
}

/// A `SET` that succeeded is reported as a success.
pub proof fn lemma_set_success_is_reported()
    ensures
        spec_set_reply(Ok(())) == SetReply::Success,
{
}

/// A failed `SET` is reported as a success exactly when the text of its error
/// holds `SUCCESS` somewhere; every other error is handed on to the client.
pub proof fn lemma_set_error_is_forwarded(text: Seq<char>)
    ensures
        spec_set_reply(Err(text)) == SetReply::Success <==> exists|i: int|
            #[trigger] holds_success_at(text, i),
        spec_set_reply(Err(text)) == SetReply::ForwardError <==> forall|i: int|
            !#[trigger] holds_success_at(text, i),
{
    reveal_strlit("SUCCESS");
    assert forall|i: int| occurs_at(text, success_marker(), i) <==> holds_success_at(text, i) by {}
    if contains_text(text, success_marker()) {
        let i = choose|i: int| occurs_at(text, success_marker(), i);
        assert(holds_success_at(text, i));
    }
    if exists|i: int| holds_success_at(text, i) {
        let i = choose|i: int| holds_success_at(text, i);
        assert(occurs_at(text, success_marker(), i));
    }
}

/// The outcome of a `SET` that the clerk hands on to the client: success
/// where it decides so, else the outcome as it came.
pub open spec fn clerk_set_outcome(outcome: Result<(), Seq<char>>) -> Result<(), Seq<char>> {
    match spec_set_reply(outcome) {
        SetReply::Success => Ok(()),
        SetReply::ForwardError => outcome,
    }
}

/// The server's answer to a `SET`, as the client library reports it, reaches
/// the user as the success line.
pub proof fn lemma_server_set_is_printed_as_success(before: Seq<char>, after: Seq<char>)
    ensures
        set_outcome_text(clerk_set_outcome(Err(before + set_reply_text() + after)))
            == "[SUCCESS] SET"@,
{
    lemma_server_set_reply_is_success(before, after);
}

} // verus!
