//! What the payloads of every provider share: a `status`, and a list of
//! `results` of which the first is read.

use crate::json::{child_of, items_of, json_of, text_of, Json};
use crate::record::{text_view, ExampleResult, RecordView};
use crate::text::{lemma_empty_literal, same_text};
use vstd::prelude::*;

verus! {

/// What a payload reports, before any of its results is read.
#[derive(Debug, PartialEq)]
pub enum PayloadKind {
    /// The provider refused: its status is a string other than `OK` and
    /// `ZERO_RESULTS`. The text is that status.
    Refused(String),
    /// The call went well and found nothing: the status is `ZERO_RESULTS`,
    /// or there is no first result.
    Empty,
    /// There is a first result to read.
    Found,
}

/// What a [`PayloadKind`] holds.
pub enum PayloadKindView {
    Refused(Seq<char>),
    Empty,
    Found,
}

impl View for PayloadKind {
    type V = PayloadKindView;

    open spec fn view(&self) -> PayloadKindView {
        match self {
            PayloadKind::Refused(status) => PayloadKindView::Refused(status@),
            PayloadKind::Empty => PayloadKindView::Empty,
            PayloadKind::Found => PayloadKindView::Found,
        }
    }
}

/// What a payload reports. A status that is no string counts as none.
pub open spec fn payload_kind(payload: Json) -> PayloadKindView {
    let status = payload.field("status"@).text();
    if status is Some && status->0 != "OK"@ && status->0 != "ZERO_RESULTS"@ {
        PayloadKindView::Refused(status->0)
    } else if status == Some("ZERO_RESULTS"@) || payload.field("results"@).items().len() == 0 {
        PayloadKindView::Empty
    } else {
        PayloadKindView::Found
    }
}

/// Tells what a payload reports; see [`payload_kind`].
pub fn classify(payload: &serde_json::Value) -> (r: PayloadKind)
    ensures
        r@ == payload_kind(json_of(*payload)),
{
    let root = Some(payload);
    match text_of(child_of(root, "status")) {
        Some(status) => {
            if same_text(status.as_str(), "ZERO_RESULTS") {
                return PayloadKind::Empty;
            }
            if !same_text(status.as_str(), "OK") {
                return PayloadKind::Refused(status);
            }
        },
        None => {},
    }
    match items_of(child_of(root, "results")) {
        Some(items) => if items.len() == 0 {
            PayloadKind::Empty
        } else {
            PayloadKind::Found
        },
        None => PayloadKind::Empty,
    }
}

/// The record of a call that went well and found nothing: status `error`,
/// detail `no_results`, nothing else.
pub open spec fn empty_result() -> RecordView {
    RecordView { status_detail: Some("no_results"@), ..RecordView::bare("error"@, Seq::empty()) }
}

/// The record of a call that went well and found nothing.
pub fn no_results_record() -> (r: ExampleResult)
    ensures
        r@ == empty_result(),
{
    proof {
        lemma_empty_literal();
    }
    let mut record = ExampleResult::bare("error", "");
    record.status_detail = Some(String::from_str("no_results"));
    record
}

/// The record of a provider's refusal, as an adapter gives it: the
/// provider's own status, and nothing else.
pub open spec fn refusal(status: Seq<char>) -> RecordView {
    RecordView::bare(status, Seq::empty())
}

/// The record of a provider's refusal.
pub fn refusal_record(status: &str) -> (r: ExampleResult)
    ensures
        r@ == refusal(status@),
{
    proof {
        lemma_empty_literal();
    }
    ExampleResult::bare(status, "")
}

/// The first of two values that is there.
pub open spec fn or_else(first: Option<Seq<char>>, second: Option<Seq<char>>) -> Option<Seq<char>> {
    match first {
        Some(value) => Some(value),
        None => second,
    }
}

/// The first of two texts that is there.
pub fn first_of(first: Option<String>, second: Option<String>) -> (r: Option<String>)
    ensures
        text_view(r) == or_else(text_view(first), text_view(second)),
{
    match first {
        Some(value) => Some(value),
        None => second,
    }
}

} // verus!
