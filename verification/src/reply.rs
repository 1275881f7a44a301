//! What the remote service answers.
//!
//! Answers are JSON documents, read with `serde_json`.  Each reader here
//! takes the text of an answer and returns plain values; what the readers
//! find is named, and the functions that decide on it take the values
//! found as arguments.  The answer to a search is not read as JSON: the
//! record id is cut out of its text.

use crate::text::{
    chars_of, ends_with, same_text, strip_ends, text_of_range, view_of, views, views_of,
    without_ends,
};
use serde_json::Value;
use vstd::prelude::*;

verus! {

/// The string that `serde_json` finds at the JSON pointer `pointer` in the
/// document `text`; nothing where `text` is no JSON document, where the
/// pointer leads nowhere, or where the value there is not a string.
pub uninterp spec fn json_string_at(text: Seq<char>, pointer: Seq<char>) -> Option<Seq<char>>;

/// How `serde_json` writes the member `key` of the document `text`, a
/// missing member being written like `null`; nothing where `text` is no
/// JSON document.
pub uninterp spec fn json_member_rendering(text: Seq<char>, key: Seq<char>) -> Option<
    Seq<char>,
>;

/// Length of the array that is member `key` of the document `text`;
/// nothing where `text` is no JSON document or the member is no array.
pub uninterp spec fn json_list_len(text: Seq<char>, key: Seq<char>) -> Option<nat>;

/// How `serde_json` writes the member `item_key` of element `index` of the
/// array `list_key` of the document `text`, a missing value being written
/// like `null`; nothing where `text` is no JSON document.
pub uninterp spec fn json_item_rendering(
    text: Seq<char>,
    list_key: Seq<char>,
    index: int,
    item_key: Seq<char>,
) -> Option<Seq<char>>;

/// `serde_json::from_str` into a `Value`, then `Value::pointer` and
/// `Value::as_str`: the string at a JSON pointer of a document.
#[verifier::external_body]
pub(crate) fn read_json_string(text: &str, pointer: &str) -> (r: Option<String>)
    ensures
        view_of(r) == json_string_at(text@, pointer@),
{
    serde_json::from_str::<Value>(text).ok()?.pointer(pointer)?.as_str().map(str::to_owned)
}

/// `serde_json::from_str` into a `Value`, then indexing by `key` and
/// `to_string`: the JSON text of one member of a document.
#[verifier::external_body]
pub(crate) fn render_json_member(text: &str, key: &str) -> (r: Option<String>)
    ensures
        view_of(r) == json_member_rendering(text@, key@),
{
    Some(serde_json::from_str::<Value>(text).ok()?[key].to_string())
}

/// `serde_json::from_str` into a `Value`, then indexing by `key` and
/// `Value::as_array`: the length of an array member of a document.
#[verifier::external_body]
pub(crate) fn read_json_list_len(text: &str, key: &str) -> (r: Option<usize>)
    ensures
        r is Some <==> json_list_len(text@, key@) is Some,
        r is Some ==> r.unwrap() == json_list_len(text@, key@).unwrap(),
{
    serde_json::from_str::<Value>(text).ok()?[key].as_array().map(Vec::len)
}

/// `serde_json::from_str` into a `Value`, then indexing by `list_key`,
/// `index` and `item_key`, and `to_string`: the JSON text of one member of
/// one element of an array member of a document.
#[verifier::external_body]
pub(crate) fn render_json_item(text: &str, list_key: &str, index: usize, item_key: &str) -> (r:
    Option<String>)
    ensures
        view_of(r) == json_item_rendering(text@, list_key@, index as int, item_key@),
{
    Some(serde_json::from_str::<Value>(text).ok()?[list_key][index][item_key].to_string())
}

/// What the service answered to the submission of an owner.
#[derive(Debug, Clone, PartialEq, Eq)]
pub enum CreationOutcome {
    /// The household was created under this record id.
    Created { ma_phieu: String },
    /// The ticket number is registered already.
    Conflict,
    /// Anything else.
    Rejected,
}

/// What a [`CreationOutcome`] holds, as texts.
pub enum CreationOutcomeView {
    Created { ma_phieu: Seq<char> },
    Conflict,
    Rejected,
}

impl View for CreationOutcome {
    type V = CreationOutcomeView;

    open spec fn view(&self) -> CreationOutcomeView {
        match self {
            CreationOutcome::Created { ma_phieu } => CreationOutcomeView::Created {
                ma_phieu: ma_phieu@,
            },
            CreationOutcome::Conflict => CreationOutcomeView::Conflict,
            CreationOutcome::Rejected => CreationOutcomeView::Rejected,
        }
    }
}

/// One page of the dependents of a household.
#[derive(Debug, Clone, PartialEq, Eq)]
pub enum PurgePage {
    /// The household has no dependents left.
    Empty,
    /// Dependents are left; these are the ids on the page.
    Dependents { ids: Vec<String> },
    /// The answer cannot be read.
    Malformed,
}

/// What a [`PurgePage`] holds, as texts.
pub enum PurgePageView {
    Empty,
    Dependents { ids: Seq<Seq<char>> },
    Malformed,
}

impl View for PurgePage {
    type V = PurgePageView;

    open spec fn view(&self) -> PurgePageView {
        match self {
            PurgePage::Empty => PurgePageView::Empty,
            PurgePage::Dependents { ids } => PurgePageView::Dependents { ids: views(ids@) },
            PurgePage::Malformed => PurgePageView::Malformed,
        }
    }
}

/// The three kinds of answer that the service gives to any request.
#[derive(Debug, Clone, Copy, PartialEq, Eq, Structural)]
pub enum ReplyKind {
    /// The request was carried out.
    Success,
    /// The service answered with a document that reports no success:
    /// an error with its messages.
    StructuredError,
    /// The answer is no JSON document.
    Malformed,
}

/// An id as the service writes it in JSON, without the quotes around it.
pub open spec fn unquoted(rendering: Seq<char>) -> Seq<char> {
    without_ends(rendering)
}

/// The outcome of a creation, from what was found in the answer: the
/// result, how the record id is written, and the message on the ticket
/// number.  A success carries the record id; a message that ends in
/// " đã tồn tại." reports the ticket number as registered.
pub open spec fn creation_outcome_of(
    result: Option<Seq<char>>,
    rendering: Option<Seq<char>>,
    ticket_message: Option<Seq<char>>,
) -> CreationOutcomeView {
    if is_success(result) {
        match rendering {
            Some(id) => CreationOutcomeView::Created { ma_phieu: unquoted(id) },
            None => CreationOutcomeView::Rejected,
        }
    } else {
        match ticket_message {
            Some(message) => if " đã tồn tại."@.is_suffix_of(message) {
                CreationOutcomeView::Conflict
            } else {
                CreationOutcomeView::Rejected
            },
            None => CreationOutcomeView::Rejected,
        }
    }
}

/// The outcome that the answer `text` reports of a creation.
pub open spec fn creation_outcome(text: Seq<char>) -> CreationOutcomeView {
    creation_outcome_of(
        json_string_at(text, "/result"@),
        json_member_rendering(text, "ma_phieu"@),
        json_string_at(text, "/errors/so_phieu"@),
    )
}

/// Whether the result found in an answer is a success.
pub open spec fn is_success(result: Option<Seq<char>>) -> bool {
    result == Some("success"@)
}

/// Whether the answer `text` reports a success.
pub open spec fn reports_success(text: Seq<char>) -> bool {
    is_success(json_string_at(text, "/result"@))
}

/// The kind of an answer, from what was found in it: the result, and how
/// the result is written.  No result can be written where the answer is
/// no JSON document.
pub open spec fn reply_kind_of(result: Option<Seq<char>>, rendering: Option<Seq<char>>) ->
    ReplyKind {
    if is_success(result) {
        ReplyKind::Success
    } else if rendering is Some {
        ReplyKind::StructuredError
    } else {
        ReplyKind::Malformed
    }
}

/// The page, from what was found in the answer: the count of dependents
/// left and how the ids on the page are written.  A count of "0" ends the
/// purge whatever else the answer holds.
pub open spec fn page_of(records: Option<Seq<char>>, renderings: Option<Seq<Seq<char>>>) ->
    PurgePageView {
    if records == Some("0"@) {
        PurgePageView::Empty
    } else {
        match renderings {
            Some(list) => PurgePageView::Dependents {
                ids: list.map_values(|rendering: Seq<char>| unquoted(rendering)),
            },
            None => PurgePageView::Malformed,
        }
    }
}

/// How the ids of the rows of the answer `text` are written; nothing where
/// the answer has no list of rows or a row cannot be written.
pub open spec fn row_id_renderings(text: Seq<char>) -> Option<Seq<Seq<char>>> {
    match json_list_len(text, "rows"@) {
        Some(n) => if forall|i: int|
            0 <= i < n ==> (#[trigger] json_item_rendering(text, "rows"@, i, "id"@)) is Some {
            Some(Seq::new(n, |i: int| json_item_rendering(text, "rows"@, i, "id"@).unwrap()))
        } else {
            None
        },
        None => None,
    }
}

/// The page that the answer `text` holds.
pub open spec fn purge_page(text: Seq<char>) -> PurgePageView {
    page_of(json_string_at(text, "/records"@), row_id_renderings(text))
}

/// The kind of the answer `text`.
pub open spec fn reply_kind(text: Seq<char>) -> ReplyKind {
    reply_kind_of(json_string_at(text, "/result"@), json_member_rendering(text, "result"@))
}

/// Whether the result found in an answer is a success.
pub fn success(result: &Option<String>) -> (r: bool)
    ensures
        r == is_success(view_of(*result)),
{
    match result {
        Some(value) => same_text(value.as_str(), "success"),
        None => false,
    }
}

/// Decides the outcome of a creation from what was found in the answer.
pub fn classify_creation(
    result: Option<String>,
    rendering: Option<String>,
    ticket_message: Option<String>,
) -> (r: CreationOutcome)
    ensures
        r@ == creation_outcome_of(view_of(result), view_of(rendering), view_of(ticket_message)),
{
    if success(&result) {
        match rendering {
            Some(id) => CreationOutcome::Created { ma_phieu: strip_ends(id.as_str()) },
            None => CreationOutcome::Rejected,
        }
    } else {
        match ticket_message {
            Some(message) => if ends_with(message.as_str(), " đã tồn tại.") {
                CreationOutcome::Conflict
            } else {
                CreationOutcome::Rejected
            },
            None => CreationOutcome::Rejected,
        }
    }
}

/// Reads the answer to the submission of an owner.
pub fn read_creation_reply(text: &str) -> (r: CreationOutcome)
    ensures
        r@ == creation_outcome(text@),
{
    classify_creation(
        read_json_string(text, "/result"),
        render_json_member(text, "ma_phieu"),
        read_json_string(text, "/errors/so_phieu"),
    )
}

/// Whether an answer reports a success.
pub fn read_success(text: &str) -> (r: bool)
    ensures
        r == reports_success(text@),
{
    let result = read_json_string(text, "/result");
    success(&result)
}

/// Decides what a page holds from what was found in the answer.
pub fn classify_page(records: Option<String>, renderings: Option<Vec<String>>) -> (r: PurgePage)
    ensures
        r@ == page_of(view_of(records), views_of(renderings)),
{
    let drained = match &records {
        Some(count) => same_text(count.as_str(), "0"),
        None => false,
    };
    if drained {
        return PurgePage::Empty;
    }
    match renderings {
        Some(list) => {
            let mut ids: Vec<String> = Vec::new();
            let mut i: usize = 0;
            while i < list.len()
                invariant
                    i <= list.len(),
                    ids.len() == i,
                    forall|j: int| 0 <= j < i ==> (#[trigger] ids@[j])@ == unquoted(list@[j]@),
                decreases list.len() - i,
            {
                ids.push(strip_ends(list[i].as_str()));
                i = i + 1;
            }
            assert(views(ids@) =~= views(list@).map_values(
                |rendering: Seq<char>| unquoted(rendering),
            ));
            PurgePage::Dependents { ids }
        },
        None => PurgePage::Malformed,
    }
}

/// Reads how the ids of the rows of an answer are written.
pub fn read_row_ids(text: &str) -> (r: Option<Vec<String>>)
    ensures
        views_of(r) == row_id_renderings(text@),
{
    let n: usize = match read_json_list_len(text, "rows") {
        Some(n) => n,
        None => { return None; },
    };
    let mut renderings: Vec<String> = Vec::new();
    let mut i: usize = 0;
    while i < n
        invariant
            i <= n,
            json_list_len(text@, "rows"@) == Some(n as nat),
            renderings.len() == i,
            forall|j: int|
                0 <= j < i ==> Some((#[trigger] renderings@[j])@) == json_item_rendering(
                    text@,
                    "rows"@,
                    j,
                    "id"@,
                ),
        decreases n - i,
    {
        match render_json_item(text, "rows", i, "id") {
            Some(rendering) => {
                renderings.push(rendering);
            },
            None => {
                return None;
            },
        }
        i = i + 1;
    }
    assert forall|k: int| 0 <= k < n implies (#[trigger] json_item_rendering(
        text@,
        "rows"@,
        k,
        "id"@,
    )) is Some by {
        assert(Some(renderings@[k]@) == json_item_rendering(text@, "rows"@, k, "id"@));
    }
    Some(renderings)
}

/// Reads one page of the dependents of a household.
pub fn read_purge_page(text: &str) -> (r: PurgePage)
    ensures
        r@ == purge_page(text@),
{
    classify_page(read_json_string(text, "/records"), read_row_ids(text))
}

/// Decides the kind of an answer from what was found in it.
pub fn classify_reply(result: Option<String>, rendering: Option<String>) -> (r: ReplyKind)
    ensures
        r == reply_kind_of(view_of(result), view_of(rendering)),
{
    if success(&result) {
        ReplyKind::Success
    } else if rendering.is_some() {
        ReplyKind::StructuredError
    } else {
        ReplyKind::Malformed
    }
}

/// Tells the kind of an answer.
pub fn read_reply_kind(text: &str) -> (r: ReplyKind)
    ensures
        r == reply_kind(text@),
{
    classify_reply(read_json_string(text, "/result"), render_json_member(text, "result"))
}

/// Whether a record id starts at `at` in the answer to a search: the
/// marker `id":"` stands there and a character other than a quote follows.
pub open spec fn id_starts_at(s: Seq<char>, at: int) -> bool {
    &&& 0 <= at
    &&& at + 5 < s.len()
    &&& s[at] == 'i'
    &&& s[at + 1] == 'd'
    &&& s[at + 2] == '"'
    &&& s[at + 3] == ':'
    &&& s[at + 4] == '"'
    &&& s[at + 5] != '"'
}

/// Position of the first quote of `s` at or after `from`; the length of
/// `s` where there is none.
pub open spec fn next_quote(s: Seq<char>, from: int) -> int
    decreases s.len() - from,
{
    if from >= s.len() {
        s.len() as int
    } else if s[from] == '"' {
        from
    } else {
        next_quote(s, from + 1)
    }
}

/// Whether `at` is the first position of `s` at which a record id starts.
pub open spec fn first_id_at(s: Seq<char>, at: int) -> bool {
    id_starts_at(s, at) && forall|before: int| 0 <= before < at ==> !id_starts_at(s, before)
}

/// The record id in the answer to a search: what follows the first marker
/// `id":"` that a character other than a quote follows, up to the next
/// quote or the end of the answer.  Nothing where no such marker stands.
pub open spec fn record_id_in(s: Seq<char>) -> Option<Seq<char>> {
    if exists|at: int| id_starts_at(s, at) {
        let at = choose|at: int| first_id_at(s, at);
        Some(s.subrange(at + 5, next_quote(s, at + 5)))
    } else {
        None
    }
}

/// Cuts the record id out of the answer to a search.
pub fn find_record_id(text: &str) -> (r: Option<String>)
    ensures
        view_of(r) == record_id_in(text@),
{
    let chars = chars_of(text);
    let n: usize = chars.len();
    if n < 6 {
        return None;
    }
    let mut at: usize = 0;
    while at < n - 5
        invariant
            6 <= n == chars.len(),
            chars@ == text@,
            forall|before: int| 0 <= before < at ==> !id_starts_at(text@, before),
        decreases n - at,
    {
        if chars[at] == 'i' && chars[at + 1] == 'd' && chars[at + 2] == '"' && chars[at + 3]
            == ':' && chars[at + 4] == '"' && chars[at + 5] != '"' {
            let mut end: usize = at + 5;
            while end < n && chars[end] != '"'
                invariant
                    at + 5 <= end <= n,
                    n == chars.len(),
                    next_quote(chars@, at + 5) == next_quote(chars@, end as int),
                decreases n - end,
            {
                end = end + 1;
            }
            assert(first_id_at(text@, at as int));
            return Some(text_of_range(&chars, at + 5, end));
        }
        at = at + 1;
    }
    None
}

} // verus!
