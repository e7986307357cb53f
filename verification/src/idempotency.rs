//! Idempotency keys and the responses recorded under them, so that a
//! repeated request is answered without repeating its side effects.

use vstd::prelude::*;
use vstd::utf8::encode_utf8;
use crate::entities::{IdempotencyRow, IdempotencyView};
use crate::http::{clone_headers, Response, ResponseView};

verus! {

/// A client's name for one logical attempt: not empty and shorter than
/// fifty bytes.
#[derive(Debug)]
pub struct IdempotencyKey {
    value: String,
}

/// Why a text is no idempotency key.
#[derive(Clone, Copy, Debug, PartialEq, Eq, Structural)]
pub enum KeyError {
    Empty,
    TooLong,
}

/// The length that a key must stay below, in bytes.
pub const MAX_KEY_LENGTH: usize = 50;

/// What reading a text as a key gives.
pub open spec fn key_rejection(text: Seq<char>) -> Option<KeyError> {
    if text.len() == 0 {
        Some(KeyError::Empty)
    } else if encode_utf8(text).len() >= MAX_KEY_LENGTH {
        Some(KeyError::TooLong)
    } else {
        None
    }
}

impl View for IdempotencyKey {
    type V = Seq<char>;

    closed spec fn view(&self) -> Seq<char> {
        self.value@
    }
}

impl IdempotencyKey {
    #[verifier::type_invariant]
    spec fn well_formed(self) -> bool {
        key_rejection(self.value@) is None
    }

    /// Reads a text as a key: an empty text and a text of fifty bytes or
    /// more are rejected, any other text is the key.
    pub fn try_from(s: String) -> (parsed: Result<IdempotencyKey, KeyError>)
        ensures
            match key_rejection(s@) {
                Some(e) => parsed == Err::<IdempotencyKey, KeyError>(e),
                None => parsed is Ok && parsed->Ok_0@ == s@,
            },
    {
        if s.as_str().is_empty() {
            return Err(KeyError::Empty);
        }
        if s.as_str().as_bytes().len() >= MAX_KEY_LENGTH {
            return Err(KeyError::TooLong);
        }
        Ok(IdempotencyKey { value: s })
    }

    /// The key as text.
    pub fn as_ref(&self) -> (text: &str)
        ensures
            text@ == self@,
            key_rejection(text@) is None,
    {
        proof {
            use_type_invariant(self);
        }
        self.value.as_str()
    }
}

/// The text of each error of reading a key.
pub open spec fn key_error_text(e: KeyError) -> Seq<char> {
    match e {
        KeyError::Empty => "The idempotency key cannot be empty"@,
        KeyError::TooLong => "The idempotency key must be shorter than 50 characters"@,
    }
}

impl KeyError {
    /// The text of the error.
    pub fn message(&self) -> (text: &'static str)
        ensures
            text@ == key_error_text(*self),
    {
        match self {
            KeyError::Empty => "The idempotency key cannot be empty",
            KeyError::TooLong => "The idempotency key must be shorter than 50 characters",
        }
    }
}

/// Whether a number is a status code that a response can carry.
pub open spec fn is_status_code(code: int) -> bool {
    100 <= code <= 999
}

/// The response that a stored row stands for.
pub open spec fn row_response(row: IdempotencyView) -> ResponseView {
    ResponseView {
        status: row.response_status_code as int,
        headers: row.response_headers,
        body: row.response_body,
    }
}

/// Rebuilds the response that a row recorded: the same status, the same
/// headers in the same order, the same body. A row whose status is no
/// status code gives nothing.
pub fn get_saved_response(row: &IdempotencyRow) -> (saved: Option<Response>)
    ensures
        saved is Some <==> is_status_code(row.response_status_code as int),
        saved matches Some(response) ==> response@ == row_response(row@),
{
    if row.response_status_code < 100 || row.response_status_code > 999 {
        return None;
    }
    let response = Response {
        status: row.response_status_code as u16,
        headers: clone_headers(&row.response_headers),
        body: vstd::slice::slice_to_vec(row.response_body.as_slice()),
    };
    assert(response@.headers =~= row@.response_headers);
    Some(response)
}

/// The row that records a response under a key of a user. A response
/// whose status is no status code is not recorded.
pub fn save_response(
    idempotency_key: &IdempotencyKey,
    user_id: u128,
    http_response: &Response,
    now: i64,
) -> (row: Option<IdempotencyRow>)
    ensures
        row is Some <==> is_status_code(http_response.status as int),
        row matches Some(r) ==> r.user_id == user_id && r.idempotency_key@ == idempotency_key@
            && r.created_at == now && row_response(r@) == http_response@,
{
    if http_response.status < 100 || http_response.status > 999 {
        return None;
    }
    let row = IdempotencyRow {
        user_id,
        idempotency_key: idempotency_key.as_ref().to_owned(),
        response_status_code: http_response.status as i16,
        response_headers: clone_headers(&http_response.headers),
        response_body: vstd::slice::slice_to_vec(http_response.body.as_slice()),
        created_at: now,
    };
    assert(row@.response_headers =~= http_response@.headers);
    Some(row)
}

/// What to do with a request that carries an idempotency key.
#[derive(Debug)]
pub enum NextAction {
    /// The key is new and now belongs to this request: do the work, then
    /// save the response.
    StartProcessing,
    /// The work was done before: answer with what was saved then.
    ReturnSavedResponse(Response),
    /// Another request holds the key and has not saved its response yet:
    /// wait and ask again.
    AwaitSavedResponse,
}

/// The mathematical value of the next action.
pub enum NextActionView {
    StartProcessing,
    ReturnSavedResponse(ResponseView),
    AwaitSavedResponse,
}

impl View for NextAction {
    type V = NextActionView;

    open spec fn view(&self) -> NextActionView {
        match self {
            NextAction::StartProcessing => NextActionView::StartProcessing,
            NextAction::ReturnSavedResponse(r) => NextActionView::ReturnSavedResponse(r@),
            NextAction::AwaitSavedResponse => NextActionView::AwaitSavedResponse,
        }
    }
}

/// The next action, from whether this request got hold of the key and
/// from the response saved under it.
pub open spec fn action_for(claimed: bool, saved: Option<ResponseView>) -> NextActionView {
    if claimed {
        NextActionView::StartProcessing
    } else {
        match saved {
            Some(r) => NextActionView::ReturnSavedResponse(r),
            None => NextActionView::AwaitSavedResponse,
        }
    }
}

/// Decides what to do with a request: only the request that got hold of
/// the key does the work; every other one is answered with the saved
/// response, once there is one.
pub fn next_action(claimed: bool, saved: Option<Response>) -> (action: NextAction)
    ensures
        action@ == action_for(
            claimed,
            match saved {
                Some(r) => Some(r@),
                None => None,
            },
        ),
{
    if claimed {
        NextAction::StartProcessing
    } else {
        match saved {
            Some(r) => NextAction::ReturnSavedResponse(r),
            None => NextAction::AwaitSavedResponse,
        }
    }
}

/// The table of saved responses, as a map from a user and a key to what
/// is saved under the key: nothing while the request that took the key is
/// in progress, then its response.
pub type Saved = Map<(u128, Seq<char>), Option<ResponseView>>;

/// The response saved under a key, if there is one.
pub open spec fn saved_under(saved: Saved, id: (u128, Seq<char>)) -> Option<ResponseView> {
    if saved.contains_key(id) {
        saved[id]
    } else {
        None
    }
}

/// The table after a request tried to take a key, and whether it got it:
/// a key is taken exactly if it is not in the table yet.
pub open spec fn after_claim(saved: Saved, id: (u128, Seq<char>)) -> (Saved, bool) {
    if saved.contains_key(id) {
        (saved, false)
    } else {
        (saved.insert(id, None), true)
    }
}

/// The table after a response was saved under a key: the first response
/// saved under a key stays.
pub open spec fn after_save(saved: Saved, id: (u128, Seq<char>), response: ResponseView) -> Saved {
    if saved_under(saved, id) is Some {
        saved
    } else {
        saved.insert(id, Some(response))
    }
}

/// Of two requests with the same new key only the first takes it. The
/// second is told to wait while the first is in progress, and is answered
/// with the first one's response once that is saved; it never starts the
/// work itself.
pub proof fn one_key_is_taken_once(saved: Saved, id: (u128, Seq<char>), response: ResponseView)
    requires
        !saved.contains_key(id),
    ensures
        ({
            let (taken, first) = after_claim(saved, id);
            let (unchanged, second) = after_claim(taken, id);
            let done = after_save(unchanged, id, response);
            let (still, third) = after_claim(done, id);
            &&& first
            &&& !second
            &&& unchanged == taken
            &&& action_for(second, saved_under(unchanged, id)) == NextActionView::AwaitSavedResponse
            &&& !third
            &&& still == done
            &&& action_for(third, saved_under(still, id)) == NextActionView::ReturnSavedResponse(
                response,
            )
        }),
{
}

/// A key that is in the table stays there, whatever is claimed or saved
/// afterwards, so no later request can take it.
pub proof fn taken_key_stays_taken(
    saved: Saved,
    id: (u128, Seq<char>),
    other: (u128, Seq<char>),
    response: ResponseView,
)
    requires
        saved.contains_key(id),
    ensures
        after_claim(saved, other).0.contains_key(id),
        after_save(saved, other, response).contains_key(id),
        !after_claim(after_claim(saved, other).0, id).1,
        !after_claim(after_save(saved, other, response), id).1,
{
}

/// A saved response is never replaced: whatever is saved later under the
/// same key, the first response is the one that is read.
pub proof fn first_writer_wins(
    saved: Saved,
    id: (u128, Seq<char>),
    first: ResponseView,
    second: ResponseView,
)
    requires
        saved_under(saved, id) is None,
    ensures
        saved_under(after_save(after_save(saved, id, first), id, second), id) == Some(first),
{
}

} // verus!
