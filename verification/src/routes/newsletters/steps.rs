//! Publishing step by step. Each step asks one thing of the store or of
//! the e-mail client, so requests that arrive together take their steps
//! in any order; the steps are such that one key still sends one issue.

use vstd::prelude::*;
use crate::authentication::UserId;
use crate::email_client::EmailView;
use crate::http::{bare, Response, ResponseView, OK};
use crate::idempotency::{
    action_for, after_claim, after_save, saved_under, IdempotencyKey, NextAction, NextActionView,
};
use crate::routes::newsletters::{issue, issue_messages};
use crate::startup::{AppState, StateView};
use crate::store::confirmed_addresses;

verus! {

/// How far a request to publish has come.
#[derive(Debug)]
pub enum Progress {
    /// It does not hold the key: it has not asked for it yet, or was told
    /// to wait.
    Arrived,
    /// It holds the key and has not sent the issue yet.
    Working,
    /// It has sent the issue and has not saved its response yet.
    Delivered,
    /// It is answered.
    Answered(Response),
}

/// The mathematical value of a request's progress.
pub enum ProgressView {
    Arrived,
    Working,
    Delivered,
    Answered(ResponseView),
}

impl View for Progress {
    type V = ProgressView;

    open spec fn view(&self) -> ProgressView {
        match self {
            Progress::Arrived => ProgressView::Arrived,
            Progress::Working => ProgressView::Working,
            Progress::Delivered => ProgressView::Delivered,
            Progress::Answered(r) => ProgressView::Answered(r@),
        }
    }
}

/// The content of an issue.
pub struct IssueView {
    pub title: Seq<char>,
    pub html: Seq<char>,
    pub text: Seq<char>,
}

/// The messages that deliver an issue: one to each confirmed subscriber
/// whose stored address is well formed.
pub open spec fn batch(state: StateView, content: IssueView) -> Seq<EmailView> {
    issue_messages(
        state.sender,
        confirmed_addresses(state.subscriptions),
        content.title,
        content.html,
        content.text,
    )
}

/// The state and the progress of a request after its next step.
///
/// A request that does not hold the key asks for it: it gets it where the
/// key is new, is answered with the saved response where there is one,
/// and else goes on waiting. A request that holds the key sends the
/// issue, then saves its response, 200, and is answered with it.
pub open spec fn advanced(
    state: StateView,
    progress: ProgressView,
    id: (u128, Seq<char>),
    content: IssueView,
) -> (StateView, ProgressView) {
    match progress {
        ProgressView::Arrived => {
            let (saved, claimed) = after_claim(state.saved_responses, id);
            match action_for(claimed, saved_under(state.saved_responses, id)) {
                NextActionView::StartProcessing => (
                    StateView { saved_responses: saved, ..state },
                    ProgressView::Working,
                ),
                NextActionView::ReturnSavedResponse(response) => (
                    state,
                    ProgressView::Answered(response),
                ),
                NextActionView::AwaitSavedResponse => (state, ProgressView::Arrived),
            }
        },
        ProgressView::Working => (
            StateView { outbox: state.outbox + batch(state, content), ..state },
            ProgressView::Delivered,
        ),
        ProgressView::Delivered => (
            StateView {
                saved_responses: after_save(state.saved_responses, id, bare(OK as int)),
                ..state
            },
            ProgressView::Answered(bare(OK as int)),
        ),
        ProgressView::Answered(response) => (state, ProgressView::Answered(response)),
    }
}

/// How far a request has come once it has asked for the key: it works
/// where it got the key, is answered where a response is saved, and
/// else has to ask again.
pub open spec fn progress_for(action: NextActionView) -> ProgressView {
    match action {
        NextActionView::StartProcessing => ProgressView::Working,
        NextActionView::ReturnSavedResponse(response) => ProgressView::Answered(response),
        NextActionView::AwaitSavedResponse => ProgressView::Arrived,
    }
}

/// Decides how a request goes on once it has asked for the key.
pub fn progress_after(action: NextAction) -> (progress: Progress)
    ensures
        progress@ == progress_for(action@),
{
    match action {
        NextAction::StartProcessing => Progress::Working,
        NextAction::ReturnSavedResponse(response) => Progress::Answered(response),
        NextAction::AwaitSavedResponse => Progress::Arrived,
    }
}

/// Takes the next step of a request to publish.
pub fn advance(
    state: &mut AppState,
    progress: Progress,
    user_id: UserId,
    key: &IdempotencyKey,
    title: &str,
    html_content: &str,
    text_content: &str,
) -> (next: Progress)
    requires
        old(state).sound(),
    ensures
        final(state).sound(),
        (final(state)@, next@) == advanced(
            old(state)@,
            progress@,
            (user_id.0, key@),
            IssueView { title: title@, html: html_content@, text: text_content@ },
        ),
{
    let ghost before = state@;
    match progress {
        Progress::Arrived => {
            let action = state.saved_responses.try_processing(user_id.0, key);
            assert(!(action@ is StartProcessing) ==> state@ =~= before);
            progress_after(action)
        },
        Progress::Working => {
            let addresses = state.subscribers.confirmed_subscribers();
            let messages = issue(
                &state.email_client,
                addresses,
                title,
                html_content,
                text_content,
            );
            state.send_all(messages);
            Progress::Delivered
        },
        Progress::Delivered => {
            let response = Response::from_status(OK);
            state.saved_responses.save(user_id.0, key, response.clone());
            Progress::Answered(response)
        },
        Progress::Answered(response) => Progress::Answered(response),
    }
}

/// Two requests that arrived with the same key of the same user, each
/// with its own content and its own progress, and the state they share.
pub struct Race {
    pub state: StateView,
    pub first: ProgressView,
    pub second: ProgressView,
}

/// The race after one of the two requests took its next step.
pub open spec fn moved(
    race: Race,
    first_moves: bool,
    id: (u128, Seq<char>),
    first: IssueView,
    second: IssueView,
) -> Race {
    if first_moves {
        let (state, progress) = advanced(race.state, race.first, id, first);
        Race { state, first: progress, second: race.second }
    } else {
        let (state, progress) = advanced(race.state, race.second, id, second);
        Race { state, first: race.first, second: progress }
    }
}

/// The race after the requests took their steps in the order that
/// `schedule` gives: `true` for a step of the first request, `false` for
/// a step of the second.
pub open spec fn raced(
    race: Race,
    schedule: Seq<bool>,
    id: (u128, Seq<char>),
    first: IssueView,
    second: IssueView,
) -> Race
    decreases schedule.len(),
{
    if schedule.len() == 0 {
        race
    } else {
        moved(raced(race, schedule.drop_last(), id, first, second), schedule.last(), id, first, second)
    }
}

/// What holds of a race at every moment, where the key was new when the
/// two requests arrived: at most one of them has got hold of the key;
/// only that one has sent, and at most once; and a request is answered
/// only with the response of the one that sent.
pub open spec fn one_sender(
    initial: StateView,
    race: Race,
    id: (u128, Seq<char>),
    first: IssueView,
    second: IssueView,
) -> bool {
    let saved = race.state.saved_responses;
    let sent_by_first = initial.outbox + batch(initial, first);
    let sent_by_second = initial.outbox + batch(initial, second);
    let done = bare(OK as int);
    &&& race.state == (StateView { saved_responses: saved, outbox: race.state.outbox, ..initial })
    &&& saved.remove(id) == initial.saved_responses
    &&& match (race.first, race.second) {
        (ProgressView::Arrived, ProgressView::Arrived) => !saved.contains_key(id)
            && race.state.outbox == initial.outbox,
        (ProgressView::Working, ProgressView::Arrived) => saved_in_progress(saved, id)
            && race.state.outbox == initial.outbox,
        (ProgressView::Arrived, ProgressView::Working) => saved_in_progress(saved, id)
            && race.state.outbox == initial.outbox,
        (ProgressView::Delivered, ProgressView::Arrived) => saved_in_progress(saved, id)
            && race.state.outbox == sent_by_first,
        (ProgressView::Arrived, ProgressView::Delivered) => saved_in_progress(saved, id)
            && race.state.outbox == sent_by_second,
        (ProgressView::Answered(r), ProgressView::Arrived) => r == done && saved_under(saved, id)
            == Some(done) && race.state.outbox == sent_by_first,
        (ProgressView::Arrived, ProgressView::Answered(r)) => r == done && saved_under(saved, id)
            == Some(done) && race.state.outbox == sent_by_second,
        (ProgressView::Answered(r), ProgressView::Answered(s)) => r == done && s == done
            && saved_under(saved, id) == Some(done) && (race.state.outbox == sent_by_first
            || race.state.outbox == sent_by_second),
        _ => false,
    }
}

/// Whether a key is taken and no response is saved under it yet.
pub open spec fn saved_in_progress(
    saved: Map<(u128, Seq<char>), Option<ResponseView>>,
    id: (u128, Seq<char>),
) -> bool {
    saved.contains_key(id) && saved[id] is None
}

proof fn one_sender_is_kept(
    initial: StateView,
    race: Race,
    first_moves: bool,
    id: (u128, Seq<char>),
    first: IssueView,
    second: IssueView,
)
    requires
        !initial.saved_responses.contains_key(id),
        one_sender(initial, race, id, first, second),
    ensures
        one_sender(initial, moved(race, first_moves, id, first, second), id, first, second),
{
    let next = moved(race, first_moves, id, first, second);
    let saved = race.state.saved_responses;
    let done = bare(OK as int);
    assert(batch(race.state, first) == batch(initial, first));
    assert(batch(race.state, second) == batch(initial, second));
    assert(saved.insert(id, None).remove(id) =~= saved.remove(id));
    assert(saved.insert(id, Some(done)).remove(id) =~= saved.remove(id));
    if !saved.contains_key(id) {
        assert(saved.remove(id) =~= saved);
    }
}

/// However the steps of two requests with the same new key fall in with
/// each other, the issue is sent once: at every moment the outbox holds
/// what it held when they arrived and at most the messages of one of the
/// two, and whoever is answered is answered with the response of the one
/// that sent.
pub proof fn two_requests_send_one_issue(
    initial: StateView,
    schedule: Seq<bool>,
    id: (u128, Seq<char>),
    first: IssueView,
    second: IssueView,
)
    requires
        !initial.saved_responses.contains_key(id),
    ensures
        ({
            let start = Race {
                state: initial,
                first: ProgressView::Arrived,
                second: ProgressView::Arrived,
            };
            let end = raced(start, schedule, id, first, second);
            &&& one_sender(initial, end, id, first, second)
            &&& end.state.outbox == initial.outbox || end.state.outbox == initial.outbox + batch(
                initial,
                first,
            ) || end.state.outbox == initial.outbox + batch(initial, second)
            &&& end.first is Answered && end.second is Answered ==> end.first == end.second
        }),
    decreases schedule.len(),
{
    let start = Race { state: initial, first: ProgressView::Arrived, second: ProgressView::Arrived };
    if schedule.len() == 0 {
        assert(initial.saved_responses.remove(id) =~= initial.saved_responses);
    } else {
        two_requests_send_one_issue(initial, schedule.drop_last(), id, first, second);
        one_sender_is_kept(
            initial,
            raced(start, schedule.drop_last(), id, first, second),
            schedule.last(),
            id,
            first,
            second,
        );
    }
}

} // verus!
