//! The state that the request flows share.

use vstd::prelude::*;
use crate::email_client::{EmailClient, EmailView, SendEmailRequest};
use crate::entities::{SubscriptionView, TokenView, UserView};
use crate::http::ResponseView;
use crate::signature::HmacSecret;
use crate::store::{SavedResponses, Subscribers, Users};

verus! {

/// The state of the service: the tables, the e-mail client with the
/// messages handed to it so far, the address under which the service is
/// reached, and the signing secret.
pub struct AppState {
    pub users: Users,
    pub subscribers: Subscribers,
    pub saved_responses: SavedResponses,
    pub email_client: EmailClient,
    pub outbox: Vec<SendEmailRequest>,
    pub base_url: String,
    pub secret: HmacSecret,
}

/// The mathematical value of the state.
pub struct StateView {
    pub users: Seq<UserView>,
    pub subscriptions: Seq<SubscriptionView>,
    pub tokens: Seq<TokenView>,
    pub saved_responses: Map<(u128, Seq<char>), Option<ResponseView>>,
    pub outbox: Seq<EmailView>,
    pub sender: Seq<char>,
    pub base_url: Seq<char>,
    pub secret: Seq<char>,
}

impl View for AppState {
    type V = StateView;

    open spec fn view(&self) -> StateView {
        StateView {
            users: self.users@,
            subscriptions: self.subscribers@.subscriptions,
            tokens: self.subscribers@.tokens,
            saved_responses: self.saved_responses@,
            outbox: Seq::new(self.outbox@.len(), |i: int| self.outbox@[i]@),
            sender: self.email_client.sender@,
            base_url: self.base_url@,
            secret: self.secret.0@,
        }
    }
}

/// Whether every key that was taken has its response saved: no request is
/// in progress.
pub open spec fn at_rest(saved: Map<(u128, Seq<char>), Option<ResponseView>>) -> bool {
    forall|id: (u128, Seq<char>)| saved.contains_key(id) ==> (#[trigger] saved[id]) is Some
}

impl AppState {
    /// Whether the tables meet their constraints.
    pub open spec fn sound(&self) -> bool {
        &&& self.users.consistent()
        &&& self.subscribers.consistent()
        &&& self.saved_responses.consistent()
    }

    /// Whether the state is one that the flows leave behind: the tables
    /// meet their constraints and no request is in progress.
    pub open spec fn consistent(&self) -> bool {
        &&& self.sound()
        &&& at_rest(self.saved_responses@)
    }

    /// The state of a service that has not served any request yet.
    pub fn new(email_client: EmailClient, base_url: String, secret: HmacSecret) -> (state: AppState)
        ensures
            state.consistent(),
            state@ == (StateView {
                users: Seq::empty(),
                subscriptions: Seq::empty(),
                tokens: Seq::empty(),
                saved_responses: Map::empty(),
                outbox: Seq::empty(),
                sender: email_client.sender@,
                base_url: base_url@,
                secret: secret.0@,
            }),
    {
        let state = AppState {
            users: Users::new(),
            subscribers: Subscribers::new(),
            saved_responses: SavedResponses::new(),
            email_client,
            outbox: Vec::new(),
            base_url,
            secret,
        };
        assert(state@.outbox =~= Seq::<EmailView>::empty());
        state
    }

    /// Hands a message to the e-mail client.
    pub fn send(&mut self, request: SendEmailRequest)
        ensures
            final(self)@ == (StateView { outbox: old(self)@.outbox.push(request@), ..old(self)@ }),
            final(self).users == old(self).users,
            final(self).subscribers == old(self).subscribers,
            final(self).saved_responses == old(self).saved_responses,
    {
        let ghost before = self@.outbox;
        self.outbox.push(request);
        assert(self@.outbox =~= before.push(request@));
    }
}

impl AppState {
    /// Hands messages to the e-mail client, in their order.
    pub fn send_all(&mut self, messages: Vec<SendEmailRequest>)
        ensures
            final(self)@ == (StateView {
                outbox: old(self)@.outbox + Seq::new(messages@.len(), |i: int| messages@[i]@),
                ..old(self)@
            }),
            final(self).users == old(self).users,
            final(self).subscribers == old(self).subscribers,
            final(self).saved_responses == old(self).saved_responses,
    {
        let ghost before = self@.outbox;
        let ghost added = Seq::new(messages@.len(), |i: int| messages@[i]@);
        let mut messages = messages;
        self.outbox.append(&mut messages);
        assert(self@.outbox =~= before + added);
    }
}

} // verus!
