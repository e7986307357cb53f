//! What the service asks of the transactional e-mail API.

use vstd::prelude::*;
use crate::domain::SubscriberEmail;
use crate::text::concat;

verus! {

/// One message to send.
#[derive(Debug)]
pub struct SendEmailRequest {
    pub from: String,
    pub to: String,
    pub subject: String,
    pub html_body: String,
    pub text_body: String,
}

/// The mathematical value of a message.
pub struct EmailView {
    pub from: Seq<char>,
    pub to: Seq<char>,
    pub subject: Seq<char>,
    pub html_body: Seq<char>,
    pub text_body: Seq<char>,
}

impl View for SendEmailRequest {
    type V = EmailView;

    open spec fn view(&self) -> EmailView {
        EmailView {
            from: self.from@,
            to: self.to@,
            subject: self.subject@,
            html_body: self.html_body@,
            text_body: self.text_body@,
        }
    }
}

/// The sender's side of the e-mail API: where it is and who sends.
pub struct EmailClient {
    pub base_url: String,
    pub sender: SubscriberEmail,
    pub authorization_token: String,
}

/// The name of the header that carries the API token.
pub const TOKEN_HEADER: &'static str = "X-Postmark-Server-Token";

impl EmailClient {
    /// A client for the API at `base_url`.
    pub fn new(base_url: String, sender: SubscriberEmail, authorization_token: String) -> (client:
        EmailClient)
        ensures
            client.base_url == base_url,
            client.sender == sender,
            client.authorization_token == authorization_token,
    {
        EmailClient { base_url, sender, authorization_token }
    }

    /// The address that messages are posted to.
    pub fn url(&self) -> (url: String)
        ensures
            url@ == self.base_url@ + "/email"@,
    {
        concat(self.base_url.as_str(), "/email")
    }

    /// The message that `send_email` posts: from the client's sender to
    /// the recipient, with the given subject and bodies.
    pub fn send_email(
        &self,
        recipient: &SubscriberEmail,
        subject: &str,
        html_content: &str,
        text_content: &str,
    ) -> (request: SendEmailRequest)
        ensures
            request@ == (EmailView {
                from: self.sender@,
                to: recipient@,
                subject: subject@,
                html_body: html_content@,
                text_body: text_content@,
            }),
    {
        SendEmailRequest {
            from: self.sender.as_ref().to_owned(),
            to: recipient.as_ref().to_owned(),
            subject: subject.to_owned(),
            html_body: html_content.to_owned(),
            text_body: text_content.to_owned(),
        }
    }
}

} // verus!
