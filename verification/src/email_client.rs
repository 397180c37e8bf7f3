//! The confirmation email dispatcher: what is sent to the email API, and
//! how its answer is read.

use crate::domain::subscriber_email::SubscriberEmail;
use std::time::Duration;
use vstd::prelude::*;
use vstd::string::*;

verus! {

/// The path of the email API's sending endpoint, below the base URL.
pub const EMAIL_PATH: &'static str = "/email";

/// The request header that carries the authorization token.
pub const TOKEN_HEADER: &'static str = "X-Postmark-Server-Token";

/// The first status code that reports success.
pub const FIRST_SUCCESS_STATUS: u16 = 200;

/// The last status code that reports success.
pub const LAST_SUCCESS_STATUS: u16 = 299;

/// The client of the email API: where it is, who sends, and the credential
/// and time limit of each call.
pub struct EmailClient {
    base_url: String,
    sender: SubscriberEmail,
    authorization_token: String,
    timeout: Duration,
}

/// The body of a sending request.
pub struct SendEmailRequest {
    pub from: String,
    pub to: String,
    pub subject: String,
    pub html_body: String,
    pub text_body: String,
}

/// One call of the email API: a POST of `body`, as JSON, to `url`, with
/// `token` in the header named `TOKEN_HEADER`, given up after `timeout`.
pub struct EmailRequest {
    pub url: String,
    pub token: String,
    pub timeout: Duration,
    pub body: SendEmailRequest,
}

/// How one call of the email API ended.
#[derive(Clone, Copy, Debug, PartialEq, Eq, Structural)]
pub enum Delivery {
    /// The API answered with this status code.
    Responded(u16),
    /// No answer came within the time limit.
    TimedOut,
    /// The exchange broke down before an answer came.
    Failed,
}

/// Why an email was not dispatched.
#[derive(Clone, Copy, Debug, PartialEq, Eq, Structural)]
pub enum DispatchError {
    /// The API answered with a status code outside 200 to 299.
    Rejected(u16),
    /// No answer came within the time limit.
    TimedOut,
    /// The exchange broke down before an answer came.
    Failed,
}

/// Whether a status code reports success.
pub open spec fn is_success_status(status: u16) -> bool {
    FIRST_SUCCESS_STATUS <= status <= LAST_SUCCESS_STATUS
}

/// What a call that ended as `delivery` amounts to.
pub open spec fn dispatch_result(delivery: Delivery) -> Result<(), DispatchError> {
    match delivery {
        Delivery::Responded(status) => if is_success_status(status) {
            Ok(())
        } else {
            Err(DispatchError::Rejected(status))
        },
        Delivery::TimedOut => Err(DispatchError::TimedOut),
        Delivery::Failed => Err(DispatchError::Failed),
    }
}

/// An email is dispatched exactly when the API answers in time with a
/// status code from 200 to 299.
pub proof fn lemma_dispatched_iff_success(delivery: Delivery)
    ensures
        dispatch_result(delivery) is Ok <==> (delivery matches Delivery::Responded(status)
            && 200 <= status <= 299),
{
}

/// Reads the end of a call as success or as the error it stands for.
pub fn dispatch_outcome(delivery: Delivery) -> (r: Result<(), DispatchError>)
    ensures
        r == dispatch_result(delivery),
{
    match delivery {
        Delivery::Responded(status) => {
            if FIRST_SUCCESS_STATUS <= status && status <= LAST_SUCCESS_STATUS {
                Ok(())
            } else {
                Err(DispatchError::Rejected(status))
            }
        },
        Delivery::TimedOut => Err(DispatchError::TimedOut),
        Delivery::Failed => Err(DispatchError::Failed),
    }
}

impl EmailClient {
    /// The base URL of the email API.
    pub closed spec fn base_url(&self) -> Seq<char> {
        self.base_url@
    }

    /// The sender's address.
    pub closed spec fn sender(&self) -> Seq<char> {
        self.sender@
    }

    /// The authorization token.
    pub closed spec fn token(&self) -> Seq<char> {
        self.authorization_token@
    }

    /// The time limit of each call.
    pub closed spec fn timeout(&self) -> Duration {
        self.timeout
    }

    /// The URL that emails are posted to.
    pub open spec fn endpoint(&self) -> Seq<char> {
        self.base_url() + EMAIL_PATH@
    }

    /// A client for the API at `base_url`.
    pub fn new(
        base_url: String,
        sender: SubscriberEmail,
        authorization_token: String,
        timeout: Duration,
    ) -> (client: EmailClient)
        ensures
            client.base_url() == base_url@,
            client.sender() == sender@,
            client.token() == authorization_token@,
            client.timeout() == timeout,
    {
        EmailClient { base_url, sender, authorization_token, timeout }
    }

    /// The one request that sends an email to `recipient`: to the endpoint
    /// below the base URL, from the configured sender, with the client's
    /// token and time limit, and with the subject and bodies as given.
    pub fn email_request(
        &self,
        recipient: &SubscriberEmail,
        subject: &str,
        html_content: &str,
        text_content: &str,
    ) -> (request: EmailRequest)
        ensures
            request.url@ == self.endpoint(),
            request.token@ == self.token(),
            request.timeout == self.timeout(),
            request.body.from@ == self.sender(),
            request.body.to@ == recipient@,
            request.body.subject@ == subject@,
            request.body.html_body@ == html_content@,
            request.body.text_body@ == text_content@,
    {
        let mut url = self.base_url.clone();
        url.append(EMAIL_PATH);
        EmailRequest {
            url,
            token: self.authorization_token.clone(),
            timeout: self.timeout,
            body: SendEmailRequest {
                from: String::from_str(self.sender.as_ref()),
                to: String::from_str(recipient.as_ref()),
                subject: String::from_str(subject),
                html_body: String::from_str(html_content),
                text_body: String::from_str(text_content),
            },
        }
    }
}

} // verus!
