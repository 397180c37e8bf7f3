//! What the service needs before it can listen: the email client that the
//! settings describe, and the greeting of the test route.

use crate::configuration::{duration_of_millis, EmailClientSettings};
use crate::domain::subscriber_email::{email_rejection, is_valid_email};
use crate::email_client::EmailClient;
use vstd::prelude::*;
use vstd::string::*;

verus! {

/// The email client that `settings` describe. There is one exactly when the
/// configured sender is a valid address; otherwise the reason is given.
pub fn email_client(settings: EmailClientSettings) -> (r: Result<EmailClient, String>)
    ensures
        match r {
            Ok(client) => {
                &&& is_valid_email(settings.sender_email@)
                &&& client.base_url() == settings.base_url@
                &&& client.sender() == settings.sender_email@
                &&& client.token() == settings.authorization_token@
                &&& client.timeout() == duration_of_millis(settings.timeout_milliseconds)
            },
            Err(reason) => {
                &&& !is_valid_email(settings.sender_email@)
                &&& reason@ == email_rejection(settings.sender_email@)
            },
        },
{
    let timeout = settings.timeout();
    match settings.sender() {
        Ok(sender) => Ok(
            EmailClient::new(settings.base_url, sender, settings.authorization_token, timeout),
        ),
        Err(reason) => Err(reason),
    }
}

/// The form of the test route.
pub struct MyParams {
    pub name: String,
}

impl MyParams {
    /// The form that holds `name`.
    pub fn new(name: String) -> (r: MyParams)
        ensures
            r.name@ == name@,
    {
        MyParams { name }
    }

    /// The text that the test route answers with.
    pub fn greeting(&self) -> (r: String)
        ensures
            r@ == "Your name is "@ + self.name@,
    {
        let mut r = String::from_str("Your name is ");
        r.append(self.name.as_str());
        r
    }
}

} // verus!
