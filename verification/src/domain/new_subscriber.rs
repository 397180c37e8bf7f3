//! A subscriber whose name and email both passed validation.

use crate::domain::subscriber_email::SubscriberEmail;
use crate::domain::subscriber_name::SubscriberName;
use vstd::prelude::*;

verus! {

/// The validated pair that is handed to storage and to the email dispatch.
#[derive(Debug)]
pub struct NewSubscriber {
    pub email: SubscriberEmail,
    pub name: SubscriberName,
}

/// A subscriber as plain text: the model of `NewSubscriber`.
pub ghost struct Subscriber {
    pub email: Seq<char>,
    pub name: Seq<char>,
}

impl View for NewSubscriber {
    type V = Subscriber;

    open spec fn view(&self) -> Subscriber {
        Subscriber { email: self.email@, name: self.name@ }
    }
}

impl Clone for NewSubscriber {
    fn clone(&self) -> (r: Self)
        ensures
            r@ == self@,
    {
        NewSubscriber { email: self.email.clone(), name: self.name.clone() }
    }
}

} // verus!
