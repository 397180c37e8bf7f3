//! The subscription request: from the submitted form to the stored record,
//! the confirmation email and the response.

use crate::domain::new_subscriber::{NewSubscriber, Subscriber};
use crate::domain::subscriber_email::{email_rejection, is_valid_email, SubscriberEmail};
use crate::domain::subscriber_name::{is_valid_name, name_rejection, SubscriberName};
use crate::email_client::{DispatchError, EmailClient, EmailRequest};
use vstd::prelude::*;
use vstd::string::*;

verus! {

/// The link that the confirmation email carries.
pub const CONFIRMATION_LINK: &'static str =
    "https://example.com/confirm?subscription_token=some_token";

/// The subject of the confirmation email.
pub const CONFIRMATION_SUBJECT: &'static str = "Welcome!";

/// The two fields of the subscription form, as submitted.
pub struct FormData {
    pub email: String,
    pub name: String,
}

/// A form as plain text: the model of `FormData`.
pub ghost struct Form {
    pub email: Seq<char>,
    pub name: Seq<char>,
}

impl View for FormData {
    type V = Form;

    open spec fn view(&self) -> Form {
        Form { email: self.email@, name: self.name@ }
    }
}

/// The decoded key-value pairs of a request body, as plain text.
pub open spec fn fields_of(pairs: Seq<(String, String)>) -> Seq<(Seq<char>, Seq<char>)> {
    pairs.map_values(|pair: (String, String)| (pair.0@, pair.1@))
}

/// How many of `fields` carry the key `key`.
pub open spec fn occurrences(fields: Seq<(Seq<char>, Seq<char>)>, key: Seq<char>) -> nat
    decreases fields.len(),
{
    if fields.len() == 0 {
        0
    } else if fields.last().0 == key {
        occurrences(fields.drop_last(), key) + 1
    } else {
        occurrences(fields.drop_last(), key)
    }
}

/// The value of the last of `fields` that carries the key `key`.
pub open spec fn field_value(fields: Seq<(Seq<char>, Seq<char>)>, key: Seq<char>) -> Seq<char>
    decreases fields.len(),
{
    if fields.len() == 0 {
        Seq::empty()
    } else if fields.last().0 == key {
        fields.last().1
    } else {
        field_value(fields.drop_last(), key)
    }
}

/// The form that `fields` make up: `name` and `email` must each occur
/// exactly once; other keys are ignored.
pub open spec fn form_of(fields: Seq<(Seq<char>, Seq<char>)>) -> Option<Form> {
    if occurrences(fields, "name"@) == 1 && occurrences(fields, "email"@) == 1 {
        Some(Form { email: field_value(fields, "email"@), name: field_value(fields, "name"@) })
    } else {
        None
    }
}

/// The subscriber that a form describes, if its name and its email are
/// both valid.
pub open spec fn validated(form: Form) -> Option<Subscriber> {
    if is_valid_name(form.name) && is_valid_email(form.email) {
        Some(Subscriber { email: form.email, name: form.name })
    } else {
        None
    }
}

/// The reason given when a form is turned down: the name is judged first.
pub open spec fn form_rejection(form: Form) -> Seq<char> {
    if !is_valid_name(form.name) {
        name_rejection(form.name)
    } else {
        email_rejection(form.email)
    }
}

/// The subscriber that the fields of a request describe.
pub open spec fn accepted(fields: Seq<(Seq<char>, Seq<char>)>) -> Option<Subscriber> {
    match form_of(fields) {
        Some(form) => validated(form),
        None => None,
    }
}

impl FormData {
    /// Picks the form out of the decoded pairs of a request body. There is
    /// a form exactly when `name` and `email` each occur once.
    pub fn from_pairs(pairs: &Vec<(String, String)>) -> (r: Option<FormData>)
        ensures
            match r {
                Some(form) => form_of(fields_of(pairs@)) == Some(form@),
                None => form_of(fields_of(pairs@)) is None,
            },
    {
        let ghost fields = fields_of(pairs@);
        let name_key = String::from_str("name");
        let email_key = String::from_str("email");
        let mut name: Option<String> = None;
        let mut email: Option<String> = None;
        let mut names: usize = 0;
        let mut emails: usize = 0;
        let mut i: usize = 0;
        while i < pairs.len()
            invariant
                i <= pairs.len(),
                fields == fields_of(pairs@),
                name_key@ == "name"@,
                email_key@ == "email"@,
                names <= i,
                emails <= i,
                names == occurrences(fields.take(i as int), "name"@),
                emails == occurrences(fields.take(i as int), "email"@),
                names > 0 ==> (name matches Some(value) && value@ == field_value(
                    fields.take(i as int),
                    "name"@,
                )),
                emails > 0 ==> (email matches Some(value) && value@ == field_value(
                    fields.take(i as int),
                    "email"@,
                )),
            decreases pairs.len() - i,
        {
            let pair = &pairs[i];
            proof {
                assert(fields.take(i + 1).drop_last() =~= fields.take(i as int));
                assert(fields.take(i + 1).last() == (pair.0@, pair.1@));
            }
            if pair.0 == name_key {
                names = names + 1;
                name = Some(pair.1.clone());
            }
            if pair.0 == email_key {
                emails = emails + 1;
                email = Some(pair.1.clone());
            }
            i = i + 1;
        }
        proof {
            assert(fields.take(i as int) =~= fields);
        }
        if names == 1 && emails == 1 {
            match (name, email) {
                (Some(name), Some(email)) => Some(FormData { email, name }),
                _ => None,
            }
        } else {
            None
        }
    }
}

impl NewSubscriber {
    /// Validates a form. The subscriber holds the name and the email as
    /// submitted; a form with an invalid name or email is turned down with
    /// the reason, the name's before the email's.
    pub fn try_from(value: FormData) -> (r: Result<NewSubscriber, String>)
        ensures
            match r {
                Ok(subscriber) => validated(value@) == Some(subscriber@),
                Err(reason) => validated(value@) is None && reason@ == form_rejection(value@),
            },
    {
        let name = match SubscriberName::parse(value.name) {
            Ok(name) => name,
            Err(reason) => {
                return Err(reason);
            },
        };
        match SubscriberEmail::parse(value.email) {
            Ok(email) => Ok(NewSubscriber { email, name }),
            Err(reason) => Err(reason),
        }
    }
}

/// The state that a stored subscription is in.
#[derive(Clone, Copy, Debug, PartialEq, Eq, Structural)]
pub enum SubscriptionStatus {
    Confirmed,
}

impl SubscriptionStatus {
    /// The status as it is stored.
    pub open spec fn name(&self) -> Seq<char> {
        "confirmed"@
    }

    /// The status as it is stored.
    pub fn as_str(&self) -> (r: &'static str)
        ensures
            r@ == self.name(),
    {
        "confirmed"
    }
}

/// One row of the subscriptions table.
pub struct SubscriptionRecord {
    /// The identifier, a UUID as a 128-bit number, most significant byte
    /// first.
    pub id: u128,
    pub email: String,
    pub name: String,
    /// The time of insertion, in microseconds since the Unix epoch, UTC.
    pub subscribed_at: i64,
    pub status: SubscriptionStatus,
}

/// Whether `id` has the version and variant bits of a random (version 4)
/// UUID.
pub open spec fn is_random_uuid(id: u128) -> bool {
    (id >> 76) & 0xf == 4 && (id >> 62) & 0x3 == 2
}

/// `Uuid::new_v4`, handed on as the number that `Uuid::as_u128` gives.
///
/// Believed, not proved: whatever the random bits, the version is 4 and the
/// variant is the RFC's. The call panics if the operating system hands out
/// no random bytes.
#[verifier::external_body]
fn fresh_id() -> (id: u128)
    ensures
        is_random_uuid(id),
{
    uuid::Uuid::new_v4().as_u128()
}

/// `Utc::now`, handed on as the number that `DateTime::timestamp_micros`
/// gives. Nothing is claimed of the time read; the call panics if the
/// system clock stands before the Unix epoch.
#[verifier::external_body]
fn now_micros() -> (micros: i64) {
    chrono::Utc::now().timestamp_micros()
}

impl SubscriptionRecord {
    /// Whether the record is the confirmed subscription of `subscriber`.
    pub open spec fn is_for(&self, subscriber: Subscriber) -> bool {
        &&& self.email@ == subscriber.email
        &&& self.name@ == subscriber.name
        &&& self.status == SubscriptionStatus::Confirmed
    }

    /// The confirmed subscription of `subscriber` with the given identifier
    /// and time of insertion.
    pub fn new(subscriber: &NewSubscriber, id: u128, subscribed_at: i64) -> (r: SubscriptionRecord)
        ensures
            r.is_for(subscriber@),
            r.id == id,
            r.subscribed_at == subscribed_at,
    {
        SubscriptionRecord {
            id,
            email: String::from_str(subscriber.email.as_ref()),
            name: String::from_str(subscriber.name.as_ref()),
            subscribed_at,
            status: SubscriptionStatus::Confirmed,
        }
    }

    /// The record to insert for `subscriber`: confirmed, with a fresh random
    /// identifier and the current time.
    pub fn create(subscriber: &NewSubscriber) -> (r: SubscriptionRecord)
        ensures
            r.is_for(subscriber@),
            is_random_uuid(r.id),
    {
        let id = fresh_id();
        let subscribed_at = now_micros();
        SubscriptionRecord::new(subscriber, id, subscribed_at)
    }
}

/// The plain-text body of the confirmation email.
pub open spec fn confirmation_text() -> Seq<char> {
    "Welcome to our newsletter! Click here to confirm your subscription: "@ + CONFIRMATION_LINK@
}

/// The HTML body of the confirmation email.
pub open spec fn confirmation_html() -> Seq<char> {
    "Welcome to our newsletter! <a href=\""@ + CONFIRMATION_LINK@
        + "\">Click here to confirm your subscription</a>"@
}

/// Whether `needle` stands in `text` from position `at` on.
pub open spec fn occurs_at(needle: Seq<char>, text: Seq<char>, at: int) -> bool {
    0 <= at && at + needle.len() <= text.len() && text.subrange(at, at + needle.len()) == needle
}

/// Both bodies of the confirmation email carry the same link.
pub proof fn lemma_bodies_carry_the_link()
    ensures
        exists|at: int| occurs_at(CONFIRMATION_LINK@, confirmation_text(), at),
        exists|at: int| occurs_at(CONFIRMATION_LINK@, confirmation_html(), at),
{
    let link = CONFIRMATION_LINK@;
    let text_at = "Welcome to our newsletter! Click here to confirm your subscription: "@.len() as int;
    let html_at = "Welcome to our newsletter! <a href=\""@.len() as int;
    assert(confirmation_text().subrange(text_at, text_at + link.len()) =~= link);
    assert(occurs_at(link, confirmation_text(), text_at));
    assert(confirmation_html().subrange(html_at, html_at + link.len()) =~= link);
    assert(occurs_at(link, confirmation_html(), html_at));
}

/// The request that sends `subscriber` the confirmation email through
/// `client`.
pub fn confirmation_email(client: &EmailClient, subscriber: &NewSubscriber) -> (request:
    EmailRequest)
    ensures
        request.url@ == client.endpoint(),
        request.token@ == client.token(),
        request.timeout == client.timeout(),
        request.body.from@ == client.sender(),
        request.body.to@ == subscriber@.email,
        request.body.subject@ == CONFIRMATION_SUBJECT@,
        request.body.html_body@ == confirmation_html(),
        request.body.text_body@ == confirmation_text(),
{
    let mut plain_body = String::from_str(
        "Welcome to our newsletter! Click here to confirm your subscription: ",
    );
    plain_body.append(CONFIRMATION_LINK);
    let mut html_body = String::from_str("Welcome to our newsletter! <a href=\"");
    html_body.append(CONFIRMATION_LINK);
    html_body.append("\">Click here to confirm your subscription</a>");
    client.email_request(
        &subscriber.email,
        CONFIRMATION_SUBJECT,
        html_body.as_str(),
        plain_body.as_str(),
    )
}

/// Why a subscription was not stored.
pub struct StorageError {
    pub reason: String,
}

/// The answer to a subscription request. Its body is always empty.
#[derive(Clone, Copy, Debug, PartialEq, Eq, Structural)]
pub enum Response {
    Success,
    BadRequest,
    InternalServerError,
}

impl Response {
    /// The HTTP status code of the answer.
    pub open spec fn status(&self) -> u16 {
        match self {
            Response::Success => 200,
            Response::BadRequest => 400,
            Response::InternalServerError => 500,
        }
    }

    /// The HTTP status code of the answer.
    pub fn status_code(&self) -> (code: u16)
        ensures
            code == self.status(),
    {
        match self {
            Response::Success => 200,
            Response::BadRequest => 400,
            Response::InternalServerError => 500,
        }
    }
}

/// How far the handling of one request has come.
pub enum State {
    /// Nothing has been received yet.
    Receiving,
    /// The subscriber is being stored.
    Persisting(NewSubscriber),
    /// The confirmation email is being dispatched.
    Notifying,
    /// The response has been decided.
    Done,
}

/// What happened outside since the last step.
pub enum Event {
    /// The request arrived, with these decoded pairs in its body.
    Request(Vec<(String, String)>),
    /// The insertion ended.
    Persisted(Result<(), StorageError>),
    /// The dispatch of the confirmation email ended.
    Dispatched(Result<(), DispatchError>),
}

/// What is to be done outside next.
pub enum Action {
    /// Store the subscriber.
    Persist(NewSubscriber),
    /// Send the subscriber the confirmation email.
    Notify(NewSubscriber),
    /// Answer the request.
    Respond(Response),
}

/// The model of `State`.
pub ghost enum Stage {
    Receiving,
    Persisting(Subscriber),
    Notifying,
    Done,
}

/// The model of `Event`.
pub ghost enum Signal {
    Request(Seq<(Seq<char>, Seq<char>)>),
    Persisted(bool),
    Dispatched(bool),
}

/// The model of `Action`.
pub ghost enum Move {
    Persist(Subscriber),
    Notify(Subscriber),
    Respond(Response),
}

impl View for State {
    type V = Stage;

    open spec fn view(&self) -> Stage {
        match self {
            State::Receiving => Stage::Receiving,
            State::Persisting(subscriber) => Stage::Persisting(subscriber@),
            State::Notifying => Stage::Notifying,
            State::Done => Stage::Done,
        }
    }
}

impl View for Event {
    type V = Signal;

    open spec fn view(&self) -> Signal {
        match self {
            Event::Request(pairs) => Signal::Request(fields_of(pairs@)),
            Event::Persisted(outcome) => Signal::Persisted(outcome is Ok),
            Event::Dispatched(outcome) => Signal::Dispatched(outcome is Ok),
        }
    }
}

impl View for Action {
    type V = Move;

    open spec fn view(&self) -> Move {
        match self {
            Action::Persist(subscriber) => Move::Persist(subscriber@),
            Action::Notify(subscriber) => Move::Notify(subscriber@),
            Action::Respond(response) => Move::Respond(*response),
        }
    }
}

/// The rule of the request: validate, then store, then notify, and answer
/// at the first failure or at the end. An event that the stage does not
/// wait for ends the request with a server error.
pub open spec fn next(stage: Stage, signal: Signal) -> (Stage, Move) {
    match (stage, signal) {
        (Stage::Receiving, Signal::Request(fields)) => match accepted(fields) {
            Some(subscriber) => (Stage::Persisting(subscriber), Move::Persist(subscriber)),
            None => (Stage::Done, Move::Respond(Response::BadRequest)),
        },
        (Stage::Persisting(subscriber), Signal::Persisted(stored)) => if stored {
            (Stage::Notifying, Move::Notify(subscriber))
        } else {
            (Stage::Done, Move::Respond(Response::InternalServerError))
        },
        (Stage::Notifying, Signal::Dispatched(sent)) => if sent {
            (Stage::Done, Move::Respond(Response::Success))
        } else {
            (Stage::Done, Move::Respond(Response::InternalServerError))
        },
        _ => (Stage::Done, Move::Respond(Response::InternalServerError)),
    }
}

/// Everything that is done for a request with the given fields, when the
/// insertion, if it comes to it, ends as `stored` says, and the dispatch as
/// `sent` says.
pub open spec fn run(fields: Seq<(Seq<char>, Seq<char>)>, stored: bool, sent: bool) -> Seq<Move> {
    let (after_request, first) = next(Stage::Receiving, Signal::Request(fields));
    if first is Respond {
        seq![first]
    } else {
        let (after_insertion, second) = next(after_request, Signal::Persisted(stored));
        if second is Respond {
            seq![first, second]
        } else {
            let (_, third) = next(after_insertion, Signal::Dispatched(sent));
            seq![first, second, third]
        }
    }
}

/// A request ends in one of four ways. A body that yields no valid
/// subscriber is answered with 400 and nothing else is done. Otherwise the
/// subscriber is stored; if that fails the answer is 500 and no email is
/// sent. Otherwise exactly one confirmation email is sent to that
/// subscriber, and the answer is 200 if it went out and 500 if not.
pub proof fn lemma_run(fields: Seq<(Seq<char>, Seq<char>)>, stored: bool, sent: bool)
    ensures
        match accepted(fields) {
            None => run(fields, stored, sent) == seq![Move::Respond(Response::BadRequest)],
            Some(subscriber) => if !stored {
                run(fields, stored, sent) == seq![
                    Move::Persist(subscriber),
                    Move::Respond(Response::InternalServerError),
                ]
            } else if !sent {
                run(fields, stored, sent) == seq![
                    Move::Persist(subscriber),
                    Move::Notify(subscriber),
                    Move::Respond(Response::InternalServerError),
                ]
            } else {
                run(fields, stored, sent) == seq![
                    Move::Persist(subscriber),
                    Move::Notify(subscriber),
                    Move::Respond(Response::Success),
                ]
            },
        },
{
}

/// The request is answered with 200 exactly when its body yields a valid
/// subscriber, the insertion succeeds and the email goes out; with 400
/// exactly when the body yields no valid subscriber; and with 500 in all
/// other cases.
pub proof fn lemma_response(fields: Seq<(Seq<char>, Seq<char>)>, stored: bool, sent: bool)
    ensures
        run(fields, stored, sent).last() is Respond,
        run(fields, stored, sent).last() == Move::Respond(Response::Success) <==> accepted(fields)
            is Some && stored && sent,
        run(fields, stored, sent).last() == Move::Respond(Response::BadRequest) <==> accepted(
            fields,
        ) is None,
{
    lemma_run(fields, stored, sent);
}

/// How many of `moves` hand a subscriber to storage.
pub open spec fn insertions(moves: Seq<Move>) -> nat
    decreases moves.len(),
{
    if moves.len() == 0 {
        0
    } else if moves.last() is Persist {
        insertions(moves.drop_last()) + 1
    } else {
        insertions(moves.drop_last())
    }
}

/// How many of `moves` send a confirmation email.
pub open spec fn notifications(moves: Seq<Move>) -> nat
    decreases moves.len(),
{
    if moves.len() == 0 {
        0
    } else if moves.last() is Notify {
        notifications(moves.drop_last()) + 1
    } else {
        notifications(moves.drop_last())
    }
}

proof fn lemma_counts_of_push(moves: Seq<Move>, last: Move)
    ensures
        insertions(moves.push(last)) == insertions(moves) + if last is Persist {
            1nat
        } else {
            0nat
        },
        notifications(moves.push(last)) == notifications(moves) + if last is Notify {
            1nat
        } else {
            0nat
        },
{
    assert(moves.push(last).drop_last() =~= moves);
}

/// A request leads to one insertion exactly when its body yields a valid
/// subscriber, and to none otherwise. It leads to one confirmation email
/// exactly when, besides, the insertion succeeds, and to none otherwise.
pub proof fn lemma_side_effects(fields: Seq<(Seq<char>, Seq<char>)>, stored: bool, sent: bool)
    ensures
        insertions(run(fields, stored, sent)) == if accepted(fields) is Some {
            1nat
        } else {
            0nat
        },
        notifications(run(fields, stored, sent)) == if accepted(fields) is Some && stored {
            1nat
        } else {
            0nat
        },
{
    lemma_run(fields, stored, sent);
    let moves = run(fields, stored, sent);
    let none = Seq::<Move>::empty();
    if moves.len() == 1 {
        assert(moves =~= none.push(moves[0]));
        lemma_counts_of_push(none, moves[0]);
    } else if moves.len() == 2 {
        assert(moves =~= none.push(moves[0]).push(moves[1]));
        lemma_counts_of_push(none, moves[0]);
        lemma_counts_of_push(none.push(moves[0]), moves[1]);
    } else {
        assert(moves =~= none.push(moves[0]).push(moves[1]).push(moves[2]));
        lemma_counts_of_push(none, moves[0]);
        lemma_counts_of_push(none.push(moves[0]), moves[1]);
        lemma_counts_of_push(none.push(moves[0]).push(moves[1]), moves[2]);
    }
}

/// One step of the handling of a request: takes what happened outside and
/// says what to do next.
pub fn step(state: State, event: Event) -> (r: (State, Action))
    ensures
        (r.0@, r.1@) == next(state@, event@),
{
    match (state, event) {
        (State::Receiving, Event::Request(pairs)) => {
            match FormData::from_pairs(&pairs) {
                Some(form) => match NewSubscriber::try_from(form) {
                    Ok(subscriber) => (
                        State::Persisting(subscriber.clone()),
                        Action::Persist(subscriber),
                    ),
                    Err(_) => (State::Done, Action::Respond(Response::BadRequest)),
                },
                None => (State::Done, Action::Respond(Response::BadRequest)),
            }
        },
        (State::Persisting(subscriber), Event::Persisted(outcome)) => {
            match outcome {
                Ok(_) => (State::Notifying, Action::Notify(subscriber)),
                Err(_) => (State::Done, Action::Respond(Response::InternalServerError)),
            }
        },
        (State::Notifying, Event::Dispatched(outcome)) => {
            match outcome {
                Ok(_) => (State::Done, Action::Respond(Response::Success)),
                Err(_) => (State::Done, Action::Respond(Response::InternalServerError)),
            }
        },
        _ => (State::Done, Action::Respond(Response::InternalServerError)),
    }
}

} // verus!
