use std::time::Duration;
use zero2prod::domain::{NewSubscriber, SubscriberEmail};
use zero2prod::email_client::{DispatchError, EmailClient, EmailRequest};
use zero2prod::routes::subscriptions::{
    confirmation_email, step, Action, Event, Response, State, StorageError, SubscriptionRecord,
    SubscriptionStatus, CONFIRMATION_LINK, CONFIRMATION_SUBJECT,
};
use zero2prod::routes::FormData;

/// What the service did for one request.
struct Outcome {
    status: u16,
    stored: Vec<SubscriptionRecord>,
    sent: Vec<EmailRequest>,
}

fn email_client() -> EmailClient {
    EmailClient::new(
        "http://127.0.0.1:8025".to_string(),
        SubscriberEmail::parse("newsletter@example.com".to_string()).unwrap(),
        "my-secret-token".to_string(),
        Duration::from_millis(200),
    )
}

fn pairs_of(body: &str) -> Vec<(String, String)> {
    serde_urlencoded::from_str::<Vec<(String, String)>>(body).expect("the body is no form")
}

/// Handles a request with the given body; the database and the email API
/// succeed or fail as told.
fn post_subscriptions(body: &str, database_up: bool, email_status: u16) -> Outcome {
    let client = email_client();
    let mut outcome = Outcome { status: 0, stored: Vec::new(), sent: Vec::new() };
    let mut state = State::Receiving;
    let mut event = Event::Request(pairs_of(body));
    loop {
        let (next, action) = step(state, event);
        state = next;
        event = match action {
            Action::Persist(subscriber) => {
                if database_up {
                    outcome.stored.push(SubscriptionRecord::create(&subscriber));
                    Event::Persisted(Ok(()))
                } else {
                    Event::Persisted(Err(StorageError { reason: "connection refused".to_string() }))
                }
            }
            Action::Notify(subscriber) => {
                outcome.sent.push(confirmation_email(&client, &subscriber));
                Event::Dispatched(zero2prod::email_client::dispatch_outcome(
                    zero2prod::email_client::Delivery::Responded(email_status),
                ))
            }
            Action::Respond(response) => {
                assert!(matches!(state, State::Done));
                outcome.status = response.status_code();
                return outcome;
            }
        };
    }
}

fn single_link(text: &str) -> String {
    let finder = linkify::LinkFinder::new();
    let links: Vec<_> = finder.links(text).filter(|l| *l.kind() == linkify::LinkKind::Url).collect();
    assert_eq!(links.len(), 1);
    links[0].as_str().to_owned()
}

#[test]
fn subscribe_returns_a_200_for_valid_form_data() {
    let body = "name=le%20guin&email=ursula_le_guin%40gmail.com";
    let outcome = post_subscriptions(body, true, 200);
    assert_eq!(200, outcome.status);

    assert_eq!(outcome.stored.len(), 1);
    let saved = &outcome.stored[0];
    assert_eq!(saved.email, "ursula_le_guin@gmail.com");
    assert_eq!(saved.name, "le guin");
    assert_eq!(saved.status, SubscriptionStatus::Confirmed);
    assert_eq!(saved.status.as_str(), "confirmed");
}

#[test]
fn subscribe_returns_a_400_when_data_is_missing() {
    let test_cases = vec![
        ("name=le%20guin", "missing the email"),
        ("email=ursula_le_guin%40gmail.com", "missing the name"),
        ("", "missing both name and email"),
    ];

    for (invalid_body, error_message) in test_cases {
        let outcome = post_subscriptions(invalid_body, true, 200);
        assert_eq!(
            400, outcome.status,
            "The API did not fail with 400 Bad Request when the payload was {}.",
            error_message
        );
        assert!(outcome.stored.is_empty());
        assert!(outcome.sent.is_empty());
    }
}

#[test]
fn subscribe_returns_a_400_when_fields_are_present_but_invalid() {
    let test_cases = vec![
        ("name=&email=ursula_le_guin%40gmail.com", "empty name"),
        ("name=Ursula&email=", "empty email"),
        ("name=Ursula&email=definitely-not-an-email", "invalid email"),
    ];
    for (body, description) in test_cases {
        let outcome = post_subscriptions(body, true, 200);
        assert_eq!(
            400, outcome.status,
            "The API did not return a 400 Bad Request when the payload was {}.",
            description
        );
        assert!(outcome.stored.is_empty());
        assert!(outcome.sent.is_empty());
    }
}

#[test]
fn subscribe_sends_a_confirmation_email_for_valid_data() {
    let body = "name=le%20guin&email=ursula_le_guin%40gmail.com";
    let outcome = post_subscriptions(body, true, 200);
    assert_eq!(200, outcome.status);
    assert_eq!(outcome.sent.len(), 1);
    let request = &outcome.sent[0];
    assert_eq!(request.url, "http://127.0.0.1:8025/email");
    assert_eq!(request.token, "my-secret-token");
    assert_eq!(request.timeout, Duration::from_millis(200));
    assert_eq!(request.body.from, "newsletter@example.com");
    assert_eq!(request.body.to, "ursula_le_guin@gmail.com");
    assert_eq!(request.body.subject, "Welcome!");
}

#[test]
fn subscribe_sends_a_confirmation_email_with_a_link() {
    let body = "name=le%20guin&email=ursula_le_guin%40gmail.com";
    let outcome = post_subscriptions(body, true, 200);
    assert_eq!(outcome.sent.len(), 1);
    let request = &outcome.sent[0];

    let html_link = single_link(&request.body.html_body);
    let text_link = single_link(&request.body.text_body);

    assert_eq!(html_link, text_link);
    assert_eq!(html_link, CONFIRMATION_LINK);
}

#[test]
fn the_confirmation_email_is_the_fixed_text() {
    let subscriber = NewSubscriber::try_from(FormData {
        email: "ursula_le_guin@gmail.com".to_string(),
        name: "le guin".to_string(),
    })
    .unwrap();
    let request = confirmation_email(&email_client(), &subscriber);
    assert_eq!(CONFIRMATION_SUBJECT, "Welcome!");
    assert_eq!(CONFIRMATION_LINK, "https://example.com/confirm?subscription_token=some_token");
    assert_eq!(request.body.subject, "Welcome!");
    assert_eq!(
        request.body.text_body,
        "Welcome to our newsletter! Click here to confirm your subscription: \
         https://example.com/confirm?subscription_token=some_token"
    );
    assert_eq!(
        request.body.html_body,
        "Welcome to our newsletter! <a href=\"https://example.com/confirm?subscription_token=some_token\">\
         Click here to confirm your subscription</a>"
    );
    assert_eq!(request.body.to, "ursula_le_guin@gmail.com");
}

#[test]
fn subscribe_returns_a_500_when_the_insertion_fails() {
    let body = "name=le%20guin&email=ursula_le_guin%40gmail.com";
    let outcome = post_subscriptions(body, false, 200);
    assert_eq!(500, outcome.status);
    assert!(outcome.stored.is_empty());
    assert!(outcome.sent.is_empty());
}

#[test]
fn subscribe_returns_a_500_when_the_email_is_not_dispatched() {
    let body = "name=le%20guin&email=ursula_le_guin%40gmail.com";
    for email_status in [500u16, 404, 301, 199] {
        let outcome = post_subscriptions(body, true, email_status);
        assert_eq!(500, outcome.status);
        // the record stays: nothing undoes the insertion
        assert_eq!(outcome.stored.len(), 1);
        assert_eq!(outcome.sent.len(), 1);
    }
}

#[test]
fn subscribing_twice_with_one_email_stores_two_records() {
    let body = "name=le%20guin&email=ursula_le_guin%40gmail.com";
    let first = post_subscriptions(body, true, 200);
    let second = post_subscriptions(body, true, 200);
    assert_eq!(200, first.status);
    assert_eq!(200, second.status);
    assert_eq!(first.stored[0].email, second.stored[0].email);
    assert_ne!(first.stored[0].id, second.stored[0].id);
}

#[test]
fn a_form_needs_each_field_exactly_once() {
    let pairs = |body: &str| pairs_of(body);
    let form = FormData::from_pairs(&pairs("name=le%20guin&email=a%40b.c")).unwrap();
    assert_eq!(form.name, "le guin");
    assert_eq!(form.email, "a@b.c");
    let form = FormData::from_pairs(&pairs("email=a%40b.c&other=1&name=n&more=2")).unwrap();
    assert_eq!(form.name, "n");
    assert_eq!(form.email, "a@b.c");
    let form = FormData::from_pairs(&pairs("name=&email=")).unwrap();
    assert_eq!(form.name, "");
    assert_eq!(form.email, "");
    assert!(FormData::from_pairs(&pairs("name=a&name=b&email=a%40b.c")).is_none());
    assert!(FormData::from_pairs(&pairs("name=a&email=a%40b.c&email=a%40b.c")).is_none());
    assert!(FormData::from_pairs(&pairs("Name=a&Email=a%40b.c")).is_none());
    assert!(FormData::from_pairs(&pairs("name=a")).is_none());
    assert!(FormData::from_pairs(&pairs("email=a%40b.c")).is_none());
    assert!(FormData::from_pairs(&Vec::new()).is_none());
    assert_eq!(400, post_subscriptions("name=a&name=a&email=a%40b.cd", true, 200).status);
}

#[test]
fn an_unexpected_event_ends_the_request_with_a_500() {
    let subscriber = || {
        NewSubscriber::try_from(FormData {
            email: "ursula_le_guin@gmail.com".to_string(),
            name: "le guin".to_string(),
        })
        .unwrap()
    };
    let cases: Vec<(State, Event)> = vec![
        (State::Receiving, Event::Persisted(Ok(()))),
        (State::Receiving, Event::Dispatched(Ok(()))),
        (State::Persisting(subscriber()), Event::Dispatched(Ok(()))),
        (State::Persisting(subscriber()), Event::Request(pairs_of("name=a&email=a%40b.cd"))),
        (State::Notifying, Event::Persisted(Ok(()))),
        (State::Notifying, Event::Request(pairs_of("name=a&email=a%40b.cd"))),
        (State::Done, Event::Request(pairs_of("name=a&email=a%40b.cd"))),
        (State::Done, Event::Persisted(Ok(()))),
        (State::Done, Event::Dispatched(Err(DispatchError::TimedOut))),
    ];
    for (state, event) in cases {
        let (next, action) = step(state, event);
        assert!(matches!(next, State::Done));
        assert!(matches!(action, Action::Respond(Response::InternalServerError)));
    }
}

#[test]
fn the_steps_of_a_successful_request() {
    let (state, action) =
        step(State::Receiving, Event::Request(pairs_of("name=le%20guin&email=a%40b.cd")));
    match (&state, &action) {
        (State::Persisting(held), Action::Persist(given)) => {
            assert_eq!(held.name.as_ref(), "le guin");
            assert_eq!(held.email.as_ref(), "a@b.cd");
            assert_eq!(given.name.as_ref(), "le guin");
            assert_eq!(given.email.as_ref(), "a@b.cd");
        }
        _ => panic!("the subscriber should be stored first"),
    }
    let (state, action) = step(state, Event::Persisted(Ok(())));
    match (&state, &action) {
        (State::Notifying, Action::Notify(given)) => {
            assert_eq!(given.name.as_ref(), "le guin");
            assert_eq!(given.email.as_ref(), "a@b.cd");
        }
        _ => panic!("the email should be sent second"),
    }
    let (state, action) = step(state, Event::Dispatched(Ok(())));
    assert!(matches!(state, State::Done));
    assert!(matches!(action, Action::Respond(Response::Success)));
}

#[test]
fn status_codes() {
    assert_eq!(Response::Success.status_code(), 200);
    assert_eq!(Response::BadRequest.status_code(), 400);
    assert_eq!(Response::InternalServerError.status_code(), 500);
}

#[test]
fn a_record_takes_what_it_is_given() {
    let subscriber = NewSubscriber::try_from(FormData {
        email: "ursula_le_guin@gmail.com".to_string(),
        name: "le guin".to_string(),
    })
    .unwrap();
    let record = SubscriptionRecord::new(&subscriber, 7, 1_662_921_288_000_000);
    assert_eq!(record.id, 7);
    assert_eq!(record.email, "ursula_le_guin@gmail.com");
    assert_eq!(record.name, "le guin");
    assert_eq!(record.subscribed_at, 1_662_921_288_000_000);
    assert_eq!(record.status, SubscriptionStatus::Confirmed);
}

#[test]
fn a_created_record_has_a_fresh_random_id_and_the_current_time() {
    let subscriber = NewSubscriber::try_from(FormData {
        email: "ursula_le_guin@gmail.com".to_string(),
        name: "le guin".to_string(),
    })
    .unwrap();
    let before = chrono::Utc::now().timestamp_micros();
    let first = SubscriptionRecord::create(&subscriber);
    let second = SubscriptionRecord::create(&subscriber);
    let after = chrono::Utc::now().timestamp_micros();

    assert_ne!(first.id, second.id);
    for record in [&first, &second] {
        let id = uuid::Uuid::from_u128(record.id);
        assert_eq!(id.get_version_num(), 4);
        assert_eq!(id.get_variant(), uuid::Variant::RFC4122);
        assert_eq!((record.id >> 76) & 0xf, 4);
        assert_eq!((record.id >> 62) & 0x3, 2);
        assert!(before <= record.subscribed_at && record.subscribed_at <= after);
        assert_eq!(record.email, "ursula_le_guin@gmail.com");
        assert_eq!(record.name, "le guin");
        assert_eq!(record.status.as_str(), "confirmed");
    }
}
