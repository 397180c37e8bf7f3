//! The subscriber's email address: a local part, an `@`, and a domain that
//! holds a dot.

use vstd::prelude::*;
use vstd::string::*;

verus! {

/// Whether a text has the shape of an email address by the HTML5 rules that
/// the `validator` crate applies.
pub uninterp spec fn email_syntax_accepted(text: Seq<char>) -> bool;

/// `validator::validate_email`.
///
/// Believed, not proved: the verdict is a function of the text alone.
#[verifier::external_body]
fn has_email_syntax(text: &str) -> (ok: bool)
    ensures
        ok == email_syntax_accepted(text@),
{
    validator::validate_email(text)
}

/// Position of the last `@` in `s`, or -1 where there is none.
pub open spec fn last_at(s: Seq<char>) -> int
    decreases s.len(),
{
    if s.len() == 0 {
        -1
    } else if s.last() == '@' {
        s.len() - 1
    } else {
        last_at(s.drop_last())
    }
}

/// What follows the last `@`; the whole of `s` where there is none.
pub open spec fn domain_part(s: Seq<char>) -> Seq<char> {
    s.skip(last_at(s) + 1)
}

/// Whether `s` holds an `@` and a dot somewhere after the last one.
pub open spec fn domain_has_dot(s: Seq<char>) -> bool {
    last_at(s) >= 0 && domain_part(s).contains('.')
}

/// The rule for an address for which the syntax check answered
/// `syntax_ok`.
pub open spec fn email_rule(s: Seq<char>, syntax_ok: bool) -> bool {
    syntax_ok && domain_has_dot(s)
}

/// Whether `s` is accepted as a subscriber's email address.
pub open spec fn is_valid_email(s: Seq<char>) -> bool {
    email_rule(s, email_syntax_accepted(s))
}

/// The reason given when `s` is turned down.
pub open spec fn email_rejection(s: Seq<char>) -> Seq<char> {
    s + " is not a valid subscriber email."@
}

/// `last_at` finds an `@`, and none stands after it.
pub proof fn lemma_last_at(s: Seq<char>)
    ensures
        -1 <= last_at(s) < s.len(),
        last_at(s) >= 0 ==> s[last_at(s)] == '@',
        forall|k: int| last_at(s) < k < s.len() ==> #[trigger] s[k] != '@',
    decreases s.len(),
{
    if s.len() > 0 && s.last() != '@' {
        let rest = s.drop_last();
        lemma_last_at(rest);
        assert forall|k: int| last_at(s) < k < s.len() implies #[trigger] s[k] != '@' by {
            if k < rest.len() {
                assert(s[k] == rest[k]);
            }
        }
    }
}

/// Without an `@` there is no address.
pub proof fn lemma_missing_at_is_rejected(s: Seq<char>)
    requires
        !s.contains('@'),
    ensures
        !is_valid_email(s),
{
    lemma_last_at(s);
    if last_at(s) >= 0 {
        assert(s.contains('@'));
    }
}

/// Without a dot in the domain there is no address.
pub proof fn lemma_missing_domain_dot_is_rejected(s: Seq<char>)
    requires
        !domain_part(s).contains('.'),
    ensures
        !is_valid_email(s),
{
}

/// The empty text is no address.
pub proof fn lemma_empty_is_rejected(s: Seq<char>)
    requires
        s.len() == 0,
    ensures
        !is_valid_email(s),
{
}

/// Looks for an `@` followed, after the last one, by a dot.
pub fn has_domain_dot(s: &str) -> (r: bool)
    ensures
        r == domain_has_dot(s@),
{
    let mut seen_at = false;
    let mut dot = false;
    for c in it: s.chars()
        invariant
            it.seq() == s@,
            0 <= it.index() <= s@.len(),
            seen_at == (last_at(s@.take(it.index())) >= 0),
            dot == domain_has_dot(s@.take(it.index())),
    {
        let ghost before = s@.take(it.index());
        let ghost now = s@.take(it.index() + 1);
        proof {
            assert(now.drop_last() =~= before);
            assert(now.last() == c);
            lemma_last_at(before);
            lemma_last_at(now);
        }
        if c == '@' {
            seen_at = true;
            dot = false;
            proof {
                assert(domain_part(now) =~= Seq::<char>::empty());
            }
        } else if c == '.' {
            if seen_at {
                dot = true;
            }
            proof {
                assert(last_at(now) == last_at(before));
                if seen_at {
                    assert(domain_part(now).last() == '.');
                }
            }
        } else {
            proof {
                assert(last_at(now) == last_at(before));
                assert(domain_part(now) =~= domain_part(before).push(c));
                if domain_part(before).contains('.') {
                    let j = choose|j: int|
                        0 <= j < domain_part(before).len() && domain_part(before)[j] == '.';
                    assert(domain_part(now)[j] == '.');
                }
                if domain_part(now).contains('.') {
                    let j = choose|j: int|
                        0 <= j < domain_part(now).len() && domain_part(now)[j] == '.';
                    assert(domain_part(before)[j] == '.');
                }
            }
        }
    }
    proof {
        assert(s@.take(s@.len() as int) =~= s@);
    }
    dot
}

/// Applies the rule to a text for which the syntax check answered
/// `syntax_ok`.
pub fn email_is_acceptable(s: &str, syntax_ok: bool) -> (ok: bool)
    ensures
        ok == email_rule(s@, syntax_ok),
{
    syntax_ok && has_domain_dot(s)
}

/// An address that passed validation.
#[derive(Debug)]
pub struct SubscriberEmail(String);

/// Whether `r` is what parsing `s` as an address gives: the address `s`
/// itself exactly when `s` is valid, and the rejection of `s` otherwise.
pub open spec fn is_email_parse(s: Seq<char>, r: Result<SubscriberEmail, String>) -> bool {
    match r {
        Ok(email) => is_valid_email(s) && email@ == s,
        Err(reason) => !is_valid_email(s) && reason@ == email_rejection(s),
    }
}

/// Parsing is a function of the raw text: two results for the same text
/// agree on acceptance, on the accepted address and on the reason given.
pub proof fn lemma_email_parse_is_deterministic(
    s: Seq<char>,
    first: Result<SubscriberEmail, String>,
    second: Result<SubscriberEmail, String>,
)
    requires
        is_email_parse(s, first),
        is_email_parse(s, second),
    ensures
        first is Ok <==> second is Ok,
        first matches Ok(a) ==> (second matches Ok(b) && a@ == b@),
        first matches Err(a) ==> (second matches Err(b) && a@ == b@),
{
}

impl View for SubscriberEmail {
    type V = Seq<char>;

    closed spec fn view(&self) -> Seq<char> {
        self.0@
    }
}

impl Clone for SubscriberEmail {
    fn clone(&self) -> (r: Self)
        ensures
            r@ == self@,
    {
        proof {
            use_type_invariant(self);
        }
        SubscriberEmail(self.0.clone())
    }
}

impl SubscriberEmail {
    #[verifier::type_invariant]
    spec fn well_formed(&self) -> bool {
        is_valid_email(self.0@)
    }

    /// Accepts `s` if it has the syntax of an email address and its domain
    /// holds a dot; the accepted address is `s` as given, with nothing
    /// normalised. Anything else is turned down with the reason.
    pub fn parse(s: String) -> (r: Result<SubscriberEmail, String>)
        ensures
            is_email_parse(s@, r),
    {
        let syntax_ok = has_email_syntax(s.as_str());
        if email_is_acceptable(s.as_str(), syntax_ok) {
            Ok(SubscriberEmail(s))
        } else {
            let mut reason = s;
            reason.append(" is not a valid subscriber email.");
            Err(reason)
        }
    }

    /// The address as text.
    pub fn as_ref(&self) -> (r: &str)
        ensures
            r@ == self@,
            is_valid_email(r@),
    {
        proof {
            use_type_invariant(self);
        }
        self.0.as_str()
    }
}

} // verus!
