//! The subscriber's name: any text that is not blank, not overlong and free
//! of a few characters that have no place in a name.

use crate::text::{is_white_space, trim, trimmed};
use unicode_segmentation::UnicodeSegmentation;
use vstd::prelude::*;
use vstd::string::*;

verus! {

/// The longest name accepted, in grapheme clusters.
pub const MAX_NAME_GRAPHEMES: usize = 256;

/// The number of extended grapheme clusters that a text splits into.
pub uninterp spec fn grapheme_clusters(text: Seq<char>) -> nat;

/// `UnicodeSegmentation::graphemes(text, true).count()`.
///
/// Believed, not proved: the count is a function of the text alone, and it
/// is zero for the empty text and for no other, since the clusters are
/// non-empty pieces that together make up the whole text.
#[verifier::external_body]
fn count_graphemes(text: &str) -> (n: usize)
    ensures
        n == grapheme_clusters(text@),
        n == 0 <==> text@.len() == 0,
{
    text.graphemes(true).count()
}

/// The characters that no name may hold.
pub open spec fn is_forbidden(c: char) -> bool {
    ||| c == '/'
    ||| c == '('
    ||| c == ')'
    ||| c == '"'
    ||| c == '<'
    ||| c == '>'
    ||| c == '\\'
    ||| c == '{'
    ||| c == '}'
}

/// Whether a forbidden character stands anywhere in `s`.
pub open spec fn has_forbidden(s: Seq<char>) -> bool {
    exists|i: int| 0 <= i < s.len() && is_forbidden(#[trigger] s[i])
}

/// Whether nothing but whitespace stands in `s`.
pub open spec fn is_blank(s: Seq<char>) -> bool {
    forall|i: int| 0 <= i < s.len() ==> is_white_space(#[trigger] s[i])
}

/// The rule for a name whose trimmed text counts `graphemes` clusters.
pub open spec fn name_rule(s: Seq<char>, graphemes: nat) -> bool {
    &&& 1 <= graphemes <= MAX_NAME_GRAPHEMES
    &&& !has_forbidden(s)
}

/// Whether `s` is accepted as a subscriber's name.
pub open spec fn is_valid_name(s: Seq<char>) -> bool {
    name_rule(s, grapheme_clusters(trimmed(s)))
}

/// The reason given when `s` is turned down.
pub open spec fn name_rejection(s: Seq<char>) -> Seq<char> {
    s + " is not a valid subscriber name."@
}

/// Executable test for a forbidden character.
pub fn forbidden(c: char) -> (r: bool)
    ensures
        r == is_forbidden(c),
{
    c == '/' || c == '(' || c == ')' || c == '"' || c == '<' || c == '>' || c == '\\' || c == '{'
        || c == '}'
}

/// Searches `s` for a forbidden character.
pub fn contains_forbidden(s: &str) -> (r: bool)
    ensures
        r == has_forbidden(s@),
{
    let mut found = false;
    for c in it: s.chars()
        invariant
            it.seq() == s@,
            found == exists|i: int| 0 <= i < it.index() && is_forbidden(#[trigger] s@[i]),
    {
        if forbidden(c) {
            found = true;
        }
    }
    found
}

/// Applies the rule to a text whose trimmed form counts `graphemes`
/// clusters.
pub fn name_is_acceptable(s: &str, graphemes: usize) -> (ok: bool)
    ensures
        ok == name_rule(s@, graphemes as nat),
{
    1 <= graphemes && graphemes <= MAX_NAME_GRAPHEMES && !contains_forbidden(s)
}

/// A forbidden character makes a name invalid wherever it stands.
pub proof fn lemma_forbidden_character_is_rejected(s: Seq<char>, at: int)
    requires
        0 <= at < s.len(),
        is_forbidden(s[at]),
    ensures
        !is_valid_name(s),
{
}

/// Of a text free of forbidden characters the length decides alone: 1 and
/// 256 clusters pass, none and 257 do not.
pub proof fn lemma_length_limits(s: Seq<char>)
    requires
        !has_forbidden(s),
    ensures
        !name_rule(s, 0),
        name_rule(s, 1),
        name_rule(s, 256),
        !name_rule(s, 257),
{
}

/// A blank text trims to nothing, and only a blank text does.
pub proof fn lemma_blank_trims_to_nothing(s: Seq<char>)
    ensures
        is_blank(s) <==> trimmed(s).len() == 0,
{
    crate::text::lemma_trimmed_span(s);
}

/// A name that passed validation.
#[derive(Debug)]
pub struct SubscriberName(String);

/// Whether `r` is what parsing `s` as a name gives: the name `s` itself
/// exactly when `s` is valid, and the rejection of `s` otherwise.
pub open spec fn is_name_parse(s: Seq<char>, r: Result<SubscriberName, String>) -> bool {
    match r {
        Ok(name) => is_valid_name(s) && name@ == s,
        Err(reason) => !is_valid_name(s) && reason@ == name_rejection(s),
    }
}

/// Parsing is a function of the raw text: two results for the same text
/// agree on acceptance, on the accepted name and on the reason given.
pub proof fn lemma_name_parse_is_deterministic(
    s: Seq<char>,
    first: Result<SubscriberName, String>,
    second: Result<SubscriberName, String>,
)
    requires
        is_name_parse(s, first),
        is_name_parse(s, second),
    ensures
        first is Ok <==> second is Ok,
        first matches Ok(a) ==> (second matches Ok(b) && a@ == b@),
        first matches Err(a) ==> (second matches Err(b) && a@ == b@),
{
}

impl View for SubscriberName {
    type V = Seq<char>;

    closed spec fn view(&self) -> Seq<char> {
        self.0@
    }
}

impl Clone for SubscriberName {
    fn clone(&self) -> (r: Self)
        ensures
            r@ == self@,
    {
        proof {
            use_type_invariant(self);
        }
        SubscriberName(self.0.clone())
    }
}

impl SubscriberName {
    #[verifier::type_invariant]
    spec fn well_formed(&self) -> bool {
        is_valid_name(self.0@) && !is_blank(self.0@)
    }

    /// Accepts `s` if, once trimmed, it counts between 1 and 256 grapheme
    /// clusters and holds no forbidden character anywhere; the accepted name
    /// is `s` as given. Anything else is turned down with the reason.
    pub fn parse(s: String) -> (r: Result<SubscriberName, String>)
        ensures
            is_name_parse(s@, r),
            is_blank(s@) ==> r is Err,
    {
        let graphemes = count_graphemes(trim(s.as_str()));
        proof {
            lemma_blank_trims_to_nothing(s@);
        }
        if name_is_acceptable(s.as_str(), graphemes) {
            Ok(SubscriberName(s))
        } else {
            let mut reason = s;
            reason.append(" is not a valid subscriber name.");
            Err(reason)
        }
    }

    /// The name as text.
    pub fn as_ref(&self) -> (r: &str)
        ensures
            r@ == self@,
            is_valid_name(r@),
            !is_blank(r@),
    {
        proof {
            use_type_invariant(self);
        }
        self.0.as_str()
    }
}

} // verus!
