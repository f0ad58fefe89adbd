//! A subscriber's display name, validated on construction.

use unicode_segmentation::UnicodeSegmentation;
use vstd::prelude::*;

use crate::text::{char_is_whitespace, is_white_space, views_of};

verus! {

/// Longest accepted name, in extended grapheme clusters.
pub const MAX_NAME_GRAPHEMES: usize = 256;

/// Number of extended grapheme clusters in a string.
pub uninterp spec fn grapheme_count(s: Seq<char>) -> nat;

/// Relies on `unicode_segmentation::UnicodeSegmentation::graphemes` (extended
/// clusters): the number of clusters it yields.
#[verifier::external_body]
fn count_graphemes(s: &str) -> (r: usize)
    ensures
        r == grapheme_count(s@),
{
    s.graphemes(true).count()
}

/// Characters that a name may not contain.
pub open spec fn forbidden_characters() -> Seq<char> {
    seq!['/', '(', ')', '"', '<', '>', '\\', '{', '}']
}

pub open spec fn is_blank(s: Seq<char>) -> bool {
    forall|i: int| 0 <= i < s.len() ==> #[trigger] is_white_space(s[i])
}

pub open spec fn has_forbidden_character(s: Seq<char>) -> bool {
    exists|i: int| 0 <= i < s.len() && forbidden_characters().contains(#[trigger] s[i])
}

pub open spec fn is_too_long(s: Seq<char>) -> bool {
    grapheme_count(s) > MAX_NAME_GRAPHEMES
}

pub open spec fn empty_name_message() -> Seq<char> {
    "name cannot be empty!"@
}

pub open spec fn long_name_message() -> Seq<char> {
    "name cannot be more than 256 characters!"@
}

pub open spec fn forbidden_character_message() -> Seq<char> {
    "name cannot contain special characters!"@
}

/// The message of a rule when it is broken, and nothing when it holds.
pub open spec fn violation_if(broken: bool, message: Seq<char>) -> Seq<Seq<char>> {
    if broken {
        seq![message]
    } else {
        Seq::empty()
    }
}

/// Every rule that `s` breaks, in a fixed order: blank, too long, forbidden
/// character.
pub open spec fn name_violations(s: Seq<char>) -> Seq<Seq<char>> {
    violation_if(is_blank(s), empty_name_message()) + violation_if(
        is_too_long(s),
        long_name_message(),
    ) + violation_if(has_forbidden_character(s), forbidden_character_message())
}

pub open spec fn is_valid_name(s: Seq<char>) -> bool {
    !is_blank(s) && !is_too_long(s) && !has_forbidden_character(s)
}

/// Each broken rule is reported by its own message, and nothing else is: a
/// name that is too long and holds a forbidden character gets two messages.
pub proof fn lemma_each_broken_rule_reported(s: Seq<char>)
    ensures
        is_blank(s) <==> name_violations(s).contains(empty_name_message()),
        is_too_long(s) <==> name_violations(s).contains(long_name_message()),
        has_forbidden_character(s) <==> name_violations(s).contains(
            forbidden_character_message(),
        ),
        name_violations(s).len() == (if is_blank(s) { 1int } else { 0 }) + (if is_too_long(s) {
            1int
        } else {
            0
        }) + (if has_forbidden_character(s) { 1int } else { 0 }),
        name_violations(s).len() == 0 <==> is_valid_name(s),
{
    reveal_strlit("name cannot be empty!");
    reveal_strlit("name cannot be more than 256 characters!");
    reveal_strlit("name cannot contain special characters!");
    let v = name_violations(s);
    let a = violation_if(is_blank(s), empty_name_message());
    let b = violation_if(is_too_long(s), long_name_message());
    let c = violation_if(has_forbidden_character(s), forbidden_character_message());
    assert(empty_name_message().len() == 21);
    assert(long_name_message().len() == 40);
    assert(forbidden_character_message().len() == 39);
    assert(empty_name_message() != long_name_message());
    assert(empty_name_message() != forbidden_character_message());
    assert(long_name_message() != forbidden_character_message());
    if is_blank(s) {
        assert(v[0] == empty_name_message());
    }
    if is_too_long(s) {
        assert(v[a.len() as int] == long_name_message());
    }
    if has_forbidden_character(s) {
        assert(v[(a.len() + b.len()) as int] == forbidden_character_message());
    }
    if v.contains(empty_name_message()) {
        let i = choose|i: int| 0 <= i < v.len() && v[i] == empty_name_message();
        assert(is_blank(s));
    }
    if v.contains(long_name_message()) {
        let i = choose|i: int| 0 <= i < v.len() && v[i] == long_name_message();
        assert(is_too_long(s));
    }
    if v.contains(forbidden_character_message()) {
        let i = choose|i: int| 0 <= i < v.len() && v[i] == forbidden_character_message();
        assert(has_forbidden_character(s));
    }
}

/// A name that is not blank, has at most 256 grapheme clusters and none of
/// the characters `/ ( ) " < > \ { }`.
#[derive(Debug)]
pub struct SubscriberName(String);

impl View for SubscriberName {
    type V = Seq<char>;

    closed spec fn view(&self) -> Seq<char> {
        self.0@
    }
}

impl SubscriberName {
    #[verifier::type_invariant]
    spec fn inv(&self) -> bool {
        is_valid_name(self.0@)
    }

    /// Checks all three rules and reports every one that is broken.
    pub fn parse(s: String) -> (r: Result<Self, Vec<String>>)
        ensures
            r is Ok <==> is_valid_name(s@),
            r matches Ok(n) ==> n@ == s@,
            r matches Err(v) ==> views_of(v@) == name_violations(s@) && v@.len() > 0,
    {
        let not_blank = !Self::is_blank_str(s.as_str());
        let short_enough = count_graphemes(s.as_str()) <= MAX_NAME_GRAPHEMES;
        let no_forbidden = !Self::contains_forbidden_character(s.as_str());
        let mut violations: Vec<String> = Vec::new();
        if let Some(m) = Self::is_valid_to_maybe_err(not_blank, "name cannot be empty!") {
            violations.push(m);
        }
        if let Some(m) = Self::is_valid_to_maybe_err(
            short_enough,
            "name cannot be more than 256 characters!",
        ) {
            violations.push(m);
        }
        if let Some(m) = Self::is_valid_to_maybe_err(
            no_forbidden,
            "name cannot contain special characters!",
        ) {
            violations.push(m);
        }
        assert(views_of(violations@) =~= name_violations(s@));
        if violations.len() == 0 {
            Ok(SubscriberName(s))
        } else {
            Err(violations)
        }
    }

    fn is_valid_to_maybe_err(is_valid: bool, error_msg: &str) -> (r: Option<String>)
        ensures
            r is None <==> is_valid,
            r matches Some(m) ==> m@ == error_msg@,
    {
        if is_valid {
            None
        } else {
            Some(String::from_str(error_msg))
        }
    }

    fn is_blank_str(s: &str) -> (r: bool)
        ensures
            r == is_blank(s@),
    {
        let n = s.unicode_len();
        let mut i: usize = 0;
        while i < n
            invariant
                n == s@.len(),
                i <= n,
                forall|j: int| 0 <= j < i ==> #[trigger] is_white_space(s@[j]),
            decreases n - i,
        {
            if !char_is_whitespace(s.get_char(i)) {
                return false;
            }
            i = i + 1;
        }
        true
    }

    fn contains_forbidden_character(s: &str) -> (r: bool)
        ensures
            r == has_forbidden_character(s@),
    {
        let forbidden = Self::get_forbidden_characters();
        let n = s.unicode_len();
        let mut i: usize = 0;
        while i < n
            invariant
                n == s@.len(),
                i <= n,
                forbidden@ == forbidden_characters(),
                forall|j: int| 0 <= j < i ==> !forbidden_characters().contains(#[trigger] s@[j]),
            decreases n - i,
        {
            let c = s.get_char(i);
            let mut k: usize = 0;
            while k < forbidden.len()
                invariant
                    forbidden@ == forbidden_characters(),
                    k <= forbidden.len(),
                    i < n,
                    n == s@.len(),
                    c == s@[i as int],
                    forall|m: int| 0 <= m < k ==> forbidden@[m] != c,
                decreases forbidden.len() - k,
            {
                if forbidden[k] == c {
                    assert(forbidden_characters().contains(s@[i as int]));
                    return true;
                }
                k = k + 1;
            }
            i = i + 1;
        }
        false
    }

    /// The characters that a name may not contain.
    pub fn get_forbidden_characters() -> (r: Vec<char>)
        ensures
            r@ == forbidden_characters(),
    {
        let r = vec!['/', '(', ')', '"', '<', '>', '\\', '{', '}'];
        assert(r@ =~= forbidden_characters());
        r
    }
}

impl AsRef<str> for SubscriberName {
    fn as_ref(&self) -> (r: &str)
        ensures
            r@ == self@,
            is_valid_name(r@),
    {
        proof {
            use_type_invariant(self);
        }
        self.0.as_str()
    }
}

} // verus!
