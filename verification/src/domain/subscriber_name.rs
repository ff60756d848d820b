//! The display name of a subscriber.
//!
//! A name is accepted when it is not blank, spans at most 256 extended
//! grapheme clusters, and contains none of a small set of characters that
//! could break out of the surrounding markup or storage.

use vstd::prelude::*;
use vstd::string::StrSliceExecFns;

verus! {

/// The characters a subscriber name may not contain.
pub open spec fn forbidden_char(c: char) -> bool {
    ||| c == '/'
    ||| c == '('
    ||| c == ')'
    ||| c == '"'
    ||| c == '<'
    ||| c == '>'
    ||| c == '\\'
    ||| c == '{'
    ||| c == '}'
}

/// Whether some character of `s` is forbidden in a name.
pub open spec fn has_forbidden_char(s: Seq<char>) -> bool {
    exists|i: int| 0 <= i < s.len() && forbidden_char(s[i])
}

/// What `char::is_whitespace` returns: a function of the character alone.
pub uninterp spec fn whitespace_char(c: char) -> bool;

/// A string is blank when every character is whitespace; the empty string
/// is blank.  These are exactly the strings whose trimmed form is empty.
pub open spec fn blank(s: Seq<char>) -> bool {
    forall|i: int| 0 <= i < s.len() ==> whitespace_char(s[i])
}

/// What unicode-segmentation's extended grapheme cluster segmentation
/// yields for `s`: the number of clusters, a function of the characters
/// alone.
pub uninterp spec fn grapheme_len(s: Seq<char>) -> int;

/// The strings accepted as subscriber names.
pub open spec fn name_valid(s: Seq<char>) -> bool {
    &&& !blank(s)
    &&& grapheme_len(s) <= 256
    &&& !has_forbidden_char(s)
}

/// Relies on `char::is_whitespace`: the result depends on the character
/// alone.
#[verifier::external_body]
fn is_whitespace_char(c: char) -> (r: bool)
    ensures
        r == whitespace_char(c),
{
    c.is_whitespace()
}

/// Relies on unicode-segmentation's `UnicodeSegmentation::graphemes` with
/// extended clusters: the count depends on the characters alone.
#[verifier::external_body]
fn grapheme_count(s: &str) -> (n: usize)
    ensures
        n as int == grapheme_len(s@),
{
    unicode_segmentation::UnicodeSegmentation::graphemes(s, true).count()
}

/// A subscriber's display name, known to satisfy [`name_valid`].
#[derive(Debug)]
pub struct SubscriberName(String);

impl View for SubscriberName {
    type V = Seq<char>;

    closed spec fn view(&self) -> Seq<char> {
        self.0@
    }
}

impl Clone for SubscriberName {
    fn clone(&self) -> (r: Self)
        ensures
            r@ == self@,
    {
        SubscriberName(self.0.clone())
    }
}

impl SubscriberName {
    /// Every value of this type wraps an accepted name.
    pub open spec fn wf(&self) -> bool {
        name_valid(self@)
    }

    /// Accepts `s` as a subscriber name, or gives it back unchanged.
    ///
    /// Rejected are exactly the blank strings, the strings of more than
    /// 256 grapheme clusters, and the strings holding a forbidden
    /// character.
    pub fn parse(s: String) -> (r: Result<SubscriberName, String>)
        ensures
            r is Ok <==> name_valid(s@),
            r matches Ok(name) ==> name@ == s@ && name.wf(),
            r matches Err(e) ==> e@ == s@,
            blank(s@) ==> r is Err,
            grapheme_len(s@) > 256 ==> r is Err,
            has_forbidden_char(s@) ==> r is Err,
    {
        let n = s.as_str().unicode_len();
        let mut i: usize = 0;
        let mut all_blank = true;
        let mut forbidden = false;
        while i < n
            invariant
                0 <= i <= n,
                n == s@.len(),
                all_blank <==> (forall|j: int| 0 <= j < i ==> whitespace_char(s@[j])),
                forbidden <==> (exists|j: int| 0 <= j < i && forbidden_char(s@[j])),
            decreases n - i,
        {
            let c = s.as_str().get_char(i);
            if !is_whitespace_char(c) {
                all_blank = false;
            }
            if c == '/' || c == '(' || c == ')' || c == '"' || c == '<' || c == '>' || c == '\\'
                || c == '{' || c == '}' {
                forbidden = true;
            }
            i = i + 1;
        }
        let too_long = grapheme_count(s.as_str()) > 256;
        if all_blank || too_long || forbidden {
            Err(s)
        } else {
            Ok(SubscriberName(s))
        }
    }

    /// The accepted name, unchanged.
    pub fn as_str(&self) -> (r: &str)
        ensures
            r@ == self@,
    {
        self.0.as_str()
    }
}

} // verus!
