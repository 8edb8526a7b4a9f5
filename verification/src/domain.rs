//! Validated identity types: subscriber names and subscriber email
//! addresses, checked at construction time and immutable afterwards.

use vstd::prelude::*;
use unicode_segmentation::UnicodeSegmentation;

verus! {

use vstd::string::StrSliceExecFns;
use vstd::string::StringExecFns;

/// A code point of the Unicode `Cc` (control) general category.
pub open spec fn is_control_char(c: char) -> bool {
    (c as u32) < 0x20 || (0x7f <= c as u32 && c as u32 <= 0x9f)
}

/// A code point with the Unicode `White_Space` property.
pub open spec fn is_whitespace_char(c: char) -> bool {
    ||| (0x9 <= c as u32 && c as u32 <= 0xd)
    ||| c as u32 == 0x20
    ||| c as u32 == 0x85
    ||| c as u32 == 0xa0
    ||| c as u32 == 0x1680
    ||| (0x2000 <= c as u32 && c as u32 <= 0x200a)
    ||| c as u32 == 0x2028
    ||| c as u32 == 0x2029
    ||| c as u32 == 0x202f
    ||| c as u32 == 0x205f
    ||| c as u32 == 0x3000
}

/// Characters that may not appear in a subscriber name.
pub open spec fn forbidden_name_char(c: char) -> bool {
    ||| c == '/'
    ||| c == '('
    ||| c == ')'
    ||| c == '"'
    ||| c == '<'
    ||| c == '>'
    ||| c == '\\'
    ||| c == '{'
    ||| c == '}'
    ||| is_control_char(c)
}

/// Number of extended grapheme clusters of a string of characters.
pub uninterp spec fn grapheme_count(s: Seq<char>) -> nat;

/// Upper bound on the length of a subscriber name, in grapheme clusters.
pub const MAX_NAME_GRAPHEMES: usize = 256;

/// A well-formed subscriber name: not empty or whitespace-only, at most 256
/// grapheme clusters long, and free of forbidden characters.
pub open spec fn valid_subscriber_name(s: Seq<char>) -> bool {
    &&& exists|i: int| 0 <= i < s.len() && !is_whitespace_char(#[trigger] s[i])
    &&& grapheme_count(s) <= MAX_NAME_GRAPHEMES
    &&& forall|i: int| 0 <= i < s.len() ==> !forbidden_name_char(#[trigger] s[i])
}

/// The separator characters of an email address.
pub open spec fn email_sep(c: char) -> bool {
    c == '@' || c == '.'
}

/// No separator leads or ends the address, and no two separators are adjacent.
pub open spec fn no_edge_or_double_sep(s: Seq<char>) -> bool {
    &&& s.len() > 0
    &&& !email_sep(s[0])
    &&& !email_sep(s[s.len() - 1])
    &&& forall|i: int| 0 < i < s.len() ==> !(email_sep(s[i - 1]) && email_sep(#[trigger] s[i]))
}

/// The single `@` of the address stands at position `k`, with a non-empty
/// local part before it and at least one `.` in the domain part after it.
pub open spec fn email_at_position(s: Seq<char>, k: int) -> bool {
    &&& 0 <= k < s.len()
    &&& s[k] == '@'
    &&& forall|i: int| 0 <= i < s.len() && (#[trigger] s[i]) == '@' ==> i == k
    &&& exists|j: int| k < j < s.len() && s[j] == '.'
}

/// A syntactically valid email address: exactly one `@`, a non-empty local
/// part, a domain part with at least one `.`, and no leading, trailing or
/// doubled separator.
pub open spec fn valid_email(s: Seq<char>) -> bool {
    &&& no_edge_or_double_sep(s)
    &&& exists|k: int| email_at_position(s, k)
}

/// Relies on `unicode_segmentation::UnicodeSegmentation::graphemes`: the
/// number of extended grapheme clusters depends on the characters alone.
#[verifier::external_body]
fn grapheme_len(s: &str) -> (n: usize)
    ensures
        n as nat == grapheme_count(s@),
{
    s.graphemes(true).count()
}

fn whitespace_char(c: char) -> (b: bool)
    ensures
        b == is_whitespace_char(c),
{
    let u = c as u32;
    (0x9 <= u && u <= 0xd) || u == 0x20 || u == 0x85 || u == 0xa0 || u == 0x1680 || (0x2000 <= u
        && u <= 0x200a) || u == 0x2028 || u == 0x2029 || u == 0x202f || u == 0x205f || u == 0x3000
}

fn name_char_forbidden(c: char) -> (b: bool)
    ensures
        b == forbidden_name_char(c),
{
    let u = c as u32;
    c == '/' || c == '(' || c == ')' || c == '"' || c == '<' || c == '>' || c == '\\' || c == '{'
        || c == '}' || u < 0x20 || (0x7f <= u && u <= 0x9f)
}

fn email_sep_char(c: char) -> (b: bool)
    ensures
        b == email_sep(c),
{
    c == '@' || c == '.'
}

/// A subscriber's display name, validated at construction.
#[derive(Debug)]
pub struct SubscriberName {
    text: String,
}

impl View for SubscriberName {
    type V = Seq<char>;

    closed spec fn view(&self) -> Seq<char> {
        self.text@
    }
}

impl SubscriberName {
    /// Accepts `s` exactly when it is a well-formed subscriber name.
    pub fn parse(s: String) -> (r: Result<SubscriberName, String>)
        ensures
            r is Ok <==> valid_subscriber_name(s@),
            r is Ok ==> r->Ok_0@ == s@,
            r is Err ==> r->Err_0@ == s@ + " is not a valid subscriber name."@,
    {
        let n = s.as_str().unicode_len();
        let mut only_whitespace = true;
        let mut has_forbidden = false;
        let mut i: usize = 0;
        while i < n
            invariant
                n == s@.len(),
                0 <= i <= n,
                only_whitespace <==> (forall|j: int|
                    0 <= j < i ==> is_whitespace_char(#[trigger] s@[j])),
                has_forbidden <==> (exists|j: int|
                    0 <= j < i && forbidden_name_char(#[trigger] s@[j])),
            decreases n - i,
        {
            let c = s.as_str().get_char(i);
            if !whitespace_char(c) {
                only_whitespace = false;
            }
            if name_char_forbidden(c) {
                has_forbidden = true;
            }
            i += 1;
        }
        let fits = grapheme_len(s.as_str()) <= MAX_NAME_GRAPHEMES;
        if !only_whitespace && !has_forbidden && fits {
            Ok(SubscriberName { text: s })
        } else {
            Err(s.concat(" is not a valid subscriber name."))
        }
    }

    /// The underlying text of the name.
    pub fn as_str(&self) -> (r: &str)
        ensures
            r@ == self@,
    {
        self.text.as_str()
    }

    /// Gives the underlying text back.
    pub fn into_string(self) -> (r: String)
        ensures
            r@ == self@,
    {
        self.text
    }
}

/// A subscriber's email address, validated at construction.
#[derive(Debug)]
pub struct SubscriberEmail {
    text: String,
}

impl View for SubscriberEmail {
    type V = Seq<char>;

    closed spec fn view(&self) -> Seq<char> {
        self.text@
    }
}

impl SubscriberEmail {
    /// Accepts `s` exactly when it is a syntactically valid email address.
    pub fn parse(s: String) -> (r: Result<SubscriberEmail, String>)
        ensures
            r is Ok <==> valid_email(s@),
            r is Ok ==> r->Ok_0@ == s@,
            r is Err ==> r->Err_0@ == s@ + " is not a valid subscriber email."@,
    {
        let n = s.as_str().unicode_len();
        let mut first_at: Option<usize> = None;
        let mut several_ats = false;
        let mut dot_after_at = false;
        let mut double_sep = false;
        let mut i: usize = 0;
        while i < n
            invariant
                n == s@.len(),
                0 <= i <= n,
                first_at is None <==> (forall|j: int| 0 <= j < i ==> s@[j] != '@'),
                first_at matches Some(k) ==> 0 <= k < i && s@[k as int] == '@' && (forall|j: int|
                    0 <= j < k ==> s@[j] != '@'),
                several_ats <==> (first_at matches Some(k) && exists|j: int|
                    k < j < i && s@[j] == '@'),
                dot_after_at <==> (first_at matches Some(k) && exists|j: int|
                    k < j < i && s@[j] == '.'),
                double_sep <==> (exists|j: int|
                    0 < j < i && email_sep(s@[j - 1]) && email_sep(#[trigger] s@[j])),
            decreases n - i,
        {
            let c = s.as_str().get_char(i);
            if c == '@' {
                match first_at {
                    None => { first_at = Some(i) },
                    Some(_) => { several_ats = true },
                }
            } else if c == '.' {
                if first_at.is_some() {
                    dot_after_at = true;
                }
            }
            if i > 0 {
                let prev = s.as_str().get_char(i - 1);
                if email_sep_char(prev) && email_sep_char(c) {
                    double_sep = true;
                }
            }
            i += 1;
        }
        let edges_clear = if n == 0 {
            false
        } else {
            !email_sep_char(s.as_str().get_char(0)) && !email_sep_char(
                s.as_str().get_char(n - 1),
            )
        };
        let well_formed = match first_at {
            Some(_) => !several_ats && dot_after_at && edges_clear && !double_sep,
            None => false,
        };
        if well_formed {
            proof {
                let k = first_at->0 as int;
                assert(email_at_position(s@, k));
            }
            Ok(SubscriberEmail { text: s })
        } else {
            proof {
                if valid_email(s@) {
                    let k = choose|k: int| email_at_position(s@, k);
                    assert(s@[k] == '@');
                }
            }
            Err(s.concat(" is not a valid subscriber email."))
        }
    }

    /// The underlying text of the address.
    pub fn as_str(&self) -> (r: &str)
        ensures
            r@ == self@,
    {
        self.text.as_str()
    }

    /// Gives the underlying text back.
    pub fn into_string(self) -> (r: String)
        ensures
            r@ == self@,
    {
        self.text
    }

    /// A copy of the address.
    pub fn duplicate(&self) -> (r: SubscriberEmail)
        ensures
            r@ == self@,
    {
        SubscriberEmail { text: String::from_str(self.text.as_str()) }
    }
}

/// A fully validated registration request: a name and an email address.
pub struct NewSubscriber {
    pub email: SubscriberEmail,
    pub name: SubscriberName,
}

/// Both fields of a registration request are well formed.
pub open spec fn valid_new_subscriber(name: Seq<char>, email: Seq<char>) -> bool {
    valid_subscriber_name(name) && valid_email(email)
}

} // verus!
