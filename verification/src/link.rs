//! The persisted entity of the service: a short identifier mapped to an
//! absolute target URL, together with the well-formedness conditions that the
//! store keeps as invariants.

use vstd::prelude::*;

verus! {

/// A persisted, immutable pair of a short identifier and the absolute URL it
/// redirects to.
#[derive(Debug, Clone, PartialEq, Eq)]
pub struct Link {
    pub id: String,
    pub target_url: String,
}

/// The payload of a create request: the raw target URL as the client sent it.
#[derive(Debug, Clone)]
pub struct NewLink {
    pub target_url: String,
}

/// A character of the URL-safe base64 alphabet: letters, digits, `-` and `_`.
pub open spec fn is_b64url_char(c: char) -> bool {
    let u = c as u32;
    (65 <= u && u <= 90)  // 'A'..='Z'
    || (97 <= u && u <= 122)  // 'a'..='z'
    || (48 <= u && u <= 57)  // '0'..='9'
    || u == 45  // '-'
    || u == 95  // '_'
}

/// An unreserved URL character: letters, digits, `-`, `.`, `_` and `~`.
pub open spec fn is_unreserved_char(c: char) -> bool {
    let u = c as u32;
    (65 <= u && u <= 90) || (97 <= u && u <= 122) || (48 <= u && u <= 57) || u == 45 || u == 46
        || u == 95 || u == 126
}

/// A well-formed identifier token: non-empty and made of unreserved URL
/// characters only.
pub open spec fn token_wf(s: Seq<char>) -> bool {
    &&& s.len() > 0
    &&& forall|i: int| 0 <= i < s.len() ==> is_unreserved_char(#[trigger] s[i])
}

/// Every character of the URL-safe base64 alphabet is unreserved.
pub proof fn lemma_b64url_char_unreserved(c: char)
    requires
        is_b64url_char(c),
    ensures
        is_unreserved_char(c),
{
}

/// Decides at run time whether a string is a well-formed identifier token.
pub fn is_wf_token(s: &String) -> (r: bool)
    ensures
        r == token_wf(s@),
{
    let st: &str = s.as_str();
    let n: usize = st.unicode_len();
    if n == 0 {
        return false;
    }
    let mut i: usize = 0;
    while i < n
        invariant
            0 < n == st@.len(),
            st@ == s@,
            i <= n,
            forall|j: int| 0 <= j < i ==> is_unreserved_char(#[trigger] st@[j]),
        decreases n - i,
    {
        let c = st.get_char(i);
        let u = c as u32;
        let ok = (65 <= u && u <= 90) || (97 <= u && u <= 122) || (48 <= u && u <= 57) || u == 45
            || u == 46 || u == 95 || u == 126;
        if !ok {
            return false;
        }
        i += 1;
    }
    true
}

} // verus!
