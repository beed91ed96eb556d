use vstd::prelude::*;
use vstd::string::*;
use crate::text::{decimal, push_decimal, push_signed_decimal, signed_decimal};

verus! {

/// The cookie name that carries the session token, followed by `=`.
pub open spec fn jwt_key() -> Seq<char> {
    seq!['j', 'w', 't', '=']
}

/// `pat` occurs in `s` starting at index `i`.
pub open spec fn occurs_at(s: Seq<char>, pat: Seq<char>, i: int) -> bool {
    0 <= i && i + pat.len() <= s.len() && s.subrange(i, i + pat.len()) == pat
}

/// `i` is the first index at which `pat` occurs in `s`.
pub open spec fn first_occurrence(s: Seq<char>, pat: Seq<char>, i: int) -> bool {
    occurs_at(s, pat, i) && forall|j: int| 0 <= j < i ==> !occurs_at(s, pat, j)
}

/// Index of the first `;` at or after `k`, or the length of `s` when there is none.
pub open spec fn token_end(s: Seq<char>, k: int) -> int
    decreases s.len() - k,
{
    if k < 0 || k >= s.len() {
        s.len() as int
    } else if s[k] == ';' {
        k
    } else {
        token_end(s, k + 1)
    }
}

proof fn lemma_token_end_bounds(s: Seq<char>, k: int)
    requires
        0 <= k <= s.len(),
    ensures
        k <= token_end(s, k) <= s.len(),
        token_end(s, k) < s.len() ==> s[token_end(s, k)] == ';',
        forall|m: int| k <= m < token_end(s, k) ==> s[m] != ';',
    decreases s.len() - k,
{
    if k < s.len() && s[k] != ';' {
        lemma_token_end_bounds(s, k + 1);
    }
}

/// The value of the `jwt` entry of a cookie string, as the first `jwt=` and
/// the next `;` (or the end of the string) delimit it.
pub open spec fn jwt_of(s: Seq<char>) -> Option<Seq<char>> {
    if exists|i: int| occurs_at(s, jwt_key(), i) {
        let i = choose|i: int| first_occurrence(s, jwt_key(), i);
        Some(s.subrange(i + 4, token_end(s, i + 4)))
    } else {
        None
    }
}

fn key_at(s: &str, n: usize, i: usize) -> (r: bool)
    requires
        n == s@.len(),
        i + 4 <= n,
    ensures
        r == occurs_at(s@, jwt_key(), i as int),
{
    let r = s.get_char(i) == 'j' && s.get_char(i + 1) == 'w' && s.get_char(i + 2) == 't'
        && s.get_char(i + 3) == '=';
    proof {
        let sub = s@.subrange(i as int, i + 4);
        if r {
            assert(sub =~= jwt_key());
        } else {
            if sub == jwt_key() {
                assert(sub[0] == 'j' && sub[1] == 'w' && sub[2] == 't' && sub[3] == '=');
            }
        }
    }
    r
}

/// Finds the session token in a `Cookie` header value: the text after the
/// first `jwt=` up to the next `;`, or to the end of the string.
pub fn extract_jwt(cookie_str: &str) -> (r: Option<&str>)
    ensures
        r.is_some() == jwt_of(cookie_str@).is_some(),
        r.is_some() ==> r.unwrap()@ == jwt_of(cookie_str@).unwrap(),
{
    let n = cookie_str.unicode_len();
    let mut i: usize = 0;
    while n >= 4 && i <= n - 4
        invariant
            n == cookie_str@.len(),
            i <= n,
            forall|j: int| 0 <= j < i ==> !occurs_at(cookie_str@, jwt_key(), j),
        decreases n - i,
    {
        if key_at(cookie_str, n, i) {
            let start = i + 4;
            let mut end = start;
            while end < n && cookie_str.get_char(end) != ';'
                invariant
                    n == cookie_str@.len(),
                    start <= end <= n,
                    forall|m: int| start <= m < end ==> cookie_str@[m] != ';',
                decreases n - end,
            {
                end = end + 1;
            }
            proof {
                let s = cookie_str@;
                assert(first_occurrence(s, jwt_key(), i as int));
                let k = choose|k: int| first_occurrence(s, jwt_key(), k);
                if k < i {
                } else if k > i {
                }
                assert(k == i);
                lemma_token_end_bounds(s, start as int);
                assert(token_end(s, start as int) == end);
            }
            return Some(cookie_str.substring_char(start, end));
        }
        i = i + 1;
    }
    proof {
        assert forall|j: int| !occurs_at(cookie_str@, jwt_key(), j) by {
            if 0 <= j && j >= i {
                assert(j + 4 > n);
            }
        }
    }
    None
}

/// The identity a session token carries.
#[derive(Clone, Copy, Debug, PartialEq, Eq, Structural)]
pub struct Claims {
    pub user_id: i32,
    pub exp: usize,
}

impl Claims {
    /// Two lines: the user id and the expiry time.
    pub fn describe(&self) -> (r: String)
        ensures
            r@ == "User id: "@ + signed_decimal(self.user_id as int) + "\nExpires: "@ + decimal(
                self.exp as nat,
            ),
    {
        let mut out = String::from_str("User id: ");
        push_signed_decimal(&mut out, self.user_id);
        out.append("\nExpires: ");
        push_decimal(&mut out, self.exp as u64);
        out
    }
}

/// Why a request carries no usable session.
#[derive(Clone, Copy, Debug, PartialEq, Eq, Structural)]
pub enum AuthError {
    InvalidToken,
    MissingToken,
}

impl AuthError {
    /// HTTP status of the refusal: bad request.
    pub fn status_code(&self) -> (r: u16)
        ensures
            r == 400,
    {
        400
    }

    /// Text of the refusal.
    pub fn message(&self) -> (r: String)
        ensures
            *self == AuthError::InvalidToken ==> r@ == "Invalid token"@,
            *self == AuthError::MissingToken ==> r@ == "Missing token"@,
    {
        match self {
            AuthError::InvalidToken => String::from_str("Invalid token"),
            AuthError::MissingToken => String::from_str("Missing token"),
        }
    }
}

/// The `Cookie` header of a request, as far as the session is concerned.
pub enum CookieHeader {
    Missing,
    /// Present, but not visible ASCII text.
    Unreadable,
    Text(String),
}

/// The session token of a request: the `jwt` entry of its cookies.
pub fn session_token(header: &CookieHeader) -> (r: Result<String, AuthError>)
    ensures
        header is Missing ==> r == Err::<String, AuthError>(AuthError::MissingToken),
        header is Unreadable ==> r == Err::<String, AuthError>(AuthError::InvalidToken),
        header matches CookieHeader::Text(s) ==> match jwt_of(s@) {
            None => r == Err::<String, AuthError>(AuthError::MissingToken),
            Some(t) => r is Ok && r.unwrap()@ == t,
        },
{
    match header {
        CookieHeader::Missing => Err(AuthError::MissingToken),
        CookieHeader::Unreadable => Err(AuthError::InvalidToken),
        CookieHeader::Text(s) => match extract_jwt(s.as_str()) {
            None => Err(AuthError::MissingToken),
            Some(t) => Ok(t.to_owned()),
        },
    }
}

} // verus!
