//! Claims decoded from an identity token, and the user they describe.
//! Token signatures are validated upstream; this module only shapes the
//! claim values, including the comma-separated family-id custom claim.

use vstd::prelude::*;
use vstd::string::StrSliceExecFns;

verus! {

/// Token claims as the identity provider issues them.
#[derive(Debug)]
pub struct CognitoClaims {
    /// Subject (user id).
    pub sub: String,
    /// Email.
    pub email: Option<String>,
    /// Provider-side user name.
    pub cognito_username: Option<String>,
    /// Token use (access or id).
    pub token_use: String,
    /// Client id.
    pub client_id: Option<String>,
    /// Issued at.
    pub iat: i64,
    /// Expiration.
    pub exp: i64,
    /// Issuer.
    pub iss: String,
    /// Custom claim: comma-separated family ids.
    pub family_ids: Option<String>,
}

/// Decoded user information.
#[derive(Debug)]
pub struct AuthenticatedUser {
    /// The user's subject id.
    pub user_id: String,
    /// The user's email, or their provider user name as a stand-in.
    pub email: Option<String>,
    /// The user's family ids, parsed from the custom claim.
    pub family_ids: Vec<String>,
}

/// Why claims could not be turned into a user.
#[derive(Debug)]
pub enum AuthError {
    Auth(String),
}

/// Whitespace as the claim parser strips it.
pub open spec fn is_ws(c: char) -> bool {
    c == ' ' || c == '\t' || c == '\n' || c == '\r'
}

/// The text with leading and trailing whitespace removed.
pub open spec fn spec_trim(s: Seq<char>) -> Seq<char>
    decreases s.len(),
{
    if s.len() == 0 {
        s
    } else if is_ws(s.first()) {
        spec_trim(s.drop_first())
    } else if is_ws(s.last()) {
        spec_trim(s.drop_last())
    } else {
        s
    }
}

/// The pieces of the text between its commas; one piece more than there
/// are commas, each possibly empty.
pub open spec fn spec_split_commas(s: Seq<char>) -> Seq<Seq<char>>
    decreases s.len(),
{
    match s.index_of_first(',') {
        Some(i) => if 0 <= i < s.len() {
            seq![s.take(i)] + spec_split_commas(s.skip(i + 1))
        } else {
            // `index_of_first` never yields an index out of range.
            seq![s]
        },
        None => seq![s],
    }
}

/// The family ids encoded in the custom claim: the comma-separated
/// pieces, each trimmed.
pub open spec fn spec_family_ids(s: Seq<char>) -> Seq<Seq<char>> {
    spec_split_commas(s).map_values(|p: Seq<char>| spec_trim(p))
}

/// Whitespace test on one character.
fn ws_char(c: char) -> (b: bool)
    ensures
        b == is_ws(c),
{
    c == ' ' || c == '\t' || c == '\n' || c == '\r'
}

/// The trimmed copy of `s[from..to]` (in characters).
fn trim_range(s: &str, from: usize, to: usize) -> (r: String)
    requires
        from <= to <= s@.len(),
    ensures
        r@ == spec_trim(s@.subrange(from as int, to as int)),
{
    let mut a: usize = from;
    let mut b: usize = to;
    while a < b && ws_char(s.get_char(a))
        invariant
            from <= a <= b <= to <= s@.len(),
            spec_trim(s@.subrange(a as int, b as int)) == spec_trim(
                s@.subrange(from as int, to as int),
            ),
        decreases b - a,
    {
        proof {
            let sub = s@.subrange(a as int, b as int);
            assert(sub.drop_first() =~= s@.subrange(a + 1, b as int));
        }
        a = a + 1;
    }
    while b > a && ws_char(s.get_char(b - 1))
        invariant
            from <= a <= b <= to <= s@.len(),
            a == b || !is_ws(s@[a as int]),
            spec_trim(s@.subrange(a as int, b as int)) == spec_trim(
                s@.subrange(from as int, to as int),
            ),
        decreases b - a,
    {
        proof {
            let sub = s@.subrange(a as int, b as int);
            assert(sub.drop_last() =~= s@.subrange(a as int, b - 1));
        }
        b = b - 1;
    }
    let piece = s.substring_char(a, b);
    proof {
        let sub = s@.subrange(a as int, b as int);
        assert(spec_trim(sub) == sub);
    }
    piece.to_owned()
}

/// Parses the comma-separated family-id claim: splits on commas and
/// trims each piece.
pub fn parse_family_ids(s: &str) -> (r: Vec<String>)
    ensures
        r@.len() == spec_family_ids(s@).len(),
        forall|j: int| 0 <= j < r@.len() ==> (#[trigger] r@[j])@ == spec_family_ids(s@)[j],
{
    let n = s.unicode_len();
    let ghost full = spec_family_ids(s@);
    let mut out: Vec<String> = Vec::new();
    let ghost mut processed: Seq<Seq<char>> = Seq::empty();
    let mut start: usize = 0;
    let mut done: bool = false;
    proof {
        assert(s@.subrange(0, n as int) =~= s@);
    }
    while !done
        invariant
            start <= n,
            n == s@.len(),
            full == spec_family_ids(s@),
            processed.len() == out@.len(),
            forall|j: int| 0 <= j < out@.len() ==> (#[trigger] out@[j])@ == processed[j],
            !done ==> full == processed + spec_family_ids(s@.subrange(start as int, n as int)),
            done ==> full == processed,
        decreases (n - start) + (if done { 0int } else { 1int }),
    {
        let mut j: usize = start;
        while j < n && s.get_char(j) != ','
            invariant
                start <= j <= n,
                n == s@.len(),
                forall|k: int| start <= k < j ==> s@[k] != ',',
            decreases n - j,
        {
            j = j + 1;
        }
        let piece = trim_range(s, start, j);
        proof {
            let rem = s@.subrange(start as int, n as int);
            rem.index_of_first_ensures(',');
            if j < n {
                assert(rem[j - start] == ',');
                match rem.index_of_first(',') {
                    Some(i) => {
                        assert(rem[i] == ',');
                        if i < j - start {
                            assert(s@[start + i] != ',');
                            assert(false);
                        }
                        if i > j - start {
                            assert(rem[j - start] != ',');
                            assert(false);
                        }
                        assert(i == j - start);
                    },
                    None => {
                        assert(rem.contains(rem[j - start]));
                        assert(false);
                    },
                }
                assert(rem.take(j - start) =~= s@.subrange(start as int, j as int));
                assert(rem.skip(j - start + 1) =~= s@.subrange(j + 1, n as int));
                let head = rem.take(j - start);
                let tail = spec_split_commas(rem.skip(j - start + 1));
                assert(spec_split_commas(rem) == seq![head] + tail);
                assert(spec_family_ids(rem) =~= seq![spec_trim(head)] + spec_family_ids(
                    s@.subrange(j + 1, n as int),
                ));
            } else {
                match rem.index_of_first(',') {
                    Some(i) => {
                        assert(rem[i] == ',');
                        assert(s@[start + i] != ',');
                        assert(false);
                    },
                    None => {},
                }
                assert(rem.take(rem.len() as int) =~= rem);
                assert(rem =~= s@.subrange(start as int, j as int));
                assert(spec_split_commas(rem) == seq![rem]);
                assert(spec_family_ids(rem) =~= seq![spec_trim(rem)]);
            }
        }
        out.push(piece);
        proof {
            processed = processed.push(piece@);
        }
        if j < n {
            proof {
                assert(full =~= processed + spec_family_ids(s@.subrange(j + 1, n as int)));
            }
            start = j + 1;
        } else {
            proof {
                assert(full =~= processed);
            }
            done = true;
        }
    }
    proof {
        assert(full == processed);
    }
    out
}

impl AuthenticatedUser {
    /// Builds the user a set of claims describes: the subject id, the
    /// email (or the provider user name as a stand-in), and the parsed
    /// family ids — none when the claim is absent. Never fails: absent
    /// claims fall back rather than reject.
    pub fn try_from(claims: CognitoClaims) -> (r: Result<AuthenticatedUser, AuthError>)
        ensures
            r matches Ok(u) && u.user_id == claims.sub && u.email == (if claims.email is Some {
                claims.email
            } else {
                claims.cognito_username
            }) && (match claims.family_ids {
                Some(ids) => u.family_ids@.len() == spec_family_ids(ids@).len() && forall|j: int|
                    0 <= j < u.family_ids@.len() ==> (#[trigger] u.family_ids@[j])@
                        == spec_family_ids(ids@)[j],
                None => u.family_ids@.len() == 0,
            }),
    {
        let family_ids: Vec<String> = match &claims.family_ids {
            Some(ids) => parse_family_ids(ids.as_str()),
            None => Vec::new(),
        };
        let email: Option<String> = match claims.email {
            Some(e) => Some(e),
            None => claims.cognito_username,
        };
        Ok(AuthenticatedUser { user_id: claims.sub, email, family_ids })
    }
}

} // verus!
