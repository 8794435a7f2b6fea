use vstd::prelude::*;
use vstd::string::*;

use crate::error::ConnectionError;
use crate::error::ConnectionResult;

verus! {

/// Whether the URL parser accepts `s`.
pub uninterp spec fn url_parses(s: Seq<char>) -> bool;

/// The scheme the URL parser finds in `s`.
pub uninterp spec fn url_scheme(s: Seq<char>) -> Seq<char>;

/// The path the URL parser finds in `s`.
pub uninterp spec fn url_path(s: Seq<char>) -> Seq<char>;

/// The decoded query pairs, in order, that the URL parser finds in `s`.
pub uninterp spec fn url_query_pairs(s: Seq<char>) -> Seq<(Seq<char>, Seq<char>)>;

/// The components of a parsed URL, as plain strings.
pub struct ParsedUrl {
    pub scheme: String,
    pub path: String,
    pub query: Vec<(String, String)>,
}

/// The text of each name/value pair.
pub open spec fn pairs_view(q: Seq<(String, String)>) -> Seq<(Seq<char>, Seq<char>)> {
    q.map_values(|p: (String, String)| (p.0@, p.1@))
}

/// Relies on url::Url::parse to accept or refuse `s`, and on the parsed URL's
/// `scheme`, `path` and `query_pairs` for its components.
#[verifier::external_body]
fn parse_url(s: &str) -> (r: Option<ParsedUrl>)
    ensures
        r is Some <==> url_parses(s@),
        r matches Some(u) ==> u.scheme@ == url_scheme(s@) && u.path@ == url_path(s@)
            && pairs_view(u.query@) == url_query_pairs(s@),
{
    match url::Url::parse(s) {
        Ok(u) => Some(ParsedUrl {
            scheme: u.scheme().to_string(),
            path: u.path().to_string(),
            query: u.query_pairs().map(|(k, v)| (k.into_owned(), v.into_owned())).collect(),
        }),
        Err(_) => None,
    }
}

/// The engine's designated URL scheme.
pub open spec fn engine_scheme() -> Seq<char> {
    seq!['s', 'q', 'l', 'i', 't', 'e']
}

/// The name of the query parameter that carries the passphrase.
pub open spec fn key_name() -> Seq<char> {
    seq!['k', 'e', 'y']
}

/// The value of the last parameter named `key`, if any: a later entry
/// overrides an earlier one.
pub open spec fn key_param(pairs: Seq<(Seq<char>, Seq<char>)>) -> Option<Seq<char>>
    decreases pairs.len(),
{
    if pairs.len() == 0 {
        None
    } else if pairs.last().0 == key_name() {
        Some(pairs.last().1)
    } else {
        key_param(pairs.drop_last())
    }
}

fn same_text(a: &str, b: &str) -> (r: bool)
    ensures
        r == (a@ == b@),
{
    let n = a.unicode_len();
    if n != b.unicode_len() {
        return false;
    }
    let mut i: usize = 0;
    while i < n
        invariant
            n == a@.len() == b@.len(),
            i <= n,
            forall|j: int| 0 <= j < i ==> a@[j] == b@[j],
        decreases n - i,
    {
        if a.get_char(i) != b.get_char(i) {
            return false;
        }
        i = i + 1;
    }
    assert(a@ =~= b@);
    true
}

/// Where a connection goes: the parts of a connection string of the form
/// `sqlite://path?key=passphrase`.
pub struct ConnectionTarget {
    pub scheme: String,
    pub path: String,
    pub parameters: Vec<(String, String)>,
}

impl ConnectionTarget {
    /// Parses a connection string. Fails with `InvalidConnectionUrl`, holding
    /// the string, where it is no URL or its scheme is not `sqlite`.
    pub fn parse(database_url: &str) -> (r: ConnectionResult<ConnectionTarget>)
        ensures
            r is Ok <==> url_parses(database_url@) && url_scheme(database_url@) == engine_scheme(),
            r matches Ok(t) ==> t.scheme@ == engine_scheme() && t.path@ == url_path(database_url@)
                && pairs_view(t.parameters@) == url_query_pairs(database_url@),
            r matches Err(e) ==> e matches ConnectionError::InvalidConnectionUrl(s) && s@ == database_url@,
    {
        proof {
            reveal_strlit("sqlite");
            assert("sqlite"@ =~= engine_scheme());
        }
        match parse_url(database_url) {
            Some(u) => {
                if same_text(u.scheme.as_str(), "sqlite") {
                    Ok(ConnectionTarget { scheme: u.scheme, path: u.path, parameters: u.query })
                } else {
                    Err(ConnectionError::InvalidConnectionUrl(database_url.to_owned()))
                }
            },
            None => Err(ConnectionError::InvalidConnectionUrl(database_url.to_owned())),
        }
    }

    /// The passphrase the parameters carry: the value of the last `key`.
    pub fn key(&self) -> (r: Option<&str>)
        ensures
            r matches Some(k) ==> key_param(pairs_view(self.parameters@)) == Some(k@),
            r is None ==> key_param(pairs_view(self.parameters@)) is None,
    {
        let ghost pv = pairs_view(self.parameters@);
        proof {
            assert(pv.take(pv.len() as int) =~= pv);
        }
        let mut i: usize = self.parameters.len();
        while i > 0
            invariant
                i <= self.parameters@.len(),
                pv == pairs_view(self.parameters@),
                key_param(pv) == key_param(pv.take(i as int)),
            decreases i,
        {
            let pair = &self.parameters[i - 1];
            proof {
                assert(pv.take(i as int).drop_last() =~= pv.take(i - 1));
                assert(pv.take(i as int).last() == (pair.0@, pair.1@));
            }
            let matched = same_text(pair.0.as_str(), "key");
            proof {
                reveal_strlit("key");
                assert("key"@ =~= key_name());
            }
            if matched {
                return Some(pair.1.as_str());
            }
            i = i - 1;
        }
        None
    }
}

} // verus!
