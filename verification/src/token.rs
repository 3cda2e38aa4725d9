//! The OAuth2 token that the broker hands out, and the scopes it grants.

use crate::error::FetchError;
use crate::json::json_integer;
use crate::json::json_member;
use crate::json::json_text;
use crate::json::member;
use crate::text::all_whitespace;
use crate::text::law_split_undoes_spacing;
use crate::text::lemma_words_skip_gap;
use crate::text::spaced;
use crate::text::split_whitespace;
use crate::text::well_spaced;
use crate::text::words;
use vstd::hash_set::StringHashSet;
use vstd::prelude::*;
use vstd::string::*;

verus! {

/// An access token with what the broker says of it. A text that the broker
/// left out is empty; `expires_in` is `None` where the broker gave no lifetime.
#[derive(Debug, PartialEq, Eq)]
pub struct OAuth2Token {
    pub token_type: String,
    pub access_token: String,
    /// The granted scopes, separated by whitespace.
    pub scope: String,
    /// The token's lifetime in seconds, if the broker reported one.
    pub expires_in: Option<i64>,
}

/// An `OAuth2Token` as a mathematical value.
pub struct OAuth2TokenView {
    pub token_type: Seq<char>,
    pub access_token: Seq<char>,
    pub scope: Seq<char>,
    pub expires_in: Option<i64>,
}

impl View for OAuth2Token {
    type V = OAuth2TokenView;

    open spec fn view(&self) -> OAuth2TokenView {
        OAuth2TokenView {
            token_type: self.token_type@,
            access_token: self.access_token@,
            scope: self.scope@,
            expires_in: self.expires_in,
        }
    }
}

/// The text `found`, or the empty text where there is none.
pub open spec fn text_or_empty(found: Option<&str>) -> Seq<char> {
    match found {
        Some(text) => text@,
        None => Seq::empty(),
    }
}

/// The text of the member `key` of `raw`, where `raw` is an object that has
/// such a member and the member is a string.
pub open spec fn member_text(raw: serde_json::Value, key: Seq<char>) -> Option<Seq<char>> {
    match json_member(raw, key) {
        Some(inner) => json_text(inner),
        None => None,
    }
}

/// The number of the member `key` of `raw`, where `raw` is an object that has
/// such a member and the member is an integer that fits `i64`.
pub open spec fn member_integer(raw: serde_json::Value, key: Seq<char>) -> Option<i64> {
    match json_member(raw, key) {
        Some(inner) => json_integer(inner),
        None => None,
    }
}

/// `found`, or the empty text where there is none.
pub open spec fn or_empty(found: Option<Seq<char>>) -> Seq<char> {
    match found {
        Some(text) => text,
        None => Seq::empty(),
    }
}

/// The token that the payload `raw` describes: each text is that of the
/// member of its name, or empty where `raw` holds no such string; the
/// lifetime is that of `expires_in`, where `raw` holds such an integer.
pub open spec fn decoded(raw: serde_json::Value) -> OAuth2TokenView {
    OAuth2TokenView {
        token_type: or_empty(member_text(raw, "token_type"@)),
        access_token: or_empty(member_text(raw, "access_token"@)),
        scope: or_empty(member_text(raw, "scope"@)),
        expires_in: member_integer(raw, "expires_in"@),
    }
}

/// The set of the scopes that the scope text `scope` names.
pub open spec fn scope_set(scope: Seq<char>) -> Set<Seq<char>> {
    words(scope).to_set()
}

/// The scopes that a connection is expected to carry.
pub open spec fn default_required_scope_set() -> Set<Seq<char>> {
    set!["tweet.read"@, "users.read"@, "offline.access"@, "tweet.write"@]
}

/// The string member `key` of `raw`, if there is one.
fn read_text<'a>(raw: &'a serde_json::Value, key: &str) -> (found: Option<&'a str>)
    ensures
        found matches Some(text) ==> member_text(*raw, key@) == Some(text@),
        found is None ==> member_text(*raw, key@) is None,
{
    match member(raw, key) {
        Some(inner) => inner.as_str(),
        None => None,
    }
}

/// The integer member `key` of `raw`, if there is one.
fn read_integer(raw: &serde_json::Value, key: &str) -> (found: Option<i64>)
    ensures
        found == member_integer(*raw, key@),
{
    match member(raw, key) {
        Some(inner) => inner.as_i64(),
        None => None,
    }
}

impl OAuth2Token {
    /// The token with the given fields, an absent text read as empty.
    pub fn from_fields(
        token_type: Option<&str>,
        access_token: Option<&str>,
        scope: Option<&str>,
        expires_in: Option<i64>,
    ) -> (token: Self)
        ensures
            token@ == (OAuth2TokenView {
                token_type: text_or_empty(token_type),
                access_token: text_or_empty(access_token),
                scope: text_or_empty(scope),
                expires_in,
            }),
    {
        proof {
            reveal_strlit("");
            assert(""@ =~= Seq::<char>::empty());
        }
        OAuth2Token {
            token_type: token_type.unwrap_or("").to_owned(),
            access_token: access_token.unwrap_or("").to_owned(),
            scope: scope.unwrap_or("").to_owned(),
            expires_in,
        }
    }

    /// Reads a token from the payload `raw`, whatever `raw` holds: a text
    /// that is missing or no string is read as empty, a lifetime that is
    /// missing or no integer as unknown. This never fails.
    pub fn from_raw(raw: &serde_json::Value) -> (made: Result<Self, FetchError>)
        ensures
            made matches Ok(token) && token@ == decoded(*raw),
    {
        Ok(
            Self::from_fields(
                read_text(raw, "token_type"),
                read_text(raw, "access_token"),
                read_text(raw, "scope"),
                read_integer(raw, "expires_in"),
            ),
        )
    }

    /// The set of the scopes that this token grants.
    pub open spec fn granted(&self) -> Set<Seq<char>> {
        scope_set(self.scope@)
    }

    /// The scopes that this token grants: the words of `scope`, each once.
    pub fn scopes(&self) -> (granted: StringHashSet)
        ensures
            granted@ == self.granted(),
    {
        let parts = split_whitespace(self.scope.as_str());
        let mut granted = StringHashSet::new();
        let mut i: usize = 0;
        while i < parts.len()
            invariant
                i <= parts.len(),
                granted@ == parts.deep_view().take(i as int).to_set(),
            decreases parts.len() - i,
        {
            let part = parts[i].clone();
            proof {
                let done = parts.deep_view().take(i as int);
                assert(parts.deep_view().take(i + 1) =~= done.push(part@));
                done.lemma_push_to_set_commute(part@);
            }
            granted.insert(part);
            i += 1;
        }
        assert(parts.deep_view().take(i as int) =~= parts.deep_view());
        granted
    }
}

/// Asking for the scopes of a token does not change the answer: whatever
/// `scopes` returns for a token, first or later, is the same set.
pub proof fn law_scopes_idempotent(token: OAuth2Token, first: StringHashSet, second: StringHashSet)
    requires
        first@ == token.granted(),
        second@ == token.granted(),
    ensures
        first@ == second@,
{
}

/// The scopes of a token do not depend on how its scope text spaces them:
/// two tokens whose scope texts put whitespace, of any kind and length,
/// around the same names grant the same scopes, namely those names.
pub proof fn law_scopes_ignore_spacing(
    token: OAuth2Token,
    other: OAuth2Token,
    names: Seq<Seq<char>>,
    gaps: Seq<Seq<char>>,
    other_gaps: Seq<Seq<char>>,
)
    requires
        well_spaced(names, gaps),
        well_spaced(names, other_gaps),
        token.scope@ == spaced(names, gaps),
        other.scope@ == spaced(names, other_gaps),
    ensures
        token.granted() == other.granted(),
        token.granted() == names.to_set(),
{
    law_split_undoes_spacing(names, gaps);
    law_split_undoes_spacing(names, other_gaps);
}

/// A scope text that is empty or all whitespace grants nothing.
pub proof fn law_no_scopes_in_whitespace(scope: Seq<char>)
    requires
        all_whitespace(scope),
    ensures
        scope_set(scope) == Set::<Seq<char>>::empty(),
{
    lemma_words_skip_gap(scope, Seq::empty());
}

/// The scopes that a connection is expected to carry. Nothing here holds a
/// token to them.
pub fn default_required_x_oauth_scopes() -> (required: StringHashSet)
    ensures
        required@ == default_required_scope_set(),
{
    let mut required = StringHashSet::new();
    required.insert("tweet.read".to_owned());
    required.insert("users.read".to_owned());
    required.insert("offline.access".to_owned());
    required.insert("tweet.write".to_owned());
    required
}

} // verus!
