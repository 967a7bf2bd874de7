use crate::errors::{token_error_in_pass, CloudSyncError, TokenError};
use crate::initialization::OneDrive;
use vstd::prelude::*;

verus! {

/// Endpoint that trades a grant code or a refresh token for credentials.
pub const TOKEN_URL: &'static str = "https://login.microsoftonline.com/consumers/oauth2/v2.0/token";

/// Endpoint where an operator grants the application access.
pub const AUTHORIZE_URL: &'static str =
    "https://login.microsoftonline.com/consumers/oauth2/v2.0/authorize";

/// Age in seconds past which an access token is refreshed, whatever
/// lifetime the authority reported.
pub const MAX_TOKEN_AGE_SECS: i64 = 1800;

/// Credentials as the authority hands them out.
pub struct TokensImport {
    pub token_type: String,
    pub scope: String,
    pub expires_in: i64,
    pub ext_expires_in: i64,
    pub access_token: String,
    pub refresh_token: String,
}

/// The credential set in use. Times are seconds since the Unix epoch.
pub struct Tokens {
    pub token_type: String,
    pub scope: String,
    pub expires_in: i64,
    pub ext_expires_in: i64,
    pub access_token: String,
    pub refresh_token: String,
    pub granted_at: i64,
    pub refreshed_at: i64,
}

/// Name of the text `url` crate's `Url::parse_with_params` makes of a base
/// address and query pairs (`None` when the base does not parse).
pub uninterp spec fn url_with_query(base: Seq<char>, pairs: Seq<(Seq<char>, Seq<char>)>) -> Option<
    Seq<char>,
>;

/// Form pairs as text.
pub open spec fn pairs_view(v: Seq<(String, String)>) -> Seq<(Seq<char>, Seq<char>)> {
    Seq::new(v.len(), |i: int| (v[i].0@, v[i].1@))
}

/// A credential set refreshed at `refreshed_at` with a reported lifetime of
/// `expires_in` seconds is stale at `now` once its age exceeds that
/// lifetime or `MAX_TOKEN_AGE_SECS`, whichever is smaller.
pub open spec fn expired_at(refreshed_at: int, expires_in: int, now: int) -> bool {
    now - refreshed_at > expires_in || now - refreshed_at > MAX_TOKEN_AGE_SECS
}

/// The pairs of the request that trades a grant code for credentials.
pub open spec fn code_form_spec(config: OneDrive, code: Seq<char>) -> Seq<(Seq<char>, Seq<char>)> {
    seq![
        ("client_id"@, config.client_id@),
        ("scope"@, config.scope@),
        ("code"@, code),
        ("redirect_uri"@, config.redirect_uri@),
        ("grant_type"@, "authorization_code"@),
        ("client_secret"@, config.client_secret@),
    ]
}

/// The pairs of the request that trades a refresh token for credentials.
pub open spec fn refresh_form_spec(config: OneDrive, refresh_token: Seq<char>) -> Seq<
    (Seq<char>, Seq<char>),
> {
    seq![
        ("client_id"@, config.client_id@),
        ("scope"@, config.scope@),
        ("refresh_token"@, refresh_token),
        ("grant_type"@, "refresh_token"@),
        ("client_secret"@, config.client_secret@),
    ]
}

/// The query pairs of the address where an operator grants access.
pub open spec fn access_request_spec(config: OneDrive) -> Seq<(Seq<char>, Seq<char>)> {
    seq![
        ("client_id"@, config.client_id@),
        ("response_type"@, "code"@),
        ("redirect_uri"@, config.redirect_uri@),
        ("response_mode"@, "query"@),
        ("scope"@, config.scope@),
    ]
}

/// Relies on url::Url::parse_with_params (re-exported by reqwest): parses
/// `base` and appends the pairs, form-urlencoded, as its query; the text of
/// the address, or `None` when `base` does not parse.
#[verifier::external_body]
fn url_with_params(base: &str, pairs: &Vec<(String, String)>) -> (r: Option<String>)
    ensures
        match r {
            Some(u) => url_with_query(base@, pairs_view(pairs@)) == Some(u@),
            None => url_with_query(base@, pairs_view(pairs@)) is None,
        },
{
    reqwest::Url::parse_with_params(base, pairs.iter()).ok().map(|u| u.to_string())
}

/// A pair of owned strings from two slices.
fn pair(k: &str, v: &str) -> (r: (String, String))
    ensures
        r.0@ == k@,
        r.1@ == v@,
{
    (String::from_str(k), String::from_str(v))
}

/// The address an operator visits to grant the application access, with
/// the client, redirect and scope of `config` in its query.
pub fn build_access_request_url(config: &OneDrive) -> (r: Option<String>)
    ensures
        match r {
            Some(u) => url_with_query(AUTHORIZE_URL@, access_request_spec(*config)) == Some(u@),
            None => url_with_query(AUTHORIZE_URL@, access_request_spec(*config)) is None,
        },
{
    let mut params: Vec<(String, String)> = Vec::new();
    params.push(pair("client_id", config.client_id.as_str()));
    params.push(pair("response_type", "code"));
    params.push(pair("redirect_uri", config.redirect_uri.as_str()));
    params.push(pair("response_mode", "query"));
    params.push(pair("scope", config.scope.as_str()));
    assert(pairs_view(params@) =~= access_request_spec(*config));
    url_with_params(AUTHORIZE_URL, &params)
}

/// What a failed refresh means for the search of a valid token: a rejected
/// refresh token (`None`) sends the search back to waiting for a new
/// authorization; any other failure ends it.
pub fn token_search_failure(e: TokenError) -> (r: Option<CloudSyncError>)
    ensures
        e is RefreshTokenExpired ==> r is None,
        !(e is RefreshTokenExpired) ==> r == Some(token_error_in_pass(e)),
{
    match e {
        TokenError::RefreshTokenExpired => None,
        other => Some(CloudSyncError::from(other)),
    }
}

impl Tokens {
    /// A fresh credential set from what the authority handed out for a
    /// grant code, granted and refreshed at `now`.
    pub fn from_import(import: TokensImport, now: i64) -> (r: Self)
        ensures
            r.token_type@ == import.token_type@,
            r.scope@ == import.scope@,
            r.expires_in == import.expires_in,
            r.ext_expires_in == import.ext_expires_in,
            r.access_token@ == import.access_token@,
            r.refresh_token@ == import.refresh_token@,
            r.granted_at == now,
            r.refreshed_at == now,
    {
        Tokens {
            token_type: import.token_type,
            scope: import.scope,
            expires_in: import.expires_in,
            ext_expires_in: import.ext_expires_in,
            access_token: import.access_token,
            refresh_token: import.refresh_token,
            granted_at: now,
            refreshed_at: now,
        }
    }

    /// The form that trades a grant code for credentials.
    pub fn code_request_form(config: &OneDrive, code: &str) -> (r: Vec<(String, String)>)
        ensures
            pairs_view(r@) == code_form_spec(*config, code@),
    {
        let mut body: Vec<(String, String)> = Vec::new();
        body.push(pair("client_id", config.client_id.as_str()));
        body.push(pair("scope", config.scope.as_str()));
        body.push(pair("code", code));
        body.push(pair("redirect_uri", config.redirect_uri.as_str()));
        body.push(pair("grant_type", "authorization_code"));
        body.push(pair("client_secret", config.client_secret.as_str()));
        assert(pairs_view(body@) =~= code_form_spec(*config, code@));
        body
    }

    /// The form that trades this set's refresh token for new credentials.
    pub fn refresh_request_form(&self, config: &OneDrive) -> (r: Vec<(String, String)>)
        ensures
            pairs_view(r@) == refresh_form_spec(*config, self.refresh_token@),
    {
        let mut body: Vec<(String, String)> = Vec::new();
        body.push(pair("client_id", config.client_id.as_str()));
        body.push(pair("scope", config.scope.as_str()));
        body.push(pair("refresh_token", self.refresh_token.as_str()));
        body.push(pair("grant_type", "refresh_token"));
        body.push(pair("client_secret", config.client_secret.as_str()));
        assert(pairs_view(body@) =~= refresh_form_spec(*config, self.refresh_token@));
        body
    }

    /// The access token.
    pub fn get_access_token(&self) -> (r: String)
        ensures
            r@ == self.access_token@,
    {
        self.access_token.clone()
    }

    /// The access token is due for a refresh at time `now`: its age since the
    /// last refresh (not since the grant) exceeds the reported lifetime or
    /// `MAX_TOKEN_AGE_SECS`.
    pub fn is_expired(&self, now: i64) -> (r: bool)
        ensures
            r == expired_at(self.refreshed_at as int, self.expires_in as int, now as int),
    {
        let age = now as i128 - self.refreshed_at as i128;
        age > self.expires_in as i128 || age > MAX_TOKEN_AGE_SECS as i128
    }

    /// Replaces every rotatable field with what the authority handed out on a
    /// refresh, and marks the set refreshed at `now`. The grant time stays.
    pub fn apply_refresh(&mut self, import: TokensImport, now: i64)
        ensures
            final(self).token_type@ == import.token_type@,
            final(self).scope@ == import.scope@,
            final(self).expires_in == import.expires_in,
            final(self).ext_expires_in == import.ext_expires_in,
            final(self).access_token@ == import.access_token@,
            final(self).refresh_token@ == import.refresh_token@,
            final(self).granted_at == old(self).granted_at,
            final(self).refreshed_at == now,
    {
        self.token_type = import.token_type;
        self.scope = import.scope;
        self.expires_in = import.expires_in;
        self.ext_expires_in = import.ext_expires_in;
        self.access_token = import.access_token;
        self.refresh_token = import.refresh_token;
        self.refreshed_at = now;
    }

    /// Takes in the authority's answer to a refresh at `now`. A refusal
    /// (`success` false) means the refresh token itself is no longer valid:
    /// the set is left as it was and `RefreshTokenExpired` tells the caller to
    /// drop the stored set and wait for a new authorization. An accepted
    /// answer carrying credentials is applied; one without them is a file
    /// format error.
    pub fn apply_refresh_response(
        &mut self,
        success: bool,
        import: Option<TokensImport>,
        now: i64,
    ) -> (r: Result<(), TokenError>)
        ensures
            !success ==> (r matches Err(TokenError::RefreshTokenExpired) && *final(self) == *old(
                self,
            )),
            success && import is None ==> (r matches Err(TokenError::FileIO(m)) && m@
                == "refresh answer without credentials"@ && *final(self) == *old(self)),
            success && import is Some ==> {
                let i = import.unwrap();
                &&& r is Ok
                &&& final(self).token_type@ == i.token_type@
                &&& final(self).scope@ == i.scope@
                &&& final(self).expires_in == i.expires_in
                &&& final(self).ext_expires_in == i.ext_expires_in
                &&& final(self).access_token@ == i.access_token@
                &&& final(self).refresh_token@ == i.refresh_token@
                &&& final(self).granted_at == old(self).granted_at
                &&& final(self).refreshed_at == now
            },
    {
        if !success {
            return Err(TokenError::RefreshTokenExpired);
        }
        match import {
            Some(i) => {
                self.apply_refresh(i, now);
                Ok(())
            },
            None => Err(TokenError::FileIO(String::from_str("refresh answer without credentials"))),
        }
    }
}

/// Seconds between two looks for a credential store that is not there yet.
pub const TOKEN_POLL_SECS: u64 = 60;

/// What loading the credential store does next.
#[derive(PartialEq, Eq, Structural, Clone, Copy, Debug)]
pub enum StoreWait {
    /// The store is there: read it.
    Read,
    /// The store is missing (a human has not authorized yet): sleep this
    /// long, first warning the operator if `warn`.
    Sleep { secs: u64, warn: bool },
}

/// One step of loading the credential store: read it when `present`, else
/// wait `TOKEN_POLL_SECS` and look again, warning only the first time.
/// Returns the step and whether the warning has now been given.
pub fn token_store_step(present: bool, warned: bool) -> (r: (StoreWait, bool))
    ensures
        present ==> r.0 == StoreWait::Read && r.1 == warned,
        !present ==> r.0 == (StoreWait::Sleep { secs: TOKEN_POLL_SECS, warn: !warned }) && r.1,
{
    if present {
        (StoreWait::Read, warned)
    } else {
        (StoreWait::Sleep { secs: TOKEN_POLL_SECS, warn: !warned }, true)
    }
}

} // verus!
