use vstd::prelude::*;

verus! {

/// `prefix` followed by `detail`, as a new string.
fn prefixed(prefix: &str, detail: &str) -> (r: String)
    ensures
        r@ == prefix@ + detail@,
{
    let mut s = String::from_str(prefix);
    s.append(detail);
    s
}

/// Error representing an unrecoverable error that halts the application.
#[derive(Debug)]
pub struct UnrecoverableError(pub String);

impl UnrecoverableError {
    pub open spec fn spec_message(&self) -> Seq<char> {
        "UnrecoverableError: "@ + self.0@
    }

    /// Human-readable form of the error.
    pub fn to_string(&self) -> (r: String)
        ensures
            r@ == self.spec_message(),
    {
        prefixed("UnrecoverableError: ", self.0.as_str())
    }

    /// Wraps a configuration failure, keeping its readable form.
    pub fn from_config(e: ConfigError) -> (r: Self)
        ensures
            r.0@ == e.spec_message(),
    {
        UnrecoverableError(e.to_string())
    }
}

/// Errors while managing configuration.
pub struct ConfigError(pub String);

impl ConfigError {
    pub open spec fn spec_message(&self) -> Seq<char> {
        "ConfigError: "@ + self.0@
    }

    /// Human-readable form of the error.
    pub fn to_string(&self) -> (r: String)
        ensures
            r@ == self.spec_message(),
    {
        prefixed("ConfigError: ", self.0.as_str())
    }
}

/// Errors while managing tokens.
#[derive(Debug)]
pub enum TokenError {
    NoTokensFile,
    RefreshTokenExpired,
    FileIO(String),
    Request(String),
}

impl TokenError {
    pub open spec fn spec_message(&self) -> Seq<char> {
        match self {
            TokenError::NoTokensFile => "TokenError::NoTokensFile"@,
            TokenError::RefreshTokenExpired => "TokenError::RefreshTokenExpired"@,
            TokenError::FileIO(e) => "TokenError::File: "@ + e@,
            TokenError::Request(e) => "TokenError::Request: "@ + e@,
        }
    }

    /// Human-readable form of the error.
    pub fn to_string(&self) -> (r: String)
        ensures
            r@ == self.spec_message(),
    {
        match self {
            TokenError::NoTokensFile => String::from_str("TokenError::NoTokensFile"),
            TokenError::RefreshTokenExpired => String::from_str("TokenError::RefreshTokenExpired"),
            TokenError::FileIO(e) => prefixed("TokenError::File: ", e.as_str()),
            TokenError::Request(e) => prefixed("TokenError::Request: ", e.as_str()),
        }
    }
}

/// Errors of one synchronisation pass.
#[derive(Debug)]
pub enum CloudSyncError {
    /// The credentials are gone or were rejected: an operator must authorize
    /// the application again.
    TokenExpiredWarning,
    TokenError(String),
    OneDrive(String),
    AWS(String),
}

impl CloudSyncError {
    pub open spec fn spec_message(&self) -> Seq<char> {
        match self {
            CloudSyncError::TokenExpiredWarning => "CloudSyncError::TokenExpiredWarning"@,
            CloudSyncError::TokenError(e) => "CloudSyncError::TokenError: "@ + e@,
            CloudSyncError::OneDrive(e) => "CloudSyncError::OneDrive: "@ + e@,
            CloudSyncError::AWS(e) => "CloudSyncError::AWS: "@ + e@,
        }
    }

    /// Human-readable form of the error.
    pub fn to_string(&self) -> (r: String)
        ensures
            r@ == self.spec_message(),
    {
        match self {
            CloudSyncError::TokenExpiredWarning => String::from_str(
                "CloudSyncError::TokenExpiredWarning",
            ),
            CloudSyncError::TokenError(e) => prefixed("CloudSyncError::TokenError: ", e.as_str()),
            CloudSyncError::OneDrive(e) => prefixed("CloudSyncError::OneDrive: ", e.as_str()),
            CloudSyncError::AWS(e) => prefixed("CloudSyncError::AWS: ", e.as_str()),
        }
    }

    /// The error asks an operator to act (authorize again) rather than
    /// being an ordinary failure of the pass.
    pub fn is_token_warning(&self) -> (r: bool)
        ensures
            r <==> self is TokenExpiredWarning,
    {
        match self {
            CloudSyncError::TokenExpiredWarning => true,
            _ => false,
        }
    }

    /// Failure of the drive side, keeping its readable form.
    pub fn from_one_drive(e: OneDriveError) -> (r: Self)
        ensures
            r matches CloudSyncError::OneDrive(m) && m@ == e.spec_message(),
    {
        CloudSyncError::OneDrive(e.to_string())
    }

    /// Failure of the bucket side, keeping its readable form.
    pub fn from_aws(e: AWSError) -> (r: Self)
        ensures
            r matches CloudSyncError::AWS(m) && m@ == e.spec_message(),
    {
        CloudSyncError::AWS(e.to_string())
    }
}

/// How a credential failure shows in a pass: a missing or rejected
/// credential set becomes the operator warning, anything else keeps its
/// detail.
pub open spec fn token_error_in_pass(e: TokenError) -> CloudSyncError {
    match e {
        TokenError::NoTokensFile => CloudSyncError::TokenExpiredWarning,
        TokenError::RefreshTokenExpired => CloudSyncError::TokenExpiredWarning,
        TokenError::FileIO(err) => CloudSyncError::TokenError(err),
        TokenError::Request(err) => CloudSyncError::TokenError(err),
    }
}

impl From<TokenError> for CloudSyncError {
    fn from(e: TokenError) -> (r: Self) {
        match e {
            TokenError::NoTokensFile => CloudSyncError::TokenExpiredWarning,
            TokenError::RefreshTokenExpired => CloudSyncError::TokenExpiredWarning,
            TokenError::FileIO(err) => CloudSyncError::TokenError(err),
            TokenError::Request(err) => CloudSyncError::TokenError(err),
        }
    }
}

impl vstd::std_specs::convert::FromSpecImpl<TokenError> for CloudSyncError {
    open spec fn obeys_from_spec() -> bool {
        true
    }

    open spec fn from_spec(v: TokenError) -> Self {
        token_error_in_pass(v)
    }
}

/// Errors while talking to the drive.
pub struct OneDriveError(pub String);

impl OneDriveError {
    pub open spec fn spec_message(&self) -> Seq<char> {
        "OneDriveError: "@ + self.0@
    }

    /// Human-readable form of the error.
    pub fn to_string(&self) -> (r: String)
        ensures
            r@ == self.spec_message(),
    {
        prefixed("OneDriveError: ", self.0.as_str())
    }
}

/// Errors while talking to the bucket.
pub struct AWSError(pub String);

impl AWSError {
    pub open spec fn spec_message(&self) -> Seq<char> {
        "AWSError: "@ + self.0@
    }

    /// Human-readable form of the error.
    pub fn to_string(&self) -> (r: String)
        ensures
            r@ == self.spec_message(),
    {
        prefixed("AWSError: ", self.0.as_str())
    }

    /// An error with the given detail.
    pub fn from_str(detail: &str) -> (r: Self)
        ensures
            r.0@ == detail@,
    {
        AWSError(String::from_str(detail))
    }
}

/// Errors while sending mail.
pub enum MailError {
    InvalidEmailAddress(String),
    Document(String),
    SendgridError(String),
}

impl MailError {
    pub open spec fn spec_message(&self) -> Seq<char> {
        match self {
            MailError::InvalidEmailAddress(e) => "MailError::InvalidEmailAddress: "@ + e@,
            MailError::Document(e) => "MailError::Document: "@ + e@,
            MailError::SendgridError(e) => "MailError::SendgridError: "@ + e@,
        }
    }

    /// Human-readable form of the error.
    pub fn to_string(&self) -> (r: String)
        ensures
            r@ == self.spec_message(),
    {
        match self {
            MailError::InvalidEmailAddress(e) => prefixed(
                "MailError::InvalidEmailAddress: ",
                e.as_str(),
            ),
            MailError::Document(e) => prefixed("MailError::Document: ", e.as_str()),
            MailError::SendgridError(e) => prefixed("MailError::SendgridError: ", e.as_str()),
        }
    }
}

} // verus!
