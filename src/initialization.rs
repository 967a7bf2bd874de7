use vstd::prelude::*;

verus! {

/// Settings of the drive side and of the authorization exchange.
#[derive(Clone)]
pub struct OneDrive {
    pub redirect_uri: String,
    pub client_id: String,
    pub client_secret: String,
    pub scope: String,
    pub tokens_path: String,
    pub delta_link_path: String,
}

/// Settings of the bucket side.
#[derive(Clone)]
pub struct AWS {
    pub access_key_id: String,
    pub secret_access_key: String,
    pub region: String,
    pub bucket: String,
}

/// Settings of the notification mailer.
pub struct MailParameters {
    pub smtp_user: String,
    pub smtp_password: String,
    pub smtp_endpoint: String,
    pub from: String,
    pub to: String,
}

/// Settings of the authorization web listener.
pub struct WebServerParameters {
    pub bind_address: String,
    pub bind_port: u16,
    pub tls_private_key: String,
    pub tls_chain_cert: String,
}

/// Schedule and log settings.
#[derive(Clone)]
pub struct General {
    /// Local time of day of each pass, as `HH:MM:SS`.
    pub sync_time: String,
    pub log_path: String,
}

/// The whole configuration.
pub struct Config {
    pub onedrive: OneDrive,
    pub aws: AWS,
    pub mail: MailParameters,
    pub web_server: WebServerParameters,
    pub general: General,
}

} // verus!
