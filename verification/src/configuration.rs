//! The settings of the service and the environments it runs in.

use vstd::prelude::*;
use vstd::string::StringExecFns;
use crate::domain::{email_rejection, SubscriberEmail};
use crate::email_client::EmailClient;
use crate::email_grammar::valid_email;
use crate::text::{concat, decimal, decimal_text};

verus! {

/// How to reach the database.
pub struct DatabaseSettings {
    pub username: String,
    pub password: String,
    pub port: u16,
    pub host: String,
    pub database_name: String,
}

/// Where the service listens and how it signs.
pub struct ApplicationSettings {
    pub port: u16,
    pub host: String,
    pub base_url: String,
    pub hmac_secret: String,
}

/// How to reach the e-mail API.
pub struct EmailClientSettings {
    pub base_url: String,
    pub sender_email: String,
    pub authorization_token: String,
    pub timeout_milliseconds: u64,
}

/// The settings of the service.
pub struct Settings {
    pub database: DatabaseSettings,
    pub application: ApplicationSettings,
    pub email_client: EmailClientSettings,
    pub redis_uri: String,
}

/// The address that the service listens on: host, colon, port.
pub open spec fn listen_address(settings: ApplicationSettings) -> Seq<char> {
    settings.host@ + ":"@ + decimal(settings.port as nat)
}

/// The possible runtime environments of the service.
#[derive(Clone, Copy, Debug, PartialEq, Eq, Structural)]
pub enum Environment {
    Local,
    Production,
}

/// The address of the database server, with the credentials to log in.
pub open spec fn server_uri(settings: DatabaseSettings) -> Seq<char> {
    "postgres://"@ + settings.username@ + ":"@ + settings.password@ + "@"@ + settings.host@ + ":"@
        + decimal(settings.port as nat)
}

/// The address of the database itself.
pub open spec fn database_uri(settings: DatabaseSettings) -> Seq<char> {
    server_uri(settings) + "/"@ + settings.database_name@
}

/// The name of an environment.
pub open spec fn environment_name(environment: Environment) -> Seq<char> {
    match environment {
        Environment::Local => "local"@,
        Environment::Production => "production"@,
    }
}

/// The lower-case form of a text.
pub uninterp spec fn lowercase(text: Seq<char>) -> Seq<char>;

/// Calls `str::to_lowercase`, whose result is a function of the text.
#[verifier::external_body]
fn to_lowercase(text: &str) -> (lower: String)
    ensures
        lower@ == lowercase(text@),
{
    text.to_lowercase()
}

/// The message for a text that names no environment.
pub open spec fn unsupported_environment(name: Seq<char>) -> Seq<char> {
    name + " is not a supported environment. Use either `local` or `production`."@
}

/// The environment that a lower-case name stands for.
pub open spec fn environment_named(lower: Seq<char>) -> Result<Environment, Seq<char>> {
    if lower == "local"@ {
        Ok(Environment::Local)
    } else if lower == "production"@ {
        Ok(Environment::Production)
    } else {
        Err(unsupported_environment(lower))
    }
}

impl DatabaseSettings {
    /// The connection string without the database's name.
    pub fn connection_string_without_db(&self) -> (uri: String)
        ensures
            uri@ == server_uri(*self),
    {
        let mut uri = String::from_str("postgres://");
        uri.append(self.username.as_str());
        uri.append(":");
        uri.append(self.password.as_str());
        uri.append("@");
        uri.append(self.host.as_str());
        uri.append(":");
        let port = decimal_text(self.port as u64);
        uri.append(port.as_str());
        uri
    }

    /// The connection string of the database.
    pub fn connection_string(&self) -> (uri: String)
        ensures
            uri@ == database_uri(*self),
    {
        let mut uri = self.connection_string_without_db();
        uri.append("/");
        uri.append(self.database_name.as_str());
        uri
    }
}

impl ApplicationSettings {
    /// The address that the service listens on.
    pub fn address(&self) -> (address: String)
        ensures
            address@ == listen_address(*self),
    {
        let mut address = concat(self.host.as_str(), ":");
        let port = decimal_text(self.port as u64);
        address.append(port.as_str());
        address
    }
}

impl EmailClientSettings {
    /// The sender of the service's e-mail, where the configured address
    /// is well formed.
    pub fn sender(&self) -> (sender: Result<SubscriberEmail, String>)
        ensures
            valid_email(self.sender_email@) ==> sender is Ok && sender->Ok_0@ == self.sender_email@,
            !valid_email(self.sender_email@) ==> sender is Err && sender->Err_0@ == email_rejection(
                self.sender_email@,
            ),
    {
        SubscriberEmail::parse(self.sender_email.clone())
    }

    /// The client for the configured API, where the sender's address is
    /// well formed.
    pub fn client(self) -> (client: Result<EmailClient, String>)
        ensures
            valid_email(self.sender_email@) ==> client is Ok && client->Ok_0.sender@
                == self.sender_email@ && client->Ok_0.base_url@ == self.base_url@
                && client->Ok_0.authorization_token@ == self.authorization_token@,
            !valid_email(self.sender_email@) ==> client is Err && client->Err_0@ == email_rejection(
                self.sender_email@,
            ),
    {
        match self.sender() {
            Ok(sender) => Ok(EmailClient::new(self.base_url, sender, self.authorization_token)),
            Err(message) => Err(message),
        }
    }
}

impl Environment {
    /// The name of the environment, which is also the stem of its
    /// settings file.
    pub fn as_str(&self) -> (name: &'static str)
        ensures
            name@ == environment_name(*self),
    {
        match self {
            Environment::Local => "local",
            Environment::Production => "production",
        }
    }

    /// The environment that a lower-case name stands for; the error names
    /// the rejected text.
    pub fn from_lowercase(lower: &str) -> (parsed: Result<Environment, String>)
        ensures
            match environment_named(lower@) {
                Ok(environment) => parsed == Ok::<Environment, String>(environment),
                Err(message) => parsed is Err && parsed->Err_0@ == message,
            },
    {
        let local = String::from_str("local");
        let production = String::from_str("production");
        let given = lower.to_owned();
        if given == local {
            Ok(Environment::Local)
        } else if given == production {
            Ok(Environment::Production)
        } else {
            Err(concat(lower, " is not a supported environment. Use either `local` or `production`."))
        }
    }

    /// Reads the name of an environment, in any mix of upper and lower
    /// case.
    pub fn try_from(s: String) -> (parsed: Result<Environment, String>)
        ensures
            match environment_named(lowercase(s@)) {
                Ok(environment) => parsed == Ok::<Environment, String>(environment),
                Err(message) => parsed is Err && parsed->Err_0@ == message,
            },
    {
        let lower = to_lowercase(s.as_str());
        Environment::from_lowercase(lower.as_str())
    }

    /// The name of the settings file of the environment.
    pub fn settings_file(&self) -> (name: String)
        ensures
            name@ == environment_name(*self) + ".yaml"@,
    {
        concat(self.as_str(), ".yaml")
    }
}

} // verus!
