//! The values that a deployment is configured with. They are read once at
//! startup and handed to whatever needs them; nothing changes them later.

use vstd::prelude::*;

verus! {

/// The configured values.
///
/// The client secret is held here and nowhere else. The type has no
/// `Debug`, so that no log line can show the secret by accident.
#[derive(Clone, PartialEq, Eq)]
pub struct Config {
    client_id: String,
    client_secret: String,
    version: Option<String>,
}

/// The configured values as contracts see them.
pub struct ConfigView {
    pub client_id: Seq<char>,
    pub client_secret: Seq<char>,
    pub version: Option<Seq<char>>,
}

impl View for Config {
    type V = ConfigView;

    closed spec fn view(&self) -> ConfigView {
        ConfigView {
            client_id: self.client_id@,
            client_secret: self.client_secret@,
            version: match self.version {
                Some(version) => Some(version@),
                None => None,
            },
        }
    }
}

impl Config {
    /// The configuration of a deployment that registered with the identity
    /// provider under `client_id` and `client_secret`. No version string
    /// is set.
    pub fn new(client_id: &str, client_secret: &str) -> (r: Config)
        ensures
            r@ == (ConfigView {
                client_id: client_id@,
                client_secret: client_secret@,
                version: None,
            }),
    {
        Config {
            client_id: client_id.to_owned(),
            client_secret: client_secret.to_owned(),
            version: None,
        }
    }

    /// The configuration with `version` as its version string.
    pub fn with_version(self, version: &str) -> (r: Config)
        ensures
            r@ == (ConfigView { version: Some(version@), ..self@ }),
    {
        let Config { client_id, client_secret, version: _ } = self;
        Config { client_id, client_secret, version: Some(version.to_owned()) }
    }

    /// The identifier under which the deployment is known to the provider.
    pub fn client_id(&self) -> (r: &str)
        ensures
            r@ == self@.client_id,
    {
        self.client_id.as_str()
    }

    /// The secret that proves the deployment's identity to the provider.
    pub fn client_secret(&self) -> (r: &str)
        ensures
            r@ == self@.client_secret,
    {
        self.client_secret.as_str()
    }

    /// The version string, where one is configured.
    pub fn version(&self) -> (r: Option<&str>)
        ensures
            match r {
                Some(version) => self@.version == Some(version@),
                None => self@.version is None,
            },
    {
        match &self.version {
            Some(version) => Some(version.as_str()),
            None => None,
        }
    }
}

} // verus!
