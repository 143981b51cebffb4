//! What the reporter is set up with: the server to ask, the channel to
//! rename, how long to rest between two polls, and the texts to show.

use crate::format::{Templates, TemplatesView};
use vstd::prelude::*;

verus! {

/// The settings of one reporter. They are made once and never change.
#[derive(Debug, PartialEq, Eq)]
pub struct Settings {
    credential: String,
    channel_id: u64,
    host: String,
    port: u16,
    interval_secs: u64,
    templates: Templates,
}

/// `Settings` with their texts as sequences of characters.
pub struct SettingsView {
    /// What the messaging platform knows the reporter by.
    pub credential: Seq<char>,
    /// The channel whose name shows the status.
    pub channel_id: u64,
    /// Name or address of the game server.
    pub host: Seq<char>,
    /// Port of the game server.
    pub port: u16,
    /// Seconds of rest between a renaming and the next poll.
    pub interval_secs: u64,
    /// The texts that names are made from.
    pub templates: TemplatesView,
}

impl SettingsView {
    /// What is asked of settings: a credential, and a rest of at least one
    /// second.
    pub open spec fn valid(self) -> bool {
        &&& self.credential.len() > 0
        &&& self.interval_secs > 0
    }
}

/// Why settings were turned down.
#[derive(Debug, Clone, Copy, PartialEq, Eq, Structural)]
pub enum SettingsError {
    /// The credential is empty.
    EmptyCredential,
    /// The rest between polls is zero seconds.
    ZeroInterval,
}

impl View for Settings {
    type V = SettingsView;

    closed spec fn view(&self) -> SettingsView {
        SettingsView {
            credential: self.credential@,
            channel_id: self.channel_id,
            host: self.host@,
            port: self.port,
            interval_secs: self.interval_secs,
            templates: self.templates@,
        }
    }
}

impl Clone for Settings {
    fn clone(&self) -> (copy: Settings)
        ensures
            copy@ == self@,
    {
        proof {
            use_type_invariant(self);
        }
        Settings {
            credential: self.credential.clone(),
            channel_id: self.channel_id,
            host: self.host.clone(),
            port: self.port,
            interval_secs: self.interval_secs,
            templates: Templates {
                online: self.templates.online.clone(),
                offline: self.templates.offline.clone(),
            },
        }
    }
}

impl Settings {
    #[verifier::type_invariant]
    closed spec fn holds(&self) -> bool {
        self@.valid()
    }

    /// Makes settings of the values given, or says what is wrong with them:
    /// an empty credential first, else a rest of zero seconds.
    pub fn new(
        credential: String,
        channel_id: u64,
        host: String,
        port: u16,
        interval_secs: u64,
        templates: Templates,
    ) -> (made: Result<Settings, SettingsError>)
        ensures
            made is Ok <==> credential@.len() > 0 && interval_secs > 0,
            match made {
                Ok(settings) => {
                    &&& settings@ == (SettingsView {
                        credential: credential@,
                        channel_id,
                        host: host@,
                        port,
                        interval_secs,
                        templates: templates@,
                    })
                    &&& settings@.valid()
                },
                Err(SettingsError::EmptyCredential) => credential@.len() == 0,
                Err(SettingsError::ZeroInterval) => credential@.len() > 0 && interval_secs == 0,
            },
    {
        if credential.as_str().is_empty() {
            Err(SettingsError::EmptyCredential)
        } else if interval_secs == 0 {
            Err(SettingsError::ZeroInterval)
        } else {
            Ok(Settings { credential, channel_id, host, port, interval_secs, templates })
        }
    }

    /// What the messaging platform knows the reporter by; never empty.
    pub fn credential(&self) -> (credential: &str)
        ensures
            credential@ == self@.credential,
            credential@.len() > 0,
    {
        proof {
            use_type_invariant(self);
        }
        self.credential.as_str()
    }

    /// The channel whose name shows the status.
    pub fn channel_id(&self) -> (channel_id: u64)
        ensures
            channel_id == self@.channel_id,
    {
        self.channel_id
    }

    /// Name or address of the game server.
    pub fn host(&self) -> (host: &str)
        ensures
            host@ == self@.host,
    {
        self.host.as_str()
    }

    /// Port of the game server.
    pub fn port(&self) -> (port: u16)
        ensures
            port == self@.port,
    {
        self.port
    }

    /// Seconds of rest between a renaming and the next poll; never zero.
    pub fn interval_secs(&self) -> (secs: u64)
        ensures
            secs == self@.interval_secs,
            secs > 0,
    {
        proof {
            use_type_invariant(self);
        }
        self.interval_secs
    }

    /// The texts that names are made from.
    pub fn templates(&self) -> (templates: &Templates)
        ensures
            templates@ == self@.templates,
    {
        &self.templates
    }
}

} // verus!
