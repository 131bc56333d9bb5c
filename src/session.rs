//! The decisions of one run: whether to authorize, what to keep of a newly
//! granted token, and whether the configuration has to be written back.
use vstd::prelude::*;
use crate::settings::{Settings, SettingsView};

verus! {

/// What has to be done to obtain a client of the remote service.
#[derive(Debug, Clone, PartialEq, Eq)]
pub enum CredentialStep {
    /// A token is stored: connect with it; no authorization takes place.
    Reuse { consumer_key: String, access_token: String },
    /// No token is stored: authorize this consumer key interactively.
    Authorize { consumer_key: String },
}

/// The settings of a run, and whether they changed since they were read.
pub struct Session {
    pub settings: Settings,
    pub need_save: bool,
}

pub struct SessionView {
    pub settings: SettingsView,
    pub need_save: bool,
}

impl View for Session {
    type V = SessionView;

    open spec fn view(&self) -> SessionView {
        SessionView { settings: self.settings@, need_save: self.need_save }
    }
}

/// The session once the service has granted `token`. A token already held is
/// kept: a new one is taken only where none was stored.
pub open spec fn after_authorization(v: SessionView, token: Seq<char>) -> SessionView {
    match v.settings.access_token {
        Some(_) => v,
        None => SessionView {
            settings: SettingsView { access_token: Some(token), ..v.settings },
            need_save: true,
        },
    }
}

impl Session {
    /// A run that starts from settings read from the configuration file.
    pub fn loaded(settings: Settings) -> (r: Session)
        ensures
            r.settings == settings,
            !r.need_save,
    {
        Session { settings, need_save: false }
    }

    /// A first run: no configuration was read, the user gave a consumer key.
    /// The settings are new, so they have to be written.
    pub fn first_run(consumer_key: String) -> (r: Session)
        ensures
            r@.settings.consumer_key == consumer_key@,
            r@.settings.access_token is None,
            r@.settings.last_items is None,
            r@.settings.max_count is None,
            r.need_save,
    {
        Session { settings: Settings::fresh(consumer_key), need_save: true }
    }

    /// Reuses a stored token; only without one is authorization asked for.
    pub fn credential_step(&self) -> (r: CredentialStep)
        ensures
            match self@.settings.access_token {
                Some(t) => r matches CredentialStep::Reuse { consumer_key, access_token } && consumer_key@
                    == self@.settings.consumer_key && access_token@ == t,
                None => r matches CredentialStep::Authorize { consumer_key } && consumer_key@
                    == self@.settings.consumer_key,
            },
    {
        let consumer_key = self.settings.credentials.consumer_key.clone();
        match &self.settings.credentials.access_token {
            Some(t) => CredentialStep::Reuse { consumer_key, access_token: t.clone() },
            None => CredentialStep::Authorize { consumer_key },
        }
    }

    /// Records the token that the service granted.
    pub fn authorized(&mut self, token: String)
        ensures
            final(self)@ == after_authorization(old(self)@, token@),
    {
        if self.settings.credentials.access_token.is_none() {
            self.settings.credentials.access_token = Some(token);
            self.need_save = true;
        }
    }

    /// Whether the settings have to be handed to the configuration store
    /// before the run ends: they are new, or a token was granted.
    pub fn save_required(&self) -> (r: bool)
        ensures
            r == self@.need_save,
    {
        self.need_save
    }
}

/// After a successful authorization of a session that held no token, the
/// settings carry the new token, keep everything else, and the session asks
/// to be saved.
pub proof fn lemma_new_token_is_saved(v: SessionView, token: Seq<char>)
    requires
        v.settings.access_token is None,
    ensures
        after_authorization(v, token).settings.access_token == Some(token),
        after_authorization(v, token).settings.consumer_key == v.settings.consumer_key,
        after_authorization(v, token).settings.last_items == v.settings.last_items,
        after_authorization(v, token).settings.max_count == v.settings.max_count,
        after_authorization(v, token).need_save,
{
}

/// Authorization never discards a token that is already held.
pub proof fn lemma_token_kept(v: SessionView, token: Seq<char>)
    requires
        v.settings.access_token is Some,
    ensures
        after_authorization(v, token) == v,
{
}

} // verus!
