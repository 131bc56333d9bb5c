use vstd::prelude::*;

verus! {

/// How many recent unread items are requested when the settings name no count.
pub const DEFAULT_LAST_ITEMS: usize = 250;

/// How many items are sampled and shown when the settings name no count.
pub const DEFAULT_MAX_COUNT: usize = 5;

/// What identifies the application to the remote service, and the token that
/// the user granted it, once there is one.
#[derive(Debug, Clone, PartialEq, Eq)]
pub struct Credentials {
    pub consumer_key: String,
    pub access_token: Option<String>,
}

/// The persisted configuration of one user.
#[derive(Debug, Clone, PartialEq, Eq)]
pub struct Settings {
    pub credentials: Credentials,
    pub last_items: Option<usize>,
    pub max_count: Option<usize>,
}

/// The mathematical value of `Settings`: its strings as character sequences.
pub struct SettingsView {
    pub consumer_key: Seq<char>,
    pub access_token: Option<Seq<char>>,
    pub last_items: Option<usize>,
    pub max_count: Option<usize>,
}

pub open spec fn opt_string_view(o: Option<String>) -> Option<Seq<char>> {
    match o {
        Some(s) => Some(s@),
        None => None,
    }
}

pub open spec fn or_default(v: Option<usize>, d: usize) -> usize {
    match v {
        Some(x) => x,
        None => d,
    }
}

/// A count is positive where it is given.
pub open spec fn count_ok(v: Option<usize>) -> bool {
    match v {
        Some(n) => n > 0,
        None => true,
    }
}

/// Settings that a run can use: the counts they give are positive.
pub open spec fn valid(v: SettingsView) -> bool {
    count_ok(v.last_items) && count_ok(v.max_count)
}

impl View for Settings {
    type V = SettingsView;

    open spec fn view(&self) -> SettingsView {
        SettingsView {
            consumer_key: self.credentials.consumer_key@,
            access_token: opt_string_view(self.credentials.access_token),
            last_items: self.last_items,
            max_count: self.max_count,
        }
    }
}

impl Settings {
    /// Settings of a first run: the given consumer key, no token, no counts.
    pub fn fresh(consumer_key: String) -> (r: Settings)
        ensures
            r@.consumer_key == consumer_key@,
            r@.access_token is None,
            r@.last_items is None,
            r@.max_count is None,
            valid(r@),
    {
        Settings {
            credentials: Credentials { consumer_key, access_token: None },
            last_items: None,
            max_count: None,
        }
    }

    /// Keeps settings read from the configuration file where their counts are
    /// positive; settings with a zero count are malformed and give `None`.
    pub fn checked(self) -> (r: Option<Settings>)
        ensures
            r is Some <==> valid(self@),
            r matches Some(s) ==> s == self,
    {
        let last_ok = match self.last_items {
            Some(n) => n > 0,
            None => true,
        };
        let max_ok = match self.max_count {
            Some(n) => n > 0,
            None => true,
        };
        if last_ok && max_ok {
            Some(self)
        } else {
            None
        }
    }

    /// How many recent unread items to request.
    pub fn fetch_count(&self) -> (r: usize)
        ensures
            r == or_default(self.last_items, DEFAULT_LAST_ITEMS),
            valid(self@) ==> r > 0,
    {
        match self.last_items {
            Some(n) => n,
            None => DEFAULT_LAST_ITEMS,
        }
    }

    /// How many items to sample and show.
    pub fn sample_count(&self) -> (r: usize)
        ensures
            r == or_default(self.max_count, DEFAULT_MAX_COUNT),
            valid(self@) ==> r > 0,
    {
        match self.max_count {
            Some(n) => n,
            None => DEFAULT_MAX_COUNT,
        }
    }
}

} // verus!
