//! The configuration of a run and the targets it names.

use vstd::prelude::*;

verus! {

/// A configuration document as a loader found it: each field is present or
/// missing, and nothing has been checked yet.
#[derive(Debug, PartialEq, Eq)]
pub struct RawConfig {
    /// The endpoints to check, in the order in which they are reported.
    pub urls: Option<Vec<String>>,
    /// The time allowed to each check, in seconds.
    pub timeout: Option<i64>,
}

/// Why a configuration document is refused.
#[derive(Debug, Clone, Copy, PartialEq, Eq)]
pub enum ConfigError {
    /// The document has no list of endpoints.
    MissingUrls,
    /// The document has no timeout.
    MissingTimeout,
    /// The timeout is zero or negative.
    TimeoutNotPositive { value: i64 },
}

/// The error with which `raw` is refused, if it is. A missing list of
/// endpoints is reported before anything about the timeout.
pub open spec fn config_error(raw: RawConfig) -> Option<ConfigError> {
    if raw.urls is None {
        Some(ConfigError::MissingUrls)
    } else if raw.timeout is None {
        Some(ConfigError::MissingTimeout)
    } else if raw.timeout->0 <= 0 {
        Some(ConfigError::TimeoutNotPositive { value: raw.timeout->0 })
    } else {
        None
    }
}

/// The texts of a list of strings.
pub open spec fn texts(strings: Seq<String>) -> Seq<Seq<char>> {
    Seq::new(strings.len(), |i: int| strings[i]@)
}

/// What a configuration says: the endpoints in order, and the timeout.
pub struct ConfigView {
    pub urls: Seq<Seq<char>>,
    pub timeout: u64,
}

/// An accepted configuration. Its timeout is positive.
#[derive(Debug, PartialEq, Eq)]
pub struct Config {
    urls: Vec<String>,
    timeout: u64,
}

impl View for Config {
    type V = ConfigView;

    closed spec fn view(&self) -> ConfigView {
        ConfigView { urls: texts(self.urls@), timeout: self.timeout }
    }
}

/// One endpoint to check, with the time allowed to its check.
#[derive(Debug, PartialEq, Eq)]
pub struct Target {
    /// The endpoint's address.
    pub url: String,
    /// The time allowed to the check, in seconds.
    pub timeout: u64,
}

/// What a target says.
pub struct TargetView {
    pub url: Seq<char>,
    pub timeout: u64,
}

impl View for Target {
    type V = TargetView;

    open spec fn view(&self) -> TargetView {
        TargetView { url: self.url@, timeout: self.timeout }
    }
}

/// The views of a list of targets.
pub open spec fn target_views(targets: Seq<Target>) -> Seq<TargetView> {
    Seq::new(targets.len(), |i: int| targets[i]@)
}

/// The configuration that `raw` is accepted as, if it is accepted: the
/// endpoints as listed, and the timeout as given.
pub open spec fn accepted(raw: RawConfig) -> Option<ConfigView> {
    if config_error(raw) is None {
        Some(ConfigView { urls: texts(raw.urls->0@), timeout: raw.timeout->0 as u64 })
    } else {
        None
    }
}

/// The targets that a configuration names: one for each endpoint, in the
/// configuration's order, each with the configuration's timeout.
pub open spec fn planned_targets(config: ConfigView) -> Seq<TargetView> {
    Seq::new(
        config.urls.len(),
        |i: int| TargetView { url: config.urls[i], timeout: config.timeout },
    )
}

impl Config {
    #[verifier::type_invariant]
    spec fn timeout_is_positive(self) -> bool {
        self.timeout > 0
    }

    /// Checks a configuration document. It is accepted exactly when both
    /// fields are present and the timeout is positive; the list of
    /// endpoints may be empty.
    pub fn from_raw(raw: RawConfig) -> (checked: Result<Config, ConfigError>)
        ensures
            checked is Ok <==> config_error(raw) is None,
            checked matches Ok(config) ==> Some(config@) == accepted(raw),
            checked matches Err(error) ==> Some(error) == config_error(raw),
    {
        let RawConfig { urls, timeout } = raw;
        match urls {
            None => Err(ConfigError::MissingUrls),
            Some(urls) => match timeout {
                None => Err(ConfigError::MissingTimeout),
                Some(value) => {
                    if value <= 0 {
                        Err(ConfigError::TimeoutNotPositive { value })
                    } else {
                        Ok(Config { urls, timeout: value as u64 })
                    }
                },
            },
        }
    }

    /// The time allowed to each check, in seconds.
    pub fn timeout(&self) -> (seconds: u64)
        ensures
            seconds == self@.timeout,
            seconds > 0,
    {
        proof {
            use_type_invariant(self);
        }
        self.timeout
    }

    /// The endpoints, in the configuration's order.
    pub fn urls(&self) -> (urls: &Vec<String>)
        ensures
            texts(urls@) == self@.urls,
    {
        &self.urls
    }

    /// The targets of the run.
    pub fn targets(&self) -> (targets: Vec<Target>)
        ensures
            target_views(targets@) == planned_targets(self@),
    {
        let mut targets: Vec<Target> = Vec::new();
        let mut i: usize = 0;
        while i < self.urls.len()
            invariant
                i <= self.urls.len(),
                targets.len() == i,
                forall|j: int|
                    0 <= j < i ==> (#[trigger] targets[j])@ == (TargetView {
                        url: self.urls[j]@,
                        timeout: self.timeout,
                    }),
            decreases self.urls.len() - i,
        {
            targets.push(Target { url: self.urls[i].clone(), timeout: self.timeout });
            i += 1;
        }
        assert(target_views(targets@) =~= planned_targets(self@));
        targets
    }
}

/// A document is accepted exactly when it lists its endpoints and gives a
/// positive timeout, and is refused with an error otherwise; what is
/// accepted holds the endpoints as listed and that timeout.
pub proof fn law_config_is_accepted_or_refused(raw: RawConfig)
    ensures
        accepted(raw) is Some <==> raw.urls is Some && raw.timeout is Some && raw.timeout->0 > 0,
        accepted(raw) is Some <==> config_error(raw) is None,
        accepted(raw) matches Some(config) ==> config.urls == texts(raw.urls->0@)
            && config.timeout == raw.timeout->0 && config.timeout > 0,
{
}

/// The plan of a run names every endpoint of the configuration once, at
/// the endpoint's place, and allows each check the configuration's
/// timeout.
pub proof fn law_plan_follows_config(config: ConfigView)
    ensures
        planned_targets(config).len() == config.urls.len(),
        forall|i: int|
            0 <= i < config.urls.len() ==> #[trigger] planned_targets(config)[i] == (TargetView {
                url: config.urls[i],
                timeout: config.timeout,
            }),
{
}

} // verus!
