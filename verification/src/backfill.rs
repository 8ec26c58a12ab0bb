use vstd::prelude::*;

use crate::errors::ConfigError;

verus! {

/// The value an optional field holds after back-filling: the target's
/// own value when set, else the source's.
pub open spec fn fill_field<T>(target: Option<T>, source: Option<T>) -> Option<T> {
    if target is Some {
        target
    } else {
        source
    }
}

/// The back-filling capability: populate every unset field of `self`
/// from the corresponding field of `from`, recursing into nested
/// records. Already-set fields are never overwritten, and `from` is
/// never modified.
pub trait BackFillable: Sized {
    /// Whether `from` carries every default that back-filling `self`
    /// needs; when it does not, `back_fill` fails with `MissingDefault`.
    spec fn fillable_from(self, from: Self) -> bool;

    /// The record that back-filling `self` from `from` produces.
    spec fn back_filled(self, from: Self) -> Self;

    /// Fill every unset field of `self` from `from`, recursing into
    /// nested records. On failure `self` is left untouched.
    fn back_fill(&mut self, from: &Self) -> (r: Result<(), ConfigError>)
        ensures
            old(self).fillable_from(*from) ==> r is Ok && *final(self) == old(self).back_filled(
                *from,
            ),
            !old(self).fillable_from(*from) ==> r == Result::<(), ConfigError>::Err(
                ConfigError::MissingDefault,
            ) && *final(self) == *old(self),
    ;

    /// Back-filling twice from the same source changes nothing the
    /// second time.
    proof fn lemma_back_fill_idempotent(self, from: Self)
        ensures
            self.fillable_from(from) ==> self.back_filled(from).fillable_from(from),
            self.fillable_from(from) ==> self.back_filled(from).back_filled(from)
                == self.back_filled(from),
    ;
}

/// The nested application-level part of a configuration record.
#[derive(Clone, Debug, PartialEq)]
pub struct ConfigApp {
    pub name: Option<String>,
    pub license: Option<String>,
}

/// A configuration record with optional scalar fields and an optional
/// nested `ConfigApp` record.
#[derive(Clone, Debug, PartialEq)]
pub struct Config {
    pub name: Option<String>,
    pub url: Option<String>,
    pub user: Option<String>,
    pub password: Option<String>,
    pub retry: Option<u8>,
    pub app: Option<ConfigApp>,
}

fn clone_opt_string(value: &Option<String>) -> (r: Option<String>)
    ensures
        r == *value,
{
    match value {
        Some(s) => Some(s.clone()),
        None => None,
    }
}

fn clone_app(value: &ConfigApp) -> (r: ConfigApp)
    ensures
        r == *value,
{
    ConfigApp { name: clone_opt_string(&value.name), license: clone_opt_string(&value.license) }
}

impl BackFillable for ConfigApp {
    open spec fn fillable_from(self, from: Self) -> bool {
        true
    }

    open spec fn back_filled(self, from: Self) -> Self {
        ConfigApp {
            name: fill_field(self.name, from.name),
            license: fill_field(self.license, from.license),
        }
    }

    fn back_fill(&mut self, from: &Self) -> (r: Result<(), ConfigError>) {
        if self.name.is_none() {
            self.name = clone_opt_string(&from.name);
        }
        if self.license.is_none() {
            self.license = clone_opt_string(&from.license);
        }
        Ok(())
    }

    proof fn lemma_back_fill_idempotent(self, from: Self) {
    }
}

impl BackFillable for Config {
    open spec fn fillable_from(self, from: Self) -> bool {
        from.app is Some
    }

    open spec fn back_filled(self, from: Self) -> Self {
        Config {
            name: fill_field(self.name, from.name),
            url: fill_field(self.url, from.url),
            user: fill_field(self.user, from.user),
            password: fill_field(self.password, from.password),
            retry: fill_field(self.retry, from.retry),
            app: if self.app is Some {
                Some(self.app->0.back_filled(from.app->0))
            } else {
                from.app
            },
        }
    }

    fn back_fill(&mut self, from: &Self) -> (r: Result<(), ConfigError>) {
        let from_app = match &from.app {
            Some(a) => a,
            None => {
                return Err(ConfigError::MissingDefault);
            },
        };
        if self.name.is_none() {
            self.name = clone_opt_string(&from.name);
        }
        if self.url.is_none() {
            self.url = clone_opt_string(&from.url);
        }
        if self.user.is_none() {
            self.user = clone_opt_string(&from.user);
        }
        if self.password.is_none() {
            self.password = clone_opt_string(&from.password);
        }
        if self.retry.is_none() {
            self.retry = from.retry;
        }
        let new_app = match &self.app {
            None => clone_app(from_app),
            Some(cur) => {
                let mut filled = clone_app(cur);
                let _ = filled.back_fill(from_app);
                filled
            },
        };
        self.app = Some(new_app);
        Ok(())
    }

    proof fn lemma_back_fill_idempotent(self, from: Self) {
        if self.fillable_from(from) && self.app is Some {
            self.app->0.lemma_back_fill_idempotent(from.app->0);
        }
    }
}

/// Back-fill never overwrites an already-set field of a nested record.
pub proof fn lemma_app_back_fill_preserves_set(t: ConfigApp, s: ConfigApp)
    ensures
        t.name is Some ==> t.back_filled(s).name == t.name,
        t.license is Some ==> t.back_filled(s).license == t.license,
{
}

/// Back-fill fills every unset field of a nested record from the source.
pub proof fn lemma_app_back_fill_fills_unset(t: ConfigApp, s: ConfigApp)
    ensures
        t.name is None ==> t.back_filled(s).name == s.name,
        t.license is None ==> t.back_filled(s).license == s.license,
{
}

/// Back-fill never overwrites an already-set field of the target, down
/// to the fields of a nested record that the target already carries.
pub proof fn lemma_back_fill_preserves_set(t: Config, s: Config)
    ensures
        t.name is Some ==> t.back_filled(s).name == t.name,
        t.url is Some ==> t.back_filled(s).url == t.url,
        t.user is Some ==> t.back_filled(s).user == t.user,
        t.password is Some ==> t.back_filled(s).password == t.password,
        t.retry is Some ==> t.back_filled(s).retry == t.retry,
        t.app is Some ==> t.back_filled(s).app is Some,
        t.app is Some && t.app->0.name is Some ==> t.back_filled(s).app->0.name == t.app->0.name,
        t.app is Some && t.app->0.license is Some ==> t.back_filled(s).app->0.license
            == t.app->0.license,
{
}

/// Back-fill fills every unset field of the target from the source; a
/// wholly unset nested record is copied from the source verbatim.
pub proof fn lemma_back_fill_fills_unset(t: Config, s: Config)
    ensures
        t.name is None ==> t.back_filled(s).name == s.name,
        t.url is None ==> t.back_filled(s).url == s.url,
        t.user is None ==> t.back_filled(s).user == s.user,
        t.password is None ==> t.back_filled(s).password == s.password,
        t.retry is None ==> t.back_filled(s).retry == s.retry,
        t.app is None ==> t.back_filled(s).app == s.app,
        t.app is Some && t.app->0.name is None ==> t.back_filled(s).app->0.name == s.app->0.name,
        t.app is Some && t.app->0.license is None ==> t.back_filled(s).app->0.license
            == s.app->0.license,
{
}

} // verus!
