//! Auxiliary repositories a module keeps checked out.
use vstd::prelude::*;

use crate::config::{entry, text_of, ConfigTree};
use crate::errors::{Error, ErrorKind};
use crate::text::same_text;

verus! {

/// A text field of a configuration table: `Some(None)` when the key is
/// absent, `Some(Some(t))` when it holds the text `t`, `None` when it holds
/// something else.
pub open spec fn optional_text(t: ConfigTree, key: Seq<char>) -> Option<Option<Seq<char>>> {
    match entry(t, key) {
        None => Some(None),
        Some(v) => match text_of(v) {
            Some(s) => Some(Some(s)),
            None => None,
        },
    }
}

/// A repository entry of a module configuration: a table with the texts
/// `path` and `url`, and optionally the text `sha`; other keys are ignored.
pub open spec fn repo_fields(t: ConfigTree) -> Option<(Seq<char>, Seq<char>, Option<Seq<char>>)> {
    match (optional_text(t, "path"@), optional_text(t, "url"@), optional_text(t, "sha"@)) {
        (Some(Some(path)), Some(Some(url)), Some(sha)) => Some((path, url, sha)),
        _ => None,
    }
}

pub(crate) fn read_optional_text(t: &ConfigTree, key: &str) -> (r: Result<Option<String>, ()>)
    ensures
        match r {
            Ok(Some(s)) => optional_text(*t, key@) == Some(Some(s@)),
            Ok(None) => optional_text(*t, key@) == Some(None::<Seq<char>>),
            Err(_) => optional_text(*t, key@) is None,
        },
{
    match t.get(key) {
        None => Ok(None),
        Some(v) => match v.as_str() {
            Some(s) => Ok(Some(String::from_str(s))),
            None => Err(()),
        },
    }
}

/// Where an auxiliary repository lives and where it comes from. The `sha`
/// is recorded but not checked out.
#[derive(Debug)]
pub struct RepoConfig {
    path: String,
    url: String,
    sha: Option<String>,
}

/// What opening the local repository gave.
pub enum OpenOutcome {
    /// A repository is there.
    Opened,
    /// Nothing is there.
    NotFound,
    /// Something else went wrong, with the client's message.
    Failed(String),
}

/// What to do to bring a repository up to date.
#[derive(Debug)]
pub enum SyncAction {
    /// Fetch `branch` from the remote `remote` of the local repository.
    Fetch { remote: String, branch: String },
    /// Clone `url` into `path`.
    Clone { url: String, path: String },
}

impl RepoConfig {
    pub closed spec fn spec_path(&self) -> Seq<char> {
        self.path@
    }

    pub closed spec fn spec_url(&self) -> Seq<char> {
        self.url@
    }

    pub closed spec fn spec_sha(&self) -> Option<Seq<char>> {
        match self.sha {
            Some(s) => Some(s@),
            None => None,
        }
    }

    pub fn new(path: String, url: String, sha: Option<String>) -> (r: RepoConfig)
        ensures
            r.spec_path() == path@,
            r.spec_url() == url@,
            r.spec_sha() == (match sha {
                Some(s) => Some(s@),
                None => None,
            }),
    {
        RepoConfig { path, url, sha }
    }

    /// Reads a repository entry of a module configuration.
    pub fn from_config(t: &ConfigTree) -> (r: Result<RepoConfig, Error>)
        ensures
            match r {
                Ok(repo) => repo_fields(*t) == Some((repo.spec_path(), repo.spec_url(), repo.spec_sha())),
                Err(e) => repo_fields(*t) is None && (e.spec_kind() matches ErrorKind::Malformed(k) && k@ == "repos"@),
            },
    {
        let path = read_optional_text(t, "path");
        let url = read_optional_text(t, "url");
        let sha = read_optional_text(t, "sha");
        match (path, url, sha) {
            (Ok(Some(path)), Ok(Some(url)), Ok(sha)) => Ok(RepoConfig { path, url, sha }),
            _ => Err(Error::new(ErrorKind::Malformed(String::from_str("repos")))),
        }
    }

    pub fn path(&self) -> (r: &str)
        ensures
            r@ == self.spec_path(),
    {
        self.path.as_str()
    }

    pub fn url(&self) -> (r: &str)
        ensures
            r@ == self.spec_url(),
    {
        self.url.as_str()
    }

    pub fn sha(&self) -> (r: Option<&str>)
        ensures
            match r {
                Some(s) => self.spec_sha() == Some(s@),
                None => self.spec_sha() is None,
            },
    {
        match &self.sha {
            Some(s) => Some(s.as_str()),
            None => None,
        }
    }

    /// Decides how to sync the repository from what opening its path gave:
    /// a repository that is there has `master` fetched from `origin`; a
    /// missing one is cloned from the configured URL; any other failure is
    /// an error, and nothing is cloned.
    pub fn sync_action(&self, opened: OpenOutcome) -> (r: Result<SyncAction, Error>)
        ensures
            match opened {
                OpenOutcome::Opened => r matches Ok(SyncAction::Fetch { remote, branch })
                    && remote@ == "origin"@ && branch@ == "master"@,
                OpenOutcome::NotFound => r matches Ok(SyncAction::Clone { url, path })
                    && url@ == self.spec_url() && path@ == self.spec_path(),
                OpenOutcome::Failed(m) => r matches Err(e) && e.spec_kind() == ErrorKind::Git(m),
            },
    {
        match opened {
            OpenOutcome::Opened => Ok(
                SyncAction::Fetch { remote: String::from_str("origin"), branch: String::from_str("master") },
            ),
            OpenOutcome::NotFound => Ok(
                SyncAction::Clone { url: String::from_str(self.url.as_str()), path: String::from_str(self.path.as_str()) },
            ),
            OpenOutcome::Failed(m) => Err(Error::new(ErrorKind::Git(m))),
        }
    }
}

} // verus!
