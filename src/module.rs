//! A module: a group of templates with its own configuration, auxiliary
//! repositories and hooks.
use vstd::prelude::*;

use crate::config::{entry, Config, ConfigTree, HostConfig};
use crate::errors::{Error, ErrorKind};
use crate::repo_config::{optional_text, read_optional_text, repo_fields, RepoConfig};
use crate::json::object;
use crate::template::{render_metadata, render_outcome, scope_members, Template};
use crate::text::{chars_of, string_of};

verus! {

/// The pieces of `s` between single spaces, given that the current piece
/// starts at `start` and the scan has reached `i`.
pub open spec fn words_from(s: Seq<char>, start: int, i: int) -> Seq<Seq<char>>
    decreases s.len() - i,
{
    if i >= s.len() {
        seq![s.subrange(start, s.len() as int)]
    } else if s[i] == ' ' {
        seq![s.subrange(start, i)] + words_from(s, i + 1, i + 1)
    } else {
        words_from(s, start, i + 1)
    }
}

/// `s` split at every single space, with no regard for quoting; two spaces
/// in a row give an empty piece.
pub open spec fn split_spaces(s: Seq<char>) -> Seq<Seq<char>> {
    words_from(s, 0, 0)
}

/// The character views of a list of strings.
pub open spec fn texts(v: Seq<String>) -> Seq<Seq<char>> {
    Seq::new(v.len(), |i: int| v[i]@)
}

/// The array stored under `key` in a configuration, when there is one.
pub open spec fn list_entry(c: Config, key: Seq<char>) -> Option<Seq<ConfigTree>> {
    match c {
        Some(t) => match entry(t, key) {
            Some(ConfigTree::Array(v)) => Some(v@),
            _ => None,
        },
        None => None,
    }
}

/// A hook entry of a module configuration: a table with an optional text `shell`.
pub open spec fn hook_shell(t: ConfigTree) -> Option<Option<Seq<char>>> {
    optional_text(t, "shell"@)
}

fn split_words(s: &str) -> (r: Vec<String>)
    ensures
        texts(r@) == split_spaces(s@),
{
    let cs = chars_of(s);
    let mut out: Vec<String> = Vec::new();
    let mut cur: Vec<char> = Vec::new();
    let mut start: usize = 0;
    let mut i: usize = 0;
    while i < cs.len()
        invariant
            start <= i <= cs@.len(),
            cs@ == s@,
            cur@ == cs@.subrange(start as int, i as int),
            texts(out@) + words_from(cs@, start as int, i as int) == split_spaces(cs@),
        decreases cs@.len() - i,
    {
        if cs[i] == ' ' {
            let ghost before = texts(out@);
            out.push(string_of(&cur));
            assert(texts(out@) == before.push(cs@.subrange(start as int, i as int)));
            cur = Vec::new();
            start = i + 1;
        } else {
            cur.push(cs[i]);
            assert(cs@.subrange(start as int, i + 1) == cs@.subrange(start as int, i as int).push(cs@[i as int]));
        }
        i = i + 1;
    }
    let ghost before = texts(out@);
    out.push(string_of(&cur));
    assert(texts(out@) == before.push(cs@.subrange(start as int, cs@.len() as int)));
    out
}

/// A command a module runs once all its templates are processed.
#[derive(Debug)]
pub struct AfterCommitHook {
    shell: Option<String>,
}

impl AfterCommitHook {
    pub closed spec fn spec_shell(&self) -> Option<Seq<char>> {
        match self.shell {
            Some(s) => Some(s@),
            None => None,
        }
    }

    pub fn new(shell: Option<String>) -> (r: AfterCommitHook)
        ensures
            r.spec_shell() == (match shell {
                Some(s) => Some(s@),
                None => None,
            }),
    {
        AfterCommitHook { shell }
    }

    /// Reads a hook entry of a module configuration.
    pub fn from_config(t: &ConfigTree) -> (r: Result<AfterCommitHook, Error>)
        ensures
            match r {
                Ok(h) => hook_shell(*t) == Some(h.spec_shell()),
                Err(e) => hook_shell(*t) is None
                    && (e.spec_kind() matches ErrorKind::Malformed(k) && k@ == "after_commit"@),
            },
    {
        match read_optional_text(t, "shell") {
            Ok(shell) => Ok(AfterCommitHook { shell }),
            Err(_) => Err(Error::new(ErrorKind::Malformed(String::from_str("after_commit")))),
        }
    }

    /// The program and its arguments: the shell line split at single
    /// spaces. Nothing to run when there is no shell line or it is empty.
    pub fn command(&self) -> (r: Option<Vec<String>>)
        ensures
            match self.spec_shell() {
                Some(s) => if s.len() == 0 {
                    r is None
                } else {
                    r matches Some(words) && texts(words@) == split_spaces(s)
                },
                None => r is None,
            },
    {
        match &self.shell {
            Some(s) => {
                if chars_of(s.as_str()).len() == 0 {
                    None
                } else {
                    Some(split_words(s.as_str()))
                }
            },
            None => None,
        }
    }
}

/// The path of a target's configuration file.
pub fn target_config_path(name: &str) -> (r: String)
    ensures
        r@ == "targets/"@ + name@ + ".toml"@,
{
    let mut p = String::from_str("targets/");
    p.append(name);
    p.append(".toml");
    p
}

/// The path of a module's configuration file.
pub fn module_config_path(name: &str) -> (r: String)
    ensures
        r@ == "modules/"@ + name@ + "/config.toml"@,
{
    let mut p = String::from_str("modules/");
    p.append(name);
    p.append("/config.toml");
    p
}

/// A module, with the configuration of the run it is processed in.
#[derive(Debug)]
pub struct Module {
    name: String,
    target_config: Config,
    host_config: HostConfig,
    module_config: Config,
}

impl Module {
    pub closed spec fn spec_name(&self) -> Seq<char> {
        self.name@
    }

    pub closed spec fn spec_target(&self) -> Config {
        self.target_config
    }

    pub closed spec fn spec_host(&self) -> HostConfig {
        self.host_config
    }

    pub closed spec fn spec_module(&self) -> Config {
        self.module_config
    }

    /// A module over its configuration, which is absent when the module
    /// has no configuration file.
    pub fn new(name: &str, target_config: Config, host_config: HostConfig, module_config: Config) -> (r: Module)
        ensures
            r.spec_name() == name@,
            r.spec_target() == target_config,
            r.spec_host() == host_config,
            r.spec_module() == module_config,
    {
        Module { name: String::from_str(name), target_config, host_config, module_config }
    }

    /// The path of the module's configuration file.
    pub fn config_path(&self) -> (r: String)
        ensures
            r@ == "modules/"@ + self.spec_name() + "/config.toml"@,
    {
        module_config_path(self.name.as_str())
    }

    /// The directory that holds the module's templates.
    pub fn templates_dir(&self) -> (r: String)
        ensures
            r@ == "modules/"@ + self.spec_name() + "/templates/"@,
    {
        let mut p = String::from_str("modules/");
        p.append(self.name.as_str());
        p.append("/templates/");
        p
    }

    /// Renders a template's frontmatter in the module's scopes.
    pub fn render_frontmatter(&self, frontmatter: &str) -> (r: Result<String, Error>)
        ensures
            render_outcome(r, frontmatter@, object(scope_members(self.spec_host(), self.spec_target(), self.spec_module()))),
    {
        render_metadata(frontmatter, &self.host_config, &self.target_config, &self.module_config)
    }

    /// A template of this module, with the configuration read from its frontmatter.
    pub fn template<'b>(&'b self, body: &str, template_config: Config) -> (r: Template<'b>)
        ensures
            r.spec_host() == self.spec_host(),
            r.spec_text() == body@,
            r.spec_target() == self.spec_target(),
            r.spec_module() == self.spec_module(),
            r.spec_template_config() == template_config,
    {
        Template::new(body, &self.host_config, &self.target_config, template_config, &self.module_config)
    }

    fn list(&self, key: &str) -> (r: Option<&Vec<ConfigTree>>)
        ensures
            match r {
                Some(v) => list_entry(self.spec_module(), key@) == Some(v@),
                None => list_entry(self.spec_module(), key@) is None,
            },
    {
        match &self.module_config {
            Some(t) => match t.get(key) {
                Some(ConfigTree::Array(v)) => Some(v),
                _ => None,
            },
            None => None,
        }
    }

    /// The auxiliary repositories of the module's `repos` array; none when
    /// there is no such array. An entry of the wrong shape is an error.
    pub fn repos(&self) -> (r: Result<Vec<RepoConfig>, Error>)
        ensures
            match r {
                Ok(rs) => match list_entry(self.spec_module(), "repos"@) {
                    Some(v) => rs@.len() == v.len() && forall|i: int| 0 <= i < v.len()
                        ==> repo_fields(#[trigger] v[i]) == Some((rs@[i].spec_path(), rs@[i].spec_url(), rs@[i].spec_sha())),
                    None => rs@.len() == 0,
                },
                Err(e) => (e.spec_kind() matches ErrorKind::Malformed(k) && k@ == "repos"@)
                    && (list_entry(self.spec_module(), "repos"@) matches Some(v)
                    && exists|i: int| 0 <= i < v.len() && repo_fields(#[trigger] v[i]) is None),
            },
    {
        let mut out: Vec<RepoConfig> = Vec::new();
        match self.list("repos") {
            Some(v) => {
                let mut i: usize = 0;
                while i < v.len()
                    invariant
                        i <= v@.len(),
                        out@.len() == i,
                        list_entry(self.spec_module(), "repos"@) == Some(v@),
                        forall|j: int| 0 <= j < i
                            ==> repo_fields(#[trigger] v@[j]) == Some((out@[j].spec_path(), out@[j].spec_url(), out@[j].spec_sha())),
                    decreases v@.len() - i,
                {
                    match RepoConfig::from_config(&v[i]) {
                        Ok(repo) => out.push(repo),
                        Err(e) => {
                            return Err(e);
                        },
                    }
                    i = i + 1;
                }
            },
            None => {},
        }
        Ok(out)
    }

    /// The hooks of the module's `after_commit` array; none when there is no
    /// such array. An entry of the wrong shape is an error.
    pub fn after_commit_hooks(&self) -> (r: Result<Vec<AfterCommitHook>, Error>)
        ensures
            match r {
                Ok(hs) => match list_entry(self.spec_module(), "after_commit"@) {
                    Some(v) => hs@.len() == v.len() && forall|i: int| 0 <= i < v.len()
                        ==> hook_shell(#[trigger] v[i]) == Some(hs@[i].spec_shell()),
                    None => hs@.len() == 0,
                },
                Err(e) => (e.spec_kind() matches ErrorKind::Malformed(k) && k@ == "after_commit"@)
                    && (list_entry(self.spec_module(), "after_commit"@) matches Some(v)
                    && exists|i: int| 0 <= i < v.len() && hook_shell(#[trigger] v[i]) is None),
            },
    {
        let mut out: Vec<AfterCommitHook> = Vec::new();
        match self.list("after_commit") {
            Some(v) => {
                let mut i: usize = 0;
                while i < v.len()
                    invariant
                        i <= v@.len(),
                        out@.len() == i,
                        list_entry(self.spec_module(), "after_commit"@) == Some(v@),
                        forall|j: int| 0 <= j < i ==> hook_shell(#[trigger] v@[j]) == Some(out@[j].spec_shell()),
                    decreases v@.len() - i,
                {
                    match AfterCommitHook::from_config(&v[i]) {
                        Ok(hook) => out.push(hook),
                        Err(e) => {
                            return Err(e);
                        },
                    }
                    i = i + 1;
                }
            },
            None => {},
        }
        Ok(out)
    }
}

} // verus!
