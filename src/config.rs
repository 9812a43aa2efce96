//! Configuration values and the host description.
use vstd::prelude::*;

use crate::text::{same_text, trim, trimmed};

verus! {

/// A configuration document: a table, an array or a scalar.
#[derive(Debug)]
pub enum ConfigTree {
    Str(String),
    Integer(i64),
    /// A floating-point value, held as its decimal text.
    Float(String),
    Boolean(bool),
    /// A date or time, held as its text.
    Datetime(String),
    Array(Vec<ConfigTree>),
    /// Keys and values, in the order of the document.
    Table(Vec<(String, ConfigTree)>),
}

/// A configuration that may be absent (no file, nothing configured).
pub type Config = Option<ConfigTree>;

/// The value stored under `key` in a list of entries: the first one with that key.
pub open spec fn lookup(entries: Seq<(String, ConfigTree)>, key: Seq<char>) -> Option<ConfigTree>
    decreases entries.len(),
{
    if entries.len() == 0 {
        None
    } else if entries[0].0@ == key {
        Some(entries[0].1)
    } else {
        lookup(entries.drop_first(), key)
    }
}

/// The value under `key` when `t` is a table.
pub open spec fn entry(t: ConfigTree, key: Seq<char>) -> Option<ConfigTree> {
    match t {
        ConfigTree::Table(entries) => lookup(entries@, key),
        _ => None,
    }
}

/// The text of a string value.
pub open spec fn text_of(t: ConfigTree) -> Option<Seq<char>> {
    match t {
        ConfigTree::Str(s) => Some(s@),
        _ => None,
    }
}

/// Whether no two entries share a key.
pub open spec fn distinct_keys(e: Seq<(String, ConfigTree)>) -> bool {
    forall|a: int, b: int| 0 <= a < b < e.len() ==> #[trigger] e[a].0@ != #[trigger] e[b].0@
}

/// A configuration as a document can hold it: every table, at every depth,
/// has distinct keys.
pub open spec fn well_formed(t: ConfigTree) -> bool
    decreases t, 0int,
{
    match t {
        ConfigTree::Array(v) => items_well_formed(v@, v@.len() as int),
        ConfigTree::Table(e) => distinct_keys(e@) && entries_well_formed(e@, e@.len() as int),
        _ => true,
    }
}

/// Whether the first `n` items are well formed.
pub open spec fn items_well_formed(v: Seq<ConfigTree>, n: int) -> bool
    decreases v, n,
{
    if n <= 0 || n > v.len() {
        true
    } else {
        items_well_formed(v, n - 1) && well_formed(v[n - 1])
    }
}

/// Whether the values of the first `n` entries are well formed.
pub open spec fn entries_well_formed(e: Seq<(String, ConfigTree)>, n: int) -> bool
    decreases e, n,
{
    if n <= 0 || n > e.len() {
        true
    } else {
        entries_well_formed(e, n - 1) && well_formed(e[n - 1].1)
    }
}

/// In entries with distinct keys, the value under a key is that of the one
/// entry that has it.
pub proof fn lemma_lookup_unique(e: Seq<(String, ConfigTree)>, j: int)
    requires
        distinct_keys(e),
        0 <= j < e.len(),
    ensures
        lookup(e, e[j].0@) == Some(e[j].1),
    decreases j,
{
    if j > 0 {
        assert(e[0].0@ != e[j].0@);
        let rest = e.drop_first();
        assert(rest[j - 1] == e[j]);
        assert forall|a: int, b: int| 0 <= a < b < rest.len() implies #[trigger] rest[a].0@ != #[trigger] rest[b].0@ by {
            assert(rest[a] == e[a + 1] && rest[b] == e[b + 1]);
        }
        lemma_lookup_unique(rest, j - 1);
    }
}

impl ConfigTree {
    /// Whether every table, at every depth, has distinct keys.
    pub fn is_well_formed(&self) -> (r: bool)
        ensures
            r == well_formed(*self),
        decreases self,
    {
        match self {
            ConfigTree::Array(v) => {
                let mut i: usize = 0;
                while i < v.len()
                    invariant
                        i <= v@.len(),
                        *self == ConfigTree::Array(*v),
                        items_well_formed(v@, i as int),
                    decreases v@.len() - i,
                {
                    assert(decreases_to!(*self => (*self)->Array_0));
                    assert(decreases_to!(*v => v[i as int]));
                    if !v[i].is_well_formed() {
                        proof {
                            lemma_items_stay_bad(v@, i as int + 1, v@.len() as int);
                        }
                        return false;
                    }
                    i = i + 1;
                }
                true
            },
            ConfigTree::Table(e) => {
                let mut i: usize = 0;
                while i < e.len()
                    invariant
                        i <= e@.len(),
                        *self == ConfigTree::Table(*e),
                        forall|a: int, b: int| 0 <= a < b < i ==> #[trigger] e@[a].0@ != #[trigger] e@[b].0@,
                        entries_well_formed(e@, i as int),
                    decreases e@.len() - i,
                {
                    let mut k: usize = 0;
                    while k < i
                        invariant
                            k <= i < e@.len(),
                            *self == ConfigTree::Table(*e),
                            forall|a: int| 0 <= a < k ==> #[trigger] e@[a].0@ != e@[i as int].0@,
                        decreases i - k,
                    {
                        if e[k].0 == e[i].0 {
                            assert(e@[k as int].0@ == e@[i as int].0@);
                            assert(!distinct_keys(e@));
                            return false;
                        }
                        k = k + 1;
                    }
                    assert(decreases_to!(*self => (*self)->Table_0));
                    assert(decreases_to!(*e => e[i as int]));
                    assert(decreases_to!(e[i as int] => e[i as int].1));
                    if !e[i].1.is_well_formed() {
                        proof {
                            lemma_entries_stay_bad(e@, i as int + 1, e@.len() as int);
                        }
                        return false;
                    }
                    i = i + 1;
                }
                assert(distinct_keys(e@));
                true
            },
            _ => true,
        }
    }
}

proof fn lemma_items_stay_bad(v: Seq<ConfigTree>, a: int, b: int)
    requires
        1 <= a <= b <= v.len(),
        !items_well_formed(v, a),
    ensures
        !items_well_formed(v, b),
    decreases b - a,
{
    if a < b {
        lemma_items_stay_bad(v, a, b - 1);
    }
}

proof fn lemma_entries_stay_bad(e: Seq<(String, ConfigTree)>, a: int, b: int)
    requires
        1 <= a <= b <= e.len(),
        !entries_well_formed(e, a),
    ensures
        !entries_well_formed(e, b),
    decreases b - a,
{
    if a < b {
        lemma_entries_stay_bad(e, a, b - 1);
    }
}

/// The text stored under `key` in a configuration, when there is one.
pub open spec fn text_entry(c: Config, key: Seq<char>) -> Option<Seq<char>> {
    match c {
        Some(t) => match entry(t, key) {
            Some(v) => text_of(v),
            None => None,
        },
        None => None,
    }
}

impl ConfigTree {
    /// The value under `key`, when this is a table that has one.
    pub fn get(&self, key: &str) -> (r: Option<&ConfigTree>)
        ensures
            match r {
                Some(v) => entry(*self, key@) == Some(*v),
                None => entry(*self, key@) is None,
            },
    {
        match self {
            ConfigTree::Table(entries) => {
                let mut i: usize = 0;
                assert(entry(*self, key@) == lookup(entries@, key@));
                assert(entries@.subrange(0, entries@.len() as int) == entries@);
                while i < entries.len()
                    invariant
                        i <= entries@.len(),
                        lookup(entries@, key@) == lookup(entries@.subrange(i as int, entries@.len() as int), key@),
                        entry(*self, key@) == lookup(entries@, key@),
                    decreases entries@.len() - i,
                {
                    let ghost rest = entries@.subrange(i as int, entries@.len() as int);
                    assert(rest.len() > 0 && rest[0] == entries@[i as int]);
                    if same_text(entries[i].0.as_str(), key) {
                        assert(lookup(rest, key@) == Some(entries@[i as int].1));
                        return Some(&entries[i].1);
                    }
                    assert(rest.drop_first() == entries@.subrange(i + 1, entries@.len() as int));
                    i = i + 1;
                }
                None
            },
            _ => None,
        }
    }

    /// The text, when this is a string value.
    pub fn as_str(&self) -> (r: Option<&str>)
        ensures
            match r {
                Some(s) => text_of(*self) == Some(s@),
                None => text_of(*self) is None,
            },
    {
        match self {
            ConfigTree::Str(s) => Some(s.as_str()),
            _ => None,
        }
    }
}

/// The text stored under `key`, when the configuration is present, is a
/// table, and holds a string there.
pub fn get_text<'a>(c: &'a Config, key: &str) -> (r: Option<&'a str>)
    ensures
        match r {
            Some(s) => text_entry(*c, key@) == Some(s@),
            None => text_entry(*c, key@) is None,
        },
{
    match c {
        Some(t) => match t.get(key) {
            Some(v) => v.as_str(),
            None => None,
        },
        None => None,
    }
}

/// The coarse kind of operating system a host runs.
#[derive(Debug)]
pub enum Platform {
    /// Linux, with the distribution when it is known.
    Linux(Option<String>),
    Darwin,
    Unknown,
}

/// The name a template sees for a platform.
pub open spec fn platform_name(p: Platform) -> Seq<char> {
    match p {
        Platform::Linux(_) => "linux"@,
        Platform::Darwin => "macos"@,
        Platform::Unknown => "unknown"@,
    }
}

impl Platform {
    pub fn name(&self) -> (r: &'static str)
        ensures
            r@ == platform_name(*self),
    {
        match self {
            Platform::Linux(_) => "linux",
            Platform::Darwin => "macos",
            Platform::Unknown => "unknown",
        }
    }
}

/// The platform an operating-system identifier stands for: the kernel name
/// `GNU/Linux` is Linux, with no distribution detected; anything else is unknown.
pub open spec fn platform_of(os: Seq<char>) -> Platform {
    if os == "GNU/Linux"@ {
        Platform::Linux(None)
    } else {
        Platform::Unknown
    }
}

/// The platform an operating-system identifier stands for.
pub fn platform_from_name(os: &str) -> (r: Platform)
    ensures
        r == platform_of(os@),
{
    if same_text(os, "GNU/Linux") {
        Platform::Linux(None)
    } else {
        Platform::Unknown
    }
}

/// Classifies a host from its operating-system identifier, as the system
/// reports it (surrounding whitespace is ignored).
pub fn classify_platform(os: &str) -> (r: Platform)
    ensures
        r == platform_of(trimmed(os@)),
{
    platform_from_name(trim(os))
}

/// The machine a run happens on.
#[derive(Debug)]
pub struct HostConfig {
    username: String,
    hostname: String,
    platform: Platform,
}

impl HostConfig {
    /// The host described by what the system reports for the current user,
    /// the machine name and the operating system; surrounding whitespace,
    /// such as a command's final line feed, is dropped.
    pub fn default(user_report: &str, host_report: &str, os_report: &str) -> (r: HostConfig)
        ensures
            r.spec_username() == trimmed(user_report@),
            r.spec_hostname() == trimmed(host_report@),
            r.spec_platform() == platform_of(trimmed(os_report@)),
    {
        HostConfig {
            username: String::from_str(trim(user_report)),
            hostname: String::from_str(trim(host_report)),
            platform: classify_platform(os_report),
        }
    }

    pub fn new(username: String, hostname: String, platform: Platform) -> (r: HostConfig)
        ensures
            r.spec_username() == username@,
            r.spec_hostname() == hostname@,
            r.spec_platform() == platform,
    {
        HostConfig { username, hostname, platform }
    }

    pub closed spec fn spec_username(&self) -> Seq<char> {
        self.username@
    }

    pub closed spec fn spec_hostname(&self) -> Seq<char> {
        self.hostname@
    }

    pub closed spec fn spec_platform(&self) -> Platform {
        self.platform
    }

    pub fn username(&self) -> (r: &str)
        ensures
            r@ == self.spec_username(),
    {
        self.username.as_str()
    }

    pub fn hostname(&self) -> (r: &str)
        ensures
            r@ == self.spec_hostname(),
    {
        self.hostname.as_str()
    }

    pub fn platform(&self) -> (r: &Platform)
        ensures
            *r == self.spec_platform(),
    {
        &self.platform
    }
}

} // verus!
