//! Templates and the contexts they are rendered in.
//!
//! A template sees its configuration scopes side by side, each under its own
//! name (`host`, `target`, `module`), never merged: a later scope cannot
//! shadow an earlier one. The template engine receives that context as JSON.
use vstd::prelude::*;

use crate::config::{get_text, platform_name, text_entry, Config, HostConfig};
use crate::errors::{Error, ErrorKind};
use crate::frontmatter::views;
use crate::json::{commas, config_json, member, object, push_config, push_quoted, quoted};
use crate::syntax::{engine_may_render, engine_safe, find_in_tag, mentions_in_tag};
use crate::text::{chars_of, extend_chars, extend_str, same_text, string_of};

verus! {

/// What the template engine makes of a template text and a JSON context:
/// the rendered text, or nothing when the template or the context is refused.
pub uninterp spec fn rendered(template: Seq<char>, data: Seq<char>) -> Option<Seq<char>>;

/// Relies on handlebars' `Registry::render_template` (a fresh registry, so
/// HTML escaping and non-strict lookups), with the context read from JSON
/// text by `serde_json::from_str`. The result depends on the two texts alone.
/// The engine recurses on partials (without bound), on nested blocks and
/// `else` branches and on nested brackets in a tag; `engine_safe` rules out
/// the first and bounds the others, so rendering stays inside the stack.
#[verifier::external_body]
fn render_template(template: &str, data: &str) -> (r: Option<String>)
    requires
        engine_safe(template@),
    ensures
        match r {
            Some(s) => rendered(template@, data@) == Some(s@),
            None => rendered(template@, data@) is None,
        },
{
    match serde_json::from_str::<handlebars::JsonValue>(data) {
        Ok(value) => handlebars::Handlebars::new().render_template(template, &value).ok(),
        Err(_) => None,
    }
}

/// Relies on `dirs::home_dir`: the current user's home directory when the
/// system knows one (and it is valid UTF-8). It depends on the environment.
#[verifier::external_body]
fn home_dir() -> (r: Option<String>) {
    match dirs::home_dir() {
        Some(p) => p.into_os_string().into_string().ok(),
        None => None,
    }
}

/// The `.config` directory under `home`, joined as paths join on Unix.
pub open spec fn config_home(home: Seq<char>) -> Seq<char> {
    if home.len() > 0 && home.last() != '/' {
        home + "/.config"@
    } else {
        home + ".config"@
    }
}

/// The command that copies standard input to the clipboard, for each
/// supported clipboard program.
pub open spec fn clipboard_command(program: Seq<char>) -> Option<Seq<char>> {
    if program == "xclip"@ {
        Some("xclip -i -selection clipboard"@)
    } else if program == "xsel"@ {
        Some("xsel -i --clipboard"@)
    } else if program == "pbcopy"@ {
        Some("pbcopy"@)
    } else {
        None
    }
}

/// The clipboard command a target configuration selects with its `clipboard` key.
pub open spec fn copy_command_of(target: Config) -> Option<Seq<char>> {
    match text_entry(target, "clipboard"@) {
        Some(program) => clipboard_command(program),
        None => None,
    }
}

/// The comment prefix of the warning banner: the template's `comment_format`,
/// or `# `.
pub open spec fn comment_prefix(template_config: Config) -> Seq<char> {
    match text_entry(template_config, "comment_format"@) {
        Some(p) => p,
        None => "# "@,
    }
}

/// One commented line of the banner.
pub open spec fn banner_line(prefix: Seq<char>, text: Seq<char>) -> Seq<char> {
    prefix + text + "\n"@
}

/// The banner that opens every file this tool writes.
pub open spec fn banner(prefix: Seq<char>) -> Seq<char> {
    banner_line(prefix, "!!!!!!!!!!"@) + banner_line(prefix, "Warning!"@) + banner_line(
        prefix,
        "This file was generated by Zotfile, an automated config manager."@,
    ) + banner_line(prefix, "Changes may be overwritten from time to time."@) + banner_line(
        prefix,
        "!!!!!!!!!!"@,
    )
}

/// The host as templates see it: its user name and platform (not its name).
pub open spec fn host_json(h: HostConfig) -> Seq<char> {
    object(
        seq![
            member("username"@, quoted(h.spec_username())),
            member("platform"@, quoted(platform_name(h.spec_platform()))),
        ],
    )
}

/// The context a module's own configuration is rendered in: the host and
/// the target, nothing of the module yet.
pub open spec fn bootstrap_members(h: HostConfig, target: Config) -> Seq<Seq<char>> {
    seq![member("host"@, host_json(h)), member("target"@, config_json(target))]
}

/// The context a template's frontmatter is rendered in: host, target and module.
pub open spec fn scope_members(h: HostConfig, target: Config, module: Config) -> Seq<Seq<char>> {
    bootstrap_members(h, target).push(member("module"@, config_json(module)))
}

/// The well-known directories: home and configuration home, when the home
/// directory is known.
pub open spec fn dirs_json(home: Option<Seq<char>>) -> Seq<char> {
    match home {
        Some(d) => object(seq![member("home"@, quoted(d)), member("config"@, quoted(config_home(d)))]),
        None => object(seq![]),
    }
}

/// The clipboard command as the body sees it: `null` when none is configured.
pub open spec fn copy_command_json(target: Config) -> Seq<char> {
    match copy_command_of(target) {
        Some(c) => quoted(c),
        None => "null"@,
    }
}

/// The context a template's body is rendered in: the three scopes, the
/// directories and the clipboard command.
pub open spec fn body_members(h: HostConfig, target: Config, module: Config, home: Option<Seq<char>>) -> Seq<Seq<char>> {
    scope_members(h, target, module).push(member("dirs"@, dirs_json(home))).push(
        member("copy_command"@, copy_command_json(target)),
    )
}

/// The outcome of rendering `text` in the context `data`: an error of kind
/// `UnsupportedTemplate` for a text the engine may not be given (see
/// `engine_safe`);
/// otherwise the rendered text, or an error of kind `Render` when the engine
/// refuses it.
pub open spec fn render_outcome(r: Result<String, Error>, text: Seq<char>, data: Seq<char>) -> bool {
    if !engine_safe(text) {
        r is Err && r->Err_0.spec_kind() == ErrorKind::UnsupportedTemplate
    } else {
        match r {
            Ok(s) => rendered(text, data) == Some(s@),
            Err(e) => rendered(text, data) is None && e.spec_kind() == ErrorKind::Render,
        }
    }
}

fn run_engine(text: &str, data: &Vec<char>) -> (r: Result<String, Error>)
    ensures
        render_outcome(r, text@, data@),
{
    if !engine_may_render(&chars_of(text)) {
        return Err(Error::new(ErrorKind::UnsupportedTemplate));
    }
    let d = string_of(data);
    match render_template(text, d.as_str()) {
        Some(s) => Ok(s),
        None => Err(Error::new(ErrorKind::Render)),
    }
}

fn push_member_key(out: &mut Vec<char>, key: &str)
    ensures
        final(out)@ == old(out)@ + quoted(key@) + seq![':'],
{
    push_quoted(out, key);
    out.push(':');
}

fn host_member(h: &HostConfig) -> (r: Vec<char>)
    ensures
        r@ == member("host"@, host_json(*h)),
{
    let mut u: Vec<char> = Vec::new();
    push_member_key(&mut u, "username");
    push_quoted(&mut u, h.username());
    let mut p: Vec<char> = Vec::new();
    push_member_key(&mut p, "platform");
    push_quoted(&mut p, h.platform().name());
    let mut members: Vec<Vec<char>> = Vec::new();
    members.push(u);
    members.push(p);
    let obj = write_object(&members);
    let mut out: Vec<char> = Vec::new();
    push_member_key(&mut out, "host");
    extend_chars(&mut out, &obj);
    assert(views(members@) == seq![
        member("username"@, quoted(h.spec_username())),
        member("platform"@, quoted(platform_name(h.spec_platform()))),
    ]);
    out
}

fn config_member(key: &str, c: &Config) -> (r: Vec<char>)
    ensures
        r@ == member(key@, config_json(*c)),
{
    let mut out: Vec<char> = Vec::new();
    push_member_key(&mut out, key);
    push_config(&mut out, c);
    out
}

fn text_member(key: &str, value: &str) -> (r: Vec<char>)
    ensures
        r@ == member(key@, quoted(value@)),
{
    let mut out: Vec<char> = Vec::new();
    push_member_key(&mut out, key);
    push_quoted(&mut out, value);
    out
}

/// A JSON object made of the given members.
fn write_object(members: &Vec<Vec<char>>) -> (r: Vec<char>)
    ensures
        r@ == object(views(members@)),
{
    let ghost mv = views(members@);
    let mut out: Vec<char> = Vec::new();
    out.push('{');
    let mut i: usize = 0;
    while i < members.len()
        invariant
            i <= members@.len(),
            mv == views(members@),
            out@ == seq!['{'] + commas(mv.subrange(0, i as int)),
        decreases members@.len() - i,
    {
        let ghost sub = mv.subrange(0, i + 1);
        assert(sub.drop_last() == mv.subrange(0, i as int));
        if i > 0 {
            out.push(',');
        } else {
            assert(sub.len() == 1);
        }
        extend_chars(&mut out, &members[i]);
        i = i + 1;
    }
    assert(mv.subrange(0, mv.len() as int) == mv);
    out.push('}');
    out
}

fn config_home_of(home: &str) -> (r: String)
    ensures
        r@ == config_home(home@),
{
    let cs = chars_of(home);
    let mut out = String::from_str(home);
    if cs.len() > 0 && cs[cs.len() - 1] != '/' {
        out.append("/.config");
    } else {
        out.append(".config");
    }
    out
}

/// Renders a module's configuration file, itself a template, in the
/// bootstrap context of host and target.
pub fn render_module_config(source: &str, host_config: &HostConfig, target_config: &Config) -> (r: Result<String, Error>)
    ensures
        render_outcome(r, source@, object(bootstrap_members(*host_config, *target_config))),
{
    let mut members: Vec<Vec<char>> = Vec::new();
    members.push(host_member(host_config));
    members.push(config_member("target", target_config));
    assert(views(members@) == bootstrap_members(*host_config, *target_config));
    let data = write_object(&members);
    run_engine(source, &data)
}

/// Renders a template's frontmatter in the context of host, target and module.
pub fn render_metadata(frontmatter: &str, host_config: &HostConfig, target_config: &Config, module_config: &Config) -> (r: Result<String, Error>)
    ensures
        render_outcome(r, frontmatter@, object(scope_members(*host_config, *target_config, *module_config))),
{
    let mut members: Vec<Vec<char>> = Vec::new();
    members.push(host_member(host_config));
    members.push(config_member("target", target_config));
    members.push(config_member("module", module_config));
    assert(views(members@) == scope_members(*host_config, *target_config, *module_config));
    let data = write_object(&members);
    run_engine(frontmatter, &data)
}

/// The error that `copy_command` reports names the configured clipboard
/// program, when a text is configured.
pub open spec fn reports_clipboard(kind: ErrorKind, target: Config) -> bool {
    match kind {
        ErrorKind::Clipboard(Some(v)) => text_entry(target, "clipboard"@) == Some(v@),
        ErrorKind::Clipboard(None) => text_entry(target, "clipboard"@) is None,
        _ => false,
    }
}

/// Whether a template text uses the clipboard command in one of its tags
/// and the target configures none that is supported.
pub open spec fn lacks_clipboard(text: Seq<char>, target: Config) -> bool {
    mentions_in_tag(text, "copy_command"@) && copy_command_of(target) is None
}

/// The outcome of rendering a template text with a body context: a text that
/// uses the clipboard command fails when none is configured; otherwise the
/// engine decides.
pub open spec fn body_outcome(r: Result<String, Error>, text: Seq<char>, target: Config, data: Seq<char>) -> bool {
    if lacks_clipboard(text, target) {
        r is Err && reports_clipboard(r->Err_0.spec_kind(), target)
    } else {
        render_outcome(r, text, data)
    }
}

fn push_line(out: &mut String, prefix: &str, text: &str)
    ensures
        final(out)@ == old(out)@ + banner_line(prefix@, text@),
{
    out.append(prefix);
    out.append(text);
    out.append("\n");
    assert(out@ == old(out)@ + banner_line(prefix@, text@));
}

/// A template ready to be rendered: its text and the scopes it sees.
pub struct Template<'a> {
    host_config: &'a HostConfig,
    template_string: String,
    /// Machine-specific configuration.
    target_config: &'a Config,
    /// Module-specific configuration.
    module_config: &'a Config,
    /// Template-specific configuration, read from the rendered frontmatter.
    template_config: Config,
    home: Option<String>,
}

impl<'a> Template<'a> {
    pub closed spec fn spec_host(&self) -> HostConfig {
        *self.host_config
    }

    pub closed spec fn spec_text(&self) -> Seq<char> {
        self.template_string@
    }

    pub closed spec fn spec_target(&self) -> Config {
        *self.target_config
    }

    pub closed spec fn spec_module(&self) -> Config {
        *self.module_config
    }

    pub closed spec fn spec_template_config(&self) -> Config {
        self.template_config
    }

    /// The home directory found when the template was made.
    pub closed spec fn spec_home(&self) -> Option<Seq<char>> {
        match self.home {
            Some(h) => Some(h@),
            None => None,
        }
    }

    /// The context the body is rendered in, as JSON.
    pub open spec fn spec_context(&self) -> Seq<char> {
        object(body_members(self.spec_host(), self.spec_target(), self.spec_module(), self.spec_home()))
    }

    /// The text that `render_with_warning` renders: the banner, an empty line, the body.
    pub open spec fn spec_text_with_warning(&self) -> Seq<char> {
        banner(comment_prefix(self.spec_template_config())) + "\n"@ + self.spec_text()
    }

    /// A template over the given scopes and home directory.
    pub fn with_home(
        template_string: &str,
        host_config: &'a HostConfig,
        target_config: &'a Config,
        template_config: Config,
        module_config: &'a Config,
        home: Option<String>,
    ) -> (r: Self)
        ensures
            r.spec_host() == *host_config,
            r.spec_text() == template_string@,
            r.spec_target() == *target_config,
            r.spec_module() == *module_config,
            r.spec_template_config() == template_config,
            r.spec_home() == (match home {
                Some(h) => Some(h@),
                None => None,
            }),
    {
        Template {
            host_config,
            template_string: String::from_str(template_string),
            target_config,
            module_config,
            template_config,
            home,
        }
    }

    /// The same template with another template configuration (and the same
    /// home directory).
    pub fn with_config(&self, template_config: Config) -> (r: Template<'a>)
        ensures
            r.spec_host() == self.spec_host(),
            r.spec_text() == self.spec_text(),
            r.spec_target() == self.spec_target(),
            r.spec_module() == self.spec_module(),
            r.spec_template_config() == template_config,
            r.spec_home() == self.spec_home(),
    {
        let home = match &self.home {
            Some(h) => Some(String::from_str(h.as_str())),
            None => None,
        };
        Template::with_home(self.template_string.as_str(), self.host_config, self.target_config, template_config, self.module_config, home)
    }

    /// A template over the given scopes. The home directory is looked up now.
    pub fn new(
        template_string: &str,
        host_config: &'a HostConfig,
        target_config: &'a Config,
        template_config: Config,
        module_config: &'a Config,
    ) -> (r: Self)
        ensures
            r.spec_host() == *host_config,
            r.spec_text() == template_string@,
            r.spec_target() == *target_config,
            r.spec_module() == *module_config,
            r.spec_template_config() == template_config,
    {
        Template::with_home(template_string, host_config, target_config, template_config, module_config, home_dir())
    }

    /// The clipboard command the target configuration selects; an error
    /// when it selects none or an unsupported one.
    pub fn copy_command(&self) -> (r: Result<String, Error>)
        ensures
            match r {
                Ok(c) => copy_command_of(self.spec_target()) == Some(c@),
                Err(e) => copy_command_of(self.spec_target()) is None
                    && reports_clipboard(e.spec_kind(), self.spec_target()),
            },
    {
        match get_text(self.target_config, "clipboard") {
            Some(program) => {
                if same_text(program, "xclip") {
                    Ok(String::from_str("xclip -i -selection clipboard"))
                } else if same_text(program, "xsel") {
                    Ok(String::from_str("xsel -i --clipboard"))
                } else if same_text(program, "pbcopy") {
                    Ok(String::from_str("pbcopy"))
                } else {
                    Err(Error::new(ErrorKind::Clipboard(Some(String::from_str(program)))))
                }
            },
            None => Err(Error::new(ErrorKind::Clipboard(None))),
        }
    }

    /// Where the rendered template goes: the `target_path` text of its
    /// frontmatter, when there is one.
    pub fn target_path(&self) -> (r: Option<&str>)
        ensures
            match r {
                Some(p) => text_entry(self.spec_template_config(), "target_path"@) == Some(p@),
                None => text_entry(self.spec_template_config(), "target_path"@) is None,
            },
    {
        get_text(&self.template_config, "target_path")
    }

    /// The banner that opens the written file, each line commented with the
    /// template's `comment_format` (by default `# `).
    pub fn warning(&self) -> (r: String)
        ensures
            r@ == banner(comment_prefix(self.spec_template_config())),
    {
        let prefix = match get_text(&self.template_config, "comment_format") {
            Some(p) => p,
            None => "# ",
        };
        let mut result = String::new();
        push_line(&mut result, prefix, "!!!!!!!!!!");
        push_line(&mut result, prefix, "Warning!");
        push_line(&mut result, prefix, "This file was generated by Zotfile, an automated config manager.");
        push_line(&mut result, prefix, "Changes may be overwritten from time to time.");
        push_line(&mut result, prefix, "!!!!!!!!!!");
        result
    }

    /// The well-known directories, by name: `home` and `config`, when the
    /// home directory is known.
    pub fn dirs(&self) -> (r: Vec<(String, String)>)
        ensures
            match self.spec_home() {
                Some(h) => r@.len() == 2 && r@[0].0@ == "home"@ && r@[0].1@ == h
                    && r@[1].0@ == "config"@ && r@[1].1@ == config_home(h),
                None => r@.len() == 0,
            },
    {
        let mut out: Vec<(String, String)> = Vec::new();
        match &self.home {
            Some(h) => {
                out.push((String::from_str("home"), String::from_str(h.as_str())));
                out.push((String::from_str("config"), config_home_of(h.as_str())));
            },
            None => {},
        }
        out
    }

    fn dirs_member(&self) -> (r: Vec<char>)
        ensures
            r@ == member("dirs"@, dirs_json(self.spec_home())),
    {
        let mut members: Vec<Vec<char>> = Vec::new();
        match &self.home {
            Some(h) => {
                members.push(text_member("home", h.as_str()));
                let c = config_home_of(h.as_str());
                members.push(text_member("config", c.as_str()));
                assert(views(members@) == seq![
                    member("home"@, quoted(h@)),
                    member("config"@, quoted(config_home(h@))),
                ]);
            },
            None => {
                assert(views(members@) == Seq::<Seq<char>>::empty());
            },
        }
        let obj = write_object(&members);
        let mut out: Vec<char> = Vec::new();
        push_member_key(&mut out, "dirs");
        extend_chars(&mut out, &obj);
        out
    }

    /// The context the body is rendered in, as JSON text.
    pub fn context(&self) -> (r: String)
        ensures
            r@ == self.spec_context(),
    {
        let mut members: Vec<Vec<char>> = Vec::new();
        members.push(host_member(self.host_config));
        members.push(config_member("target", self.target_config));
        members.push(config_member("module", self.module_config));
        members.push(self.dirs_member());
        let ghost base = views(members@);
        assert(base == scope_members(self.spec_host(), self.spec_target(), self.spec_module()).push(
            member("dirs"@, dirs_json(self.spec_home())),
        ));
        let mut copy: Vec<char> = Vec::new();
        push_member_key(&mut copy, "copy_command");
        match self.copy_command() {
            Ok(c) => push_quoted(&mut copy, c.as_str()),
            Err(_) => extend_str(&mut copy, "null"),
        }
        members.push(copy);
        assert(views(members@) == base.push(member("copy_command"@, copy_command_json(self.spec_target()))));
        string_of(&write_object(&members))
    }

    fn render_text(&self, text: &str) -> (r: Result<String, Error>)
        ensures
            body_outcome(r, text@, self.spec_target(), self.spec_context()),
    {
        let cs = chars_of(text);
        let word = chars_of("copy_command");
        if find_in_tag(&cs, &word) {
            match self.copy_command() {
                Ok(_) => {},
                Err(e) => {
                    return Err(e);
                },
            }
        }
        let data = chars_of(self.context().as_str());
        run_engine(text, &data)
    }

    /// Renders the body in its context.
    pub fn render(&self) -> (r: Result<String, Error>)
        ensures
            body_outcome(r, self.spec_text(), self.spec_target(), self.spec_context()),
    {
        self.render_text(self.template_string.as_str())
    }

    /// Renders the banner, an empty line and the body, in the body's context:
    /// the text that is compared with, and written to, the target file.
    pub fn render_with_warning(&self) -> (r: Result<String, Error>)
        ensures
            body_outcome(r, self.spec_text_with_warning(), self.spec_target(), self.spec_context()),
    {
        let mut text = self.warning();
        text.append("\n");
        text.append(self.template_string.as_str());
        self.render_text(text.as_str())
    }
}

/// Rendering a body never reads the template's own configuration, so never
/// its `target_path`: two templates that differ only there (such as a
/// template and its `with_config` copy) have the same outcome.
pub proof fn lemma_render_ignores_template_config(a: Template, b: Template, r: Result<String, Error>)
    requires
        a.spec_host() == b.spec_host(),
        a.spec_text() == b.spec_text(),
        a.spec_target() == b.spec_target(),
        a.spec_module() == b.spec_module(),
        a.spec_home() == b.spec_home(),
    ensures
        body_outcome(r, a.spec_text(), a.spec_target(), a.spec_context())
            == body_outcome(r, b.spec_text(), b.spec_target(), b.spec_context()),
{
}

} // verus!
