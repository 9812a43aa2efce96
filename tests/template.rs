use zotfile::{render_metadata, render_module_config, Config, ConfigTree, ErrorKind, HostConfig, Template};

fn alice() -> HostConfig {
    HostConfig::default("alice\n", "box\n", "GNU/Linux\n")
}

fn table(entries: Vec<(&str, ConfigTree)>) -> ConfigTree {
    ConfigTree::Table(entries.into_iter().map(|(k, v)| (k.to_string(), v)).collect())
}

fn text(s: &str) -> ConfigTree {
    ConfigTree::Str(s.to_string())
}

const GREETING: &str = "hello {{host.username}}\n{{#if target.alternate_greeting}}{{target.alternate_greeting.en}}{{else}}Hello!{{/if}}\n";

#[test]
fn test_sanity() {
    assert!(true);
}

#[test]
fn greeting_without_target_config() {
    let host = alice();
    let target: Config = None;
    let module: Config = None;
    let t = Template::new(GREETING, &host, &target, None, &module);
    assert_eq!(t.render().unwrap(), "hello alice\nHello!\n");
}

#[test]
fn greeting_with_target_config() {
    let host = alice();
    let target: Config = Some(table(vec![("alternate_greeting", table(vec![("en", text("greetings!"))]))]));
    let module: Config = None;
    let t = Template::new(GREETING, &host, &target, None, &module);
    assert_eq!(t.render().unwrap(), "hello alice\ngreetings!\n");
}

#[test]
fn render_does_not_need_target_path() {
    let host = alice();
    let target: Config = None;
    let module: Config = None;
    let without = Template::new("plain {{host.platform}}\n", &host, &target, None, &module);
    let with = without.with_config(Some(table(vec![("target_path", text("/tmp/out"))])));
    assert!(without.target_path().is_none());
    assert_eq!(with.target_path(), Some("/tmp/out"));
    assert_eq!(without.render().unwrap(), "plain linux\n");
    assert_eq!(with.render().unwrap(), "plain linux\n");
}

#[test]
fn warning_default_prefix() {
    let host = alice();
    let none: Config = None;
    let t = Template::new("", &host, &none, None, &none);
    assert_eq!(
        t.warning(),
        "# !!!!!!!!!!\n# Warning!\n# This file was generated by Zotfile, an automated config manager.\n# Changes may be overwritten from time to time.\n# !!!!!!!!!!\n"
    );
}

#[test]
fn render_with_warning_uses_comment_format() {
    let host = alice();
    let none: Config = None;
    let tc = Some(table(vec![("comment_format", text("// ")), ("target_path", text("/tmp/a"))]));
    let t = Template::new("x = {{host.username}}\n", &host, &none, tc, &none);
    let expected = "// !!!!!!!!!!\n// Warning!\n// This file was generated by Zotfile, an automated config manager.\n// Changes may be overwritten from time to time.\n// !!!!!!!!!!\n\nx = alice\n";
    assert_eq!(t.render_with_warning().unwrap(), expected);
    assert_eq!(t.render_with_warning().unwrap(), t.render_with_warning().unwrap());
}

#[test]
fn non_text_comment_format_falls_back() {
    let host = alice();
    let none: Config = None;
    let tc = Some(table(vec![("comment_format", ConfigTree::Integer(3))]));
    let t = Template::new("", &host, &none, tc, &none);
    assert!(t.warning().starts_with("# !!!!!!!!!!\n"));
}

fn clipboard(program: &str) -> Config {
    Some(table(vec![("clipboard", text(program))]))
}

#[test]
fn copy_commands() {
    let host = alice();
    let none: Config = None;
    for (program, command) in [
        ("xclip", "xclip -i -selection clipboard"),
        ("xsel", "xsel -i --clipboard"),
        ("pbcopy", "pbcopy"),
    ] {
        let target = clipboard(program);
        let t = Template::new("", &host, &target, None, &none);
        assert_eq!(t.copy_command().unwrap(), command);
    }
}

#[test]
fn unknown_clipboard_is_an_error() {
    let host = alice();
    let none: Config = None;
    let target = clipboard("wl-copy");
    let t = Template::new("", &host, &target, None, &none);
    let e = t.copy_command().unwrap_err();
    assert!(matches!(e.kind(), ErrorKind::Clipboard(Some(p)) if p == "wl-copy"));
}

#[test]
fn missing_clipboard_is_an_error() {
    let host = alice();
    let none: Config = None;
    let t = Template::new("", &host, &none, None, &none);
    assert!(matches!(t.copy_command().unwrap_err().kind(), ErrorKind::Clipboard(None)));
    let target = Some(table(vec![("clipboard", ConfigTree::Boolean(true))]));
    let t = Template::new("", &host, &target, None, &none);
    assert!(matches!(t.copy_command().unwrap_err().kind(), ErrorKind::Clipboard(None)));
}

#[test]
fn template_using_clipboard_needs_one() {
    let host = alice();
    let none: Config = None;
    let t = Template::new("copy: {{copy_command}}\n", &host, &none, None, &none);
    assert!(matches!(t.render().unwrap_err().kind(), ErrorKind::Clipboard(None)));
    let target = clipboard("xsel");
    let t = Template::new("copy: {{copy_command}}\n", &host, &target, None, &none);
    assert_eq!(t.render().unwrap(), "copy: xsel -i --clipboard\n");
}

#[test]
fn context_json() {
    let host = alice();
    let none: Config = None;
    let t = Template::new("", &host, &none, None, &none);
    let ctx = t.context();
    assert!(ctx.starts_with("{\"host\":{\"username\":\"alice\",\"platform\":\"linux\"},\"target\":null,\"module\":null,\"dirs\":{"));
    match dirs::home_dir().and_then(|p| p.into_os_string().into_string().ok()) {
        Some(h) if !h.contains('"') && !h.contains('\\') => {
            let config = if h.is_empty() || h.ends_with('/') { format!("{}.config", h) } else { format!("{}/.config", h) };
            assert!(ctx.ends_with(&format!(
                "\"dirs\":{{\"home\":\"{}\",\"config\":\"{}\"}},\"copy_command\":null}}",
                h, config
            )));
        }
        Some(_) => {}
        None => assert!(ctx.ends_with("\"dirs\":{},\"copy_command\":null}")),
    }
    let target = clipboard("pbcopy");
    let t = Template::new("", &host, &target, None, &none);
    let ctx = t.context();
    assert!(ctx.contains("\"target\":{\"clipboard\":\"pbcopy\"}"));
    assert!(ctx.ends_with(",\"copy_command\":\"pbcopy\"}"));
}

#[test]
fn dirs_follow_home() {
    let host = alice();
    let none: Config = None;
    let t = Template::new("{{dirs.config}}", &host, &none, None, &none);
    let d = t.dirs();
    match dirs::home_dir().and_then(|p| p.into_os_string().into_string().ok()) {
        Some(h) => {
            assert_eq!(d.len(), 2);
            assert_eq!(d[0], ("home".to_string(), h.clone()));
            assert_eq!(d[1].0, "config");
            assert!(d[1].1.ends_with(".config"));
            assert!(d[1].1.starts_with(&h));
        }
        None => assert!(d.is_empty()),
    }
}

#[test]
fn values_of_every_kind_reach_the_engine() {
    let host = alice();
    let none: Config = None;
    let target = Some(table(vec![
        ("quote", text("say \"hi\" \\ back\nnext\ttab")),
        ("n", ConfigTree::Integer(-42)),
        ("big", ConfigTree::Integer(i64::MIN)),
        ("zero", ConfigTree::Integer(0)),
        ("f", ConfigTree::Float("1.5".to_string())),
        ("yes", ConfigTree::Boolean(true)),
        ("no", ConfigTree::Boolean(false)),
        ("when", ConfigTree::Datetime("1979-05-27".to_string())),
        ("list", ConfigTree::Array(vec![ConfigTree::Integer(1), text("two"), ConfigTree::Array(vec![])])),
    ]));
    let t = Template::new(
        "{{{target.quote}}}|{{target.n}}|{{target.big}}|{{target.zero}}|{{target.f}}|{{#if target.yes}}Y{{/if}}{{#if target.no}}N{{/if}}|{{target.when}}|{{#each target.list}}[{{this}}]{{/each}}",
        &host,
        &target,
        None,
        &none,
    );
    assert_eq!(
        t.render().unwrap(),
        "say \"hi\" \\ back\nnext\ttab|-42|-9223372036854775808|0|1.5|Y|1979-05-27|[1][two][[]]"
    );
}

#[test]
fn html_is_escaped_in_double_braces() {
    let host = alice();
    let none: Config = None;
    let target = Some(table(vec![("v", text("a<b"))]));
    let t = Template::new("{{target.v}}", &host, &target, None, &none);
    assert_eq!(t.render().unwrap(), "a&lt;b");
}

#[test]
fn broken_template_is_a_render_error() {
    let host = alice();
    let none: Config = None;
    let t = Template::new("{{#if}}", &host, &none, None, &none);
    assert!(matches!(t.render().unwrap_err().kind(), ErrorKind::Render));
}

#[test]
fn module_config_sees_host_and_target_only() {
    let host = alice();
    let target = Some(table(vec![("name", text("laptop"))]));
    let out = render_module_config("user = \"{{host.username}}\"\nt = \"{{target.name}}\"\nm = \"{{module}}\"\n", &host, &target).unwrap();
    assert_eq!(out, "user = \"alice\"\nt = \"laptop\"\nm = \"\"\n");
}

#[test]
fn frontmatter_sees_module_scope() {
    let host = alice();
    let none: Config = None;
    let module = Some(table(vec![("dir", text("/etc/app"))]));
    let out = render_metadata("target_path = \"{{module.dir}}/conf\"\n{{copy_command}}", &host, &none, &module).unwrap();
    assert_eq!(out, "target_path = \"/etc/app/conf\"\n");
}

#[test]
fn host_from_reports() {
    let host = HostConfig::default("  bob \n", "machine\n", "Darwin\n");
    assert_eq!(host.username(), "bob");
    assert_eq!(host.hostname(), "machine");
    assert!(matches!(host.platform(), zotfile::Platform::Unknown));
    assert_eq!(host.platform().name(), "unknown");
    assert!(matches!(zotfile::classify_platform("GNU/Linux\n"), zotfile::Platform::Linux(None)));
    assert!(matches!(zotfile::classify_platform("Linux"), zotfile::Platform::Unknown));
    assert!(matches!(zotfile::platform_from_name("GNU/Linux"), zotfile::Platform::Linux(None)));
    assert!(matches!(zotfile::platform_from_name(" GNU/Linux"), zotfile::Platform::Unknown));
    let built = HostConfig::new("carol".to_string(), "desk".to_string(), zotfile::Platform::Darwin);
    assert_eq!(built.username(), "carol");
    assert_eq!(built.hostname(), "desk");
    assert_eq!(built.platform().name(), "macos");
    let none: Config = None;
    let t = Template::new("{{host.platform}} {{host.hostname}}.", &built, &none, None, &none);
    assert_eq!(t.render().unwrap(), "macos .");
}

#[test]
fn context_has_five_keys_with_explicit_home() {
    let host = alice();
    let none: Config = None;
    let t = Template::with_home("", &host, &none, None, &none, Some("/home/alice".to_string()));
    assert_eq!(
        t.context(),
        "{\"host\":{\"username\":\"alice\",\"platform\":\"linux\"},\"target\":null,\"module\":null,\"dirs\":{\"home\":\"/home/alice\",\"config\":\"/home/alice/.config\"},\"copy_command\":null}"
    );
    let t = Template::with_home("{{dirs.config}}", &host, &none, None, &none, Some("/root/".to_string()));
    assert_eq!(t.render().unwrap(), "/root/.config");
}

#[test]
fn copy_command_word_in_plain_text_needs_no_clipboard() {
    let host = alice();
    let none: Config = None;
    let t = Template::new("the copy_command key is optional\n", &host, &none, None, &none);
    assert_eq!(t.render().unwrap(), "the copy_command key is optional\n");
    let t = Template::new("{{#if copy_command}}yes{{else}}none{{/if}}", &host, &none, None, &none);
    assert!(matches!(t.render().unwrap_err().kind(), ErrorKind::Clipboard(None)));
}

#[test]
fn partials_are_refused() {
    let host = alice();
    let none: Config = None;
    for text in [
        "{{#*inline \"a\"}}{{> a}}{{/inline}}{{> a}}",
        "{{~ > a}}",
        "{{# > a}}x{{/a}}",
    ] {
        let t = Template::new(text, &host, &none, None, &none);
        assert!(matches!(t.render().unwrap_err().kind(), ErrorKind::UnsupportedTemplate));
    }
    assert!(matches!(
        render_module_config("{{> a}}", &host, &none).unwrap_err().kind(),
        ErrorKind::UnsupportedTemplate
    ));
    let t = Template::new("a > b {{host.username}} >", &host, &none, None, &none);
    assert_eq!(t.render().unwrap(), "a > b alice >");
}

#[test]
fn blocks_in_a_row_are_not_limited() {
    let host = alice();
    let none: Config = None;
    let text = "{{#if host}}x{{else}}y{{/if}}".repeat(300);
    let t = Template::new(&text, &host, &none, None, &none);
    assert_eq!(t.render().unwrap(), "x".repeat(300));
}

fn nested(depth: usize, inner: &str) -> String {
    format!("{}{}{}", "{{#if host}}".repeat(depth), inner, "{{/if}}".repeat(depth))
}

#[test]
fn nesting_is_bounded() {
    let host = alice();
    let none: Config = None;
    let t = Template::new(&nested(64, "x"), &host, &none, None, &none);
    assert_eq!(t.render().unwrap(), "x");
    let t = Template::new(&nested(65, "x"), &host, &none, None, &none);
    assert!(matches!(t.render().unwrap_err().kind(), ErrorKind::UnsupportedTemplate));
    let t = Template::new(&nested(100000, "x"), &host, &none, None, &none);
    assert!(matches!(t.render().unwrap_err().kind(), ErrorKind::UnsupportedTemplate));
}

#[test]
fn else_if_chains_are_bounded() {
    let host = alice();
    let none: Config = None;
    let chain = |n: usize| format!("{{{{#if target}}}}a{}{{{{else}}}}z{{{{/if}}}}", "{{else if target}}b".repeat(n));
    let t = Template::new(&chain(62), &host, &none, None, &none);
    assert_eq!(t.render().unwrap(), "z");
    let t = Template::new(&chain(63), &host, &none, None, &none);
    assert!(matches!(t.render().unwrap_err().kind(), ErrorKind::UnsupportedTemplate));
    let t = Template::new(&chain(50000), &host, &none, None, &none);
    assert!(matches!(t.render().unwrap_err().kind(), ErrorKind::UnsupportedTemplate));
}

#[test]
fn subexpressions_are_bounded() {
    let host = alice();
    let none: Config = None;
    let deep = |n: usize| format!("{{{{#if {}host{}}}}}x{{{{/if}}}}", "(not ".repeat(n), ")".repeat(n));
    let t = Template::new(&nested(63, &deep(32)), &host, &none, None, &none);
    assert_eq!(t.render().unwrap(), "x");
    let t = Template::new(&deep(31), &host, &none, None, &none);
    assert_eq!(t.render().unwrap(), "");
    let t = Template::new(&deep(33), &host, &none, None, &none);
    assert!(matches!(t.render().unwrap_err().kind(), ErrorKind::UnsupportedTemplate));
    let t = Template::new(&deep(100000), &host, &none, None, &none);
    assert!(matches!(t.render().unwrap_err().kind(), ErrorKind::UnsupportedTemplate));
}

#[test]
fn strings_and_comments_are_read_as_the_engine_reads_them() {
    let host = alice();
    let none: Config = None;
    let ok = [
        ("{{#if (eq \"}}\" \"}}\")}}same{{/if}}", "same"),
        ("{{! don't {{/if}} }}kept", " }}kept"),
        ("{{!-- a }} {{/if}} --}}kept", "kept"),
        ("{{{host.username}}}", "alice"),
        ("{{~#if host~}} x {{~/if~}}", "x"),
    ];
    for (text, out) in ok {
        let t = Template::new(text, &host, &none, None, &none);
        assert_eq!(t.render().unwrap(), out, "{}", text);
    }
    for text in ["\\{{x}}", "{{{{raw}}}}{{/if}}{{{{/raw}}}}", "{{lookup host [username]}}", "{{!-- never closed }}"] {
        let t = Template::new(text, &host, &none, None, &none);
        assert!(matches!(t.render().unwrap_err().kind(), ErrorKind::UnsupportedTemplate), "{}", text);
    }
}
