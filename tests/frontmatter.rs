use zotfile::split_frontmatter;

#[test]
fn frontmatter_between_markers() {
    let s = split_frontmatter("---\ntarget_path = \"/tmp/x\"\ncomment_format = \"// \"\n---\nbody one\nbody two\n");
    assert_eq!(s.frontmatter, "target_path = \"/tmp/x\"\ncomment_format = \"// \"\n");
    assert_eq!(s.body, "body one\nbody two\n");
}

#[test]
fn no_marker_means_all_body() {
    let input = "first line\n---\nnot frontmatter\n---\n";
    let s = split_frontmatter(input);
    assert_eq!(s.frontmatter, "");
    assert_eq!(s.body, input);
}

#[test]
fn second_marker_pair_is_body() {
    let s = split_frontmatter("---\na = 1\n---\nx\n---\ny\n---\n");
    assert_eq!(s.frontmatter, "a = 1\n");
    assert_eq!(s.body, "x\n---\ny\n---\n");
}

#[test]
fn unclosed_frontmatter_takes_everything() {
    let s = split_frontmatter("---\na = 1\nb = 2");
    assert_eq!(s.frontmatter, "a = 1\nb = 2");
    assert_eq!(s.body, "");
}

#[test]
fn empty_input() {
    let s = split_frontmatter("");
    assert_eq!(s.frontmatter, "");
    assert_eq!(s.body, "");
}

#[test]
fn empty_frontmatter_block() {
    let s = split_frontmatter("---\n---\nbody\n");
    assert_eq!(s.frontmatter, "");
    assert_eq!(s.body, "body\n");
}

#[test]
fn crlf_lines_and_missing_final_newline() {
    let s = split_frontmatter("---\r\nk = 1\r\n---\r\nline\r\nlast");
    assert_eq!(s.frontmatter, "k = 1\r\n");
    assert_eq!(s.body, "line\r\nlast");
}

#[test]
fn marker_must_be_exact() {
    let s = split_frontmatter("--- \na\n---\n");
    assert_eq!(s.frontmatter, "");
    assert_eq!(s.body, "--- \na\n---\n");
}

#[test]
fn marker_not_on_first_line_is_body() {
    let s = split_frontmatter("\n---\na\n---\n");
    assert_eq!(s.frontmatter, "");
    assert_eq!(s.body, "\n---\na\n---\n");
}

#[test]
fn text_without_frontmatter_is_unchanged() {
    for input in ["abc", "a\r\nb", "x\n\n", "no newline at all", "\r\n"] {
        let s = split_frontmatter(input);
        assert_eq!(s.frontmatter, "");
        assert_eq!(s.body, input);
    }
}
