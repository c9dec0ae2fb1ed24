use hl_prep::codeblock::unwrap_codeblock;
use hl_prep::pipeline::Config;
use hl_prep::pipeline::SyntaxMode;
use hl_prep::pipeline::normalize;

fn unwrap_only() -> Config {
    Config {
        unwrap_codeblock: true,
        strip_ansi: false,
        ..Config::default()
    }
}

#[test]
fn unwraps_fenced_block_with_tag() {
    assert_eq!(unwrap_codeblock("```rs\nfoo\n```"), "foo\n");
    assert_eq!(normalize("```rs\nfoo\n```", &unwrap_only()), "foo\n");
}

#[test]
fn consumes_trailing_newline_after_closing_fence() {
    assert_eq!(unwrap_codeblock("```rs\nfoo\n```\n"), "foo\n");
    assert_eq!(normalize("```rs\nfoo\n```\n", &unwrap_only()), "foo\n");
}

#[test]
fn consumes_crlf_after_closing_fence() {
    assert_eq!(unwrap_codeblock("```rs\nfoo\n```\r\n"), "foo\n");
}

#[test]
fn whitespace_in_first_line_breaks_the_match() {
    assert_eq!(unwrap_codeblock("``` rs\nfoo\n```"), "``` rs\nfoo\n```");
    assert_eq!(normalize("``` rs\nfoo\n```", &unwrap_only()), "``` rs\nfoo\n```");
}

#[test]
fn non_breaking_space_in_tag_breaks_the_match() {
    let t = "```a\u{a0}b\nfoo\n```";
    assert_eq!(unwrap_codeblock(t), t);
}

#[test]
fn missing_closing_fence_leaves_input_unchanged() {
    assert_eq!(unwrap_codeblock("```rs\nfoo"), "```rs\nfoo");
    assert_eq!(normalize("```rs\nfoo", &unwrap_only()), "```rs\nfoo");
}

#[test]
fn text_without_leading_fence_is_unchanged() {
    assert_eq!(unwrap_codeblock("hello\nworld"), "hello\nworld");
    assert_eq!(unwrap_codeblock("x ```\nfoo\n```"), "x ```\nfoo\n```");
}

#[test]
fn text_without_newline_is_unchanged() {
    assert_eq!(unwrap_codeblock(""), "");
    assert_eq!(unwrap_codeblock("```rs foo```"), "```rs foo```");
}

#[test]
fn empty_tag_and_empty_body() {
    assert_eq!(unwrap_codeblock("```\nfoo\n```"), "foo\n");
    assert_eq!(unwrap_codeblock("```\n```"), "");
}

#[test]
fn multibyte_tag_is_accepted() {
    assert_eq!(unwrap_codeblock("```caf\u{e9}\nbar\n```"), "bar\n");
}

#[test]
fn overlapping_fences_leave_input_unchanged() {
    // The first line break sits inside the matched closing form: there is
    // no substring strictly between the two fences.
    assert_eq!(unwrap_codeblock("``````\n"), "``````\n");
    assert_eq!(unwrap_codeblock("```\n"), "```\n");
}

#[test]
fn second_unwrap_is_a_no_op_match_failure() {
    let once = unwrap_codeblock("```rs\nfoo\n```");
    assert_eq!(once, "foo\n");
    assert_eq!(unwrap_codeblock(once), once);
}

#[test]
fn stripping_removes_escape_bytes_and_nothing_else() {
    let config = Config::default();
    assert!(config.strip_ansi && !config.unwrap_codeblock);
    let out = normalize("\u{1b}[32mfoo\u{1b}[m bar", &config);
    assert_eq!(out, "foo bar");
    assert!(out.chars().all(|c| c != '\u{1b}'));
}

#[test]
fn unwrap_runs_before_strip() {
    // An escape sequence straddling the opening fence hides the fence from
    // the unwrapper; stripping first would reveal it.  The two orders must
    // disagree here.
    let t = "\u{1b}[1m```rs\n\u{1b}[31mfoo\u{1b}[0m\n```";
    let config = Config {
        unwrap_codeblock: true,
        strip_ansi: true,
        ..Config::default()
    };
    let unwrap_then_strip = normalize(t, &config);
    let strip_then_unwrap = unwrap_codeblock(&strip_ansi_escapes::strip_str(t)).to_string();
    assert_eq!(unwrap_then_strip, "```rs\nfoo\n```");
    assert_eq!(strip_then_unwrap, "foo\n");
    assert_ne!(unwrap_then_strip, strip_then_unwrap);
}

#[test]
fn escapes_in_the_body_survive_unwrapping_when_stripping_is_off() {
    let t = "```rs\n\u{1b}[31mfoo\u{1b}[0m\n```";
    assert_eq!(
        normalize(t, &unwrap_only()),
        "\u{1b}[31mfoo\u{1b}[0m\n"
    );
}

#[test]
fn default_config_matches_the_documented_policy() {
    let config = Config::default();
    assert!(!config.unwrap_codeblock);
    assert!(config.strip_ansi);
    assert_eq!(config.syntax_mode, SyntaxMode::Markup);
    assert!(!config.discord_compatible);
    assert_eq!(config.soft_size_limit, None);
}

#[test]
fn normalize_with_both_switches_off_copies_the_input() {
    let config = Config {
        unwrap_codeblock: false,
        strip_ansi: false,
        ..Config::default()
    };
    assert_eq!(normalize("```rs\nfoo\n```", &config), "```rs\nfoo\n```");
}
