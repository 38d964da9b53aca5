use gitsync::branch::{short_branch_name, BranchNameError};

#[test]
fn branch_under_heads_loses_the_prefix() {
    assert_eq!(short_branch_name("refs/heads/main"), Ok("main".to_string()));
    assert_eq!(short_branch_name("refs/heads/staging"), Ok("staging".to_string()));
}

#[test]
fn branch_with_slashes_keeps_them() {
    assert_eq!(short_branch_name("refs/heads/feature/x/y"), Ok("feature/x/y".to_string()));
}

#[test]
fn prefix_is_stripped_once_only() {
    assert_eq!(
        short_branch_name("refs/heads/refs/heads/main"),
        Ok("refs/heads/main".to_string())
    );
}

#[test]
fn prefix_alone_gives_the_empty_name() {
    assert_eq!(short_branch_name("refs/heads/"), Ok(String::new()));
}

#[test]
fn branch_name_may_hold_any_other_character() {
    assert_eq!(short_branch_name("refs/heads/zweig-\u{e4}\u{1f33f} x"), Ok("zweig-\u{e4}\u{1f33f} x".to_string()));
    assert_eq!(short_branch_name("refs/heads/a\rb\tc"), Ok("a\rb\tc".to_string()));
}

#[test]
fn tag_is_not_a_branch() {
    assert_eq!(short_branch_name("refs/tags/v1.0"), Err(BranchNameError::NotUnderHeads));
}

#[test]
fn remote_tracking_reference_is_not_a_branch() {
    assert_eq!(short_branch_name("refs/remotes/origin/main"), Err(BranchNameError::NotUnderHeads));
}

#[test]
fn short_or_empty_reference_is_not_a_branch() {
    assert_eq!(short_branch_name(""), Err(BranchNameError::NotUnderHeads));
    assert_eq!(short_branch_name("main"), Err(BranchNameError::NotUnderHeads));
    assert_eq!(short_branch_name("refs/heads"), Err(BranchNameError::NotUnderHeads));
    assert_eq!(short_branch_name("HEAD"), Err(BranchNameError::NotUnderHeads));
}

#[test]
fn prefix_must_stand_at_the_start() {
    assert_eq!(short_branch_name(" refs/heads/main"), Err(BranchNameError::NotUnderHeads));
    assert_eq!(short_branch_name("x/refs/heads/main"), Err(BranchNameError::NotUnderHeads));
    assert_eq!(short_branch_name("\nrefs/heads/main"), Err(BranchNameError::NotUnderHeads));
}

#[test]
fn prefix_is_case_sensitive() {
    assert_eq!(short_branch_name("refs/Heads/main"), Err(BranchNameError::NotUnderHeads));
    assert_eq!(short_branch_name("REFS/HEADS/main"), Err(BranchNameError::NotUnderHeads));
}

#[test]
fn line_break_after_the_prefix_is_refused() {
    assert_eq!(short_branch_name("refs/heads/main\n"), Err(BranchNameError::LineBreak));
    assert_eq!(short_branch_name("refs/heads/\nmain"), Err(BranchNameError::LineBreak));
    assert_eq!(short_branch_name("refs/heads/a\nb"), Err(BranchNameError::LineBreak));
    assert_eq!(short_branch_name("refs/heads/\n"), Err(BranchNameError::LineBreak));
}

#[test]
fn missing_prefix_is_reported_before_a_line_break() {
    assert_eq!(short_branch_name("refs/tags/a\nb"), Err(BranchNameError::NotUnderHeads));
}

fn by_pattern(advertised: &str) -> Option<String> {
    let pattern = regex::Regex::new(r"^(refs/heads/)(.*)$").unwrap();
    pattern.captures(advertised).map(|found| found[2].to_string())
}

#[test]
fn short_names_are_those_of_the_pattern() {
    let samples = [
        "",
        "r",
        "refs",
        "refs/",
        "refs/heads",
        "refs/heads/",
        "refs/heads/m",
        "refs/heads/main",
        "refs/heads/main\n",
        "refs/heads/\n",
        "refs/heads/a\nb",
        "refs/heads/a\r\nb",
        "refs/heads/a\rb",
        "refs/heads/a\u{0}b",
        "refs/heads/a\u{2028}b",
        "refs/heads/a\u{85}b",
        "refs/heads/\u{1f980}",
        "refs/heads/refs/heads/x",
        "refs/heads//",
        "refs/headsmain",
        "refs/head/main",
        "refs/tags/v1",
        "refs/tags/v1\n",
        "Refs/heads/main",
        "\nrefs/heads/main",
        "x\nrefs/heads/main",
        "refs/heads/main x",
        " refs/heads/main",
        "refs/remotes/origin/HEAD",
    ];
    for advertised in samples {
        assert_eq!(short_branch_name(advertised).ok(), by_pattern(advertised), "{:?}", advertised);
    }
}

#[test]
fn short_names_are_those_of_the_pattern_for_every_tail_of_three() {
    let alphabet = ['a', '/', '\n', '\r', 's', '\u{e9}'];
    for a in alphabet {
        for b in alphabet {
            for c in alphabet {
                let tail: String = [a, b, c].iter().collect();
                let under_heads = format!("refs/heads/{}", tail);
                assert_eq!(short_branch_name(&under_heads).ok(), by_pattern(&under_heads));
                let cut = format!("refs/head{}", tail);
                assert_eq!(short_branch_name(&cut).ok(), by_pattern(&cut));
            }
        }
    }
}
