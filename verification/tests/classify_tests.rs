use pls::classify::{classify, classify_tokens, route, ClassifiedIntent, ClassifyError, FlagKind, Invocation};

fn toks(words: &[&str]) -> Vec<String> {
    words.iter().map(|w| w.to_string()).collect()
}

fn run(words: &[&str]) -> ClassifiedIntent {
    classify_tokens(&toks(words))
}

#[test]
fn fills_url_then_output() {
    let i = run(&["https://example.com/a", "out.bin"]);
    assert_eq!(i.url.as_deref(), Some("https://example.com/a"));
    assert_eq!(i.output.as_deref(), Some("out.bin"));
    assert!(!i.force);
    assert!(!i.media);
    assert!(!i.rejected);
    assert!(i.errors.is_empty());
}

#[test]
fn url_alone_is_accepted() {
    let i = run(&["https://example.com/a"]);
    assert_eq!(i.url.as_deref(), Some("https://example.com/a"));
    assert_eq!(i.output, None);
    assert!(!i.rejected);
}

#[test]
fn flag_positions_do_not_matter() {
    let orders: [&[&str]; 4] = [
        &["-f", "https://u", "out", "-m"],
        &["https://u", "-f", "-m", "out"],
        &["https://u", "out", "-m", "-f"],
        &["-m", "-f", "https://u", "out"],
    ];
    for words in orders.iter() {
        let i = run(words);
        assert_eq!(i.url.as_deref(), Some("https://u"));
        assert_eq!(i.output.as_deref(), Some("out"));
        assert!(i.force);
        assert!(i.media);
        assert!(!i.rejected);
        assert!(i.errors.is_empty());
    }
}

#[test]
fn long_spellings_set_the_flags() {
    let i = run(&["--force", "https://u", "--media"]);
    assert!(i.force);
    assert!(i.media);
    assert!(!i.rejected);
}

#[test]
fn leading_flag_then_url() {
    let i = run(&["-m", "https://youtube.com/watch?v=1", "/tmp/videos"]);
    assert!(i.media);
    assert!(!i.force);
    assert_eq!(i.url.as_deref(), Some("https://youtube.com/watch?v=1"));
    assert_eq!(i.output.as_deref(), Some("/tmp/videos"));
    assert!(!i.rejected);
}

#[test]
fn force_twice_is_rejected() {
    let i = run(&["-f", "https://u", "--force"]);
    assert!(i.rejected);
    assert!(i.errors.contains(&ClassifyError::FlagReused(FlagKind::Force)));
    assert_eq!(i.url.as_deref(), Some("https://u"));
}

#[test]
fn media_twice_is_rejected() {
    let i = run(&["-m", "-m", "https://x"]);
    assert!(i.rejected);
    assert_eq!(i.errors, vec![ClassifyError::FlagReused(FlagKind::Media)]);
    assert_eq!(i.url.as_deref(), Some("https://x"));
    assert!(i.media);
}

#[test]
fn media_twice_in_late_positions() {
    let i = run(&["https://x", "-m", "out", "--media"]);
    assert!(i.rejected);
    assert!(i.errors.contains(&ClassifyError::FlagReused(FlagKind::Media)));
}

#[test]
fn no_tokens_is_missing_url() {
    let i = run(&[]);
    assert!(i.rejected);
    assert_eq!(i.errors, vec![ClassifyError::MissingUrl]);
    assert_eq!(i.url, None);
}

#[test]
fn only_flags_is_missing_url() {
    let i = run(&["-f", "-m"]);
    assert!(i.rejected);
    assert_eq!(i.errors, vec![ClassifyError::MissingUrl]);
    assert!(i.force);
    assert!(i.media);
}

#[test]
fn third_free_token_is_bad_arguments() {
    let i = run(&["https://u", "out", "extra"]);
    assert!(i.rejected);
    assert_eq!(i.errors, vec![ClassifyError::BadArguments]);
}

#[test]
fn fifth_token_is_too_many() {
    let i = run(&["https://u", "out", "-f", "-m", "extra"]);
    assert!(i.rejected);
    assert_eq!(i.errors, vec![ClassifyError::TooManyArguments]);
}

#[test]
fn errors_accumulate() {
    let i = run(&["-f", "-f", "-f"]);
    assert!(i.rejected);
    assert_eq!(
        i.errors,
        vec![
            ClassifyError::FlagReused(FlagKind::Force),
            ClassifyError::FlagReused(FlagKind::Force),
            ClassifyError::MissingUrl,
        ]
    );
}

#[test]
fn classify_splits_leading_from_rest() {
    let i = classify(&"https://u".to_string(), &toks(&["-f", "out"]));
    assert_eq!(i.url.as_deref(), Some("https://u"));
    assert_eq!(i.output.as_deref(), Some("out"));
    assert!(i.force);
    assert!(!i.rejected);
}

#[test]
fn route_empty_leading_shows_help() {
    let r = route(&String::new(), &toks(&[]));
    assert!(matches!(r, Invocation::ShowHelp));
}

#[test]
fn route_version_spellings() {
    assert!(matches!(route(&"-v".to_string(), &toks(&[])), Invocation::ShowVersion));
    assert!(matches!(route(&"--version".to_string(), &toks(&[])), Invocation::ShowVersion));
}

#[test]
fn route_help_spellings() {
    assert!(matches!(route(&"-h".to_string(), &toks(&[])), Invocation::ShowHelp));
    assert!(matches!(route(&"--help".to_string(), &toks(&[])), Invocation::ShowHelp));
}

#[test]
fn route_update_spellings() {
    assert!(matches!(route(&"-u".to_string(), &toks(&[])), Invocation::RunUpdate));
    assert!(matches!(route(&"--update".to_string(), &toks(&[])), Invocation::RunUpdate));
}

#[test]
fn route_url_proceeds_to_classification() {
    match route(&"https://u".to_string(), &toks(&["out"])) {
        Invocation::Proceed(i) => {
            assert_eq!(i.url.as_deref(), Some("https://u"));
            assert_eq!(i.output.as_deref(), Some("out"));
            assert!(!i.rejected);
        }
        _ => panic!("expected classification"),
    }
}

#[test]
fn route_flag_leading_proceeds() {
    match route(&"-f".to_string(), &toks(&["https://u"])) {
        Invocation::Proceed(i) => {
            assert!(i.force);
            assert_eq!(i.url.as_deref(), Some("https://u"));
        }
        _ => panic!("expected classification"),
    }
}
