use canvasbot::builtins::{
    diff_texts, diff_threshold_check, parse_cmake_args, parse_diff_args, parse_download_args,
    parse_usize,
};

fn strings(v: Vec<&str>) -> Vec<String> {
    v.into_iter().map(|s| s.to_string()).collect()
}

#[test]
fn download_args_require_url_and_destination() {
    assert_eq!(
        parse_download_args(&strings(vec![])),
        Err("URL not set in arguments".to_string())
    );
    assert_eq!(
        parse_download_args(&strings(vec!["https://a/b.7z"])),
        Err("output dir not set in arguments".to_string())
    );
    assert_eq!(
        parse_download_args(&strings(vec!["https://a/b.7z", "/tmp/out"])),
        Ok(("https://a/b.7z".to_string(), "/tmp/out".to_string()))
    );
}

#[test]
fn cmake_args_require_a_directory() {
    assert_eq!(parse_cmake_args(&strings(vec![])), Err("Directory not set".to_string()));
    assert_eq!(parse_cmake_args(&strings(vec!["/src"])), Ok("/src".to_string()));
}

#[test]
fn diff_args_require_three_entries() {
    assert_eq!(parse_diff_args(&strings(vec![])), Err("Base file not set".to_string()));
    assert_eq!(
        parse_diff_args(&strings(vec!["base.txt"])),
        Err("Submission file not set".to_string())
    );
    assert_eq!(
        parse_diff_args(&strings(vec!["base.txt", "sub.txt"])),
        Err("Count not specify".to_string())
    );
    assert_eq!(
        parse_diff_args(&strings(vec!["base.txt", "sub.txt", "2"])),
        Ok(("base.txt".to_string(), "sub.txt".to_string(), "2".to_string()))
    );
}

#[test]
fn parses_decimal_thresholds() {
    assert_eq!(parse_usize("0"), Ok(0));
    assert_eq!(parse_usize("42"), Ok(42));
    assert_eq!(parse_usize("18446744073709551615"), Ok(usize::MAX));
}

#[test]
fn rejects_what_a_standard_parse_rejects() {
    assert_eq!(
        parse_usize(""),
        Err("cannot parse integer from empty string".to_string())
    );
    assert_eq!(parse_usize("3a"), Err("invalid digit found in string".to_string()));
    assert_eq!(parse_usize("-3"), Err("invalid digit found in string".to_string()));
    assert_eq!(
        parse_usize("18446744073709551616"),
        Err("number too large to fit in target type".to_string())
    );
}

#[test]
fn three_differing_lines_fail_a_threshold_of_two() {
    let base = "alpha\nbeta\ngamma\ndelta\n";
    let submission = "alpha\n";
    assert_eq!(
        diff_texts(base, submission, "2"),
        Err("Diff count 3 is greater than 2".to_string())
    );
    assert_eq!(diff_texts(base, submission, "3"), Ok(()));
}

#[test]
fn equal_texts_pass_a_zero_threshold_and_changed_ones_fail_it() {
    let text = "one\ntwo\n";
    assert_eq!(diff_texts(text, text, "0"), Ok(()));
    // one replaced line counts as a removal plus an insertion
    assert_eq!(
        diff_texts("one\ntwo\n", "one\nthree\n", "0"),
        Err("Diff count 2 is greater than 0".to_string())
    );
}

#[test]
fn a_threshold_that_does_not_parse_fails_the_action() {
    assert_eq!(
        diff_texts("a\n", "a\n", "two"),
        Err("invalid digit found in string".to_string())
    );
}

#[test]
fn the_verdict_names_both_numbers() {
    assert_eq!(
        diff_threshold_check(7, "5"),
        Err("Diff count 7 is greater than 5".to_string())
    );
    assert_eq!(diff_threshold_check(5, "5"), Ok(()));
    assert_eq!(diff_threshold_check(0, "0"), Ok(()));
}
