//! The builtin actions' decision logic: argument validation, the decimal
//! threshold parse, and the line-diff threshold verdict. The archive fetch,
//! the build-tool calls, and all file reading stay with the caller; only the
//! text diff itself is computed here, through the diff library.
use vstd::prelude::*;
use crate::text;

verus! {

/// The archive action's arguments: the URL and the destination directory.
pub fn parse_download_args(args: &Vec<String>) -> (r: Result<(String, String), String>)
    ensures
        args@.len() == 0 ==> (r matches Err(e) && e@ == "URL not set in arguments"@),
        args@.len() == 1 ==> (r matches Err(e) && e@ == "output dir not set in arguments"@),
        args@.len() >= 2 ==> (r matches Ok(p) && p.0@ == args.deep_view()[0] && p.1@
            == args.deep_view()[1]),
{
    if args.len() == 0 {
        Err("URL not set in arguments".to_owned())
    } else if args.len() == 1 {
        Err("output dir not set in arguments".to_owned())
    } else {
        Ok((args[0].clone(), args[1].clone()))
    }
}

/// The build action's argument: the directory to configure and build.
pub fn parse_cmake_args(args: &Vec<String>) -> (r: Result<String, String>)
    ensures
        args@.len() == 0 ==> (r matches Err(e) && e@ == "Directory not set"@),
        args@.len() >= 1 ==> (r matches Ok(d) && d@ == args.deep_view()[0]),
{
    if args.len() == 0 {
        Err("Directory not set".to_owned())
    } else {
        Ok(args[0].clone())
    }
}

/// The diff action's arguments: base file, submission file, threshold text.
pub fn parse_diff_args(args: &Vec<String>) -> (r: Result<(String, String, String), String>)
    ensures
        args@.len() == 0 ==> (r matches Err(e) && e@ == "Base file not set"@),
        args@.len() == 1 ==> (r matches Err(e) && e@ == "Submission file not set"@),
        args@.len() == 2 ==> (r matches Err(e) && e@ == "Count not specify"@),
        args@.len() >= 3 ==> (r matches Ok(p) && p.0@ == args.deep_view()[0] && p.1@
            == args.deep_view()[1] && p.2@ == args.deep_view()[2]),
{
    if args.len() == 0 {
        Err("Base file not set".to_owned())
    } else if args.len() == 1 {
        Err("Submission file not set".to_owned())
    } else if args.len() == 2 {
        Err("Count not specify".to_owned())
    } else {
        Ok((args[0].clone(), args[1].clone(), args[2].clone()))
    }
}

/// Whether the character is a decimal digit.
pub open spec fn is_digit(c: char) -> bool {
    '0' as u32 <= c as u32 <= '9' as u32
}

/// The value of a decimal digit character.
pub open spec fn digit_val(c: char) -> nat {
    (c as u32 - '0' as u32) as nat
}

/// A left-to-right decimal scan from an accumulated value: the first
/// non-digit rejects the text, a value past the type's ceiling rejects it as
/// too large, and a clean scan yields the number.
pub open spec fn parse_digits(s: Seq<char>, i: int, acc: nat) -> Result<nat, Seq<char>>
    decreases s.len() - i,
{
    if i < 0 || i >= s.len() {
        Ok(acc)
    } else if !is_digit(s[i]) {
        Err("invalid digit found in string"@)
    } else if acc * 10 + digit_val(s[i]) > usize::MAX {
        Err("number too large to fit in target type"@)
    } else {
        parse_digits(s, i + 1, acc * 10 + digit_val(s[i]))
    }
}

/// What a decimal read of the whole text yields: its value, or the error of
/// a standard integer parse.
pub open spec fn parse_usize_spec(s: Seq<char>) -> Result<nat, Seq<char>> {
    if s.len() == 0 {
        Err("cannot parse integer from empty string"@)
    } else {
        parse_digits(s, 0, 0)
    }
}

/// Reads a decimal number, failing as a standard integer parse does: on an
/// empty text, on the first non-digit character, or on a value too large to
/// hold.
pub fn parse_usize(s: &str) -> (r: Result<usize, String>)
    ensures
        match r {
            Ok(n) => parse_usize_spec(s@) == Ok::<nat, Seq<char>>(n as nat),
            Err(e) => parse_usize_spec(s@) matches Err(m) && e@ == m,
        },
{
    let len = s.unicode_len();
    if len == 0 {
        return Err("cannot parse integer from empty string".to_owned());
    }
    let mut n: usize = 0;
    let mut i: usize = 0;
    while i < len
        invariant
            0 < len == s@.len(),
            i <= len,
            parse_usize_spec(s@) == parse_digits(s@, i as int, n as nat),
        decreases len - i,
    {
        let c = s.get_char(i);
        let code = c as u32;
        if code < 48 || code > 57 {
            proof {
                assert(!is_digit(s@[i as int]));
            }
            return Err("invalid digit found in string".to_owned());
        }
        let d = (code - 48) as usize;
        proof {
            assert(digit_val(s@[i as int]) == d as nat);
        }
        let next = match n.checked_mul(10) {
            Some(m) => m.checked_add(d),
            None => None,
        };
        match next {
            Some(m) => {
                n = m;
                i = i + 1;
            },
            None => {
                return Err("number too large to fit in target type".to_owned());
            },
        }
    }
    Ok(n)
}

/// What the count of non-equal lines in a line diff of two texts is: the
/// diff library determines it from the texts alone.
pub uninterp spec fn line_diff_count(old_text: Seq<char>, new_text: Seq<char>) -> nat;

/// Relies on similar's TextDiff::from_lines: the number of changes in a line
/// diff of the two texts whose tag is not Equal, a pure function of the two
/// texts.
#[verifier::external_body]
fn count_diff_lines(old_text: &str, new_text: &str) -> (r: usize)
    ensures
        r as nat == line_diff_count(old_text@, new_text@),
{
    similar::TextDiff::from_lines(old_text, new_text)
        .iter_all_changes()
        .filter(|change| change.tag() != similar::ChangeTag::Equal)
        .count()
}

/// The threshold verdict on a known diff count: the count is held against
/// the parsed threshold, failing with a line naming both exactly when the
/// count is the greater; a threshold that does not parse fails with the
/// parse's own error.
pub open spec fn diff_verdict_spec(diff: nat, threshold: Seq<char>) -> Result<(), Seq<char>> {
    match parse_usize_spec(threshold) {
        Err(m) => Err(m),
        Ok(t) => if diff > t {
            Err("Diff count "@ + text::dec_chars(diff) + " is greater than "@ + threshold)
        } else {
            Ok(())
        },
    }
}

/// Holds a diff count against the threshold text.
pub fn diff_threshold_check(diff: usize, count_text: &str) -> (r: Result<(), String>)
    ensures
        match r {
            Ok(u) => diff_verdict_spec(diff as nat, count_text@) is Ok,
            Err(e) => diff_verdict_spec(diff as nat, count_text@) matches Err(m) && e@ == m,
        },
{
    match parse_usize(count_text) {
        Err(e) => Err(e),
        Ok(threshold) => {
            if diff > threshold {
                let mut m = "Diff count ".to_owned();
                let d = text::usize_to_string(diff);
                text::append_str(&mut m, d.as_str());
                text::append_str(&mut m, " is greater than ");
                text::append_str(&mut m, count_text);
                proof {
                    assert(m@ =~= "Diff count "@ + text::dec_chars(diff as nat)
                        + " is greater than "@ + count_text@);
                }
                Err(m)
            } else {
                Ok(())
            }
        },
    }
}

/// The line-diff threshold action, on texts already read from the two files:
/// counts the non-equal lines between them and fails when the count exceeds
/// the threshold. Reading the files stays with the caller.
pub fn diff_texts(base_text: &str, submission_text: &str, count_text: &str) -> (r: Result<
    (),
    String,
>)
    ensures
        match r {
            Ok(u) => diff_verdict_spec(
                line_diff_count(base_text@, submission_text@),
                count_text@,
            ) is Ok,
            Err(e) => diff_verdict_spec(line_diff_count(base_text@, submission_text@), count_text@)
                matches Err(m) && e@ == m,
        },
{
    let diff = count_diff_lines(base_text, submission_text);
    diff_threshold_check(diff, count_text)
}

} // verus!
