//! What one invocation prints: the table of a directory, or one red line
//! when the path does not exist or its existence could not be checked.
use owo_colors::OwoColorize;
use vstd::prelude::*;
use crate::entry::{get_files, listing_records, ChildProbe};
use crate::table::{drawn_table, header_spec, render, rows_spec};

verus! {

/// The outcome of asking whether the path exists.
#[derive(Clone, Copy, Debug, PartialEq, Eq, Structural)]
pub enum PathCheck {
    /// The question itself failed.
    Failed,
    /// The path does not exist.
    Missing,
    /// The path exists.
    Present,
}

/// The path listed: the one given, or the current directory.
pub open spec fn resolved_path(arg: Option<String>) -> Seq<char> {
    match arg {
        Some(p) => p@,
        None => "."@,
    }
}

/// Resolves the optional path argument; without one, the current directory.
pub fn resolve_path(arg: Option<String>) -> (r: String)
    ensures
        r@ == resolved_path(arg),
{
    match arg {
        Some(p) => p,
        None => String::from_str("."),
    }
}

/// Text in red, as owo-colors writes it.
pub open spec fn red_text(s: Seq<char>) -> Seq<char> {
    "\u{1b}[31m"@ + s + "\u{1b}[39m"@
}

/// Relies on owo-colors' `OwoColorize::red` and its `Display`: the text
/// between the ANSI codes for red and for the default foreground.
#[verifier::external_body]
fn paint_red(s: &str) -> (r: String)
    ensures
        r@ == red_text(s@),
{
    format!("{}", s.red())
}

pub open spec fn not_found_text(path: Seq<char>) -> Seq<char> {
    "path '"@ + path + "' does not exixts"@
}

pub open spec fn read_error_text(path: Seq<char>) -> Seq<char> {
    "error reading path '"@ + path + "'"@
}

/// The message for a path that does not exist (its wording is kept as
/// existing users of the tool know it).
pub fn not_found_message(path: &str) -> (r: String)
    ensures
        r@ == not_found_text(path@),
{
    let mut s = String::from_str("path '");
    s.append(path);
    s.append("' does not exixts");
    s
}

/// The message for a path whose existence could not be checked.
pub fn read_error_message(path: &str) -> (r: String)
    ensures
        r@ == read_error_text(path@),
{
    let mut s = String::from_str("error reading path '");
    s.append(path);
    s.append("'");
    s
}

/// What is printed for a path, given the outcome of the existence check and,
/// when the path exists, what reading it as a directory gave.
pub open spec fn output_of(
    path: Seq<char>,
    check: PathCheck,
    listing: Option<Vec<Option<ChildProbe>>>,
) -> Seq<char> {
    match check {
        PathCheck::Failed => red_text(read_error_text(path)),
        PathCheck::Missing => red_text(not_found_text(path)),
        PathCheck::Present => drawn_table(rows_spec(listing_records(listing))),
    }
}

/// The text printed for one invocation: a red error line when the existence
/// check failed or the path is missing; otherwise the table of the records
/// of its children (empty where it could not be read as a directory).
pub fn listing_output(
    path: &str,
    check: PathCheck,
    listing: Option<Vec<Option<ChildProbe>>>,
) -> (r: String)
    ensures
        r@ == output_of(path@, check, listing),
{
    match check {
        PathCheck::Failed => paint_red(read_error_message(path).as_str()),
        PathCheck::Missing => paint_red(not_found_message(path).as_str()),
        PathCheck::Present => render(&get_files(listing)),
    }
}

/// For a path without a line break, the output for a missing path is a
/// single line, and it holds the path as given.
pub proof fn lemma_missing_path_one_line(path: Seq<char>)
    requires
        !path.contains('\n'),
    ensures
        !output_of(path, PathCheck::Missing, None).contains('\n'),
        output_of(path, PathCheck::Missing, None).subrange(11, 11 + path.len() as int) == path,
{
    reveal_strlit("\u{1b}[31m");
    reveal_strlit("\u{1b}[39m");
    reveal_strlit("path '");
    reveal_strlit("' does not exixts");
    let out = output_of(path, PathCheck::Missing, None);
    let pre = "\u{1b}[31m"@ + "path '"@;
    let post = "' does not exixts"@ + "\u{1b}[39m"@;
    assert(pre.len() == 11);
    assert(out =~= pre + path + post);
    assert(out.subrange(11, 11 + path.len() as int) =~= path);
    assert forall|i: int| 0 <= i < out.len() implies out[i] != '\n' by {
        if i < 11 {
            assert(out[i] == pre[i]);
        } else if i < 11 + path.len() {
            assert(out[i] == path[i - 11]);
        } else {
            assert(out[i] == post[i - 11 - path.len()]);
        }
    };
}

/// An existing directory with no children is listed as a table that holds
/// the header row and no other row.
pub proof fn lemma_empty_directory_header_only(path: Seq<char>, children: Vec<Option<ChildProbe>>)
    requires
        children@.len() == 0,
    ensures
        output_of(path, PathCheck::Present, Some(children)) == drawn_table(seq![header_spec()]),
{
    assert(listing_records(Some(children)).len() == 0);
    assert(rows_spec(listing_records(Some(children))) =~= seq![header_spec()]);
}

} // verus!
