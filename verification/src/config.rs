//! The stored credentials: the API key and the default city, kept as the
//! first two lines of a text file.

use crate::text::{
    is_space, lemma_line_end, lemma_trimmed_ends, line_end, line_from, next_line_start, read_line,
    trim, trimmed,
};
use vstd::prelude::*;
use vstd::string::*;

verus! {

/// The API key and the default city of a run.
#[derive(Clone, Debug)]
pub struct Credentials {
    pub api_key: String,
    pub default_city: String,
}

/// The API key that the file text `contents` holds: its first line.
pub open spec fn config_key(contents: Seq<char>) -> Seq<char> {
    line_from(contents, 0)
}

/// The default city that the file text `contents` holds: its second line.
pub open spec fn config_city(contents: Seq<char>) -> Seq<char> {
    line_from(contents, next_line_start(contents, 0))
}

/// The file text that stores `api_key` and `city`: the two, with a line feed
/// between them.
pub open spec fn config_text(api_key: Seq<char>, city: Seq<char>) -> Seq<char> {
    api_key + seq!['\n'] + city
}

/// Whether `s` holds no line feed.
pub open spec fn single_line(s: Seq<char>) -> bool {
    forall|i: int| 0 <= i < s.len() ==> s[i] != '\n'
}

/// Reads the credentials from the text of the file. The first line is the
/// API key and the second the default city; a line that the text lacks
/// gives an empty value.
pub fn parse_config(contents: &str) -> (r: Credentials)
    ensures
        r.api_key@ == config_key(contents@),
        r.default_city@ == config_city(contents@),
{
    let (key, next) = read_line(contents, 0);
    let (city, _) = read_line(contents, next);
    Credentials { api_key: String::from_str(key), default_city: String::from_str(city) }
}

impl Credentials {
    /// Makes the credentials from the two lines that the user typed, each
    /// without the white space around it.
    pub fn from_prompts(key_line: &str, city_line: &str) -> (r: Credentials)
        ensures
            r.api_key@ == trimmed(key_line@),
            r.default_city@ == trimmed(city_line@),
    {
        Credentials {
            api_key: String::from_str(trim(key_line)),
            default_city: String::from_str(trim(city_line)),
        }
    }

    /// Returns the text to store in the file for these credentials.
    pub fn file_text(&self) -> (r: String)
        ensures
            r@ == config_text(self.api_key@, self.default_city@),
    {
        let mut out = self.api_key.clone();
        out.append("\n");
        out.append(self.default_city.as_str());
        proof {
            reveal_strlit("\n");
            assert("\n"@ =~= seq!['\n']);
        }
        out
    }
}

/// A file text of two lines gives back exactly those two lines: the first
/// as the API key, the second as the default city. The first line is one
/// that ends at the line feed, so it does not end in a carriage return.
pub proof fn lemma_two_lines(first: Seq<char>, second: Seq<char>)
    requires
        single_line(first),
        single_line(second),
        first.len() > 0 ==> first.last() != '\r',
    ensures
        config_key(config_text(first, second)) == first,
        config_city(config_text(first, second)) == second,
{
    let s = config_text(first, second);
    let n = first.len() as int;
    lemma_line_end(s, 0, n);
    assert(s.subrange(0, n) =~= first);
    lemma_line_end(s, n + 1, s.len() as int);
    assert(s.subrange(n + 1, s.len() as int) =~= second);
}

/// What follows the second line of a file text does not count: the first
/// two lines are the API key and the default city. Each of the two ends at
/// a line feed, so neither ends in a carriage return.
pub proof fn lemma_later_lines_ignored(first: Seq<char>, second: Seq<char>, rest: Seq<char>)
    requires
        single_line(first),
        single_line(second),
        first.len() > 0 ==> first.last() != '\r',
        second.len() > 0 ==> second.last() != '\r',
    ensures
        config_key(config_text(first, second) + seq!['\n'] + rest) == first,
        config_city(config_text(first, second) + seq!['\n'] + rest) == second,
{
    let s = config_text(first, second) + seq!['\n'] + rest;
    let n = first.len() as int;
    let m = n + 1 + second.len() as int;
    lemma_line_end(s, 0, n);
    assert(s.subrange(0, n) =~= first);
    lemma_line_end(s, n + 1, m);
    assert(s.subrange(n + 1, m) =~= second);
}

/// A file text of one line gives that line as the API key and an empty
/// default city, and an empty file text gives two empty values.
pub proof fn lemma_missing_lines(only: Seq<char>)
    requires
        single_line(only),
    ensures
        config_key(only) == only,
        config_city(only) == Seq::<char>::empty(),
{
    let n = only.len() as int;
    lemma_line_end(only, 0, n);
    assert(only.subrange(0, n) =~= only);
    assert(only.subrange(n, n) =~= Seq::<char>::empty());
}

/// Storing the credentials made from two typed lines and reading the file
/// text back gives the same credentials, where neither trimmed line holds a
/// line feed.
pub proof fn lemma_store_then_read(key_line: Seq<char>, city_line: Seq<char>)
    requires
        single_line(trimmed(key_line)),
        single_line(trimmed(city_line)),
    ensures
        config_key(config_text(trimmed(key_line), trimmed(city_line))) == trimmed(key_line),
        config_city(config_text(trimmed(key_line), trimmed(city_line))) == trimmed(city_line),
{
    lemma_trimmed_ends(key_line);
    assert(is_space('\r'));
    lemma_two_lines(trimmed(key_line), trimmed(city_line));
}

} // verus!
