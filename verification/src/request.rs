//! What is decided before a response can be asked for: where the location
//! query comes from, which API key is used, and the address that is fetched.
//! Reading the arguments, the prompt and the environment, and fetching, are
//! left to the caller.

use crate::text::{nat_digits, natural_text};
use vstd::prelude::*;
use vstd::string::{StrSliceExecFns, StringExecFns};

verus! {

/// Whether a character is white space, as `char::is_whitespace` tells.
pub uninterp spec fn white_space(c: char) -> bool;

/// Calls `char::is_whitespace`. Trusted: the outcome is a function of the
/// character alone, named `white_space`.
#[verifier::external_body]
fn is_white_space(c: char) -> (r: bool)
    ensures
        r == white_space(c),
{
    c.is_whitespace()
}

/// Whether a text is blank: it is empty, or made of white space alone, so
/// that nothing is left of it once it is trimmed.
pub open spec fn blank(text: Seq<char>) -> bool {
    forall|i: int| 0 <= i < text.len() ==> white_space(#[trigger] text[i])
}

/// Tells whether a text is blank.
pub fn is_blank(text: &str) -> (r: bool)
    ensures
        r == blank(text@),
{
    let mut all = true;
    for c in it: text.chars()
        invariant
            it.seq() == text@,
            all == blank(text@.subrange(0, it.index() as int)),
    {
        let ghost before = text@.subrange(0, it.index() as int);
        let ghost after = text@.subrange(0, it.index() + 1);
        assert(forall|i: int| 0 <= i < before.len() ==> before[i] == after[i]);
        assert(after[it.index() as int] == c);
        if !is_white_space(c) {
            all = false;
        }
    }
    assert(text@.subrange(0, text@.len() as int) =~= text@);
    all
}

/// Where the location query comes from.
#[derive(Debug, Clone, Copy, PartialEq, Eq)]
pub enum QuerySource {
    /// More than one argument was given: there is no query.
    TooManyArguments,
    /// The one argument is the query.
    Argument,
    /// The user is asked for the query.
    Prompt,
}

/// Where the query comes from, for the number of arguments of a run, the
/// name of the program counted among them, and whether the second is blank.
pub open spec fn query_source_for(count: nat, second_blank: bool) -> QuerySource {
    if count > 2 {
        QuerySource::TooManyArguments
    } else if count == 2 && !second_blank {
        QuerySource::Argument
    } else {
        QuerySource::Prompt
    }
}

/// Where the query comes from, for the arguments of a run, the name of the
/// program being the first of them.
pub open spec fn query_source(args: Seq<Seq<char>>) -> QuerySource {
    query_source_for(args.len(), args.len() == 2 && blank(args[1]))
}

/// Decides where the query comes from, once the arguments are counted and
/// the second is known to be blank or not. More than one argument beside the
/// program's name is refused; one argument that is not blank is the query;
/// otherwise the user is asked.
pub fn query_source_of(count: usize, second_blank: bool) -> (r: QuerySource)
    ensures
        r == query_source_for(count as nat, second_blank),
{
    if count > 2 {
        QuerySource::TooManyArguments
    } else if count == 2 && !second_blank {
        QuerySource::Argument
    } else {
        QuerySource::Prompt
    }
}

/// Decides where the query comes from, for the arguments of a run.
pub fn choose_query_source(args: &Vec<String>) -> (r: QuerySource)
    ensures
        r == query_source(Seq::new(args@.len(), |i: int| args@[i]@)),
{
    let second_blank = args.len() == 2 && is_blank(args[1].as_str());
    query_source_of(args.len(), second_blank)
}

/// The fewest characters of an API key that the user provides.
pub const API_KEY_MIN_LENGTH: usize = 20;

/// Which API key is used.
#[derive(Debug, Clone, Copy, PartialEq, Eq)]
pub enum KeyChoice {
    /// None was provided: the key is read from the environment.
    Environment,
    /// The key provided is too short to be one.
    TooShort,
    /// The key provided is used.
    Provided,
}

/// Which key is used, for whether the key provided is blank and how many
/// characters it has.
pub open spec fn key_choice_for(blank: bool, length: nat) -> KeyChoice {
    if blank {
        KeyChoice::Environment
    } else if length < API_KEY_MIN_LENGTH {
        KeyChoice::TooShort
    } else {
        KeyChoice::Provided
    }
}

/// Which key is used, for the key that the user provided.
pub open spec fn key_choice(provided: Seq<char>) -> KeyChoice {
    key_choice_for(blank(provided), provided.len())
}

/// Decides which API key is used, once the key provided is known to be
/// blank or not and its characters are counted. A blank key sends the caller
/// to the environment; a key of fewer than twenty characters is refused; any
/// other key is used as it is.
pub fn key_choice_of(blank: bool, length: usize) -> (r: KeyChoice)
    ensures
        r == key_choice_for(blank, length as nat),
{
    if blank {
        KeyChoice::Environment
    } else if length < API_KEY_MIN_LENGTH {
        KeyChoice::TooShort
    } else {
        KeyChoice::Provided
    }
}

/// Decides which API key is used, for the key that the user provided.
pub fn choose_api_key(provided: &str) -> (r: KeyChoice)
    ensures
        r == key_choice(provided@),
{
    key_choice_of(is_blank(provided), provided.unicode_len())
}

/// The address of the forecast of a place, air quality included.
pub open spec fn forecast_address(api_key: Seq<char>, query: Seq<char>, days: u32) -> Seq<char> {
    "https://api.weatherapi.com/v1/forecast.json?key="@ + api_key + "&q="@ + query + "&days="@
        + nat_digits(days as nat) + "&aqi=yes"@
}

/// Writes the address that is fetched for a query. Key and query are put in
/// as they are.
pub fn forecast_url(api_key: &str, query: &str, days: u32) -> (r: String)
    ensures
        r@ == forecast_address(api_key@, query@, days),
{
    let mut r = "https://api.weatherapi.com/v1/forecast.json?key=".to_owned();
    r.append(api_key);
    r.append("&q=");
    r.append(query);
    r.append("&days=");
    let count = natural_text(days as u64);
    r.append(count.as_str());
    r.append("&aqi=yes");
    r
}

} // verus!
