//! The parameters of a transfer, and how they are read from the words of a command line.

use crate::error::Error;
use rusoto_core::Region;
use std::str::FromStr;
use vstd::prelude::*;
use vstd::string::*;

verus! {

/// Whether `field` is the stretch of `text` that starts at `start` and runs up to the next
/// `=`, or up to the end of `text` where no `=` follows.
pub open spec fn is_field(text: Seq<char>, start: int, field: Seq<char>) -> bool {
    &&& 0 <= start
    &&& start + field.len() <= text.len()
    &&& text.subrange(start, start + field.len()) == field
    &&& !field.contains('=')
    &&& (start + field.len() == text.len() || text[start + field.len()] == '=')
}

/// Whether `filter` is what `text` says as a filter: the stretch before its first `=`, and
/// the stretch between that `=` and the next one or the end; nothing where `text` has no `=`.
pub open spec fn reads_as(text: Seq<char>, filter: Option<(String, String)>) -> bool {
    &&& filter is Some <==> text.contains('=')
    &&& filter matches Some((attribute, expected)) ==> {
        &&& is_field(text, 0, attribute@)
        &&& is_field(text, attribute@.len() as int + 1, expected@)
    }
}

/// How often `=` occurs in `text`.
pub open spec fn equals_signs(text: Seq<char>) -> nat {
    text.filter(|c: char| c == '=').len()
}

/// The position of the first `=` of `text` at or after `start`, or `len` where there is none.
fn field_end(text: &str, start: usize, len: usize) -> (end: usize)
    requires
        len == text@.len(),
        start <= len,
    ensures
        start <= end <= len,
        forall|i: int| start <= i < end ==> text@[i] != '=',
        end == len || text@[end as int] == '=',
{
    let mut end: usize = start;
    while end < len
        invariant
            len == text@.len(),
            start <= end <= len,
            forall|i: int| start <= i < end ==> text@[i] != '=',
        decreases len - end,
    {
        if text.get_char(end) == '=' {
            return end;
        }
        end = end + 1;
    }
    end
}

/// Reads a filter written as `attribute=value`.
///
/// The attribute's name is what stands before the first `=`, the expected value what stands
/// between the first `=` and the second one, or the end of the text. A text without `=` is
/// no filter.
pub fn get_filter(value: &str) -> (filter: Option<(String, String)>)
    ensures
        reads_as(value@, filter),
{
    let len = value.unicode_len();
    let split = field_end(value, 0, len);
    if split == len {
        return None;
    }
    let end = field_end(value, split + 1, len);
    let attribute = value.substring_char(0, split).to_owned();
    let expected = value.substring_char(split + 1, end).to_owned();
    Some((attribute, expected))
}

/// Whether a text has the form of a filter, `attribute=value`: whether it holds `=` once.
/// The error is the sentence that tells the operator of the form.
pub fn filter_validator(text: &str) -> (verdict: Result<(), String>)
    ensures
        verdict is Ok <==> equals_signs(text@) == 1,
        verdict matches Err(sentence) ==> sentence@
            == "Filter must follow the pattern attribute=value"@,
{
    let len = text.unicode_len();
    let mut found: usize = 0;
    let mut i: usize = 0;
    while i < len
        invariant
            len == text@.len(),
            i <= len,
            found <= i,
            found == equals_signs(text@.take(i as int)),
        decreases len - i,
    {
        proof {
            reveal(Seq::filter);
            assert(text@.take(i + 1).drop_last() == text@.take(i as int));
        }
        if text.get_char(i) == '=' {
            found = found + 1;
        }
        i = i + 1;
    }
    proof {
        reveal(Seq::filter);
        assert(text@.take(len as int) == text@);
    }
    if found == 1 {
        Ok(())
    } else {
        Err("Filter must follow the pattern attribute=value".to_owned())
    }
}

/// A text with a single `=` is read whole: it is the attribute's name, the `=` and the
/// expected value.
pub proof fn lemma_single_equals_reads_whole(text: Seq<char>, filter: Option<(String, String)>)
    requires
        equals_signs(text) == 1,
        reads_as(text, filter),
    ensures
        filter matches Some((attribute, expected)) && text == attribute@ + seq!['='] + expected@,
{
    let is_equals = |c: char| c == '=';
    let kept = text.filter(is_equals);
    assert(text.contains('=')) by {
        text.lemma_filter_pred(is_equals, 0);
        text.lemma_filter_contains_rev(is_equals, kept[0]);
    }
    let (attribute, expected) = filter->0;
    let n = attribute@.len() as int;
    let end = n + 1 + expected@.len();
    if end < text.len() {
        let head = text.take(end);
        let rest = text.skip(end);
        assert(text == head + rest);
        Seq::filter_distributes_over_add(head, rest, is_equals);
        head.lemma_filter_contains(is_equals, n);
        rest.lemma_filter_contains(is_equals, 0);
    }
}

/// The values that the command line gave, each under its option. `None` where an option
/// was not given.
#[derive(Debug, PartialEq, Eq)]
pub struct Matches {
    /// The URL of the queue to take messages from.
    pub source: Option<String>,
    /// The URL of the queue to send messages to.
    pub dest: Option<String>,
    /// The filter, as `attribute=value`.
    pub filter: Option<String>,
    /// The name of the profile that holds the credentials.
    pub profile: Option<String>,
    /// The name of the region of the two queues.
    pub region: Option<String>,
}

/// The parameters of a transfer.
#[derive(Debug, PartialEq, Eq)]
pub struct Parameters {
    /// The URL of the queue to take messages from.
    pub source: String,
    /// The URL of the queue to send messages to.
    pub destination: String,
    /// The name of an attribute and the value that it must have in a message that is moved.
    /// Without a filter every message is moved.
    pub filter: Option<(String, String)>,
    /// The region of the two queues.
    pub region: Region,
    /// The name of the profile that holds the credentials.
    pub profile: String,
}

/// `rusoto_core::Region`, the region of a service, which rusoto_signature defines. The library
/// hands it on as it got it and looks at nothing in it.
#[verifier::external_type_specification]
#[verifier::external_body]
pub struct ExRegion(Region);

/// What `Region::from_str` of rusoto gives for `name`: the region of that name, if it knows
/// one.
pub uninterp spec fn region_named(name: Seq<char>) -> Option<Region>;

/// Calls `Region::from_str` of rusoto, which lowers the case of `name` and looks it up in a
/// fixed list of region names. The contract is not proved. It claims that the answer depends
/// on `name` alone, and says nothing of which names are known. The error, which only repeats
/// `name`, is dropped.
#[verifier::external_body]
fn parse_region(name: &str) -> (region: Option<Region>)
    ensures
        region == region_named(name@),
{
    Region::from_str(name).ok()
}

/// The region that `matches` names, where it names one that rusoto knows.
pub open spec fn region_of(matches: Matches) -> Option<Region> {
    match matches.region {
        Some(name) => region_named(name@),
        None => None,
    }
}

/// Whether `parameters` is what `matches` gives together with `region`: nothing where a
/// queue, the profile or the region is missing, and else the values as they are, and the
/// filter as it reads.
pub open spec fn assembled(
    matches: Matches,
    region: Option<Region>,
    parameters: Option<Parameters>,
) -> bool {
    &&& parameters is Some <==> {
        &&& matches.source is Some
        &&& matches.dest is Some
        &&& matches.profile is Some
        &&& region is Some
    }
    &&& parameters matches Some(p) ==> {
        &&& Some(p.source) == matches.source
        &&& Some(p.destination) == matches.dest
        &&& Some(p.profile) == matches.profile
        &&& Some(p.region) == region
        &&& match matches.filter {
            Some(text) => reads_as(text@, p.filter),
            None => p.filter is None,
        }
    }
}

/// Whether `matches` names both queues, the profile and a known region, and its filter, if
/// it has one, holds `=` exactly once.
pub open spec fn is_accepted(matches: Matches) -> bool {
    &&& matches.source is Some
    &&& matches.dest is Some
    &&& matches.profile is Some
    &&& region_of(matches) is Some
    &&& matches.filter matches Some(text) ==> equals_signs(text@) == 1
}

impl Parameters {
    /// The parameters that `matches` gives together with `region`, the region that it names.
    /// There are none where a queue, the profile or the region is missing. A filter without
    /// `=` counts as no filter.
    pub fn assemble(matches: Matches, region: Option<Region>) -> (parameters: Option<Parameters>)
        ensures
            assembled(matches, region, parameters),
    {
        let Matches { source, dest, filter, profile, region: _ } = matches;
        let source = match source {
            Some(source) => source,
            None => { return None; },
        };
        let destination = match dest {
            Some(dest) => dest,
            None => { return None; },
        };
        let profile = match profile {
            Some(profile) => profile,
            None => { return None; },
        };
        let filter = match filter {
            Some(text) => get_filter(text.as_str()),
            None => None,
        };
        let region = match region {
            Some(region) => region,
            None => { return None; },
        };
        Some(Parameters { source, destination, filter, region, profile })
    }

    /// The parameters that `matches` gives. There are none where a queue, the profile or
    /// the region is missing, or the region's name is not known. A filter without `=` counts
    /// as no filter.
    pub fn parse_from_matches(matches: Matches) -> (parameters: Option<Parameters>)
        ensures
            assembled(matches, region_of(matches), parameters),
    {
        let region = match &matches.region {
            Some(name) => parse_region(name.as_str()),
            None => None,
        };
        Parameters::assemble(matches, region)
    }
}

/// The parameters of a transfer, from the values that the command line gave.
///
/// They are refused where a queue, the profile or the region is missing, where the region's
/// name is not known, and where a filter is given that does not hold `=` exactly once. A
/// filter that is accepted is the name before its `=` and the value after it.
pub fn get_cli_params(matches: Matches) -> (parameters: Result<Parameters, Error>)
    ensures
        parameters is Ok <==> is_accepted(matches),
        parameters matches Ok(p) ==> {
            &&& assembled(matches, region_of(matches), Some(p))
            &&& matches.filter matches Some(text) ==> {
                &&& p.filter matches Some((attribute, expected))
                &&& text@ == attribute@ + seq!['='] + expected@
            }
        },
        parameters matches Err(error) ==> error == Error::ParameterParseFailed,
{
    let well_formed = match &matches.filter {
        Some(text) => filter_validator(text.as_str()).is_ok(),
        None => true,
    };
    if !well_formed {
        return Err(Error::ParameterParseFailed);
    }
    let ghost given = matches;
    match Parameters::parse_from_matches(matches) {
        Some(parameters) => {
            proof {
                if let Some(text) = given.filter {
                    lemma_single_equals_reads_whole(text@, parameters.filter);
                }
            }
            Ok(parameters)
        },
        None => Err(Error::ParameterParseFailed),
    }
}

} // verus!
