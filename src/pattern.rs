//! Regular expressions, through the `regex` crate. What a match yields is
//! named, not stated: the results below are functions of the pattern's text
//! and the searched text alone.

use vstd::prelude::*;
use vstd::string::StringExecFns;
use crate::error::Error;

verus! {

#[verifier::external_type_specification]
#[verifier::external_body]
pub struct ExRegex(regex::Regex);

/// Whether `pattern` compiles (within the crate's default size limit).
pub uninterp spec fn regex_compiles(pattern: Seq<char>) -> bool;

/// Whether `pattern` matches somewhere in `text`.
pub uninterp spec fn regex_finds(pattern: Seq<char>, text: Seq<char>) -> bool;

/// The text of the group named `group` in the first match of `pattern` in
/// `text`; `None` when that group took no part in it.
pub uninterp spec fn regex_group(pattern: Seq<char>, text: Seq<char>, group: Seq<char>) -> Option<
    Seq<char>,
>;

/// The text of the group named `group` in each successive non-overlapping
/// match of `pattern` in `text`.
pub uninterp spec fn regex_groups_each(pattern: Seq<char>, text: Seq<char>, group: Seq<char>) -> Seq<
    Option<Seq<char>>,
>;

/// The text of an optional string.
pub open spec fn opt_text(o: Option<String>) -> Option<Seq<char>> {
    match o {
        Some(s) => Some(s@),
        None => None,
    }
}

/// A compiled regular expression together with its source text. The fields
/// are private and `Pattern::new` is the only constructor, so `re` is always
/// what `source` compiled to: the contracts of the searches below rest on it.
pub struct Pattern {
    source: String,
    re: regex::Regex,
}

/// Relies on `regex::Regex::new`: it succeeds exactly when the pattern compiles.
#[verifier::external_body]
fn compile(pattern: &str) -> (r: Result<regex::Regex, String>)
    ensures
        r is Ok <==> regex_compiles(pattern@),
{
    match regex::Regex::new(pattern) {
        Ok(re) => Ok(re),
        Err(e) => Err(e.to_string()),
    }
}

/// Relies on `regex::Regex::captures`, whose result is read group by group
/// with `regex::Captures::name`: the groups of the first match, if any.
#[verifier::external_body]
fn first_match(p: &Pattern, text: &str, names: &Vec<&str>) -> (r: Option<Vec<Option<String>>>)
    ensures
        r is Some <==> regex_finds(p.source(), text@),
        r matches Some(v) ==> v@.len() == names@.len() && forall|i: int|
            0 <= i < v@.len() ==> opt_text(#[trigger] v@[i]) == regex_group(p.source(), text@, names@[i]@),
{
    match p.re.captures(text) {
        None => None,
        Some(c) => {
            let mut v = Vec::new();
            for n in names.iter() {
                v.push(c.name(n).map(|m| m.as_str().to_string()));
            }
            Some(v)
        },
    }
}

/// Relies on `regex::Regex::captures_iter`, each match read with
/// `regex::Captures::name`: the groups of every successive match.
#[verifier::external_body]
fn every_match(p: &Pattern, text: &str, names: &Vec<&str>) -> (r: Vec<Vec<Option<String>>>)
    ensures
        forall|j: int|
            0 <= j < names@.len() ==> r@.len() == #[trigger] regex_groups_each(p.source(), text@, names@[j]@).len(),
        forall|i: int|
            0 <= i < r@.len() ==> (#[trigger] r@[i])@.len() == names@.len() && forall|j: int|
                0 <= j < names@.len() ==> opt_text(#[trigger] r@[i]@[j]) == regex_groups_each(
                    p.source(),
                    text@,
                    names@[j]@,
                )[i],
{
    let mut all = Vec::new();
    for c in p.re.captures_iter(text) {
        let mut v = Vec::new();
        for n in names.iter() {
            v.push(c.name(n).map(|m| m.as_str().to_string()));
        }
        all.push(v);
    }
    all
}

impl Pattern {
    /// The text the pattern was compiled from.
    pub closed spec fn source(&self) -> Seq<char> {
        self.source@
    }

    /// Compiles `pattern`; a pattern that does not compile is a `Regex` error.
    pub fn new(pattern: &str) -> (r: Result<Pattern, Error>)
        ensures
            r is Ok <==> regex_compiles(pattern@),
            r matches Ok(p) ==> p.source() == pattern@,
            r matches Err(e) ==> e is Regex,
    {
        match compile(pattern) {
            Ok(re) => Ok(Pattern { source: String::from_str(pattern), re }),
            Err(m) => Err(Error::Regex(m)),
        }
    }

    /// The groups `names` of the first match in `text`, if it matches.
    pub fn captures(&self, text: &str, names: &Vec<&str>) -> (r: Option<Vec<Option<String>>>)
        ensures
            r is Some <==> regex_finds(self.source(), text@),
            r matches Some(v) ==> v@.len() == names@.len() && forall|i: int|
                0 <= i < v@.len() ==> opt_text(#[trigger] v@[i]) == regex_group(self.source(), text@, names@[i]@),
    {
        first_match(self, text, names)
    }

    /// The groups `names` of each successive match in `text`.
    pub fn captures_all(&self, text: &str, names: &Vec<&str>) -> (r: Vec<Vec<Option<String>>>)
        ensures
            forall|j: int|
                0 <= j < names@.len() ==> r@.len() == #[trigger] regex_groups_each(self.source(), text@, names@[j]@).len(),
            forall|i: int|
                0 <= i < r@.len() ==> (#[trigger] r@[i])@.len() == names@.len() && forall|j: int|
                    0 <= j < names@.len() ==> opt_text(#[trigger] r@[i]@[j]) == regex_groups_each(
                        self.source(),
                        text@,
                        names@[j]@,
                    )[i],
    {
        every_match(self, text, names)
    }
}

} // verus!
