//! Compiled regular-expression conditions.
//!
//! Edge conditions may test a message against a regular expression. The
//! pattern is compiled once, when a definition is loaded, and the compiled
//! form is kept beside its source text; matching per event reuses it.

use vstd::prelude::*;

verus! {

/// Whether `regex::Regex::new` accepts the pattern. Compilation of a given
/// pattern succeeds or fails deterministically.
pub uninterp spec fn regex_accepts(pattern: Seq<char>) -> bool;

/// Whether the regular expression built from `pattern` matches anywhere in
/// `text`. The answer depends on the two strings alone.
pub uninterp spec fn regex_matches(pattern: Seq<char>, text: Seq<char>) -> bool;

/// A regular expression together with the source text it was compiled from.
///
/// The fields are private: a value can only be made by `compile`, which
/// guarantees that the compiled form was built from the kept source text.
pub struct CompiledRegex {
    pattern: String,
    compiled: regex::Regex,
}

#[verifier::external_type_specification]
#[verifier::external_body]
pub struct ExRegex(regex::Regex);

impl CompiledRegex {
    /// The source text the expression was compiled from.
    pub closed spec fn spec_pattern(self) -> Seq<char> {
        self.pattern@
    }

    /// The source text the expression was compiled from.
    pub fn pattern(&self) -> (r: &String)
        ensures
            r@ == self.spec_pattern(),
    {
        &self.pattern
    }

    /// Relies on `regex::Regex::is_match`: true exactly when the expression
    /// matches anywhere in the text. The compiled field was built from the
    /// kept pattern by `compile`, the only constructor.
    #[verifier::external_body]
    pub fn is_match(&self, text: &str) -> (r: bool)
        ensures
            r == regex_matches(self.spec_pattern(), text@),
    {
        self.compiled.is_match(text)
    }
}

/// Relies on `regex::Regex::new`: compilation succeeds exactly for the
/// patterns the crate accepts, and the compiled value keeps its source text
/// (`Regex::as_str` returns it unchanged).
#[verifier::external_body]
pub fn compile(pattern: &String) -> (r: Option<CompiledRegex>)
    ensures
        r is Some <==> regex_accepts(pattern@),
        r matches Some(c) ==> c.spec_pattern() == pattern@,
{
    match regex::Regex::new(pattern.as_str()) {
        Ok(compiled) => Some(CompiledRegex { pattern: pattern.clone(), compiled }),
        Err(_) => None,
    }
}

} // verus!
