use vstd::prelude::*;
use regex_automata::meta::{BuildError, Regex};
use regex_syntax::hir::{Hir, Look};

verus! {

#[verifier::external_type_specification]
#[verifier::external_body]
pub struct ExRegex(Regex);

#[verifier::external_type_specification]
#[verifier::external_body]
pub struct ExBuildError(BuildError);

/// Whether the regex engine accepts the pattern made of a Unicode word
/// boundary, the bytes of `domain` as a literal, and another word boundary.
pub uninterp spec fn pattern_builds(domain: Seq<u8>) -> bool;

/// Whether `name` holds the bytes of `domain` with a Unicode word boundary on
/// each side, as the regex engine finds it.
pub uninterp spec fn word_match(domain: Seq<u8>, name: Seq<char>) -> bool;

/// Relies on regex_syntax's `Hir::look`, `Hir::literal` and `Hir::concat` to
/// form the pattern with the domain as a literal, never as pattern syntax, and
/// on regex_automata's `meta::Builder::build_from_hir` to compile it.
#[verifier::external_body]
fn build_word_regex(domain: &[u8]) -> (r: Result<Regex, BuildError>)
    ensures
        r.is_ok() == pattern_builds(domain@),
{
    let hir = Hir::concat(
        vec![Hir::look(Look::WordUnicode), Hir::literal(domain), Hir::look(Look::WordUnicode)],
    );
    Regex::builder().build_from_hir(&hir)
}

/// A compiled pattern that finds one recipient domain as a whole word.
pub struct DomainPattern {
    domain: Vec<u8>,
    regex: Regex,
}

impl DomainPattern {
    /// The domain this pattern was compiled from.
    pub closed spec fn domain(&self) -> Seq<u8> {
        self.domain@
    }

    /// Compiles the word-bounded pattern of `domain`; `None` where the engine
    /// refuses it.
    pub fn compile(domain: &[u8]) -> (r: Option<DomainPattern>)
        ensures
            r.is_some() == pattern_builds(domain@),
            r matches Some(p) ==> p.domain() == domain@,
    {
        match build_word_regex(domain) {
            Err(_) => None,
            Ok(regex) => {
                let mut copy: Vec<u8> = Vec::new();
                crate::codec::append_bytes(&mut copy, domain);
                Some(DomainPattern { domain: copy, regex })
            },
        }
    }

    /// Whether `name` holds the domain as a whole word.
    pub fn finds(&self, name: &String) -> (r: bool)
        ensures
            r == word_match(self.domain(), name@),
    {
        regex_finds(self, name)
    }
}

/// Relies on regex_automata's `meta::Regex::find`: whether the pattern, which
/// only `DomainPattern::compile` builds from the stored domain, occurs in `name`.
#[verifier::external_body]
fn regex_finds(p: &DomainPattern, name: &String) -> (r: bool)
    ensures
        r == word_match(p.domain(), name@),
{
    p.regex.find(name.as_str()).is_some()
}

} // verus!
