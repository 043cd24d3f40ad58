//! The sites that can be crawled.

use vstd::prelude::*;
use crate::text::same_text;

verus! {

/// A site that can be crawled.
#[derive(Clone, Copy, Debug, PartialEq, Eq, Hash, Structural)]
pub enum Source {
    AIBase,
    SmolAI,
}

/// A source as it is shown to a client.
#[derive(Clone, Debug)]
pub struct SourceInfo {
    pub id: String,
    pub name: String,
    pub base_url: String,
}

/// The lowercase form of a string, as `str::to_lowercase` gives it.
pub uninterp spec fn lowercase(s: Seq<char>) -> Seq<char>;

/// The lowercase form of `s`.
///
/// Trusted: calls `str::to_lowercase` of the standard library. The result is
/// a function of the characters of `s` alone (the Unicode lowercase mapping);
/// the contract gives it a name and says nothing else of it.
#[verifier::external_body]
fn to_lowercase(s: &str) -> (r: String)
    ensures
        r@ == lowercase(s@),
{
    s.to_lowercase()
}

impl Source {
    pub open spec fn spec_base_url(self) -> Seq<char> {
        match self {
            Source::AIBase => "https://news.aibase.com"@,
            Source::SmolAI => "https://news.smol.ai"@,
        }
    }

    pub open spec fn spec_display_name(self) -> Seq<char> {
        match self {
            Source::AIBase => "AIBase"@,
            Source::SmolAI => "smol.ai"@,
        }
    }

    pub open spec fn spec_id(self) -> Seq<char> {
        match self {
            Source::AIBase => "aibase"@,
            Source::SmolAI => "smolai"@,
        }
    }

    /// The source that a lowercase name stands for: its id, or for smol.ai
    /// also `smol.ai` and `smol`.
    pub open spec fn named(lower: Seq<char>) -> Option<Source> {
        if lower == "aibase"@ {
            Some(Source::AIBase)
        } else if lower == "smolai"@ || lower == "smol.ai"@ || lower == "smol"@ {
            Some(Source::SmolAI)
        } else {
            None
        }
    }

    pub fn base_url(&self) -> (r: &'static str)
        ensures
            r@ == self.spec_base_url(),
    {
        match self {
            Source::AIBase => "https://news.aibase.com",
            Source::SmolAI => "https://news.smol.ai",
        }
    }

    /// The name under which the source's articles are stored and shown.
    pub fn display_name(&self) -> (r: &'static str)
        ensures
            r@ == self.spec_display_name(),
    {
        match self {
            Source::AIBase => "AIBase",
            Source::SmolAI => "smol.ai",
        }
    }

    pub fn id(&self) -> (r: &'static str)
        ensures
            r@ == self.spec_id(),
    {
        match self {
            Source::AIBase => "aibase",
            Source::SmolAI => "smolai",
        }
    }

    /// The source that a name in lowercase stands for.
    pub fn from_lowercase(lower: &str) -> (r: Option<Source>)
        ensures
            r == Source::named(lower@),
    {
        if same_text(lower, "aibase") {
            Some(Source::AIBase)
        } else if same_text(lower, "smolai") || same_text(lower, "smol.ai") || same_text(
            lower,
            "smol",
        ) {
            Some(Source::SmolAI)
        } else {
            None
        }
    }

    /// The source that a name stands for, whatever its case.
    pub fn from_str(s: &str) -> (r: Option<Source>)
        ensures
            r == Source::named(lowercase(s@)),
    {
        let lower = to_lowercase(s);
        Source::from_lowercase(lower.as_str())
    }

    pub fn all() -> (r: Vec<Source>)
        ensures
            r@ == seq![Source::AIBase, Source::SmolAI],
    {
        let mut sources = Vec::new();
        sources.push(Source::AIBase);
        sources.push(Source::SmolAI);
        sources
    }

    pub fn info(&self) -> (r: SourceInfo)
        ensures
            r.describes(*self),
    {
        SourceInfo {
            id: String::from_str(self.id()),
            name: String::from_str(self.display_name()),
            base_url: String::from_str(self.base_url()),
        }
    }
}

impl SourceInfo {
    /// `self` shows `source`: its id, its name and its base URL.
    pub open spec fn describes(self, source: Source) -> bool {
        &&& self.id@ == source.spec_id()
        &&& self.name@ == source.spec_display_name()
        &&& self.base_url@ == source.spec_base_url()
    }
}

impl Default for Source {
    fn default() -> (r: Source)
        ensures
            r == Source::AIBase,
    {
        Source::AIBase
    }
}

/// Every source, as shown to a client.
pub fn get_sources() -> (r: Vec<SourceInfo>)
    ensures
        r@.len() == 2,
        r@[0].describes(Source::AIBase),
        r@[1].describes(Source::SmolAI),
{
    let mut out = Vec::new();
    out.push(Source::AIBase.info());
    out.push(Source::SmolAI.info());
    out
}

} // verus!
