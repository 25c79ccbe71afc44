//! What is logged.

use crate::render::MAX_RECURSION_DEPTH;
use crate::severity::Severity;
use crate::style::{Color, Style};
use vstd::prelude::*;

verus! {

/// An error as text: what it displays, and what each error in the chain of its
/// sources displays, the nearest one first.
pub struct ErrorReport {
    pub message: String,
    pub sources: Vec<String>,
}

/// A message for the log.
#[derive(Copy, Clone)]
pub struct Message<'a> {
    pub severity: Severity,
    pub message: &'a str,
    pub error: Option<&'a ErrorReport>,
    pub module: Option<&'a str>,
    pub line: Option<u32>,
}

/// The prefix that one sub-logger adds.
pub struct PrefixData {
    pub string: String,
    pub color: Color,
}

impl Clone for PrefixData {
    fn clone(&self) -> (copy: Self)
        ensures
            copy == *self,
    {
        PrefixData { string: self.string.clone(), color: self.color }
    }
}

impl PrefixData {
    /// The style in which the prefix is shown: its color and nothing else.
    pub open spec fn look(self) -> Style {
        Style { foreground: Some(self.color), background: None, is_bold: false }
    }

    /// The style in which the prefix is shown.
    pub fn style(&self) -> (style: Style)
        ensures
            style == self.look(),
    {
        self.color.normal()
    }

    /// The prefix, painted in its style.
    pub fn styled(&self) -> (shown: String)
        ensures
            shown@ == self.look().painted(self.string@),
    {
        self.style().paint(self.string.as_str())
    }
}

/// The lines for a chain of sources, each on a new line.
pub open spec fn causes(sources: Seq<String>) -> Seq<char>
    decreases sources.len(),
{
    if sources.len() == 0 {
        Seq::empty()
    } else {
        causes(sources.drop_last()) + "\nCaused by: "@ + sources.last()@
    }
}

impl ErrorReport {
    /// An error without sources.
    pub fn new(message: String) -> (report: Self)
        ensures
            report.message == message,
            report.sources@.len() == 0,
    {
        ErrorReport { message, sources: Vec::new() }
    }

    /// Whether the text of a message can show one more source of the error, or
    /// that there is one more. Otherwise further sources make no difference to
    /// it.
    pub fn needs_source(&self) -> (needs: bool)
        ensures
            needs == (self.sources@.len() <= MAX_RECURSION_DEPTH),
    {
        self.sources.len() <= MAX_RECURSION_DEPTH
    }

    /// Adds the next source in the chain.
    pub fn add_source(&mut self, source: String)
        ensures
            final(self).message == old(self).message,
            final(self).sources@ == old(self).sources@.push(source),
    {
        self.sources.push(source);
    }

    /// The error and all its sources, one per line.
    pub open spec fn described(self) -> Seq<char> {
        "Error: "@ + self.message@ + causes(self.sources@)
    }

    /// The error and all its sources, one per line.
    pub fn gen_error_str(&self) -> (described: String)
        ensures
            described@ == self.described(),
    {
        let mut described = "Error: ".to_owned();
        described.append(self.message.as_str());
        let mut i: usize = 0;
        while i < self.sources.len()
            invariant
                i <= self.sources@.len(),
                described@ == "Error: "@ + self.message@ + causes(self.sources@.take(i as int)),
            decreases self.sources@.len() - i,
        {
            described.append("\nCaused by: ");
            described.append(self.sources[i].as_str());
            i = i + 1;
            assert(self.sources@.take(i as int).drop_last() =~= self.sources@.take(i - 1));
        }
        assert(self.sources@.take(i as int) =~= self.sources@);
        described
    }
}

} // verus!
