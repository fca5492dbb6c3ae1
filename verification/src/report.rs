//! The document structure of the report: a recursive tree of entries,
//! grouped into titled sections.

use vstd::prelude::*;
use vstd::string::StringExecFns;

use crate::format::Format;

verus! {

broadcast use vstd::std_specs::vec::group_vec_axioms;

/// A fenced block of code or terminal output, with an optional language tag
/// used as a rendering hint.
pub struct Code {
    pub language: Option<String>,
    pub code: String,
}

/// One collector's output: a finite tree of text, code blocks, bullet lists
/// and plain concatenations.
pub enum ReportEntry {
    Text(String),
    Code(Code),
    List(Vec<ReportEntry>),
    Concat(Vec<ReportEntry>),
}

/// Mathematical model of a [`ReportEntry`] tree.
pub enum EntryV {
    Text(Seq<char>),
    Code(Option<Seq<char>>, Seq<char>),
    List(Seq<EntryV>),
    Concat(Seq<EntryV>),
}

/// The model of one entry.
pub open spec fn entry_view(e: ReportEntry) -> EntryV
    decreases e,
{
    match e {
        ReportEntry::Text(s) => EntryV::Text(s@),
        ReportEntry::Code(c) => EntryV::Code(
            match c.language {
                Some(l) => Some(l@),
                None => None,
            },
            c.code@,
        ),
        ReportEntry::List(es) => EntryV::List(entry_views(es@)),
        ReportEntry::Concat(es) => EntryV::Concat(entry_views(es@)),
    }
}

/// The models of a sequence of entries, element by element.
pub open spec fn entry_views(es: Seq<ReportEntry>) -> Seq<EntryV>
    decreases es,
{
    Seq::new(
        es.len(),
        |i: int|
            if 0 <= i < es.len() {
                entry_view(es[i])
            } else {
                EntryV::Text(Seq::empty())
            },
    )
}

impl View for ReportEntry {
    type V = EntryV;

    open spec fn view(&self) -> EntryV {
        entry_view(*self)
    }
}

/// One titled section of a report: a collector's description paired with
/// what it collected (or the text of its failure).
pub struct ReportSection {
    pub title: String,
    pub entry: ReportEntry,
}

/// Mathematical model of a [`ReportSection`].
pub struct SectionV {
    pub title: Seq<char>,
    pub entry: EntryV,
}

impl View for ReportSection {
    type V = SectionV;

    open spec fn view(&self) -> SectionV {
        SectionV { title: self.title@, entry: self.entry@ }
    }
}

/// An assembled report: the sections of all registered collectors, in
/// registration order.
pub struct Report {
    pub sections: Vec<ReportSection>,
}

impl View for Report {
    type V = Seq<SectionV>;

    open spec fn view(&self) -> Seq<SectionV> {
        Seq::new(self.sections@.len(), |i: int| self.sections@[i]@)
    }
}

impl Report {
    /// Renders the whole report with the given format: each section's
    /// heading, then its entry, then a blank separator line.
    pub fn format_as<F: crate::format::Format>(&self, format: &mut F) -> (r: String)
        ensures
            r@ == crate::format::rendered_report::<F>(self@, 0),
    {
        let mut r = String::new();
        let mut i: usize = 0;
        proof {
            assert(r@ + crate::format::rendered_report::<F>(self@, 0)
                =~= crate::format::rendered_report::<F>(self@, 0));
        }
        while i < self.sections.len()
            invariant
                i <= self.sections@.len(),
                crate::format::rendered_report::<F>(self@, 0) == r@
                    + crate::format::rendered_report::<F>(self@, i as int),
            decreases self.sections@.len() - i,
        {
            let ghost r0 = r@;
            let heading = format.format_section(self.sections[i].title.as_str());
            r.append(heading.as_str());
            let body = format.format_entry(&self.sections[i].entry);
            r.append(body.as_str());
            r.append("\n");
            proof {
                reveal_strlit("\n");
                assert(self@[i as int] == self.sections@[i as int]@);
                assert(r@ =~= r0 + F::spec_section(self@[i as int].title)
                    + crate::format::rendered_entry::<F>(self@[i as int].entry) + seq!['\n']);
                assert(crate::format::rendered_report::<F>(self@, 0) =~= r@
                    + crate::format::rendered_report::<F>(self@, i + 1));
            }
            i = i + 1;
        }
        proof {
            assert(crate::format::rendered_report::<F>(self@, i as int) =~= Seq::<char>::empty());
            assert(r@ =~= crate::format::rendered_report::<F>(self@, 0));
        }
        r
    }

    /// Renders the whole report as markdown.
    pub fn to_markdown(&self) -> (r: String)
        ensures
            r@ == crate::format::rendered_report::<crate::format::Markdown>(self@, 0),
    {
        let mut format = crate::format::Markdown {  };
        self.format_as(&mut format)
    }
}

impl ReportEntry {
    /// Renders one entry as markdown.
    pub fn to_markdown(&self) -> (r: String)
        ensures
            r@ == crate::format::rendered_entry::<crate::format::Markdown>(self@),
    {
        let mut format = crate::format::Markdown {  };
        format.format_entry(self)
    }
}

} // verus!
