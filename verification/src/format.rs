//! Rendering of a report into text: a pluggable format chooses how section
//! headings and code blocks look, while text, lists and concatenations are
//! laid out the same way everywhere.

use vstd::prelude::*;
use vstd::string::StringExecFns;

use crate::report::{EntryV, ReportEntry, SectionV};

verus! {

broadcast use vstd::std_specs::vec::group_vec_axioms, vstd::seq::group_seq_axioms;

/// What distinguishes one output format from another: how it writes a
/// section heading and how it writes a block of code.
pub trait FormatStyle {
    /// The heading line(s) produced for a section title.
    spec fn spec_section(title: Seq<char>) -> Seq<char>;

    /// The text produced for a code block with an optional language tag.
    spec fn spec_code(language: Option<Seq<char>>, code: Seq<char>) -> Seq<char>;
}

/// The text an entry renders to, in format `F`: text gains a trailing
/// newline, code is written as `F` has it, list children get a `- ` marker,
/// concatenation children follow each other unmarked.
pub open spec fn rendered_entry<F: FormatStyle>(e: EntryV) -> Seq<char>
    decreases e, 1int,
{
    match e {
        EntryV::Text(s) => s + seq!['\n'],
        EntryV::Code(language, code) => F::spec_code(language, code),
        EntryV::List(es) => rendered_entries::<F>(es, 0, true),
        EntryV::Concat(es) => rendered_entries::<F>(es, 0, false),
    }
}

/// The text of the entries of `es` from index `i` on, each prefixed with a
/// bullet marker when `bullet` is set.
pub open spec fn rendered_entries<F: FormatStyle>(es: Seq<EntryV>, i: int, bullet: bool) -> Seq<
    char,
>
    decreases es, es.len() - i, 0int,
{
    if i < 0 || i >= es.len() {
        Seq::empty()
    } else {
        (if bullet {
            seq!['-', ' ']
        } else {
            Seq::<char>::empty()
        }) + rendered_entry::<F>(es[i]) + rendered_entries::<F>(es, i + 1, bullet)
    }
}

/// The text a whole report renders to in format `F`: for each section, its
/// heading, its entry and a separating blank line.
pub open spec fn rendered_report<F: FormatStyle>(sections: Seq<SectionV>, i: int) -> Seq<char>
    decreases sections.len() - i,
{
    if i < 0 || i >= sections.len() {
        Seq::empty()
    } else {
        F::spec_section(sections[i].title) + rendered_entry::<F>(sections[i].entry) + seq!['\n']
            + rendered_report::<F>(sections, i + 1)
    }
}

/// A report output format: renders one section heading and one entry tree at
/// a time.
pub trait Format: FormatStyle + Default {
    /// Renders a section heading from a title.
    fn format_section(&mut self, title: &str) -> (r: String)
        ensures
            r@ == Self::spec_section(title@),
    ;

    /// Renders one entry, recursively.
    fn format_entry(&mut self, entry: &ReportEntry) -> (r: String)
        ensures
            r@ == rendered_entry::<Self>(entry@),
    ;
}

/// Markdown-like output: `####` headings and fenced code blocks.
#[derive(Default)]
pub struct Markdown {}

impl FormatStyle for Markdown {
    open spec fn spec_section(title: Seq<char>) -> Seq<char> {
        seq!['#', '#', '#', '#', ' '] + title + seq!['\n', '\n']
    }

    open spec fn spec_code(language: Option<Seq<char>>, code: Seq<char>) -> Seq<char> {
        seq!['`', '`', '`'] + (match language {
            Some(l) => l,
            None => Seq::<char>::empty(),
        }) + seq!['\n'] + code + seq!['\n', '`', '`', '`', '\n']
    }
}

impl Format for Markdown {
    fn format_section(&mut self, title: &str) -> (r: String)
        ensures
            r@ == Self::spec_section(title@),
    {
        let mut r = String::new();
        r.append("#### ");
        r.append(title);
        r.append("\n\n");
        proof {
            reveal_strlit("#### ");
            reveal_strlit("\n\n");
            assert(r@ =~= Self::spec_section(title@));
        }
        r
    }

    fn format_entry(&mut self, entry: &ReportEntry) -> (r: String)
        ensures
            r@ == rendered_entry::<Self>(entry@),
        decreases entry, 2int,
    {
        match entry {
            ReportEntry::Text(s) => {
                let mut r = s.clone();
                r.append("\n");
                proof {
                    reveal_strlit("\n");
                    assert(r@ =~= rendered_entry::<Self>(entry@));
                }
                r
            },
            ReportEntry::Code(c) => {
                let mut r = String::new();
                r.append("```");
                match &c.language {
                    Some(l) => r.append(l.as_str()),
                    None => (),
                }
                r.append("\n");
                r.append(c.code.as_str());
                r.append("\n```\n");
                proof {
                    reveal_strlit("```");
                    reveal_strlit("\n");
                    reveal_strlit("\n```\n");
                    assert(r@ =~= rendered_entry::<Self>(entry@));
                }
                r
            },
            ReportEntry::List(es) => self.format_children(es, true),
            ReportEntry::Concat(es) => self.format_children(es, false),
        }
    }
}

impl Markdown {
    fn format_children(&mut self, es: &Vec<ReportEntry>, bullet: bool) -> (r: String)
        ensures
            r@ == rendered_entries::<Markdown>(crate::report::entry_views(es@), 0, bullet),
        decreases es, 1int,
    {
        let ghost vs = crate::report::entry_views(es@);
        let mut r = String::new();
        let mut i: usize = 0;
        proof {
            assert(r@ + rendered_entries::<Markdown>(vs, 0, bullet) =~= rendered_entries::<
                Markdown,
            >(vs, 0, bullet));
        }
        while i < es.len()
            invariant
                i <= es@.len(),
                vs == crate::report::entry_views(es@),
                rendered_entries::<Markdown>(vs, 0, bullet) == r@ + rendered_entries::<Markdown>(
                    vs,
                    i as int,
                    bullet,
                ),
            decreases es@.len() - i,
        {
            let ghost r0 = r@;
            if bullet {
                r.append("- ");
                proof {
                    reveal_strlit("- ");
                }
            }
            let child = self.format_entry(&es[i]);
            r.append(child.as_str());
            proof {
                assert(vs[i as int] == es@[i as int]@);
                assert(r@ =~= r0 + (if bullet {
                    seq!['-', ' ']
                } else {
                    Seq::<char>::empty()
                }) + rendered_entry::<Markdown>(vs[i as int]));
                assert(rendered_entries::<Markdown>(vs, 0, bullet) =~= r@ + rendered_entries::<
                    Markdown,
                >(vs, i + 1, bullet));
            }
            i = i + 1;
        }
        proof {
            assert(rendered_entries::<Markdown>(vs, i as int, bullet) =~= Seq::<char>::empty());
            assert(r@ =~= rendered_entries::<Markdown>(vs, 0, bullet));
        }
        r
    }
}

/// A failed collector's substituted section body renders, in every format,
/// to text that starts with the failure reason, so the reason is visible in
/// the report.
pub proof fn lemma_failure_reason_visible<F: FormatStyle>(reason: Seq<char>)
    ensures
        rendered_entry::<F>(EntryV::Text(reason)).len() >= reason.len(),
        rendered_entry::<F>(EntryV::Text(reason)).subrange(0, reason.len() as int) == reason,
{
    assert(rendered_entry::<F>(EntryV::Text(reason)).subrange(0, reason.len() as int) =~= reason);
}

/// Rendering is a pure function of the entry tree: rendering equal trees in
/// the same format, any number of times, gives identical text.
pub proof fn lemma_render_deterministic<F: FormatStyle>(first: EntryV, second: EntryV)
    requires
        first == second,
    ensures
        rendered_entry::<F>(first) == rendered_entry::<F>(second),
{
}

/// `n` dashes (none when `n` is negative).
pub open spec fn dashes(n: int) -> Seq<char> {
    Seq::new(
        if n >= 0 {
            n as nat
        } else {
            0
        },
        |i: int| '-',
    )
}

fn dashes_string(n: usize) -> (r: String)
    ensures
        r@ == dashes(n as int),
{
    let mut r = String::new();
    let mut i: usize = 0;
    while i < n
        invariant
            i <= n,
            r@ == dashes(i as int),
        decreases n - i,
    {
        r.append("-");
        proof {
            reveal_strlit("-");
            assert(r@ =~= dashes(i + 1));
        }
        i = i + 1;
    }
    r
}

/// Plain text output: headings centered in a dashed separator line, code
/// blocks written bare.
#[derive(Default)]
pub struct Plaintext {}

impl FormatStyle for Plaintext {
    /// The title centered within a separator line of width 48, padded with
    /// dashes; a longer title stands alone.
    open spec fn spec_section(title: Seq<char>) -> Seq<char> {
        if title.len() >= 48 {
            title + seq!['\n']
        } else {
            let pad = 48 - title.len();
            dashes(pad / 2) + title + dashes(pad - pad / 2) + seq!['\n']
        }
    }

    open spec fn spec_code(language: Option<Seq<char>>, code: Seq<char>) -> Seq<char> {
        code + seq!['\n']
    }
}

impl Format for Plaintext {
    fn format_section(&mut self, title: &str) -> (r: String)
        ensures
            r@ == Self::spec_section(title@),
    {
        let len: usize = title.unicode_len();
        if len >= 48 {
            let mut r = title.to_owned();
            r.append("\n");
            proof {
                reveal_strlit("\n");
                assert(r@ =~= Self::spec_section(title@));
            }
            r
        } else {
            let pad: usize = 48 - len;
            let left: usize = pad / 2;
            let mut r = dashes_string(left);
            r.append(title);
            let right = dashes_string(pad - left);
            r.append(right.as_str());
            r.append("\n");
            proof {
                reveal_strlit("\n");
                assert(r@ =~= Self::spec_section(title@));
            }
            r
        }
    }

    fn format_entry(&mut self, entry: &ReportEntry) -> (r: String)
        ensures
            r@ == rendered_entry::<Self>(entry@),
        decreases entry, 2int,
    {
        match entry {
            ReportEntry::Text(s) => {
                let mut r = s.clone();
                r.append("\n");
                proof {
                    reveal_strlit("\n");
                    assert(r@ =~= rendered_entry::<Self>(entry@));
                }
                r
            },
            ReportEntry::Code(c) => {
                let mut r = c.code.clone();
                r.append("\n");
                proof {
                    reveal_strlit("\n");
                    assert(r@ =~= rendered_entry::<Self>(entry@));
                }
                r
            },
            ReportEntry::List(es) => self.format_children(es, true),
            ReportEntry::Concat(es) => self.format_children(es, false),
        }
    }
}

impl Plaintext {
    fn format_children(&mut self, es: &Vec<ReportEntry>, bullet: bool) -> (r: String)
        ensures
            r@ == rendered_entries::<Plaintext>(crate::report::entry_views(es@), 0, bullet),
        decreases es, 1int,
    {
        let ghost vs = crate::report::entry_views(es@);
        let mut r = String::new();
        let mut i: usize = 0;
        proof {
            assert(r@ + rendered_entries::<Plaintext>(vs, 0, bullet) =~= rendered_entries::<
                Plaintext,
            >(vs, 0, bullet));
        }
        while i < es.len()
            invariant
                i <= es@.len(),
                vs == crate::report::entry_views(es@),
                rendered_entries::<Plaintext>(vs, 0, bullet) == r@ + rendered_entries::<Plaintext>(
                    vs,
                    i as int,
                    bullet,
                ),
            decreases es@.len() - i,
        {
            let ghost r0 = r@;
            if bullet {
                r.append("- ");
                proof {
                    reveal_strlit("- ");
                }
            }
            let child = self.format_entry(&es[i]);
            r.append(child.as_str());
            proof {
                assert(vs[i as int] == es@[i as int]@);
                assert(r@ =~= r0 + (if bullet {
                    seq!['-', ' ']
                } else {
                    Seq::<char>::empty()
                }) + rendered_entry::<Plaintext>(vs[i as int]));
                assert(rendered_entries::<Plaintext>(vs, 0, bullet) =~= r@ + rendered_entries::<
                    Plaintext,
                >(vs, i + 1, bullet));
            }
            i = i + 1;
        }
        proof {
            assert(rendered_entries::<Plaintext>(vs, i as int, bullet) =~= Seq::<char>::empty());
            assert(r@ =~= rendered_entries::<Plaintext>(vs, 0, bullet));
        }
        r
    }
}

} // verus!
