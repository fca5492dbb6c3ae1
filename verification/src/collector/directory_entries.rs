//! Lists information about the entries of one directory.

use vstd::prelude::*;
use vstd::string::StringExecFns;

use crate::collector::{collect_view, CollectionError, Collector};
use crate::helper::{dec_digits, lex_sorted, sort_strings, u64_to_string, views_of};
use crate::report::{EntryV, ReportEntry};
use crate::{CrateInfo, CrateInfoV};

verus! {

/// What one directory entry is: a regular file with its size in bytes, a
/// directory, or anything else (or anything whose kind could not be read).
pub enum DirEntryKind {
    File(u64),
    Directory,
    Other,
}

/// One directory entry: its name and what it is.
pub struct DirEntryInfo {
    pub name: String,
    pub kind: DirEntryKind,
}

/// One item of a directory listing: an entry, or the message of an entry
/// that could not be read.
pub enum DirItem {
    Entry(DirEntryInfo),
    Error(String),
}

/// Why a directory could not be listed at all.
pub enum DirReadError {
    NotFound,
    Other(String),
}

/// The line rendered for one listing item: the entry's name, with its byte
/// size when it is a regular file or a trailing separator when it is a
/// directory; or an error message.
pub open spec fn spec_dir_item_text(item: DirItem) -> Seq<char> {
    match item {
        DirItem::Entry(e) => e.name@ + (match e.kind {
            DirEntryKind::File(n) => seq![',', ' '] + dec_digits(n as nat) + " bytes"@,
            DirEntryKind::Directory => seq!['/'],
            DirEntryKind::Other => Seq::<char>::empty(),
        }),
        DirItem::Error(e) => "Error: "@ + e@,
    }
}

/// The lines rendered for all listing items, in listing order.
pub open spec fn spec_dir_item_texts(items: Seq<DirItem>) -> Seq<Seq<char>> {
    items.map_values(|item: DirItem| spec_dir_item_text(item))
}

/// Renders the line for one listing item.
pub fn dir_entry_to_report_entry(item: &DirItem) -> (r: String)
    ensures
        r@ == spec_dir_item_text(*item),
{
    match item {
        DirItem::Entry(e) => {
            let mut text = e.name.clone();
            match &e.kind {
                DirEntryKind::File(n) => {
                    text.append(", ");
                    let size = u64_to_string(*n);
                    text.append(size.as_str());
                    text.append(" bytes");
                },
                DirEntryKind::Directory => {
                    text.append("/");
                },
                DirEntryKind::Other => (),
            }
            proof {
                reveal_strlit(", ");
                reveal_strlit("/");
                assert(text@ =~= spec_dir_item_text(*item));
            }
            text
        },
        DirItem::Error(e) => {
            let mut text = String::new();
            text.append("Error: ");
            text.append(e.as_str());
            proof {
                assert(text@ =~= spec_dir_item_text(*item));
            }
            text
        },
    }
}

/// The failure reason when a directory cannot be listed: a "not found" note,
/// or the underlying error.
pub open spec fn spec_dir_error_reason(error: DirReadError, path: Seq<char>) -> Seq<char> {
    match error {
        DirReadError::NotFound => seq!['\''] + path + "' not found"@,
        DirReadError::Other(e) => seq!['\''] + path + "' not read: "@ + e@,
    }
}

/// Turns a listing failure into the collection error for the section.
pub fn read_dir_error_to_report_entry(error: &DirReadError, path_str: &str) -> (r: CollectionError)
    ensures
        r.reason() == spec_dir_error_reason(*error, path_str@),
{
    let mut text = String::new();
    text.append("'");
    text.append(path_str);
    match error {
        DirReadError::NotFound => {
            text.append("' not found");
        },
        DirReadError::Other(e) => {
            text.append("' not read: ");
            text.append(e.as_str());
        },
    }
    proof {
        reveal_strlit("'");
        assert(text@ =~= spec_dir_error_reason(*error, path_str@));
    }
    CollectionError::CouldNotRetrieve(text)
}

/// The single line reported for an empty directory.
pub open spec fn spec_dir_empty_text(path: Seq<char>) -> Seq<char> {
    seq!['\''] + path + "' is empty"@
}

/// Wraps sorted listing lines as text entries.
pub open spec fn texts_entries(ts: Seq<Seq<char>>) -> Seq<EntryV> {
    ts.map_values(|t: Seq<char>| EntryV::Text(t))
}

/// List information about entries in a directory.
///
/// Limitations:
/// * Is not recursive
/// * Does not handle symbolic links
/// * Only sizes of files are printed and not e.g. time of last modification
///
/// The listing itself is read by the embedding application and handed in
/// here; this collector renders and orders it.
pub struct DirectoryEntries {
    pub title: String,
    pub path: String,
    pub listing: Result<Vec<DirItem>, DirReadError>,
}

impl DirectoryEntries {
    pub fn new(title: &str, path: &str, listing: Result<Vec<DirItem>, DirReadError>) -> (r: Self)
        ensures
            r.title@ == title@,
            r.path@ == path@,
            r.listing == listing,
    {
        DirectoryEntries { title: title.to_owned(), path: path.to_owned(), listing }
    }
}

impl Collector for DirectoryEntries {
    open spec fn spec_description(&self) -> Seq<char> {
        self.title@
    }

    open spec fn collect_rel(&self, info: CrateInfoV, r: Result<EntryV, Seq<char>>) -> bool {
        match self.listing {
            Err(e) => r == Err::<EntryV, Seq<char>>(spec_dir_error_reason(e, self.path@)),
            Ok(items) => if items@.len() == 0 {
                r == Ok::<EntryV, Seq<char>>(EntryV::Text(spec_dir_empty_text(self.path@)))
            } else {
                exists|ts: Seq<Seq<char>>|
                    {
                        &&& r == Ok::<EntryV, Seq<char>>(EntryV::List(#[trigger] texts_entries(ts)))
                        &&& lex_sorted(ts)
                        &&& ts.to_multiset() == spec_dir_item_texts(items@).to_multiset()
                    }
            },
        }
    }

    fn description(&self) -> (r: &str)
        ensures
            r@ == self.spec_description(),
    {
        self.title.as_str()
    }

    fn collect(&self, crate_info: &CrateInfo) -> (r: Result<ReportEntry, CollectionError>)
        ensures
            self.collect_rel(crate_info@, collect_view(r)),
    {
        match &self.listing {
            Err(e) => Err(read_dir_error_to_report_entry(e, self.path.as_str())),
            Ok(items) => {
                let mut texts: Vec<String> = Vec::new();
                let mut i: usize = 0;
                proof {
                    assert(views_of(texts@) =~= spec_dir_item_texts(items@).take(0));
                }
                while i < items.len()
                    invariant
                        i <= items@.len(),
                        views_of(texts@) == spec_dir_item_texts(items@).take(i as int),
                    decreases items@.len() - i,
                {
                    let ghost t0 = texts@;
                    let line = dir_entry_to_report_entry(&items[i]);
                    let ghost lv = line@;
                    texts.push(line);
                    proof {
                        assert(views_of(texts@) =~= views_of(t0).push(lv));
                        assert(lv == spec_dir_item_texts(items@)[i as int]);
                        assert(views_of(texts@) =~= spec_dir_item_texts(items@).take(i + 1));
                    }
                    i = i + 1;
                }
                proof {
                    assert(spec_dir_item_texts(items@).take(items@.len() as int) =~= spec_dir_item_texts(
                        items@,
                    ));
                }
                if texts.len() == 0 {
                    let mut text = String::new();
                    text.append("'");
                    text.append(self.path.as_str());
                    text.append("' is empty");
                    proof {
                        reveal_strlit("'");
                        assert(text@ =~= spec_dir_empty_text(self.path@));
                        assert(spec_dir_item_texts(items@).len() == 0);
                        assert(items@.len() == 0);
                    }
                    Ok(ReportEntry::Text(text))
                } else {
                    let ghost n_texts = texts@.len();
                    let mut sorted = sort_strings(texts);
                    let ghost sorted_views = views_of(sorted@);
                    let mut es: Vec<ReportEntry> = Vec::new();
                    proof {
                        assert(crate::report::entry_views(es@) =~= texts_entries(
                            sorted_views.take(0),
                        ));
                        assert(views_of(sorted@) =~= sorted_views.skip(0));
                    }
                    while sorted.len() > 0
                        invariant
                            sorted_views.len() == es@.len() + sorted@.len(),
                            views_of(sorted@) == sorted_views.skip(es@.len() as int),
                            crate::report::entry_views(es@) == texts_entries(
                                sorted_views.take(es@.len() as int),
                            ),
                        decreases sorted@.len(),
                    {
                        let ghost k = es@.len() as int;
                        let ghost srt0 = sorted@;
                        let s = sorted.remove(0);
                        proof {
                            assert(s == srt0[0]);
                            assert(views_of(srt0)[0] == srt0[0]@);
                            assert(views_of(srt0) == sorted_views.skip(k));
                            assert(sorted_views.skip(k)[0] == sorted_views[k]);
                            assert(s@ == sorted_views[k]);
                        }
                        let ghost es0 = es@;
                        let ghost sv = s@;
                        es.push(ReportEntry::Text(s));
                        proof {
                            assert(sorted@ =~= srt0.remove(0));
                            assert(views_of(sorted@) =~= views_of(srt0).skip(1));
                            assert(views_of(srt0).skip(1) =~= sorted_views.skip(k + 1));
                            assert(crate::report::entry_views(es@) =~= crate::report::entry_views(
                                es0,
                            ).push(EntryV::Text(sv)));
                            assert(texts_entries(sorted_views.take(k + 1)) =~= texts_entries(
                                sorted_views.take(k),
                            ).push(EntryV::Text(sorted_views[k])));
                            assert(crate::report::entry_views(es@) =~= texts_entries(
                                sorted_views.take(k + 1),
                            ));
                        }
                    }
                    proof {
                        assert(sorted_views.take(es@.len() as int) =~= sorted_views);
                        assert(crate::report::entry_views(es@) == texts_entries(sorted_views));
                        assert(spec_dir_item_texts(items@).len() == n_texts);
                        assert(n_texts > 0);
                        assert(items@.len() > 0);
                    }
                    Ok(ReportEntry::List(es))
                }
            },
        }
    }
}

} // verus!
