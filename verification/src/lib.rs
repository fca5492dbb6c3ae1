//! Assembles a structured diagnostic report from pluggable information
//! collectors and renders it into a chosen human-readable output format.

use vstd::prelude::*;
use vstd::string::StringExecFns;

use crate::collector::{collect_view, Collector, CollectorKind};
use crate::format::Format;
use crate::report::{Report, ReportSection, SectionV};

pub mod collector;
pub mod escape;
pub mod format;
pub mod helper;
pub mod report;

verus! {

/// Read-only package metadata handed to every collector.
pub struct CrateInfo {
    pub pkg_name: String,
    pub pkg_version: String,
    pub git_hash: Option<String>,
}

/// Mathematical model of [`CrateInfo`].
pub struct CrateInfoV {
    pub pkg_name: Seq<char>,
    pub pkg_version: Seq<char>,
    pub git_hash: Option<Seq<char>>,
}

impl View for CrateInfo {
    type V = CrateInfoV;

    open spec fn view(&self) -> CrateInfoV {
        CrateInfoV {
            pkg_name: self.pkg_name@,
            pkg_version: self.pkg_version@,
            git_hash: match self.git_hash {
                Some(ref h) => Some(h@),
                None => None,
            },
        }
    }
}

/// The entry a section gets for a collection outcome: the collected entry
/// itself, or the failure reason as plain text.
pub open spec fn entry_of(outcome: Result<crate::report::EntryV, Seq<char>>) -> crate::report::EntryV {
    match outcome {
        Ok(e) => e,
        Err(reason) => crate::report::EntryV::Text(reason),
    }
}

/// How one generated section relates to the collector it came from: it is
/// titled with the collector's description and holds one of the collector's
/// possible outcomes, a failure substituted by its reason text.
pub open spec fn section_for(c: CollectorKind, info: CrateInfoV, s: SectionV) -> bool {
    &&& s.title == c.spec_description()
    &&& exists|outcome: Result<crate::report::EntryV, Seq<char>>|
        {
            &&& #[trigger] c.collect_rel(info, outcome)
            &&& s.entry == entry_of(outcome)
        }
}

/// The main struct for collecting bug report information.
pub struct BugReport {
    pub info: CrateInfo,
    pub collectors: Vec<CollectorKind>,
}

impl BugReport {
    /// An empty bug report for the given package name and version, with no
    /// revision id and no collectors yet.
    pub fn from_name_and_version(pkg_name: &str, pkg_version: &str) -> (r: Self)
        ensures
            r.info.pkg_name@ == pkg_name@,
            r.info.pkg_version@ == pkg_version@,
            r.info.git_hash is None,
            r.collectors@ == Seq::<CollectorKind>::empty(),
    {
        let r = BugReport {
            info: CrateInfo {
                pkg_name: pkg_name.to_owned(),
                pkg_version: pkg_version.to_owned(),
                git_hash: None,
            },
            collectors: Vec::new(),
        };
        proof {
            assert(r.collectors@ =~= Seq::<CollectorKind>::empty());
        }
        r
    }

    /// Records the version-control revision id (or clears it).
    pub fn set_git_hash(&mut self, git_hash: Option<&str>)
        ensures
            final(self).info.pkg_name == old(self).info.pkg_name,
            final(self).info.pkg_version == old(self).info.pkg_version,
            final(self).info@.git_hash == git_hash.deep_view(),
            final(self).collectors == old(self).collectors,
    {
        self.info.git_hash = match git_hash {
            Some(h) => Some(h.to_owned()),
            None => None,
        };
    }

    /// Add a [`Collector`] to the bug report.
    pub fn info<C>(self, collector: C) -> (r: Self) where CollectorKind: From<C>
        ensures
            r.info == self.info,
            r.collectors@.len() == self.collectors@.len() + 1,
            r.collectors@.subrange(0, self.collectors@.len() as int) == self.collectors@,
            <CollectorKind as vstd::std_specs::convert::FromSpec<C>>::obeys_from_spec()
                ==> r.collectors@ == self.collectors@.push(
                <CollectorKind as vstd::std_specs::convert::FromSpec<C>>::from_spec(collector),
            ),
    {
        let ghost s0 = self.collectors@;
        let mut r = self;
        r.collectors.push(CollectorKind::from(collector));
        proof {
            assert(r.collectors@.subrange(0, s0.len() as int) =~= s0);
        }
        r
    }

    /// Runs every registered collector, in registration order, and gathers
    /// one section per collector; a collector's failure is substituted by
    /// its reason and stops nothing.
    pub fn generate(&mut self) -> (r: Report)
        ensures
            *final(self) == *old(self),
            r@.len() == old(self).collectors@.len(),
            forall|i: int|
                0 <= i < r@.len() ==> section_for(
                    old(self).collectors@[i],
                    old(self).info@,
                    #[trigger] r@[i],
                ),
    {
        let mut sections: Vec<ReportSection> = Vec::new();
        let mut i: usize = 0;
        while i < self.collectors.len()
            invariant
                i <= self.collectors@.len(),
                sections@.len() == i,
                forall|k: int|
                    0 <= k < i ==> section_for(
                        self.collectors@[k],
                        self.info@,
                        #[trigger] sections@[k]@,
                    ),
            decreases self.collectors@.len() - i,
        {
            let c = &self.collectors[i];
            let outcome = c.collect(&self.info);
            let ghost outcome_v = collect_view(outcome);
            let entry = match outcome {
                Ok(e) => e,
                Err(e) => e.to_entry(),
            };
            proof {
                assert(entry@ == entry_of(outcome_v));
            }
            let title = c.description().to_owned();
            sections.push(ReportSection { title, entry });
            i = i + 1;
        }
        let r = Report { sections };
        proof {
            assert(forall|k: int| 0 <= k < r@.len() ==> #[trigger] r@[k] == r.sections@[k]@);
        }
        r
    }

    /// Assemble the bug report information using the given format.
    pub fn format<F: Format>(&mut self) -> (r: String)
        ensures
            *final(self) == *old(self),
            exists|sections: Seq<SectionV>|
                {
                    &&& sections.len() == old(self).collectors@.len()
                    &&& (forall|i: int|
                        0 <= i < sections.len() ==> section_for(
                            old(self).collectors@[i],
                            old(self).info@,
                            #[trigger] sections[i],
                        ))
                    &&& r@ == #[trigger] crate::format::rendered_report::<F>(sections, 0)
                },
    {
        let report = self.generate();
        let mut format = F::default();
        let r = report.format_as(&mut format);
        proof {
            assert(r@ == crate::format::rendered_report::<F>(report@, 0));
        }
        r
    }
}

} // verus!

