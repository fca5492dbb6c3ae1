//! The builtin information collectors and the [`Collector`] trait that ties
//! them together.

use vstd::prelude::*;
use vstd::string::StringExecFns;
use vstd::utf8::{decode_utf8, valid_utf8};

use crate::escape::{shell_escape_str, shell_escaped};
use crate::report::{Code, EntryV, ReportEntry};
use crate::{CrateInfo, CrateInfoV};

mod directory_entries;

pub use directory_entries::{
    dir_entry_to_report_entry, read_dir_error_to_report_entry, DirEntryInfo, DirEntryKind,
    DirItem, DirReadError, DirectoryEntries,
};

verus! {

/// Error that appeared while collecting bug report information.
pub enum CollectionError {
    CouldNotRetrieve(String),
}

impl CollectionError {
    /// The human-readable reason carried by the error.
    pub open spec fn reason(&self) -> Seq<char> {
        match self {
            CollectionError::CouldNotRetrieve(s) => s@,
        }
    }

    /// The report entry that stands in for a failed collector's section: the
    /// failure reason as plain text.
    pub fn to_entry(&self) -> (r: ReportEntry)
        ensures
            r@ == EntryV::Text(self.reason()),
    {
        match self {
            CollectionError::CouldNotRetrieve(reason) => ReportEntry::Text(reason.clone()),
        }
    }
}

/// The model of a collection outcome: the collected entry, or the failure
/// reason.
pub open spec fn collect_view(r: Result<ReportEntry, CollectionError>) -> Result<
    EntryV,
    Seq<char>,
> {
    match r {
        Ok(e) => Ok(e@),
        Err(e) => Err(e.reason()),
    }
}

/// Implement this trait to define customized information collectors.
pub trait Collector {
    /// The section title this collector's output appears under.
    spec fn spec_description(&self) -> Seq<char>;

    /// Which collection outcomes this collector can produce for the given
    /// context.
    spec fn collect_rel(&self, info: CrateInfoV, r: Result<EntryV, Seq<char>>) -> bool;

    fn description(&self) -> (r: &str)
        ensures
            r@ == self.spec_description(),
    ;

    fn collect(&self, crate_info: &CrateInfo) -> (r: Result<ReportEntry, CollectionError>)
        ensures
            self.collect_rel(crate_info@, collect_view(r)),
    ;
}

/// The text of the software-version section: package name, version (an
/// explicit override or the context's), and the revision id when one is
/// known.
pub open spec fn software_version_text(version: Option<Seq<char>>, info: CrateInfoV) -> Seq<char> {
    info.pkg_name + seq![' '] + (match version {
        Some(v) => v,
        None => info.pkg_version,
    }) + (match info.git_hash {
        Some(h) => seq![' ', '('] + h + seq![')'],
        None => Seq::<char>::empty(),
    })
}

/// The name of your crate and the current version.
pub struct SoftwareVersion {
    pub version: Option<String>,
}

impl SoftwareVersion {
    /// A software-version collector that reports the given version instead
    /// of the context's.
    pub fn custom(version: &str) -> (r: Self)
        ensures
            r.version.deep_view() == Some(version@),
    {
        SoftwareVersion { version: Some(version.to_owned()) }
    }
}

impl Default for SoftwareVersion {
    /// A software-version collector that reports the context's version.
    fn default() -> (r: Self)
        ensures
            r.version is None,
    {
        SoftwareVersion { version: None }
    }
}

impl Collector for SoftwareVersion {
    open spec fn spec_description(&self) -> Seq<char> {
        "Software version"@
    }

    open spec fn collect_rel(&self, info: CrateInfoV, r: Result<EntryV, Seq<char>>) -> bool {
        r == Ok::<EntryV, Seq<char>>(
            EntryV::Text(software_version_text(self.version.deep_view(), info)),
        )
    }

    fn description(&self) -> (r: &str)
        ensures
            r@ == self.spec_description(),
    {
        "Software version"
    }

    fn collect(&self, crate_info: &CrateInfo) -> (r: Result<ReportEntry, CollectionError>)
        ensures
            self.collect_rel(crate_info@, collect_view(r)),
    {
        let mut text = crate_info.pkg_name.clone();
        text.append(" ");
        match &self.version {
            Some(v) => text.append(v.as_str()),
            None => text.append(crate_info.pkg_version.as_str()),
        }
        match &crate_info.git_hash {
            Some(h) => {
                text.append(" (");
                text.append(h.as_str());
                text.append(")");
            },
            None => (),
        }
        proof {
            reveal_strlit(" ");
            reveal_strlit(" (");
            reveal_strlit(")");
            assert(text@ =~= software_version_text(self.version.deep_view(), crate_info@));
        }
        Ok(ReportEntry::Text(text))
    }
}

/// One label of the compile-time information list with its value.
pub open spec fn labeled_text(label: Seq<char>, value: Seq<char>) -> EntryV {
    EntryV::Text(label + value)
}

fn label_value(label: &str, value: &str) -> (r: ReportEntry)
    ensures
        r@ == labeled_text(label@, value@),
{
    let mut s = label.to_owned();
    s.append(value);
    proof {
        assert(s@ =~= label@ + value@);
    }
    ReportEntry::Text(s)
}

/// Compile-time information such as the profile (release/debug) and the
/// target triple. The values are resolved when the embedding application is
/// built and handed in here; they never change afterwards.
pub struct CompileTimeInformation {
    pub profile: String,
    pub target: String,
    pub family: String,
    pub os: String,
    pub arch: String,
    pub pointer_width: String,
    pub endian: String,
    pub cpu_features: String,
    pub host: String,
}

impl CompileTimeInformation {
    pub fn new(
        profile: String,
        target: String,
        family: String,
        os: String,
        arch: String,
        pointer_width: String,
        endian: String,
        cpu_features: String,
        host: String,
    ) -> (r: Self)
        ensures
            r == (CompileTimeInformation {
                profile,
                target,
                family,
                os,
                arch,
                pointer_width,
                endian,
                cpu_features,
                host,
            }),
    {
        CompileTimeInformation {
            profile,
            target,
            family,
            os,
            arch,
            pointer_width,
            endian,
            cpu_features,
            host,
        }
    }
}

/// The list of build facts that the compile-time collector reports.
pub open spec fn compile_time_list(c: CompileTimeInformation) -> Seq<EntryV> {
    seq![
        labeled_text("Profile: "@, c.profile@),
        labeled_text("Target triple: "@, c.target@),
        labeled_text("Family: "@, c.family@),
        labeled_text("OS: "@, c.os@),
        labeled_text("Architecture: "@, c.arch@),
        labeled_text("Pointer width: "@, c.pointer_width@),
        labeled_text("Endian: "@, c.endian@),
        labeled_text("CPU features: "@, c.cpu_features@),
        labeled_text("Host: "@, c.host@),
    ]
}

impl Collector for CompileTimeInformation {
    open spec fn spec_description(&self) -> Seq<char> {
        "Compile time information"@
    }

    open spec fn collect_rel(&self, info: CrateInfoV, r: Result<EntryV, Seq<char>>) -> bool {
        r == Ok::<EntryV, Seq<char>>(EntryV::List(compile_time_list(*self)))
    }

    fn description(&self) -> (r: &str)
        ensures
            r@ == self.spec_description(),
    {
        "Compile time information"
    }

    fn collect(&self, crate_info: &CrateInfo) -> (r: Result<ReportEntry, CollectionError>)
        ensures
            self.collect_rel(crate_info@, collect_view(r)),
    {
        let mut es: Vec<ReportEntry> = Vec::new();
        es.push(label_value("Profile: ", self.profile.as_str()));
        es.push(label_value("Target triple: ", self.target.as_str()));
        es.push(label_value("Family: ", self.family.as_str()));
        es.push(label_value("OS: ", self.os.as_str()));
        es.push(label_value("Architecture: ", self.arch.as_str()));
        es.push(label_value("Pointer width: ", self.pointer_width.as_str()));
        es.push(label_value("Endian: ", self.endian.as_str()));
        es.push(label_value("CPU features: ", self.cpu_features.as_str()));
        es.push(label_value("Host: ", self.host.as_str()));
        proof {
            assert(crate::report::entry_views(es@) =~= compile_time_list(*self));
        }
        Ok(ReportEntry::List(es))
    }
}

/// The escaped arguments from index `i` on, each followed by one space.
pub open spec fn escaped_args(args: Seq<Seq<char>>, i: int) -> Seq<char>
    decreases args.len() - i,
{
    if i < 0 || i >= args.len() {
        Seq::empty()
    } else {
        shell_escaped(args[i]) + seq![' '] + escaped_args(args, i + 1)
    }
}

fn append_escaped_args(out: &mut String, args: &Vec<String>)
    ensures
        final(out)@ == old(out)@ + escaped_args(crate::helper::views_of(args@), 0),
{
    let ghost vs = crate::helper::views_of(args@);
    let ghost out0 = out@;
    let mut i: usize = 0;
    proof {
        assert(out@ + escaped_args(vs, 0) =~= out0 + escaped_args(vs, 0));
    }
    while i < args.len()
        invariant
            i <= args@.len(),
            vs == crate::helper::views_of(args@),
            out0 + escaped_args(vs, 0) == out@ + escaped_args(vs, i as int),
        decreases args@.len() - i,
    {
        let ghost o0 = out@;
        let escaped = shell_escape_str(args[i].as_str());
        out.append(escaped.as_str());
        out.append(" ");
        proof {
            reveal_strlit(" ");
            assert(vs[i as int] == args@[i as int]@);
            assert(out@ =~= o0 + shell_escaped(vs[i as int]) + seq![' ']);
            assert(out0 + escaped_args(vs, 0) =~= out@ + escaped_args(vs, i + 1));
        }
        i = i + 1;
    }
    proof {
        assert(escaped_args(vs, i as int) =~= Seq::<char>::empty());
        assert(out@ =~= out0 + escaped_args(vs, 0));
    }
}

/// The full command-line: executable name and arguments of the program, as
/// handed in by the embedding application.
pub struct CommandLine {
    pub args: Vec<String>,
}

impl CommandLine {
    /// A command-line collector for the given argument vector (the
    /// executable name first, as the process received it).
    pub fn new(args: Vec<String>) -> (r: Self)
        ensures
            r.args == args,
    {
        CommandLine { args }
    }
}

impl Collector for CommandLine {
    open spec fn spec_description(&self) -> Seq<char> {
        "Command-line"@
    }

    open spec fn collect_rel(&self, info: CrateInfoV, r: Result<EntryV, Seq<char>>) -> bool {
        r == Ok::<EntryV, Seq<char>>(
            EntryV::Code(Some("bash"@), escaped_args(crate::helper::views_of(self.args@), 0)),
        )
    }

    fn description(&self) -> (r: &str)
        ensures
            r@ == self.spec_description(),
    {
        "Command-line"
    }

    fn collect(&self, crate_info: &CrateInfo) -> (r: Result<ReportEntry, CollectionError>)
        ensures
            self.collect_rel(crate_info@, collect_view(r)),
    {
        let mut code = String::new();
        append_escaped_args(&mut code, &self.args);
        Ok(ReportEntry::Code(Code { language: Some("bash".to_owned()), code }))
    }
}

/// Relies on `sys_info::os_type`: a human-readable name of the running
/// operating system, when the platform query succeeds. The result depends on
/// the machine, so nothing is promised of it.
#[verifier::external_body]
fn query_os_type() -> (r: Option<String>) {
    sys_info::os_type().ok()
}

/// Relies on `sys_info::os_release`: the running operating system's release
/// string, when the platform query succeeds. The result depends on the
/// machine, so nothing is promised of it.
#[verifier::external_body]
fn query_os_release() -> (r: Option<String>) {
    sys_info::os_release().ok()
}

/// The text of the operating-system section: the OS name, then its release
/// string or a placeholder.
pub open spec fn os_text(os_type: Seq<char>, os_release: Option<Seq<char>>) -> Seq<char> {
    os_type + seq![' '] + (match os_release {
        Some(r) => r,
        None => "(unknown version)"@,
    })
}

/// The outcome of the operating-system collector for given platform query
/// results: a failure when even the OS type is unknown, the composed text
/// otherwise.
pub open spec fn spec_os_result(os_type: Option<Seq<char>>, os_release: Option<Seq<char>>) -> Result<
    EntryV,
    Seq<char>,
> {
    match os_type {
        None => Err("Operating system type"@),
        Some(t) => Ok(EntryV::Text(os_text(t, os_release))),
    }
}

/// Builds the operating-system section from the platform query results.
pub fn os_entry(os_type: Option<String>, os_release: Option<String>) -> (r: Result<
    ReportEntry,
    CollectionError,
>)
    ensures
        collect_view(r) == spec_os_result(os_type.deep_view(), os_release.deep_view()),
{
    let ghost tv = os_type.deep_view();
    let ghost relv = os_release.deep_view();
    match os_type {
        None => Err(
            CollectionError::CouldNotRetrieve("Operating system type".to_owned()),
        ),
        Some(t) => {
            let mut text = t;
            text.append(" ");
            match os_release {
                Some(rel) => text.append(rel.as_str()),
                None => text.append("(unknown version)"),
            }
            proof {
                reveal_strlit(" ");
                assert(text@ =~= os_text(tv.unwrap(), relv));
            }
            Ok(ReportEntry::Text(text))
        },
    }
}

/// The operating system (type and version).
#[derive(Default)]
pub struct OperatingSystem {}

impl Collector for OperatingSystem {
    open spec fn spec_description(&self) -> Seq<char> {
        "Operating system"@
    }

    open spec fn collect_rel(&self, info: CrateInfoV, r: Result<EntryV, Seq<char>>) -> bool {
        exists|t: Option<Seq<char>>, rel: Option<Seq<char>>| r == #[trigger] spec_os_result(t, rel)
    }

    fn description(&self) -> (r: &str)
        ensures
            r@ == self.spec_description(),
    {
        "Operating system"
    }

    fn collect(&self, crate_info: &CrateInfo) -> (r: Result<ReportEntry, CollectionError>)
        ensures
            self.collect_rel(crate_info@, collect_view(r)),
    {
        let os_type = query_os_type();
        let os_release = query_os_release();
        let ghost t = os_type.deep_view();
        let ghost rel = os_release.deep_view();
        let r = os_entry(os_type, os_release);
        proof {
            assert(collect_view(r) == spec_os_result(t, rel));
        }
        r
    }
}

/// One environment variable as the embedding application read it: its name,
/// and its value or `None` when it is not set.
pub struct EnvVar {
    pub name: String,
    pub value: Option<String>,
}

impl EnvVar {
    pub fn new(name: &str, value: Option<String>) -> (r: Self)
        ensures
            r.name@ == name@,
            r.value == value,
    {
        EnvVar { name: name.to_owned(), value }
    }
}

/// The line reported for one variable: `NAME=<escaped value>`, or
/// `NAME=<not set>` when the variable is absent.
pub open spec fn env_line(v: EnvVar) -> Seq<char> {
    v.name@ + seq!['='] + (match v.value {
        Some(value) => shell_escaped(value@),
        None => "<not set>"@,
    })
}

/// The lines for the variables from index `i` on, separated by newlines.
pub open spec fn env_block(vars: Seq<EnvVar>, i: int) -> Seq<char>
    decreases vars.len() - i,
{
    if i < 0 || i >= vars.len() {
        Seq::empty()
    } else {
        (if i > 0 {
            seq!['\n']
        } else {
            Seq::<char>::empty()
        }) + env_line(vars[i]) + env_block(vars, i + 1)
    }
}

/// The values of the specified environment variables (if set), in the given
/// order, duplicates kept.
pub struct EnvironmentVariables {
    pub vars: Vec<EnvVar>,
}

impl EnvironmentVariables {
    /// A collector for the given variables, with the values the embedding
    /// application read for them.
    pub fn list(vars: Vec<EnvVar>) -> (r: Self)
        ensures
            r.vars == vars,
    {
        EnvironmentVariables { vars }
    }
}

impl Collector for EnvironmentVariables {
    open spec fn spec_description(&self) -> Seq<char> {
        "Environment variables"@
    }

    open spec fn collect_rel(&self, info: CrateInfoV, r: Result<EntryV, Seq<char>>) -> bool {
        r == Ok::<EntryV, Seq<char>>(EntryV::Code(Some("bash"@), env_block(self.vars@, 0)))
    }

    fn description(&self) -> (r: &str)
        ensures
            r@ == self.spec_description(),
    {
        "Environment variables"
    }

    fn collect(&self, crate_info: &CrateInfo) -> (r: Result<ReportEntry, CollectionError>)
        ensures
            self.collect_rel(crate_info@, collect_view(r)),
    {
        let ghost vars = self.vars@;
        let mut code = String::new();
        let mut i: usize = 0;
        proof {
            assert(code@ + env_block(vars, 0) =~= env_block(vars, 0));
        }
        while i < self.vars.len()
            invariant
                i <= vars.len(),
                vars == self.vars@,
                env_block(vars, 0) == code@ + env_block(vars, i as int),
            decreases vars.len() - i,
        {
            let ghost c0 = code@;
            if i > 0 {
                code.append("\n");
                proof {
                    reveal_strlit("\n");
                }
            }
            code.append(self.vars[i].name.as_str());
            code.append("=");
            match &self.vars[i].value {
                Some(value) => {
                    let escaped = shell_escape_str(value.as_str());
                    code.append(escaped.as_str());
                },
                None => {
                    code.append("<not set>");
                },
            }
            proof {
                reveal_strlit("=");
                assert(code@ =~= c0 + (if i > 0 {
                    seq!['\n']
                } else {
                    Seq::<char>::empty()
                }) + env_line(vars[i as int]));
                assert(env_block(vars, 0) =~= code@ + env_block(vars, i + 1));
            }
            i = i + 1;
        }
        proof {
            assert(env_block(vars, i as int) =~= Seq::<char>::empty());
            assert(code@ =~= env_block(vars, 0));
        }
        Ok(ReportEntry::Code(Code { language: Some("bash".to_owned()), code }))
    }
}

/// Relies on std's `str::from_utf8`: it succeeds exactly on valid UTF-8 and
/// decodes it.
#[verifier::external_body]
fn utf8_to_string(bytes: &Vec<u8>) -> (r: Option<String>)
    ensures
        r matches Some(s) ==> valid_utf8(bytes@) && s@ == decode_utf8(bytes@),
        r is None ==> !valid_utf8(bytes@),
{
    std::str::from_utf8(bytes.as_slice()).ok().map(|s| s.to_owned())
}

/// What running a command yielded: the raw bytes it wrote to stdout and
/// stderr, whether it exited successfully, and its exit code if there was
/// one.
pub struct RunOutcome {
    pub stdout: Vec<u8>,
    pub stderr: Vec<u8>,
    pub success: bool,
    pub exit_code: Option<i32>,
}

/// The synthesized invocation line: a `> ` prompt, the command, its escaped
/// arguments, and a newline.
pub open spec fn invocation_line(cmd: Seq<char>, args: Seq<Seq<char>>) -> Seq<char> {
    seq!['>', ' '] + cmd + seq![' '] + escaped_args(args, 0) + seq!['\n']
}

/// The trailing note when the command exited with a failure status.
pub open spec fn command_failed_text(exit_code: Option<i32>) -> Seq<char> {
    "Command failed"@ + (match exit_code {
        Some(c) => " with exit code "@ + crate::helper::dec_int(c as int),
        None => Seq::<char>::empty(),
    }) + seq!['.']
}

/// The outcome of the command-output collector: a failure when the command
/// could not be run or wrote invalid UTF-8; otherwise a code block holding
/// the invocation line and the trimmed output, followed by a failure note
/// when the exit status was not success.
pub open spec fn spec_command_result(
    cmd: Seq<char>,
    args: Seq<Seq<char>>,
    outcome: Result<RunOutcome, String>,
) -> Result<EntryV, Seq<char>> {
    match outcome {
        Err(e) => Err("Could not run command '"@ + cmd + "': "@ + e@),
        Ok(o) => if !valid_utf8(o.stdout@) || !valid_utf8(o.stderr@) {
            Err("Error while running command '"@ + cmd + "': output is not valid UTF-8."@)
        } else {
            let content = crate::helper::spec_trim_end(
                invocation_line(cmd, args) + decode_utf8(o.stdout@) + decode_utf8(o.stderr@),
            );
            let code = EntryV::Code(None, content);
            if o.success {
                Ok(EntryV::Concat(seq![code]))
            } else {
                Ok(EntryV::Concat(seq![code, EntryV::Text(command_failed_text(o.exit_code))]))
            }
        },
    }
}

/// The stdout and stderr output (+ exit code) of a custom command, run by
/// the embedding application and handed in here.
pub struct CommandOutput {
    pub title: String,
    pub cmd: String,
    pub cmd_args: Vec<String>,
    pub outcome: Result<RunOutcome, String>,
}

impl CommandOutput {
    /// A collector for one command invocation: its title, the command and
    /// arguments it stood for, and what running it yielded (or the error
    /// that kept it from running).
    pub fn new(title: &str, cmd: &str, cmd_args: Vec<String>, outcome: Result<RunOutcome, String>) -> (r:
        Self)
        ensures
            r.title@ == title@,
            r.cmd@ == cmd@,
            r.cmd_args == cmd_args,
            r.outcome == outcome,
    {
        CommandOutput { title: title.to_owned(), cmd: cmd.to_owned(), cmd_args, outcome }
    }
}

impl Collector for CommandOutput {
    open spec fn spec_description(&self) -> Seq<char> {
        self.title@
    }

    open spec fn collect_rel(&self, info: CrateInfoV, r: Result<EntryV, Seq<char>>) -> bool {
        r == spec_command_result(
            self.cmd@,
            crate::helper::views_of(self.cmd_args@),
            self.outcome,
        )
    }

    fn description(&self) -> (r: &str)
        ensures
            r@ == self.spec_description(),
    {
        self.title.as_str()
    }

    fn collect(&self, crate_info: &CrateInfo) -> (r: Result<ReportEntry, CollectionError>)
        ensures
            self.collect_rel(crate_info@, collect_view(r)),
    {
        match &self.outcome {
            Err(e) => {
                let mut reason = String::new();
                reason.append("Could not run command '");
                reason.append(self.cmd.as_str());
                reason.append("': ");
                reason.append(e.as_str());
                proof {
                    assert(reason@ =~= "Could not run command '"@ + self.cmd@ + "': "@ + e@);
                }
                Err(CollectionError::CouldNotRetrieve(reason))
            },
            Ok(o) => {
                let stdout = match utf8_to_string(&o.stdout) {
                    Some(s) => s,
                    None => {
                        return Err(self.utf8_error());
                    },
                };
                let stderr = match utf8_to_string(&o.stderr) {
                    Some(s) => s,
                    None => {
                        return Err(self.utf8_error());
                    },
                };
                let mut content = String::new();
                content.append("> ");
                content.append(self.cmd.as_str());
                content.append(" ");
                append_escaped_args(&mut content, &self.cmd_args);
                content.append("\n");
                content.append(stdout.as_str());
                content.append(stderr.as_str());
                proof {
                    reveal_strlit("> ");
                    reveal_strlit(" ");
                    reveal_strlit("\n");
                    assert(content@ =~= invocation_line(
                        self.cmd@,
                        crate::helper::views_of(self.cmd_args@),
                    ) + decode_utf8(o.stdout@) + decode_utf8(o.stderr@));
                }
                crate::helper::StringExt::trim_end_inplace(&mut content);
                let code = ReportEntry::Code(Code { language: None, code: content });
                let ghost code_v = code@;
                let mut concat: Vec<ReportEntry> = Vec::new();
                concat.push(code);
                if !o.success {
                    let mut note = String::new();
                    note.append("Command failed");
                    match &o.exit_code {
                        Some(c) => {
                            note.append(" with exit code ");
                            let digits = crate::helper::i32_to_string(*c);
                            note.append(digits.as_str());
                        },
                        None => (),
                    }
                    note.append(".");
                    proof {
                        reveal_strlit(".");
                        assert(note@ =~= command_failed_text(o.exit_code));
                    }
                    concat.push(ReportEntry::Text(note));
                    proof {
                        assert(crate::report::entry_views(concat@) =~= seq![
                            code_v,
                            EntryV::Text(command_failed_text(o.exit_code)),
                        ]);
                    }
                } else {
                    proof {
                        assert(crate::report::entry_views(concat@) =~= seq![code_v]);
                    }
                }
                Ok(ReportEntry::Concat(concat))
            },
        }
    }
}

impl CommandOutput {
    fn utf8_error(&self) -> (r: CollectionError)
        ensures
            r.reason() == "Error while running command '"@ + self.cmd@
                + "': output is not valid UTF-8."@,
    {
        let mut reason = String::new();
        reason.append("Error while running command '");
        reason.append(self.cmd.as_str());
        reason.append("': output is not valid UTF-8.");
        proof {
            assert(reason@ =~= "Error while running command '"@ + self.cmd@
                + "': output is not valid UTF-8."@);
        }
        CollectionError::CouldNotRetrieve(reason)
    }
}

/// The failure reason when a file could not be read.
pub open spec fn file_error_reason(path: Seq<char>, error: Seq<char>) -> Seq<char> {
    "Could not read contents of '"@ + path + "': "@ + error + seq!['.']
}

/// The full content of a text file, read by the embedding application and
/// handed in here.
pub struct FileContent {
    pub title: String,
    pub path: String,
    pub content: Result<String, String>,
}

impl FileContent {
    /// A collector for one file: its title, the path it stood for, and the
    /// file's text (or the error that kept it from being read).
    pub fn new(title: &str, path: &str, content: Result<String, String>) -> (r: Self)
        ensures
            r.title@ == title@,
            r.path@ == path@,
            r.content == content,
    {
        FileContent { title: title.to_owned(), path: path.to_owned(), content }
    }
}

impl Collector for FileContent {
    open spec fn spec_description(&self) -> Seq<char> {
        self.title@
    }

    open spec fn collect_rel(&self, info: CrateInfoV, r: Result<EntryV, Seq<char>>) -> bool {
        match self.content {
            Err(e) => r == Err::<EntryV, Seq<char>>(file_error_reason(self.path@, e@)),
            Ok(text) => r == Ok::<EntryV, Seq<char>>(
                EntryV::Code(None, crate::helper::spec_trim_end(text@)),
            ),
        }
    }

    fn description(&self) -> (r: &str)
        ensures
            r@ == self.spec_description(),
    {
        self.title.as_str()
    }

    fn collect(&self, crate_info: &CrateInfo) -> (r: Result<ReportEntry, CollectionError>)
        ensures
            self.collect_rel(crate_info@, collect_view(r)),
    {
        match &self.content {
            Err(e) => {
                let mut reason = String::new();
                reason.append("Could not read contents of '");
                reason.append(self.path.as_str());
                reason.append("': ");
                reason.append(e.as_str());
                reason.append(".");
                proof {
                    reveal_strlit(".");
                    assert(reason@ =~= file_error_reason(self.path@, e@));
                }
                Err(CollectionError::CouldNotRetrieve(reason))
            },
            Ok(text) => {
                let mut content = text.clone();
                crate::helper::StringExt::trim_end_inplace(&mut content);
                Ok(ReportEntry::Code(Code { language: None, code: content }))
            },
        }
    }
}

/// One registered collector of any builtin kind. The report assembler owns
/// an ordered list of these.
pub enum CollectorKind {
    SoftwareVersion(SoftwareVersion),
    CompileTimeInformation(CompileTimeInformation),
    CommandLine(CommandLine),
    OperatingSystem(OperatingSystem),
    EnvironmentVariables(EnvironmentVariables),
    CommandOutput(CommandOutput),
    FileContent(FileContent),
    DirectoryEntries(DirectoryEntries),
}

impl Collector for CollectorKind {
    open spec fn spec_description(&self) -> Seq<char> {
        match self {
            CollectorKind::SoftwareVersion(c) => c.spec_description(),
            CollectorKind::CompileTimeInformation(c) => c.spec_description(),
            CollectorKind::CommandLine(c) => c.spec_description(),
            CollectorKind::OperatingSystem(c) => c.spec_description(),
            CollectorKind::EnvironmentVariables(c) => c.spec_description(),
            CollectorKind::CommandOutput(c) => c.spec_description(),
            CollectorKind::FileContent(c) => c.spec_description(),
            CollectorKind::DirectoryEntries(c) => c.spec_description(),
        }
    }

    open spec fn collect_rel(&self, info: CrateInfoV, r: Result<EntryV, Seq<char>>) -> bool {
        match self {
            CollectorKind::SoftwareVersion(c) => c.collect_rel(info, r),
            CollectorKind::CompileTimeInformation(c) => c.collect_rel(info, r),
            CollectorKind::CommandLine(c) => c.collect_rel(info, r),
            CollectorKind::OperatingSystem(c) => c.collect_rel(info, r),
            CollectorKind::EnvironmentVariables(c) => c.collect_rel(info, r),
            CollectorKind::CommandOutput(c) => c.collect_rel(info, r),
            CollectorKind::FileContent(c) => c.collect_rel(info, r),
            CollectorKind::DirectoryEntries(c) => c.collect_rel(info, r),
        }
    }

    fn description(&self) -> (r: &str)
        ensures
            r@ == self.spec_description(),
    {
        match self {
            CollectorKind::SoftwareVersion(c) => c.description(),
            CollectorKind::CompileTimeInformation(c) => c.description(),
            CollectorKind::CommandLine(c) => c.description(),
            CollectorKind::OperatingSystem(c) => c.description(),
            CollectorKind::EnvironmentVariables(c) => c.description(),
            CollectorKind::CommandOutput(c) => c.description(),
            CollectorKind::FileContent(c) => c.description(),
            CollectorKind::DirectoryEntries(c) => c.description(),
        }
    }

    fn collect(&self, crate_info: &CrateInfo) -> (r: Result<ReportEntry, CollectionError>)
        ensures
            self.collect_rel(crate_info@, collect_view(r)),
    {
        match self {
            CollectorKind::SoftwareVersion(c) => c.collect(crate_info),
            CollectorKind::CompileTimeInformation(c) => c.collect(crate_info),
            CollectorKind::CommandLine(c) => c.collect(crate_info),
            CollectorKind::OperatingSystem(c) => c.collect(crate_info),
            CollectorKind::EnvironmentVariables(c) => c.collect(crate_info),
            CollectorKind::CommandOutput(c) => c.collect(crate_info),
            CollectorKind::FileContent(c) => c.collect(crate_info),
            CollectorKind::DirectoryEntries(c) => c.collect(crate_info),
        }
    }
}

impl From<SoftwareVersion> for CollectorKind {
    fn from(c: SoftwareVersion) -> (r: Self) {
        CollectorKind::SoftwareVersion(c)
    }
}

impl vstd::std_specs::convert::FromSpecImpl<SoftwareVersion> for CollectorKind {
    open spec fn obeys_from_spec() -> bool {
        true
    }

    open spec fn from_spec(c: SoftwareVersion) -> Self {
        CollectorKind::SoftwareVersion(c)
    }
}

impl From<CompileTimeInformation> for CollectorKind {
    fn from(c: CompileTimeInformation) -> (r: Self) {
        CollectorKind::CompileTimeInformation(c)
    }
}

impl vstd::std_specs::convert::FromSpecImpl<CompileTimeInformation> for CollectorKind {
    open spec fn obeys_from_spec() -> bool {
        true
    }

    open spec fn from_spec(c: CompileTimeInformation) -> Self {
        CollectorKind::CompileTimeInformation(c)
    }
}

impl From<CommandLine> for CollectorKind {
    fn from(c: CommandLine) -> (r: Self) {
        CollectorKind::CommandLine(c)
    }
}

impl vstd::std_specs::convert::FromSpecImpl<CommandLine> for CollectorKind {
    open spec fn obeys_from_spec() -> bool {
        true
    }

    open spec fn from_spec(c: CommandLine) -> Self {
        CollectorKind::CommandLine(c)
    }
}

impl From<OperatingSystem> for CollectorKind {
    fn from(c: OperatingSystem) -> (r: Self) {
        CollectorKind::OperatingSystem(c)
    }
}

impl vstd::std_specs::convert::FromSpecImpl<OperatingSystem> for CollectorKind {
    open spec fn obeys_from_spec() -> bool {
        true
    }

    open spec fn from_spec(c: OperatingSystem) -> Self {
        CollectorKind::OperatingSystem(c)
    }
}

impl From<EnvironmentVariables> for CollectorKind {
    fn from(c: EnvironmentVariables) -> (r: Self) {
        CollectorKind::EnvironmentVariables(c)
    }
}

impl vstd::std_specs::convert::FromSpecImpl<EnvironmentVariables> for CollectorKind {
    open spec fn obeys_from_spec() -> bool {
        true
    }

    open spec fn from_spec(c: EnvironmentVariables) -> Self {
        CollectorKind::EnvironmentVariables(c)
    }
}

impl From<CommandOutput> for CollectorKind {
    fn from(c: CommandOutput) -> (r: Self) {
        CollectorKind::CommandOutput(c)
    }
}

impl vstd::std_specs::convert::FromSpecImpl<CommandOutput> for CollectorKind {
    open spec fn obeys_from_spec() -> bool {
        true
    }

    open spec fn from_spec(c: CommandOutput) -> Self {
        CollectorKind::CommandOutput(c)
    }
}

impl From<FileContent> for CollectorKind {
    fn from(c: FileContent) -> (r: Self) {
        CollectorKind::FileContent(c)
    }
}

impl vstd::std_specs::convert::FromSpecImpl<FileContent> for CollectorKind {
    open spec fn obeys_from_spec() -> bool {
        true
    }

    open spec fn from_spec(c: FileContent) -> Self {
        CollectorKind::FileContent(c)
    }
}

impl From<DirectoryEntries> for CollectorKind {
    fn from(c: DirectoryEntries) -> (r: Self) {
        CollectorKind::DirectoryEntries(c)
    }
}

impl vstd::std_specs::convert::FromSpecImpl<DirectoryEntries> for CollectorKind {
    open spec fn obeys_from_spec() -> bool {
        true
    }

    open spec fn from_spec(c: DirectoryEntries) -> Self {
        CollectorKind::DirectoryEntries(c)
    }
}

} // verus!
