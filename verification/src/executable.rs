//! Running an outside command: whether it is installed, whether its version
//! will do, and what its exit means.
//!
//! The functions here decide; the caller looks for the command, runs it and
//! hands back what it saw.

use crate::error::{outcome, BuildErrorKind, BuildErrorModel};
use crate::text::{chars_of, push_char, trim_final_newline, without_final_newline};
use vstd::prelude::*;

verus! {

/// Whether `c` is one of `0` to `9`.
pub open spec fn is_digit(c: char) -> bool {
    '0' <= c && c <= '9'
}

/// Whether `c` can stand in the label behind a version's hyphen: a letter of
/// the Latin alphabet, a digit, a dot or a hyphen.
pub open spec fn is_label_char(c: char) -> bool {
    is_digit(c) || ('a' <= c && c <= 'z') || ('A' <= c && c <= 'Z') || c == '.' || c == '-'
}

/// Where the digits that start at `from` end.
pub open spec fn digits_end(s: Seq<char>, from: int) -> int
    decreases s.len() - from,
{
    if 0 <= from < s.len() && is_digit(s[from]) {
        digits_end(s, from + 1)
    } else {
        from
    }
}

/// Where the label characters that start at `from` end.
pub open spec fn label_end(s: Seq<char>, from: int) -> int
    decreases s.len() - from,
{
    if 0 <= from < s.len() && is_label_char(s[from]) {
        label_end(s, from + 1)
    } else {
        from
    }
}

/// Where the version that starts at `from` ends, if one starts there: three
/// numbers with dots between them, and behind them, where a hyphen and at
/// least one label character follow, the hyphen and all the label characters.
pub open spec fn version_end(s: Seq<char>, from: int) -> Option<int> {
    let major = digits_end(s, from);
    let minor = digits_end(s, major + 1);
    let patch = digits_end(s, minor + 1);
    let label = label_end(s, patch + 1);
    if !(from < major < s.len() && s[major] == '.') {
        None
    } else if !(major + 1 < minor < s.len() && s[minor] == '.') {
        None
    } else if !(minor + 1 < patch) {
        None
    } else if patch < s.len() && s[patch] == '-' && patch + 1 < label {
        Some(label)
    } else {
        Some(patch)
    }
}

/// The bounds of the first version in `s` that starts at `from` or later.
pub open spec fn version_from(s: Seq<char>, from: int) -> Option<(int, int)>
    decreases s.len() - from,
{
    if from < 0 || from >= s.len() {
        None
    } else {
        match version_end(s, from) {
            Some(end) => Some((from, end)),
            None => version_from(s, from + 1),
        }
    }
}

/// The first version that `s` holds.
pub open spec fn version_in(s: Seq<char>) -> Option<Seq<char>> {
    match version_from(s, 0) {
        Some((start, end)) => Some(s.subrange(start, end)),
        None => None,
    }
}

/// `digits_end` and `label_end` stay between their start and the end of `s`.
pub proof fn lemma_run_bounds(s: Seq<char>, from: int)
    requires
        0 <= from <= s.len(),
    ensures
        from <= digits_end(s, from) <= s.len(),
        from <= label_end(s, from) <= s.len(),
    decreases s.len() - from,
{
    if from < s.len() {
        lemma_run_bounds(s, from + 1);
    }
}

/// A version that is found is a stretch of the text, and not an empty one.
pub proof fn lemma_version_is_part_of_text(s: Seq<char>, from: int)
    requires
        0 <= from,
    ensures
        match version_from(s, from) {
            Some((start, end)) => from <= start < end <= s.len() && version_end(s, start) == Some(
                end,
            ),
            None => true,
        },
    decreases s.len() - from,
{
    if from < s.len() {
        match version_end(s, from) {
            Some(end) => {
                let major = digits_end(s, from);
                lemma_run_bounds(s, from);
                lemma_run_bounds(s, major + 1);
                let minor = digits_end(s, major + 1);
                lemma_run_bounds(s, minor + 1);
                let patch = digits_end(s, minor + 1);
                if patch < s.len() {
                    lemma_run_bounds(s, patch + 1);
                }
            },
            None => {
                lemma_version_is_part_of_text(s, from + 1);
            },
        }
    }
}

/// Finds where the digits that start at `from` end.
fn scan_digits(s: &Vec<char>, from: usize) -> (end: usize)
    requires
        from <= s.len(),
    ensures
        end == digits_end(s@, from as int),
        from <= end <= s.len(),
{
    let mut i: usize = from;
    while i < s.len() && '0' <= s[i] && s[i] <= '9'
        invariant
            from <= i <= s.len(),
            digits_end(s@, from as int) == digits_end(s@, i as int),
        decreases s.len() - i,
    {
        i += 1;
    }
    i
}

/// Finds where the label characters that start at `from` end.
fn scan_label(s: &Vec<char>, from: usize) -> (end: usize)
    requires
        from <= s.len(),
    ensures
        end == label_end(s@, from as int),
        from <= end <= s.len(),
{
    let mut i: usize = from;
    while i < s.len() && (('0' <= s[i] && s[i] <= '9') || ('a' <= s[i] && s[i] <= 'z') || ('A'
        <= s[i] && s[i] <= 'Z') || s[i] == '.' || s[i] == '-')
        invariant
            from <= i <= s.len(),
            label_end(s@, from as int) == label_end(s@, i as int),
        decreases s.len() - i,
    {
        i += 1;
    }
    i
}

/// Finds where the version that starts at `from` ends, if one starts there.
fn scan_version(s: &Vec<char>, from: usize) -> (end: Option<usize>)
    requires
        from < s.len(),
    ensures
        match end {
            Some(e) => version_end(s@, from as int) == Some(e as int) && from < e <= s.len(),
            None => version_end(s@, from as int) is None,
        },
{
    let major = scan_digits(s, from);
    if !(from < major && major < s.len() && s[major] == '.') {
        return None;
    }
    let minor = scan_digits(s, major + 1);
    if !(major + 1 < minor && minor < s.len() && s[minor] == '.') {
        return None;
    }
    let patch = scan_digits(s, minor + 1);
    if !(minor + 1 < patch) {
        return None;
    }
    if patch < s.len() && s[patch] == '-' {
        let label = scan_label(s, patch + 1);
        if patch + 1 < label {
            return Some(label);
        }
    }
    Some(patch)
}

/// Finds the first version in `text`, such as `1.34.0-nightly` in
/// `cargo 1.34.0-nightly (4e74e2fc0 2019-02-02)`.
pub fn find_version(text: &str) -> (found: Option<String>)
    ensures
        match found {
            Some(version) => version_in(text@) == Some(version@),
            None => version_in(text@) is None,
        },
{
    let s = chars_of(text);
    let mut from: usize = 0;
    while from < s.len()
        invariant
            from <= s.len(),
            s@ == text@,
            version_from(s@, 0) == version_from(s@, from as int),
        decreases s.len() - from,
    {
        match scan_version(&s, from) {
            Some(end) => {
                let mut version = String::new();
                let mut i: usize = from;
                while i < end
                    invariant
                        from <= i <= end <= s.len(),
                        version@ == s@.subrange(from as int, i as int),
                    decreases end - i,
                {
                    push_char(&mut version, s[i]);
                    assert(version@ =~= s@.subrange(from as int, i + 1));
                    i += 1;
                }
                return Some(version);
            },
            None => {},
        }
        from += 1;
    }
    None
}

/// Whether the version `version` lies in the range `required`, both as
/// `semver` reads them; `None` where it cannot read one of the two.
pub uninterp spec fn semver_matches(required: Seq<char>, version: Seq<char>) -> Option<bool>;

/// Tells whether a version lies in a range.
///
/// Trusted: `semver::VersionReq::parse` and `semver::Version::parse` read
/// the two texts, each failing on text that is not of its kind, and
/// `semver::VersionReq::matches` compares what they read; all three are
/// functions of their arguments alone.
#[verifier::external_body]
fn version_matches(required: &str, version: &str) -> (r: Option<bool>)
    ensures
        r == semver_matches(required@, version@),
{
    let required = semver::VersionReq::parse(required).ok()?;
    let version = semver::Version::parse(version).ok()?;
    Some(required.matches(&version))
}

/// An outside command: its name, what to tell the user when it is missing or
/// too old, and the range its version has to lie in, if any.
#[derive(Clone, Debug, PartialEq, Eq)]
pub struct Executable {
    /// The name to run the command by.
    pub name: String,
    /// How to install the command.
    pub verification_hint: String,
    /// How to get a version that will do.
    pub version_hint: String,
    /// The range of versions that will do, as `semver` writes one.
    pub required_version: Option<String>,
}

/// An `Executable` with its strings as character sequences.
pub struct ExecutableModel {
    pub name: Seq<char>,
    pub verification_hint: Seq<char>,
    pub version_hint: Seq<char>,
    pub required_version: Option<Seq<char>>,
}

impl View for Executable {
    type V = ExecutableModel;

    open spec fn view(&self) -> ExecutableModel {
        ExecutableModel {
            name: self.name@,
            verification_hint: self.verification_hint@,
            version_hint: self.version_hint@,
            required_version: match self.required_version {
                Some(required) => Some(required@),
                None => None,
            },
        }
    }
}

/// What a command printed.
#[derive(Clone, Debug, PartialEq, Eq)]
pub struct Output {
    pub stdout: String,
    pub stderr: String,
}

/// An `Output` with its strings as character sequences.
pub struct OutputModel {
    pub stdout: Seq<char>,
    pub stderr: Seq<char>,
}

impl View for Output {
    type V = OutputModel;

    open spec fn view(&self) -> OutputModel {
        OutputModel { stdout: self.stdout@, stderr: self.stderr@ }
    }
}

/// What to do with a command once it was looked for.
#[derive(Clone, Copy, Debug, PartialEq, Eq)]
pub enum Step {
    /// Ask the command for its version.
    QueryVersion,
    /// Run the command.
    Execute,
}

impl View for Step {
    type V = Step;

    open spec fn view(&self) -> Step {
        *self
    }
}

/// What follows the search for a command: a missing command is an error, one
/// with a required version is asked for its version, any other is run.
pub open spec fn discovered(exe: ExecutableModel, found: bool) -> Result<Step, BuildErrorModel> {
    if !found {
        Err(BuildErrorModel::CommandNotFound { command: exe.name, hint: exe.verification_hint })
    } else if exe.required_version is Some {
        Ok(Step::QueryVersion)
    } else {
        Ok(Step::Execute)
    }
}

/// Whether the version `detected`, which does or does not lie in the required
/// range (`fits`; `None` where that cannot be told), lets the command run.
pub open spec fn verdict(exe: ExecutableModel, detected: Seq<char>, fits: Option<bool>) -> Result<
    (),
    BuildErrorModel,
> {
    match exe.required_version {
        None => Ok(()),
        Some(required) => match fits {
            None => Err(BuildErrorModel::InternalError(exe.version_hint)),
            Some(true) => Ok(()),
            Some(false) => Err(
                BuildErrorModel::CommandVersionNotFulfilled {
                    command: exe.name,
                    current: detected,
                    required,
                    hint: exe.version_hint,
                },
            ),
        },
    }
}

/// Whether a command that answers `reply` when asked for its version may run.
pub open spec fn admitted(exe: ExecutableModel, reply: Seq<char>) -> Result<(), BuildErrorModel> {
    match exe.required_version {
        None => Ok(()),
        Some(required) => match version_in(reply) {
            None => Err(BuildErrorModel::InternalError(exe.version_hint)),
            Some(detected) => verdict(exe, detected, semver_matches(required, detected)),
        },
    }
}

/// What a finished run amounts to: its output, the standard output without
/// its final line feed, or the failure that a non-zero exit code is.
pub open spec fn finished(exe: ExecutableModel, code: i32, stdout: Seq<char>, stderr: Seq<char>)
    -> Result<OutputModel, BuildErrorModel> {
    if code == 0 {
        Ok(OutputModel { stdout: without_final_newline(stdout), stderr })
    } else {
        Err(BuildErrorModel::CommandFailed { command: exe.name, code, stderr })
    }
}

/// The model of a result without a value.
pub open spec fn unit_outcome(r: Result<(), BuildErrorKind>) -> Result<(), BuildErrorModel> {
    match r {
        Ok(_) => Ok(()),
        Err(error) => Err(error@),
    }
}

impl Executable {
    /// Describes a command.
    pub fn new(
        name: &str,
        verification_hint: &str,
        version_hint: &str,
        required_version: Option<&str>,
    ) -> (exe: Executable)
        ensures
            exe@.name == name@,
            exe@.verification_hint == verification_hint@,
            exe@.version_hint == version_hint@,
            match required_version {
                Some(required) => exe@.required_version == Some(required@),
                None => exe@.required_version is None,
            },
    {
        Executable {
            name: name.to_owned(),
            verification_hint: verification_hint.to_owned(),
            version_hint: version_hint.to_owned(),
            required_version: match required_version {
                Some(required) => Some(required.to_owned()),
                None => None,
            },
        }
    }

    /// Decides what follows the search for the command, which was `found`
    /// or not.
    pub fn after_discovery(&self, found: bool) -> (r: Result<Step, BuildErrorKind>)
        ensures
            outcome(r) == discovered(self@, found),
    {
        if !found {
            Err(
                BuildErrorKind::CommandNotFound {
                    command: self.name.clone(),
                    hint: self.verification_hint.clone(),
                },
            )
        } else if self.required_version.is_some() {
            Ok(Step::QueryVersion)
        } else {
            Ok(Step::Execute)
        }
    }

    /// Decides whether the version `detected` lets the command run, given
    /// whether it lies in the required range.
    pub fn version_verdict(&self, detected: &str, fits: Option<bool>) -> (r: Result<
        (),
        BuildErrorKind,
    >)
        ensures
            unit_outcome(r) == verdict(self@, detected@, fits),
    {
        match &self.required_version {
            None => Ok(()),
            Some(required) => match fits {
                None => Err(BuildErrorKind::InternalError(self.version_hint.clone())),
                Some(true) => Ok(()),
                Some(false) => Err(
                    BuildErrorKind::CommandVersionNotFulfilled {
                        command: self.name.clone(),
                        current: detected.to_owned(),
                        required: required.clone(),
                        hint: self.version_hint.clone(),
                    },
                ),
            },
        }
    }

    /// Decides whether the command may run, from what it answered when asked
    /// for its version.
    pub fn check_version(&self, reply: &str) -> (r: Result<(), BuildErrorKind>)
        ensures
            unit_outcome(r) == admitted(self@, reply@),
    {
        match &self.required_version {
            None => Ok(()),
            Some(required) => match find_version(reply) {
                None => Err(BuildErrorKind::InternalError(self.version_hint.clone())),
                Some(detected) => {
                    let fits = version_matches(required.as_str(), detected.as_str());
                    self.version_verdict(detected.as_str(), fits)
                },
            },
        }
    }

    /// Decides what a finished run amounts to, from its exit code and what it
    /// printed.
    pub fn after_exit(&self, code: i32, stdout: &str, stderr: &str) -> (r: Result<
        Output,
        BuildErrorKind,
    >)
        ensures
            outcome(r) == finished(self@, code, stdout@, stderr@),
    {
        if code == 0 {
            Ok(Output { stdout: trim_final_newline(stdout), stderr: stderr.to_owned() })
        } else {
            Err(
                BuildErrorKind::CommandFailed {
                    command: self.name.clone(),
                    code,
                    stderr: stderr.to_owned(),
                },
            )
        }
    }
}

} // verus!
