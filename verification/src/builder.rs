//! Planning a build and reading its outcome.
//!
//! A build goes in three steps. `Builder::plan` decides whether to build at
//! all and, if so, how to call the toolchain. The caller runs that command.
//! `Builder::conclude` turns what the run gave into the build's result.

use crate::diagnostics::{diagnostics_of, parse};
use crate::error::{outcome, BuildErrorKind, BuildErrorModel};
use crate::executable::{Output, OutputModel};
use crate::source::{analysed, cache_path, chosen_type, Crate, CrateModel, ManifestFile};
use crate::text::{ends_with, has_suffix, push_char, texts};
use vstd::prelude::*;

verus! {

/// The target that the toolchain compiles for.
pub const TARGET_NAME: &'static str = "nvptx64-nvidia-cuda";

/// The environment variable that marks a build started from here.
pub const BUILDING_MARKER: &'static str = "PTX_CRATE_BUILDING";

/// How much the compiler optimises.
#[derive(Clone, Copy, Debug, PartialEq, Eq, Hash)]
pub enum Profile {
    /// Little optimisation, with debug information.
    Debug,
    /// Full optimisation.
    Release,
}

impl Default for Profile {
    fn default() -> (profile: Profile)
        ensures
            profile == Profile::Release,
    {
        Profile::Release
    }
}

impl View for Profile {
    type V = Profile;

    open spec fn view(&self) -> Profile {
        *self
    }
}

/// What a crate is built as.
#[derive(Clone, Copy, Debug, PartialEq, Eq, Hash)]
pub enum CrateType {
    Library,
    Binary,
}

impl View for CrateType {
    type V = CrateType;

    open spec fn view(&self) -> CrateType {
        *self
    }
}

/// What the process that asks for a build was started with.
#[derive(Clone, Debug, PartialEq, Eq)]
pub struct ExecutionContext {
    /// The program that runs the build script (the variable `CARGO`).
    pub host_binary: Option<String>,
    /// The value of the variable `PTX_CRATE_BUILDING`.
    pub building_marker: Option<String>,
}

/// An `ExecutionContext` with its strings as character sequences.
pub struct ExecutionContextModel {
    pub host_binary: Option<Seq<char>>,
    pub building_marker: Option<Seq<char>>,
}

impl View for ExecutionContext {
    type V = ExecutionContextModel;

    open spec fn view(&self) -> ExecutionContextModel {
        ExecutionContextModel {
            host_binary: match self.host_binary {
                Some(host) => Some(host@),
                None => None,
            },
            building_marker: match self.building_marker {
                Some(marker) => Some(marker@),
                None => None,
            },
        }
    }
}

/// How to call the toolchain for one build.
#[derive(Clone, Debug, PartialEq, Eq)]
pub struct Invocation {
    /// The arguments of the command.
    pub arguments: Vec<String>,
    /// The directory to run the command in.
    pub working_directory: String,
    /// The environment variable to set for the command.
    pub marker_name: String,
    /// The value to set it to.
    pub marker_value: String,
    /// The directory that the command puts its output in.
    pub output_path: String,
}

/// An `Invocation` with its strings as character sequences.
pub struct InvocationModel {
    pub arguments: Seq<Seq<char>>,
    pub working_directory: Seq<char>,
    pub marker_name: Seq<char>,
    pub marker_value: Seq<char>,
    pub output_path: Seq<char>,
}

impl View for Invocation {
    type V = InvocationModel;

    open spec fn view(&self) -> InvocationModel {
        InvocationModel {
            arguments: texts(self.arguments@),
            working_directory: self.working_directory@,
            marker_name: self.marker_name@,
            marker_value: self.marker_value@,
            output_path: self.output_path@,
        }
    }
}

/// What to do for a build.
#[derive(Clone, Debug, PartialEq, Eq)]
pub enum BuildPlan {
    /// Nothing: the build was started by a build of this kind, or by a tool
    /// that only reads the code.
    NotNeeded,
    /// Call the toolchain.
    Invoke(Invocation),
}

/// A `BuildPlan` with its strings as character sequences.
pub enum BuildPlanModel {
    NotNeeded,
    Invoke(InvocationModel),
}

impl View for BuildPlan {
    type V = BuildPlanModel;

    open spec fn view(&self) -> BuildPlanModel {
        match *self {
            BuildPlan::NotNeeded => BuildPlanModel::NotNeeded,
            BuildPlan::Invoke(invocation) => BuildPlanModel::Invoke(invocation@),
        }
    }
}

/// What a build produced.
#[derive(Clone, Debug, PartialEq, Eq)]
pub struct BuildOutput {
    assembly_path: String,
    crate_path: String,
}

/// A `BuildOutput` with its strings as character sequences.
pub struct BuildOutputModel {
    pub assembly_path: Seq<char>,
    pub crate_path: Seq<char>,
}

impl View for BuildOutput {
    type V = BuildOutputModel;

    closed spec fn view(&self) -> BuildOutputModel {
        BuildOutputModel { assembly_path: self.assembly_path@, crate_path: self.crate_path@ }
    }
}

/// How a build ended.
#[derive(Clone, Debug, PartialEq, Eq)]
pub enum BuildStatus {
    /// The toolchain ran and wrote the assembly.
    Success(BuildOutput),
    /// There was nothing to do.
    NotNeeded,
}

/// A `BuildStatus` with its strings as character sequences.
pub enum BuildStatusModel {
    Success(BuildOutputModel),
    NotNeeded,
}

impl View for BuildStatus {
    type V = BuildStatusModel;

    open spec fn view(&self) -> BuildStatusModel {
        match *self {
            BuildStatus::Success(output) => BuildStatusModel::Success(output@),
            BuildStatus::NotNeeded => BuildStatusModel::NotNeeded,
        }
    }
}

/// Builds a crate into PTX assembly.
#[derive(Debug)]
pub struct Builder {
    source_crate: Crate,
    profile: Profile,
    colors: bool,
    crate_type: Option<CrateType>,
}

/// A `Builder` with its crate as a model.
pub struct BuilderModel {
    pub source_crate: CrateModel,
    pub profile: Profile,
    pub colors: bool,
    pub crate_type: Option<CrateType>,
}

impl View for Builder {
    type V = BuilderModel;

    closed spec fn view(&self) -> BuilderModel {
        BuilderModel {
            source_crate: self.source_crate@,
            profile: self.profile,
            colors: self.colors,
            crate_type: self.crate_type,
        }
    }
}

/// The builder that a new crate gets: full optimisation, coloured messages,
/// no crate type asked for.
pub open spec fn fresh(source_crate: CrateModel) -> BuilderModel {
    BuilderModel { source_crate, profile: Profile::Release, colors: true, crate_type: None }
}

/// Whether a process started in `context` has to build: not when a language
/// server runs it (a host program whose name ends in `rls`), and not when a
/// build from here started it (the marker is set to anything but nothing).
pub open spec fn build_needed(context: ExecutionContextModel) -> bool {
    let by_language_server = match context.host_binary {
        Some(host) => has_suffix(host, "rls"@),
        None => false,
    };
    let by_own_build = match context.building_marker {
        Some(marker) => marker.len() > 0,
        None => false,
    };
    !by_language_server && !by_own_build
}

/// The name of the directory that the toolchain uses for a profile.
pub open spec fn profile_name(profile: Profile) -> Seq<char> {
    match profile {
        Profile::Debug => "debug"@,
        Profile::Release => "release"@,
    }
}

/// The arguments of the toolchain for one build: the action, no progress
/// report, messages as JSON (with colours or without), the target, the
/// profile, what to build, and where to put the output.
pub open spec fn arguments_for(
    name: Seq<char>,
    crate_type: CrateType,
    profile: Profile,
    colors: bool,
    output_path: Seq<char>,
) -> Seq<Seq<char>> {
    seq![
        "build"@,
        "--quiet"@,
        "--message-format"@,
        if colors {
            "json-diagnostic-rendered-ansi"@
        } else {
            "json"@
        },
        "--target"@,
        TARGET_NAME@,
    ] + (match profile {
        Profile::Release => seq!["--release"@],
        Profile::Debug => seq![],
    }) + (match crate_type {
        CrateType::Library => seq!["--lib"@],
        CrateType::Binary => seq!["--bin"@, name],
    }) + seq!["--target-dir"@, output_path]
}

/// The call of the toolchain that builds `unit` as `crate_type`.
pub open spec fn invocation_for(
    builder: BuilderModel,
    crate_type: CrateType,
    scratch_root: Seq<char>,
) -> InvocationModel {
    let output_path = cache_path(scratch_root, builder.source_crate, crate_type, builder.profile);
    InvocationModel {
        arguments: arguments_for(
            builder.source_crate.name,
            crate_type,
            builder.profile,
            builder.colors,
            output_path,
        ),
        working_directory: builder.source_crate.path,
        marker_name: BUILDING_MARKER@,
        marker_value: "1"@,
        output_path,
    }
}

/// What to do for a build: nothing where none is needed; else the call of
/// the toolchain for the crate type that was asked for, or the error that
/// the request is.
pub open spec fn planned(
    builder: BuilderModel,
    context: ExecutionContextModel,
    scratch_root: Seq<char>,
) -> Result<BuildPlanModel, BuildErrorModel> {
    if !build_needed(context) {
        Ok(BuildPlanModel::NotNeeded)
    } else {
        match chosen_type(builder.source_crate.crate_type, builder.crate_type) {
            Ok(crate_type) => Ok(
                BuildPlanModel::Invoke(invocation_for(builder, crate_type, scratch_root)),
            ),
            Err(error) => Err(error),
        }
    }
}

/// Where the toolchain writes the assembly:
/// `<output path>/<target>/<profile>/<prefix>.ptx`.
pub open spec fn assembly_path_in(output_path: Seq<char>, prefix: Seq<char>, profile: Profile)
    -> Seq<char> {
    output_path + seq!['/'] + TARGET_NAME@ + seq!['/'] + profile_name(profile) + seq!['/']
        + prefix + ".ptx"@
}

/// How a build ended whose toolchain run gave `run`: a run that succeeded
/// gives the assembly; a run that failed gives the compiler's report; any
/// other error stays as it is.
pub open spec fn concluded(
    builder: BuilderModel,
    output_path: Seq<char>,
    run: Result<OutputModel, BuildErrorModel>,
) -> Result<BuildStatusModel, BuildErrorModel> {
    match run {
        Ok(_) => Ok(
            BuildStatusModel::Success(
                BuildOutputModel {
                    assembly_path: assembly_path_in(
                        output_path,
                        builder.source_crate.output_file_prefix,
                        builder.profile,
                    ),
                    crate_path: builder.source_crate.path,
                },
            ),
        ),
        Err(BuildErrorModel::CommandFailed { command, code, stderr }) => Err(
            BuildErrorModel::BuildFailed(diagnostics_of(stderr)),
        ),
        Err(error) => Err(error),
    }
}

/// The files that a build depends on: the manifest, the lock file where
/// there is one, and the source files.
pub open spec fn dependencies_of(
    crate_path: Seq<char>,
    has_lock_file: bool,
    source_files: Seq<Seq<char>>,
) -> Seq<Seq<char>> {
    seq![crate_path + "/Cargo.toml"@] + (if has_lock_file {
        seq![crate_path + "/Cargo.lock"@]
    } else {
        seq![]
    }) + source_files
}

/// Whether `part` stands somewhere in `whole`.
pub open spec fn holds(whole: Seq<char>, part: Seq<char>) -> bool {
    exists|at: int| 0 <= at && at + part.len() <= whole.len() && #[trigger] whole.subrange(at, at + part.len()) == part
}

/// The path of the assembly names the profile that it was built with.
pub proof fn lemma_assembly_path_names_profile(
    output_path: Seq<char>,
    prefix: Seq<char>,
    profile: Profile,
)
    ensures
        holds(assembly_path_in(output_path, prefix, profile), profile_name(profile)),
{
    let whole = assembly_path_in(output_path, prefix, profile);
    let at = (output_path.len() + 1 + TARGET_NAME@.len() + 1) as int;
    assert(whole.subrange(at, at + profile_name(profile).len()) =~= profile_name(profile));
}

/// A build that is not needed is planned as such whatever the crate and
/// whatever was asked of the builder: the crate is not looked at.
pub proof fn lemma_guarded_build_is_not_needed(
    builder: BuilderModel,
    context: ExecutionContextModel,
    scratch_root: Seq<char>,
)
    requires
        !build_needed(context),
    ensures
        planned(builder, context, scratch_root) == Ok::<BuildPlanModel, BuildErrorModel>(
            BuildPlanModel::NotNeeded,
        ),
{
}

/// A process that finds the marker of a planned build in its environment,
/// with the value that the plan gives it, does not build.
pub proof fn lemma_marker_stops_the_build_within(
    builder: BuilderModel,
    crate_type: CrateType,
    scratch_root: Seq<char>,
    context: ExecutionContextModel,
)
    requires
        context.building_marker == Some(
            invocation_for(builder, crate_type, scratch_root).marker_value,
        ),
    ensures
        !build_needed(context),
{
    reveal_strlit("1");
}

/// Building again, with nothing changed, plans the same call and ends at the
/// same assembly, whatever the two runs of the toolchain printed.
pub proof fn lemma_rebuild_gives_the_same_assembly(
    builder: BuilderModel,
    output_path: Seq<char>,
    first_run: OutputModel,
    second_run: OutputModel,
)
    ensures
        concluded(builder, output_path, Ok(first_run)) == concluded(
            builder,
            output_path,
            Ok(second_run),
        ),
        concluded(builder, output_path, Ok(first_run)) matches Ok(
            BuildStatusModel::Success(output),
        ) && output.assembly_path == assembly_path_in(
            output_path,
            builder.source_crate.output_file_prefix,
            builder.profile,
        ),
{
}

/// Only a failed run of the toolchain is reported as a failed build; every
/// other error of the run is the error of the build.
pub proof fn lemma_other_errors_pass_through(
    builder: BuilderModel,
    output_path: Seq<char>,
    error: BuildErrorModel,
)
    requires
        !(error is CommandFailed),
    ensures
        concluded(builder, output_path, Err(error)) == Err::<BuildStatusModel, BuildErrorModel>(
            error,
        ),
{
}

impl Builder {
    /// Makes a builder for the crate at `path`, from what was found there
    /// (see `Crate::analyse`).
    pub fn new(path: &str, manifest: &ManifestFile, has_lib_rs: bool, has_main_rs: bool) -> (r:
        Result<Builder, BuildErrorKind>)
        ensures
            outcome(r) == match analysed(path@, *manifest, has_lib_rs, has_main_rs) {
                Ok(source_crate) => Ok(fresh(source_crate)),
                Err(error) => Err(error),
            },
    {
        match Crate::analyse(path, manifest, has_lib_rs, has_main_rs) {
            Ok(source_crate) => Ok(Builder::for_crate(source_crate)),
            Err(error) => Err(error),
        }
    }

    /// Makes a builder for a crate.
    pub fn for_crate(source_crate: Crate) -> (builder: Builder)
        ensures
            builder@ == fresh(source_crate@),
    {
        Builder { source_crate, profile: Profile::Release, colors: true, crate_type: None }
    }

    /// Returns the crate that is built.
    pub fn get_crate(&self) -> (source_crate: &Crate)
        ensures
            source_crate@ == self@.source_crate,
    {
        &self.source_crate
    }

    /// Asks for messages without colours.
    pub fn disable_colors(self) -> (builder: Builder)
        ensures
            builder@ == (BuilderModel { colors: false, ..self@ }),
    {
        Builder { colors: false, ..self }
    }

    /// Sets the profile to build with.
    pub fn set_profile(self, profile: Profile) -> (builder: Builder)
        ensures
            builder@ == (BuilderModel { profile, ..self@ }),
    {
        Builder { profile, ..self }
    }

    /// Sets what to build the crate as. A crate that holds both a library and
    /// a binary cannot be built without.
    pub fn set_crate_type(self, crate_type: CrateType) -> (builder: Builder)
        ensures
            builder@ == (BuilderModel { crate_type: Some(crate_type), ..self@ }),
    {
        Builder { crate_type: Some(crate_type), ..self }
    }

    /// Tells whether a process started in `context` has to build.
    pub fn is_build_needed(context: &ExecutionContext) -> (needed: bool)
        ensures
            needed == build_needed(context@),
    {
        let by_language_server = match &context.host_binary {
            Some(host) => ends_with(host.as_str(), "rls"),
            None => false,
        };
        let by_own_build = match &context.building_marker {
            Some(marker) => !marker.as_str().is_empty(),
            None => false,
        };
        !by_language_server && !by_own_build
    }

    /// Decides what to do for a build started in `context`, with its output
    /// under `scratch_root`.
    pub fn plan(&self, context: &ExecutionContext, scratch_root: &str) -> (r: Result<
        BuildPlan,
        BuildErrorKind,
    >)
        ensures
            outcome(r) == planned(self@, context@, scratch_root@),
    {
        if !Builder::is_build_needed(context) {
            return Ok(BuildPlan::NotNeeded);
        }
        let crate_type = match self.source_crate.get_crate_type(self.crate_type) {
            Ok(crate_type) => crate_type,
            Err(error) => { return Err(error); },
        };
        let output_path = self.source_crate.get_output_path(scratch_root, crate_type, self.profile);
        let mut arguments: Vec<String> = Vec::new();
        arguments.push("build".to_owned());
        arguments.push("--quiet".to_owned());
        arguments.push("--message-format".to_owned());
        if self.colors {
            arguments.push("json-diagnostic-rendered-ansi".to_owned());
        } else {
            arguments.push("json".to_owned());
        }
        arguments.push("--target".to_owned());
        arguments.push(TARGET_NAME.to_owned());
        match self.profile {
            Profile::Release => {
                arguments.push("--release".to_owned());
            },
            Profile::Debug => {},
        }
        match crate_type {
            CrateType::Library => {
                arguments.push("--lib".to_owned());
            },
            CrateType::Binary => {
                arguments.push("--bin".to_owned());
                arguments.push(self.source_crate.get_name().to_owned());
            },
        }
        arguments.push("--target-dir".to_owned());
        arguments.push(output_path.clone());
        assert(texts(arguments@) =~= arguments_for(
            self@.source_crate.name,
            crate_type,
            self@.profile,
            self@.colors,
            output_path@,
        ));
        Ok(
            BuildPlan::Invoke(
                Invocation {
                    arguments,
                    working_directory: self.source_crate.get_path().to_owned(),
                    marker_name: BUILDING_MARKER.to_owned(),
                    marker_value: "1".to_owned(),
                    output_path,
                },
            ),
        )
    }

    /// Turns what the run of the toolchain gave into the result of the build
    /// whose output went to `output_path`.
    pub fn conclude(&self, output_path: &str, run: Result<Output, BuildErrorKind>) -> (r: Result<
        BuildStatus,
        BuildErrorKind,
    >)
        ensures
            outcome(r) == concluded(self@, output_path@, outcome(run)),
    {
        match run {
            Ok(_) => {
                let mut assembly_path = output_path.to_owned();
                push_char(&mut assembly_path, '/');
                assembly_path.append(TARGET_NAME);
                push_char(&mut assembly_path, '/');
                match self.profile {
                    Profile::Debug => assembly_path.append("debug"),
                    Profile::Release => assembly_path.append("release"),
                }
                push_char(&mut assembly_path, '/');
                assembly_path.append(self.source_crate.get_output_file_prefix());
                assembly_path.append(".ptx");
                assert(assembly_path@ =~= assembly_path_in(
                    output_path@,
                    self@.source_crate.output_file_prefix,
                    self@.profile,
                ));
                Ok(
                    BuildStatus::Success(
                        BuildOutput {
                            assembly_path,
                            crate_path: self.source_crate.get_path().to_owned(),
                        },
                    ),
                )
            },
            Err(BuildErrorKind::CommandFailed { command, code, stderr }) => Err(
                BuildErrorKind::BuildFailed(parse(stderr.as_str())),
            ),
            Err(error) => Err(error),
        }
    }
}

impl BuildOutput {
    /// Returns the path of the PTX assembly.
    pub fn get_assembly_path(&self) -> (path: &str)
        ensures
            path@ == self@.assembly_path,
    {
        self.assembly_path.as_str()
    }

    /// Returns the files that the build depends on: the manifest, the lock
    /// file where there is one, and the source files, which the caller lists.
    pub fn dependencies(&self, has_lock_file: bool, source_files: &Vec<String>) -> (files: Vec<
        String,
    >)
        ensures
            texts(files@) == dependencies_of(self@.crate_path, has_lock_file, texts(source_files@)),
    {
        let mut files: Vec<String> = Vec::new();
        let mut manifest = self.crate_path.clone();
        manifest.append("/Cargo.toml");
        files.push(manifest);
        if has_lock_file {
            let mut lock = self.crate_path.clone();
            lock.append("/Cargo.lock");
            files.push(lock);
        }
        let ghost head = texts(files@);
        let mut i: usize = 0;
        assert(head =~= head + texts(source_files@).take(0));
        while i < source_files.len()
            invariant
                i <= source_files.len(),
                texts(files@) == head + texts(source_files@).take(i as int),
            decreases source_files.len() - i,
        {
            let ghost before = files@;
            let file = source_files[i].clone();
            files.push(file);
            assert(texts(files@) =~= texts(before).push(file@));
            assert(texts(source_files@).take(i + 1) =~= texts(source_files@).take(i as int).push(
                file@,
            ));
            assert(texts(files@) =~= head + texts(source_files@).take(i + 1));
            i += 1;
        }
        assert(texts(source_files@).take(source_files.len() as int) =~= texts(source_files@));
        files
    }
}

} // verus!
