//! The crate to build: its name, its place and what it holds.

use crate::builder::CrateType as ChosenCrateType;
use crate::builder::Profile;
use crate::error::{outcome, BuildErrorKind, BuildErrorModel};
use crate::manifest::{manifest_of, read_manifest, Manifest, ManifestModel};
use crate::text::{
    hex_of, lemma_hex_of_digits, lemma_hex_of_is_injective, push_char, push_hex, replace_char,
    replaced,
};
use std::collections::hash_map::DefaultHasher;
use std::hash::Hasher;
use vstd::prelude::*;

verus! {

/// What a crate holds: a library, a binary, or both.
#[derive(Clone, Copy, Debug, PartialEq, Eq, Hash)]
pub enum CrateType {
    Library,
    Binary,
    Mixed,
}

/// What stands at `Cargo.toml` under a crate's root.
#[derive(Clone, Debug, PartialEq, Eq)]
pub enum ManifestFile {
    /// Nothing.
    Missing,
    /// A directory.
    Directory,
    /// A file that could not be read.
    Unreadable,
    /// A file with this text.
    Contents(String),
}

/// Information about a CUDA crate.
#[derive(Debug)]
pub struct Crate {
    name: String,
    path: String,
    output_file_prefix: String,
    crate_type: CrateType,
}

/// A `Crate` with its strings as character sequences.
pub struct CrateModel {
    pub name: Seq<char>,
    pub path: Seq<char>,
    pub output_file_prefix: Seq<char>,
    pub crate_type: CrateType,
}

/// The message of the error for a manifest without a package name.
pub const NO_NAME: &'static str = "Cannot get crate name";

/// The message of the error for a crate with nothing to build.
pub const NOTHING_TO_BUILD: &'static str =
    "Unable to find neither `src/lib.rs` nor `src/main.rs` nor a [lib] nor [[bin]] section in `Cargo.toml`";

/// The name of a crate as it appears in the names of its output files.
pub open spec fn file_prefix(name: Seq<char>) -> Seq<char> {
    replaced(name, '-', '_')
}

/// What a crate holds, by whether it has a library and a binary.
pub open spec fn kind_of(is_library: bool, is_binary: bool) -> Option<CrateType> {
    if is_library && is_binary {
        Some(CrateType::Mixed)
    } else if is_library {
        Some(CrateType::Library)
    } else if is_binary {
        Some(CrateType::Binary)
    } else {
        None
    }
}

/// The crate at `path` whose manifest says `manifest`, with or without the
/// entry points `src/lib.rs` and `src/main.rs`.
pub open spec fn described(
    path: Seq<char>,
    manifest: ManifestModel,
    has_lib_rs: bool,
    has_main_rs: bool,
) -> Result<CrateModel, BuildErrorModel> {
    match manifest.name {
        None => Err(BuildErrorModel::InternalError(NO_NAME@)),
        Some(name) => match kind_of(
            manifest.has_lib_section || has_lib_rs,
            manifest.has_bin_section || has_main_rs,
        ) {
            None => Err(BuildErrorModel::InternalError(NOTHING_TO_BUILD@)),
            Some(crate_type) => Ok(
                CrateModel { name, path, output_file_prefix: file_prefix(name), crate_type },
            ),
        },
    }
}

/// The crate at `path`, by what stands at its manifest's place.
pub open spec fn analysed(
    path: Seq<char>,
    manifest: ManifestFile,
    has_lib_rs: bool,
    has_main_rs: bool,
) -> Result<CrateModel, BuildErrorModel> {
    match manifest {
        ManifestFile::Missing | ManifestFile::Directory => Err(
            BuildErrorModel::InvalidCratePath(path),
        ),
        ManifestFile::Unreadable => Err(BuildErrorModel::OtherError),
        ManifestFile::Contents(text) => match manifest_of(text@) {
            None => Err(BuildErrorModel::OtherError),
            Some(said) => described(path, said, has_lib_rs, has_main_rs),
        },
    }
}

/// Whether two findings at a manifest's place are the same: the same kind of
/// thing, and for a file the same text.
pub open spec fn same_file(a: ManifestFile, b: ManifestFile) -> bool {
    match (a, b) {
        (ManifestFile::Missing, ManifestFile::Missing) => true,
        (ManifestFile::Directory, ManifestFile::Directory) => true,
        (ManifestFile::Unreadable, ManifestFile::Unreadable) => true,
        (ManifestFile::Contents(text), ManifestFile::Contents(other)) => text@ == other@,
        _ => false,
    }
}

/// Analysing a crate twice, with nothing changed in between, gives the same
/// name, path, prefix and kind, or the same error.
pub proof fn lemma_analysis_is_repeatable(
    path: Seq<char>,
    manifest: ManifestFile,
    again: ManifestFile,
    has_lib_rs: bool,
    has_main_rs: bool,
)
    requires
        same_file(manifest, again),
    ensures
        analysed(path, manifest, has_lib_rs, has_main_rs) == analysed(
            path,
            again,
            has_lib_rs,
            has_main_rs,
        ),
{
}

/// A crate that was analysed has the prefix that goes with its name, and
/// holds what its manifest and its entry points say.
pub proof fn lemma_analysed_crate(
    path: Seq<char>,
    manifest: ManifestFile,
    has_lib_rs: bool,
    has_main_rs: bool,
)
    ensures
        match analysed(path, manifest, has_lib_rs, has_main_rs) {
            Ok(unit) => {
                &&& manifest matches ManifestFile::Contents(text)
                &&& manifest_of(text@) matches Some(said)
                &&& said.name == Some(unit.name)
                &&& unit.path == path
                &&& unit.output_file_prefix == file_prefix(unit.name)
                &&& Some(unit.crate_type) == kind_of(
                    said.has_lib_section || has_lib_rs,
                    said.has_bin_section || has_main_rs,
                )
            },
            Err(_) => true,
        },
{
}

/// The crate type to build, by what the crate holds and what was asked for.
pub open spec fn chosen_type(held: CrateType, requested: Option<ChosenCrateType>) -> Result<
    ChosenCrateType,
    BuildErrorModel,
> {
    match (held, requested) {
        (CrateType::Library, None) => Ok(ChosenCrateType::Library),
        (CrateType::Library, Some(ChosenCrateType::Library)) => Ok(ChosenCrateType::Library),
        (CrateType::Library, Some(ChosenCrateType::Binary)) => Err(
            BuildErrorModel::InvalidCrateType("Binary"@),
        ),
        (CrateType::Binary, None) => Ok(ChosenCrateType::Binary),
        (CrateType::Binary, Some(ChosenCrateType::Binary)) => Ok(ChosenCrateType::Binary),
        (CrateType::Binary, Some(ChosenCrateType::Library)) => Err(
            BuildErrorModel::InvalidCrateType("Library"@),
        ),
        (CrateType::Mixed, None) => Err(BuildErrorModel::MissingCrateType),
        (CrateType::Mixed, Some(requested)) => Ok(requested),
    }
}

/// The hash that the standard library's default hasher, freshly made, gives
/// to the UTF-8 bytes of `key`.
pub uninterp spec fn default_hash(key: Seq<char>) -> u64;

/// Hashes a key.
///
/// Trusted: every `DefaultHasher` made by `new` starts in the same state, so
/// the hash it returns after one `write` of the key's bytes is a function of
/// the key alone.
#[verifier::external_body]
fn hash_key(key: &str) -> (hash: u64)
    ensures
        hash == default_hash(key@),
{
    let mut hasher = DefaultHasher::new();
    hasher.write(key.as_bytes());
    hasher.finish()
}

/// The letter that stands for what a crate holds.
pub open spec fn held_tag(crate_type: CrateType) -> char {
    match crate_type {
        CrateType::Library => 'L',
        CrateType::Binary => 'B',
        CrateType::Mixed => 'M',
    }
}

/// The letter that stands for what a crate is built as.
pub open spec fn chosen_tag(crate_type: ChosenCrateType) -> char {
    match crate_type {
        ChosenCrateType::Library => 'l',
        ChosenCrateType::Binary => 'b',
    }
}

/// The letter that stands for a profile.
pub open spec fn profile_tag(profile: Profile) -> char {
    match profile {
        Profile::Debug => 'd',
        Profile::Release => 'r',
    }
}

/// `s` behind its own length: the length in hexadecimal, a colon, then `s`.
pub open spec fn sized(s: Seq<char>) -> Seq<char> {
    hex_of(s.len()) + seq![':'] + s
}

/// The text that identifies one build of one crate: three letters for what
/// the crate holds, what it is built as and the profile, then the crate's
/// name and path, each behind its length, then the prefix of its output files.
pub open spec fn cache_key(unit: CrateModel, crate_type: ChosenCrateType, profile: Profile) -> Seq<
    char,
> {
    seq![held_tag(unit.crate_type), chosen_tag(crate_type), profile_tag(profile)] + sized(
        unit.name,
    ) + sized(unit.path) + unit.output_file_prefix
}

/// The directory that one build of one crate puts its output in:
/// `<scratch root>/<prefix>/<hash of the key, in hexadecimal>`.
pub open spec fn cache_path(
    scratch_root: Seq<char>,
    unit: CrateModel,
    crate_type: ChosenCrateType,
    profile: Profile,
) -> Seq<char> {
    scratch_root + seq!['/'] + unit.output_file_prefix + seq!['/'] + hex_of(
        default_hash(cache_key(unit, crate_type, profile)) as nat,
    )
}

/// Two builds with the same key are builds of the same crate, as the same
/// crate type, with the same profile.
pub proof fn lemma_cache_key_is_injective(
    unit: CrateModel,
    crate_type: ChosenCrateType,
    profile: Profile,
    other_unit: CrateModel,
    other_crate_type: ChosenCrateType,
    other_profile: Profile,
)
    requires
        cache_key(unit, crate_type, profile) == cache_key(
            other_unit,
            other_crate_type,
            other_profile,
        ),
    ensures
        unit == other_unit,
        crate_type == other_crate_type,
        profile == other_profile,
{
    let key = cache_key(unit, crate_type, profile);
    let other_key = cache_key(other_unit, other_crate_type, other_profile);
    let tags = seq![held_tag(unit.crate_type), chosen_tag(crate_type), profile_tag(profile)];
    let other_tags = seq![
        held_tag(other_unit.crate_type),
        chosen_tag(other_crate_type),
        profile_tag(other_profile),
    ];
    assert(key[0] == tags[0] && key[1] == tags[1] && key[2] == tags[2]);
    assert(other_key[0] == other_tags[0] && other_key[1] == other_tags[1] && other_key[2]
        == other_tags[2]);
    let rest = sized(unit.name) + (sized(unit.path) + unit.output_file_prefix);
    let other_rest = sized(other_unit.name) + (sized(other_unit.path)
        + other_unit.output_file_prefix);
    assert(key.skip(3) =~= rest);
    assert(other_key.skip(3) =~= other_rest);
    lemma_sized_is_self_delimiting(
        unit.name,
        sized(unit.path) + unit.output_file_prefix,
        other_unit.name,
        sized(other_unit.path) + other_unit.output_file_prefix,
    );
    lemma_sized_is_self_delimiting(
        unit.path,
        unit.output_file_prefix,
        other_unit.path,
        other_unit.output_file_prefix,
    );
}

/// A text behind its length can be told from what follows it.
pub proof fn lemma_sized_is_self_delimiting(
    a: Seq<char>,
    after_a: Seq<char>,
    b: Seq<char>,
    after_b: Seq<char>,
)
    requires
        sized(a) + after_a == sized(b) + after_b,
    ensures
        a == b,
        after_a == after_b,
{
    let whole = sized(a) + after_a;
    let head_a = hex_of(a.len());
    let head_b = hex_of(b.len());
    lemma_hex_of_digits(a.len());
    lemma_hex_of_digits(b.len());
    assert(whole =~= head_a + seq![':'] + a + after_a);
    assert(whole =~= head_b + seq![':'] + b + after_b);
    assert(whole[head_a.len() as int] == ':');
    assert(whole[head_b.len() as int] == ':');
    assert(head_a.len() == head_b.len()) by {
        if head_a.len() < head_b.len() {
            assert(whole[head_a.len() as int] == head_b[head_a.len() as int]);
        } else if head_b.len() < head_a.len() {
            assert(whole[head_b.len() as int] == head_a[head_b.len() as int]);
        }
    }
    assert(head_a =~= head_b) by {
        assert forall|i: int| 0 <= i < head_a.len() implies head_a[i] == head_b[i] by {
            assert(whole[i] == head_a[i]);
            assert(whole[i] == head_b[i]);
        }
    }
    lemma_hex_of_is_injective(a.len(), b.len());
    let start: int = (head_a.len() + 1) as int;
    assert(a =~= whole.subrange(start, start + a.len()));
    assert(b =~= whole.subrange(start, start + b.len()));
    assert(after_a =~= whole.skip(start + a.len()));
    assert(after_b =~= whole.skip(start + b.len()));
}

/// Under one scratch root, two builds of crates with the same prefix share
/// their output directory exactly when their keys have the same hash.
pub proof fn lemma_cache_path_follows_hash(
    scratch_root: Seq<char>,
    unit: CrateModel,
    crate_type: ChosenCrateType,
    profile: Profile,
    other_unit: CrateModel,
    other_crate_type: ChosenCrateType,
    other_profile: Profile,
)
    requires
        unit.output_file_prefix == other_unit.output_file_prefix,
    ensures
        cache_path(scratch_root, unit, crate_type, profile) == cache_path(
            scratch_root,
            other_unit,
            other_crate_type,
            other_profile,
        ) <==> default_hash(cache_key(unit, crate_type, profile)) == default_hash(
            cache_key(other_unit, other_crate_type, other_profile),
        ),
{
    let hash = default_hash(cache_key(unit, crate_type, profile));
    let other_hash = default_hash(cache_key(other_unit, other_crate_type, other_profile));
    let stem = scratch_root + seq!['/'] + unit.output_file_prefix + seq!['/'];
    let path = cache_path(scratch_root, unit, crate_type, profile);
    let other_path = cache_path(scratch_root, other_unit, other_crate_type, other_profile);
    assert(path =~= stem + hex_of(hash as nat));
    assert(other_path =~= stem + hex_of(other_hash as nat));
    if path == other_path {
        assert(hex_of(hash as nat) =~= path.skip(stem.len() as int));
        assert(hex_of(other_hash as nat) =~= other_path.skip(stem.len() as int));
        lemma_hex_of_is_injective(hash as nat, other_hash as nat);
    }
}

/// A build with another crate type or another profile goes to another output
/// directory, unless the two keys happen to have the same hash.
pub proof fn lemma_cache_path_tells_configuration(
    scratch_root: Seq<char>,
    unit: CrateModel,
    crate_type: ChosenCrateType,
    profile: Profile,
    other_crate_type: ChosenCrateType,
    other_profile: Profile,
)
    requires
        crate_type != other_crate_type || profile != other_profile,
        default_hash(cache_key(unit, crate_type, profile)) != default_hash(
            cache_key(unit, other_crate_type, other_profile),
        ),
    ensures
        cache_key(unit, crate_type, profile) != cache_key(unit, other_crate_type, other_profile),
        cache_path(scratch_root, unit, crate_type, profile) != cache_path(
            scratch_root,
            unit,
            other_crate_type,
            other_profile,
        ),
{
    lemma_cache_path_follows_hash(
        scratch_root,
        unit,
        crate_type,
        profile,
        unit,
        other_crate_type,
        other_profile,
    );
}

impl View for Crate {
    type V = CrateModel;

    closed spec fn view(&self) -> CrateModel {
        CrateModel {
            name: self.name@,
            path: self.path@,
            output_file_prefix: self.output_file_prefix@,
            crate_type: self.crate_type,
        }
    }
}

impl Clone for Crate {
    fn clone(&self) -> (r: Crate)
        ensures
            r@ == self@,
    {
        proof {
            use_type_invariant(self);
        }
        Crate {
            name: self.name.clone(),
            path: self.path.clone(),
            output_file_prefix: self.output_file_prefix.clone(),
            crate_type: self.crate_type,
        }
    }
}

impl Crate {
    /// The prefix is always the name with `_` for `-`.
    #[verifier::type_invariant]
    spec fn prefix_follows_name(self) -> bool {
        self.output_file_prefix@ == file_prefix(self.name@)
    }

    /// Collects the information on the crate at `path` from what was found
    /// there: what stands at its manifest's place, and whether it has the entry
    /// points `src/lib.rs` and `src/main.rs`.
    pub fn analyse(path: &str, manifest: &ManifestFile, has_lib_rs: bool, has_main_rs: bool) -> (r:
        Result<Crate, BuildErrorKind>)
        ensures
            outcome(r) == analysed(path@, *manifest, has_lib_rs, has_main_rs),
    {
        match manifest {
            ManifestFile::Missing => Err(BuildErrorKind::InvalidCratePath(path.to_owned())),
            ManifestFile::Directory => Err(BuildErrorKind::InvalidCratePath(path.to_owned())),
            ManifestFile::Unreadable => Err(BuildErrorKind::OtherError),
            ManifestFile::Contents(text) => match read_manifest(text.as_str()) {
                None => Err(BuildErrorKind::OtherError),
                Some(said) => Crate::from_manifest(path, &said, has_lib_rs, has_main_rs),
            },
        }
    }

    /// Collects the information on the crate at `path` from what its manifest
    /// says and from whether it has the two entry points.
    pub fn from_manifest(path: &str, manifest: &Manifest, has_lib_rs: bool, has_main_rs: bool) -> (r:
        Result<Crate, BuildErrorKind>)
        ensures
            outcome(r) == described(path@, manifest@, has_lib_rs, has_main_rs),
    {
        let name = match &manifest.name {
            Some(name) => name,
            None => { return Err(BuildErrorKind::InternalError(NO_NAME.to_owned())); },
        };
        let is_library = manifest.has_lib_section || has_lib_rs;
        let is_binary = manifest.has_bin_section || has_main_rs;
        let crate_type = if is_library && is_binary {
            CrateType::Mixed
        } else if is_library {
            CrateType::Library
        } else if is_binary {
            CrateType::Binary
        } else {
            return Err(BuildErrorKind::InternalError(NOTHING_TO_BUILD.to_owned()));
        };
        let output_file_prefix = replace_char(name.as_str(), '-', '_');
        Ok(Crate { name: name.clone(), path: path.to_owned(), output_file_prefix, crate_type })
    }

    /// Returns the prefix of the names of the PTX assembly files.
    pub fn get_output_file_prefix(&self) -> (r: &str)
        ensures
            r@ == self@.output_file_prefix,
            r@ == file_prefix(self@.name),
    {
        proof {
            use_type_invariant(self);
        }
        self.output_file_prefix.as_str()
    }

    /// Returns the crate type to build the PTX with.
    pub fn get_crate_type(&self, crate_type: Option<ChosenCrateType>) -> (r: Result<
        ChosenCrateType,
        BuildErrorKind,
    >)
        ensures
            outcome(r) == chosen_type(self@.crate_type, crate_type),
    {
        match (self.crate_type, crate_type) {
            (CrateType::Library, None) => Ok(ChosenCrateType::Library),
            (CrateType::Library, Some(ChosenCrateType::Library)) => Ok(ChosenCrateType::Library),
            (CrateType::Library, Some(ChosenCrateType::Binary)) => Err(
                BuildErrorKind::InvalidCrateType("Binary".to_owned()),
            ),
            (CrateType::Binary, None) => Ok(ChosenCrateType::Binary),
            (CrateType::Binary, Some(ChosenCrateType::Binary)) => Ok(ChosenCrateType::Binary),
            (CrateType::Binary, Some(ChosenCrateType::Library)) => Err(
                BuildErrorKind::InvalidCrateType("Library".to_owned()),
            ),
            (CrateType::Mixed, None) => Err(BuildErrorKind::MissingCrateType),
            (CrateType::Mixed, Some(requested)) => Ok(requested),
        }
    }

    /// Returns the crate's name.
    pub fn get_name(&self) -> (r: &str)
        ensures
            r@ == self@.name,
    {
        self.name.as_str()
    }

    /// Returns the crate's root path.
    pub fn get_path(&self) -> (r: &str)
        ensures
            r@ == self@.path,
    {
        self.path.as_str()
    }

    /// Returns the text that identifies a build of this crate as
    /// `crate_type` with `profile`.
    pub fn get_cache_key(&self, crate_type: ChosenCrateType, profile: Profile) -> (key: String)
        ensures
            key@ == cache_key(self@, crate_type, profile),
    {
        let mut key = String::new();
        push_char(
            &mut key,
            match self.crate_type {
                CrateType::Library => 'L',
                CrateType::Binary => 'B',
                CrateType::Mixed => 'M',
            },
        );
        push_char(
            &mut key,
            match crate_type {
                ChosenCrateType::Library => 'l',
                ChosenCrateType::Binary => 'b',
            },
        );
        push_char(
            &mut key,
            match profile {
                Profile::Debug => 'd',
                Profile::Release => 'r',
            },
        );
        assert(key@ =~= seq![
            held_tag(self@.crate_type),
            chosen_tag(crate_type),
            profile_tag(profile),
        ]);
        push_hex(&mut key, self.name.as_str().unicode_len() as u64);
        push_char(&mut key, ':');
        key.append(self.name.as_str());
        push_hex(&mut key, self.path.as_str().unicode_len() as u64);
        push_char(&mut key, ':');
        key.append(self.path.as_str());
        key.append(self.output_file_prefix.as_str());
        assert(key@ =~= cache_key(self@, crate_type, profile));
        key
    }

    /// Returns the hash that names the output directory of a build of this
    /// crate as `crate_type` with `profile`.
    pub fn get_hash(&self, crate_type: ChosenCrateType, profile: Profile) -> (hash: u64)
        ensures
            hash == default_hash(cache_key(self@, crate_type, profile)),
    {
        let key = self.get_cache_key(crate_type, profile);
        hash_key(key.as_str())
    }

    /// Returns the location under `scratch_root` where a build of this crate
    /// as `crate_type` with `profile` puts its output, which `cargo clean`
    /// can remove.
    pub fn get_output_path(
        &self,
        scratch_root: &str,
        crate_type: ChosenCrateType,
        profile: Profile,
    ) -> (path: String)
        ensures
            path@ == cache_path(scratch_root@, self@, crate_type, profile),
    {
        let mut path = scratch_root.to_owned();
        push_char(&mut path, '/');
        path.append(self.output_file_prefix.as_str());
        push_char(&mut path, '/');
        push_hex(&mut path, self.get_hash(crate_type, profile));
        path
    }

    /// Returns what the crate holds.
    pub fn get_kind(&self) -> (r: CrateType)
        ensures
            r == self@.crate_type,
    {
        self.crate_type
    }
}

} // verus!
