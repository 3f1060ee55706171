//! The per-engine configuration record and the asset matcher that
//! decides which release assets belong to an engine.

use vstd::prelude::*;

use crate::text;
use crate::text::lower_chars;

verus! {

/// Which release asset belongs to an engine.  The rules, first match
/// wins: names starting with `sbsrf` (the core dictionary) always
/// match; names starting with `octagram` (the optional sentence-level
/// language model) match exactly when sentence mode is on; any other
/// name must start with the engine's lower-cased tag.
pub open spec fn spec_check_file_item(name: Seq<char>, im: Seq<char>, sentence: bool) -> bool {
    if "sbsrf"@.is_prefix_of(name) {
        true
    } else if "octagram"@.is_prefix_of(name) {
        sentence
    } else {
        lower_chars(im).is_prefix_of(name)
    }
}

/// Decides whether the asset called `name` is to be installed on the
/// engine tagged `im` when sentence mode is `sentence`.
pub fn check_file_item(name: &str, im: &str, sentence: bool) -> (r: bool)
    ensures
        r == spec_check_file_item(name@, im@, sentence),
{
    if text::str_starts_with(name, "sbsrf") {
        true
    } else if text::str_starts_with(name, "octagram") {
        sentence
    } else {
        text::str_starts_with_lower(name, im)
    }
}

/// Case folding changes nothing the second time around.
pub proof fn lemma_lower_chars_idempotent(s: Seq<char>)
    ensures
        lower_chars(lower_chars(s)) == lower_chars(s),
{
    assert(lower_chars(lower_chars(s)) =~= lower_chars(s)) by {
        assert forall|i: int| 0 <= i < s.len() implies lower_chars(lower_chars(s))[i]
            == lower_chars(s)[i] by {
            assert(lower_chars(s)[i] == text::lower_char(s[i]));
        }
    }
}

/// A name carrying the universal prefix matches every engine, whatever
/// the sentence-mode setting.
pub proof fn law_universal_prefix_matches(name: Seq<char>, im: Seq<char>, sentence: bool)
    requires
        "sbsrf"@.is_prefix_of(name),
    ensures
        spec_check_file_item(name, im, sentence),
{
}

/// A name carrying the sentence-model prefix (and not the universal
/// one) matches exactly when sentence mode is on, on every engine.
pub proof fn law_sentence_model_needs_sentence_mode(
    name: Seq<char>,
    im: Seq<char>,
    sentence: bool,
)
    requires
        !"sbsrf"@.is_prefix_of(name),
        "octagram"@.is_prefix_of(name),
    ensures
        spec_check_file_item(name, im, sentence) == sentence,
{
}

/// The engine tag is matched without regard to its ASCII case: folding
/// the tag beforehand changes no decision.
pub proof fn law_tag_case_insensitive(name: Seq<char>, im: Seq<char>, sentence: bool)
    ensures
        spec_check_file_item(name, im, sentence) == spec_check_file_item(
            name,
            lower_chars(im),
            sentence,
        ),
{
    lemma_lower_chars_idempotent(im);
}

/// The durable configuration record of one engine installation.
///
/// Paths are held as plain strings; the caller owns reading them from
/// and writing them back to disk.
pub struct IMUpdateConfig {
    /// Display name of the engine variant.
    pub name: String,
    /// Path of the executable used to signal the engine, if the
    /// variant has an addressable process.
    pub exe: Option<String>,
    /// The directory the engine reads at runtime.
    pub user_dir: String,
    /// This device's private root, holding its configuration record
    /// and its `backups` subtree.
    pub update_dir: String,
    /// Retention limit for backups; zero disables backup entirely.
    pub max_backups: i32,
    /// Whether the optional sentence-level language model is included.
    pub sentence: bool,
    /// The last applied release identifier, compared for equality
    /// only.
    pub version: String,
}

impl IMUpdateConfig {
    /// A well-formed record never holds a negative retention limit.
    pub open spec fn wf(self) -> bool {
        self.max_backups >= 0
    }

    /// Records `version` as the last applied release.  The caller is
    /// expected to write the updated record back to disk afterwards.
    pub fn save(&mut self, version: &str)
        ensures
            final(self).version@ == version@,
            final(self).name == old(self).name,
            final(self).exe == old(self).exe,
            final(self).user_dir == old(self).user_dir,
            final(self).update_dir == old(self).update_dir,
            final(self).max_backups == old(self).max_backups,
            final(self).sentence == old(self).sentence,
    {
        self.version = version.to_owned();
    }
}

/// The engine variants a configuration record can name.
pub enum VariantKind {
    /// The local macOS engine.
    Squirrel,
    /// The alternative local engine.
    Fcitx5,
    /// The local Windows engine, guarded by its server process.
    Weasel,
    /// The remote phone-resident engine.
    Hamster,
}

/// Which variant a configuration record names, if a supported one.
pub fn variant_for_name(name: &str) -> (r: Option<VariantKind>)
    ensures
        name@ == "Squirrel"@ ==> (r matches Some(v) && v is Squirrel),
        name@ == "Fcitx5"@ ==> (r matches Some(v) && v is Fcitx5),
        name@ == "Weasel"@ ==> (r matches Some(v) && v is Weasel),
        name@ == "Hamster"@ ==> (r matches Some(v) && v is Hamster),
        name@ != "Squirrel"@ && name@ != "Fcitx5"@ && name@ != "Weasel"@ && name@ != "Hamster"@
            ==> r is None,
{
    proof {
        reveal_strlit("Squirrel");
        reveal_strlit("Fcitx5");
        reveal_strlit("Weasel");
        reveal_strlit("Hamster");
        assert("Squirrel"@.len() == 8);
        assert("Fcitx5"@.len() == 6);
        assert("Weasel"@.len() == 6);
        assert("Hamster"@.len() == 7);
        assert("Fcitx5"@[0] == 'F');
        assert("Weasel"@[0] == 'W');
    }
    if crate::text::str_eq(name, "Squirrel") {
        Some(VariantKind::Squirrel)
    } else if crate::text::str_eq(name, "Fcitx5") {
        Some(VariantKind::Fcitx5)
    } else if crate::text::str_eq(name, "Weasel") {
        Some(VariantKind::Weasel)
    } else if crate::text::str_eq(name, "Hamster") {
        Some(VariantKind::Hamster)
    } else {
        None
    }
}

/// Whether a device needs a remote host address before update or
/// restore can run: only the remote variant does.
pub fn needs_host(config_name: &str) -> (r: bool)
    ensures
        r == (config_name@ == "Hamster"@),
{
    crate::text::str_eq(config_name, "Hamster")
}

/// What first-run setup does on the host that supports two local
/// engines, given which of them was detected.
pub enum InstallAdvice {
    /// Neither engine was found: ask the caller which to install.
    AskToInstall,
    /// Only the first engine was found: it becomes the default.
    DefaultToSquirrel,
    /// Only the second engine was found: it becomes the default.
    DefaultToFcitx5,
    /// Both were found: ask the caller which one to update by default.
    AskWhichDefault,
}

/// Decides the first-run setup action from which engines were
/// detected.
pub fn install_advice(squirrel_found: bool, fcitx5_found: bool) -> (r: InstallAdvice)
    ensures
        !squirrel_found && !fcitx5_found ==> r is AskToInstall,
        squirrel_found && !fcitx5_found ==> r is DefaultToSquirrel,
        !squirrel_found && fcitx5_found ==> r is DefaultToFcitx5,
        squirrel_found && fcitx5_found ==> r is AskWhichDefault,
{
    if squirrel_found && fcitx5_found {
        InstallAdvice::AskWhichDefault
    } else if squirrel_found {
        InstallAdvice::DefaultToSquirrel
    } else if fcitx5_found {
        InstallAdvice::DefaultToFcitx5
    } else {
        InstallAdvice::AskToInstall
    }
}

/// A process invocation for the caller to perform: a program path and
/// its arguments.
pub struct ProcessCommand {
    /// The program to run.
    pub program: String,
    /// Its arguments, in order.
    pub args: Vec<String>,
}

/// The capability interface one update or restore run is driven
/// against: the facts that distinguish the engine variants.  The
/// orchestration flows never look at a variant tag; they take these
/// facts and nothing else.
pub trait InputMethod {
    /// The lower-cased prefix the variant's own assets carry.
    spec fn spec_tag(&self) -> Seq<char>;

    /// Whether the live directory is locked by a process that must be
    /// quiesced around mutation.
    spec fn spec_has_guard(&self) -> bool;

    /// Whether the engine is reached over HTTP instead of the local
    /// filesystem.
    spec fn spec_is_remote(&self) -> bool;

    /// The reload invocation of this variant, if it has one: the
    /// program's characters and each argument's.
    spec fn spec_deploy(&self) -> Option<(Seq<char>, Seq<Seq<char>>)>;

    /// The lower-cased asset prefix of this variant.
    fn tag(&self) -> (t: String)
        ensures
            t@ == self.spec_tag(),
    ;

    /// Whether mutation must quiesce a running process first.
    fn has_process_guard(&self) -> (b: bool)
        ensures
            b == self.spec_has_guard(),
    ;

    /// Whether install and restore upload over HTTP.
    fn is_remote(&self) -> (b: bool)
        ensures
            b == self.spec_is_remote(),
    ;

    /// The reload invocation for the caller to run, or nothing for a
    /// variant with no addressable process.  A failure of the
    /// invocation is reported, never propagated: installed files stay.
    fn deploy_command(&self) -> (c: Option<ProcessCommand>)
        ensures
            match c {
                Some(cmd) => self.spec_deploy() == Some((cmd.program@, cmd.args.deep_view())),
                None => self.spec_deploy() is None,
            },
    ;
}

} // verus!
