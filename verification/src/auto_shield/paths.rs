//! Where the daemon keeps its files.
use vstd::prelude::*;

use crate::auto_shield::config::{FileConfig, FileNames, StatePaths};

verus! {

/// Whether a text names a file in some directory, on every platform: it has no separator, no
/// colon, and is not one of the names for a directory and its parent.
pub open spec fn is_plain_name(text: Seq<char>) -> bool {
    &&& forall|i: int|
        0 <= i < text.len() ==> (#[trigger] text[i]) != '/' && text[i] != '\\' && text[i] != ':'
    &&& text != "."@
    &&& text != ".."@
}

pub open spec fn is_path_separator(c: char) -> bool {
    c == '/' || c == '\\'
}

/// Whether a text starts with something other than a separator.
pub open spec fn starts_with_a_name(text: Seq<char>) -> bool {
    text.len() > 0 && !is_path_separator(text[0])
}

/// Whether a text is a relative path on every platform: it does not start with a separator, and
/// has no colon, so that it has neither a root nor a drive.
pub open spec fn is_relative(text: Seq<char>) -> bool {
    &&& starts_with_a_name(text)
    &&& has_no_colon(text)
}

/// Whether a base keeps its text when a path is adjoined to it, on every platform: one that
/// starts with two separators can be of a form that is normalized.
pub open spec fn is_ordinary_base(base: Seq<char>) -> bool {
    !(base.len() >= 2 && is_path_separator(base[0]) && is_path_separator(base[1]))
}

/// Whether `joined` is `base` followed by `path`, with at most one separator in between: none
/// behind an empty base or one that ends with `/`, and one behind a base that ends with neither a
/// separator nor a colon.
pub open spec fn is_adjoined(base: Seq<char>, path: Seq<char>, joined: Seq<char>) -> bool {
    ||| joined == base + path && (base.len() == 0 || is_path_separator(base.last())
        || base.last() == ':')
    ||| (joined == base + seq!['/'] + path || joined == base + seq!['\\'] + path) && base.len() > 0
        && base.last() != '/'
}

/// Whether a text has no colon, and so names no drive on any platform.
pub open spec fn has_no_colon(text: Seq<char>) -> bool {
    forall|i: int| 0 <= i < text.len() ==> #[trigger] text[i] != ':'
}

/// Whether a text starts with a separator of some platform, and names no drive.
pub open spec fn starts_with_separator(text: Seq<char>) -> bool {
    text.len() > 0 && is_path_separator(text[0]) && has_no_colon(text)
}

/// Whether a text has a root on every platform, and no drive.
pub open spec fn is_rooted(text: Seq<char>) -> bool {
    text.len() > 0 && text[0] == '/' && has_no_colon(text)
}

/// `Path::is_absolute`: an absolute path has a root, so neither a plain name nor a path that is
/// relative on every platform is one. Nothing else is said, as the form of an absolute path
/// depends on the platform.
#[verifier::external_body]
fn path_is_absolute(path: &str) -> (absolute: bool)
    ensures
        is_plain_name(path@) || is_relative(path@) ==> !absolute,
{
    std::path::Path::new(path).is_absolute()
}

/// `Path::join`: the second path adjoined to the first, so the result ends with a plain name.
/// Unless the first is of a form that can be normalized:
/// - a path that is relative on every platform extends it, behind a separator where it needs one;
/// - a path that does not start with a separator extends it or, with a drive, replaces it;
/// - a path with a root replaces it, but for a drive, which it has only with a colon;
/// - a path that starts with a separator extends it or replaces it, and is the end of the result.
///
/// Which of two things happens, and which separator comes between, is left open: both depend on
/// the platform.
#[verifier::external_body]
fn path_join(base: &str, path: &str) -> (joined: String)
    ensures
        is_plain_name(path@) ==> path@.is_suffix_of(joined@),
        is_relative(path@) && is_ordinary_base(base@) ==> is_adjoined(base@, path@, joined@),
        starts_with_a_name(path@) && is_ordinary_base(base@) ==> joined@ == path@ || is_adjoined(
            base@,
            path@,
            joined@,
        ),
        is_rooted(path@) && is_ordinary_base(base@) && has_no_colon(base@) ==> joined@ == path@,
        starts_with_separator(path@) && is_ordinary_base(base@) ==> path@.is_suffix_of(joined@),
{
    std::path::Path::new(base).join(path).to_string_lossy().into_owned()
}

/// Takes a path as it is where it is absolute, and as adjoined to a base otherwise.
pub fn choose_path(candidate: String, absolute: bool, joined: String) -> (path: String)
    ensures
        path == (if absolute {
            candidate
        } else {
            joined
        }),
{
    if absolute {
        candidate
    } else {
        joined
    }
}

/// Whether `path` is what `name` is against `base`, as far as every platform agrees: a relative
/// name is adjoined to the base, a name with a root stands for itself, a name with a colon is one
/// or the other, and a plain name or one that starts with a separator is the end of the path.
pub open spec fn is_resolved(base: Seq<char>, name: Seq<char>, path: Seq<char>) -> bool {
    &&& is_relative(name) && is_ordinary_base(base) ==> is_adjoined(base, name, path)
    &&& starts_with_a_name(name) && is_ordinary_base(base) ==> path == name || is_adjoined(
        base,
        name,
        path,
    )
    &&& is_rooted(name) && is_ordinary_base(base) && has_no_colon(base) ==> path == name
    &&& starts_with_separator(name) && is_ordinary_base(base) ==> name.is_suffix_of(path)
    &&& is_plain_name(name) ==> name.is_suffix_of(path)
}

/// Resolves a path against a base directory: a relative path is meant below it, and an absolute
/// one is taken as it is. What an absolute path is depends on the platform.
pub fn resolve_path(base: &str, candidate: String) -> (path: String)
    ensures
        is_resolved(base@, candidate@, path@),
{
    let absolute = path_is_absolute(candidate.as_str());
    let joined = path_join(base, candidate.as_str());
    choose_path(candidate, absolute, joined)
}

/// Whether `path` is the daemon's directory below `home`.
pub open spec fn is_default_state_dir(home: Seq<char>, path: Seq<char>) -> bool {
    exists|middle: Seq<char>|
        (is_ordinary_base(home) ==> is_adjoined(home, ".zcash"@, middle)) && (
        #[trigger] is_ordinary_base(middle) ==> is_adjoined(middle, "zingo-auto-shield"@, path))
}

/// The directory for the daemon's files where the configuration names none: below the user's
/// home directory, or below the current one.
pub fn default_state_dir(home: Option<String>) -> (path: String)
    ensures
        is_default_state_dir(text_or(home, "."@), path@),
        "zingo-auto-shield"@.is_suffix_of(path@),
{
    let home = match home {
        Some(path) => path,
        None => ".".to_owned(),
    };
    proof {
        reveal_strlit("zingo-auto-shield");
        reveal_strlit(".zcash");
        reveal_strlit(".");
        reveal_strlit("..");
        assert("zingo-auto-shield"@.len() == 17);
        assert(is_plain_name("zingo-auto-shield"@));
        assert(is_relative("zingo-auto-shield"@));
        assert(is_relative(".zcash"@));
    }
    let middle = path_join(home.as_str(), ".zcash");
    let path = path_join(middle.as_str(), "zingo-auto-shield");
    assert(is_ordinary_base(middle@) ==> is_adjoined(middle@, "zingo-auto-shield"@, path@));
    path
}

pub open spec fn text_or(value: Option<String>, default: Seq<char>) -> Seq<char> {
    match value {
        Some(text) => text@,
        None => default,
    }
}

fn name_or(value: &Option<String>, default: &str) -> (name: String)
    ensures
        name@ == text_or(*value, default@),
{
    match value {
        Some(text) => text.clone(),
        None => default.to_owned(),
    }
}

impl FileConfig {
    /// The state directory: the one that the configuration names, or the default below `home`.
    pub fn state_dir(&self, home: Option<String>) -> (dir: String)
        ensures
            match self.state_dir {
                Some(named) => dir@ == named@,
                None => is_default_state_dir(text_or(home, "."@), dir@),
            },
    {
        match &self.state_dir {
            Some(named) => named.clone(),
            None => default_state_dir(home),
        }
    }

    /// The names of the files, with the defaults for those that the configuration leaves out.
    pub fn file_names(&self) -> (names: FileNames)
        ensures
            names.processed_log@ == text_or(self.processed_log, "processed_blocks.json"@),
            names.rewards_log@ == text_or(self.rewards_log, "reward_blocks.json"@),
            names.queue_log@ == text_or(self.queue_log, "shield_queue.json"@),
            names.log_file@ == text_or(self.log_file, "auto-shield.log"@),
            names.post_shield_send_log@ == text_or(
                self.post_shield_send_log,
                "post_shield_send_log.json"@,
            ),
            names.post_shield_send_queue_log@ == text_or(
                self.post_shield_send_queue_log,
                "post_shield_queue.json"@,
            ),
    {
        FileNames {
            processed_log: name_or(&self.processed_log, "processed_blocks.json"),
            rewards_log: name_or(&self.rewards_log, "reward_blocks.json"),
            queue_log: name_or(&self.queue_log, "shield_queue.json"),
            log_file: name_or(&self.log_file, "auto-shield.log"),
            post_shield_send_log: name_or(
                &self.post_shield_send_log,
                "post_shield_send_log.json",
            ),
            post_shield_send_queue_log: name_or(
                &self.post_shield_send_queue_log,
                "post_shield_queue.json",
            ),
        }
    }
}

impl StatePaths {
    /// Resolves the names of the files against the state directory. The wallet has a directory
    /// of its own there.
    pub fn resolve(state_dir: &str, names: FileNames) -> (paths: StatePaths)
        ensures
            is_resolved(state_dir@, "wallet"@, paths.wallet_dir@),
            is_ordinary_base(state_dir@) ==> is_adjoined(
                state_dir@,
                "wallet"@,
                paths.wallet_dir@,
            ),
            is_resolved(state_dir@, names.processed_log@, paths.processed_log@),
            is_resolved(state_dir@, names.rewards_log@, paths.rewards_log@),
            is_resolved(state_dir@, names.queue_log@, paths.queue_log@),
            is_resolved(state_dir@, names.log_file@, paths.log_file@),
            is_resolved(state_dir@, names.post_shield_send_log@, paths.post_shield_send_log@),
            is_resolved(
                state_dir@,
                names.post_shield_send_queue_log@,
                paths.post_shield_send_queue_log@,
            ),
    {
        proof {
            reveal_strlit("wallet");
            reveal_strlit(".");
            reveal_strlit("..");
            assert("wallet"@.len() == 6);
            assert(is_plain_name("wallet"@));
            assert(is_relative("wallet"@));
        }
        StatePaths {
            wallet_dir: path_join(state_dir, "wallet"),
            processed_log: resolve_path(state_dir, names.processed_log),
            rewards_log: resolve_path(state_dir, names.rewards_log),
            queue_log: resolve_path(state_dir, names.queue_log),
            log_file: resolve_path(state_dir, names.log_file),
            post_shield_send_log: resolve_path(state_dir, names.post_shield_send_log),
            post_shield_send_queue_log: resolve_path(state_dir, names.post_shield_send_queue_log),
        }
    }
}

/// Below a base with a root, every name that is relative on every platform or has a root becomes
/// a path with a root, and resolving that again gives the same path.
pub proof fn resolved_paths_stay(
    base: Seq<char>,
    name: Seq<char>,
    path: Seq<char>,
    again: Seq<char>,
)
    requires
        is_rooted(base),
        is_ordinary_base(base),
        is_relative(name) || is_rooted(name),
        is_resolved(base, name, path),
        is_resolved(base, path, again),
    ensures
        is_rooted(path),
        again == path,
{
    if is_relative(name) {
        let between = path.len() - base.len() - name.len();
        assert(path[0] == base[0]);
        assert forall|i: int| 0 <= i < path.len() implies #[trigger] path[i] != ':' by {
            if i < base.len() {
                assert(path[i] == base[i]);
            } else if i >= base.len() + between {
                assert(path[i] == name[i - base.len() - between]);
            }
        }
    }
}

} // verus!
