//! What holds of the places of the daemon's files.
use vstd::prelude::*;

use crate::auto_shield::config::{FileConfig, FileNames, StatePaths};
use crate::auto_shield::paths::{
    choose_path, default_state_dir, has_no_colon, is_adjoined, is_default_state_dir,
    is_ordinary_base, is_relative, resolve_path, starts_with_a_name, text_or,
};

verus! {

/// Whether a text starts neither with a slash nor with a backslash, and has no colon.
pub open spec fn is_below_anything(name: Seq<char>) -> bool {
    &&& name.len() > 0
    &&& name[0] != '/'
    &&& name[0] != '\\'
    &&& forall|i: int| 0 <= i < name.len() ==> #[trigger] name[i] != ':'
}

/// Whether a text does not start with two separators.
pub open spec fn is_plain_base(base: Seq<char>) -> bool {
    base.len() < 2 || !((base[0] == '/' || base[0] == '\\') && (base[1] == '/' || base[1] == '\\'))
}

/// Whether `path` is `base`, then at most one separator, then `name`.
pub open spec fn is_put_below(base: Seq<char>, name: Seq<char>, path: Seq<char>) -> bool {
    ||| path == base + name
    ||| path == base + seq!['/'] + name
    ||| path == base + seq!['\\'] + name
}

proof fn adjoined_is_put_below(base: Seq<char>, name: Seq<char>, path: Seq<char>)
    ensures
        is_adjoined(base, name, path) ==> is_put_below(base, name, path),
        is_adjoined(base, name, path) && base.len() > 0 && base.last() != '/' && base.last()
            != '\\' && base.last() != ':' ==> path.len() == base.len() + 1 + name.len(),
        is_below_anything(name) <==> is_relative(name),
        is_plain_base(base) <==> is_ordinary_base(base),
{
    if is_relative(name) {
        assert(has_no_colon(name));
    }
    if is_below_anything(name) {
        assert(starts_with_a_name(name) && has_no_colon(name));
    }
}

/// A name that is relative on every platform becomes a path below the base: the base, at most one
/// separator, and the name, with a separator where the base ends with none. A name with a root
/// stands for itself.
pub proof fn relative_names_are_put_below_the_base(base: &str, candidate: String, path: String)
    requires
        call_ensures(resolve_path, (base, candidate), path),
        is_plain_base(base@),
    ensures
        is_below_anything(candidate@) ==> is_put_below(base@, candidate@, path@),
        is_below_anything(candidate@) && base@.len() > 0 && base@.last() != '/' && base@.last()
            != '\\' && base@.last() != ':' ==> path@.len() == base@.len() + 1 + candidate@.len(),
        candidate@.len() > 0 && candidate@[0] == '/' && has_no_colon(candidate@) && has_no_colon(
            base@,
        ) ==> path@ == candidate@,
{
    adjoined_is_put_below(base@, candidate@, path@);
}

/// An absolute path is taken as it is, and any other as it was adjoined.
pub proof fn absolute_paths_stay(candidate: String, joined: String, path: String, absolute: bool)
    requires
        call_ensures(choose_path, (candidate, absolute, joined), path),
    ensures
        absolute ==> path == candidate,
        !absolute ==> path == joined,
{
}

/// Whether `path` is the daemon's directory below `home`: a hidden directory for the chain, and
/// one of its own in it.
pub open spec fn is_directory_below(
    home: Seq<char>,
    gap: Seq<char>,
    slash: Seq<char>,
    path: Seq<char>,
) -> bool {
    &&& gap.len() <= 1
    &&& slash.len() == 1
    &&& slash[0] == '/' || slash[0] == '\\'
    &&& path == home + gap + ".zcash"@ + slash + "zingo-auto-shield"@
}

proof fn two_levels_below(
    home: Seq<char>,
    middle: Seq<char>,
    path: Seq<char>,
) -> (parts: (Seq<char>, Seq<char>))
    requires
        is_adjoined(home, ".zcash"@, middle),
        is_adjoined(middle, "zingo-auto-shield"@, path),
    ensures
        is_directory_below(home, parts.0, parts.1, path),
{
    reveal_strlit(".zcash");
    assert(".zcash"@.len() == 6);
    assert(".zcash"@[5] == 'h');
    assert(middle.last() == 'h');
    let name = "zingo-auto-shield"@;
    let gap = if middle == home + ".zcash"@ {
        Seq::<char>::empty()
    } else if middle == home + seq!['/'] + ".zcash"@ {
        seq!['/']
    } else {
        seq!['\\']
    };
    assert(middle == home + gap + ".zcash"@);
    let slash = if path == middle + seq!['/'] + name {
        seq!['/']
    } else {
        seq!['\\']
    };
    assert(path == middle + slash + name);
    (gap, slash)
}

proof fn own_directory_is_below(base: Seq<char>, path: Seq<char>)
    requires
        is_default_state_dir(base, path),
    ensures
        is_plain_base(base) && base != seq!['\\'] ==> exists|gap: Seq<char>, slash: Seq<char>|
            #[trigger] is_directory_below(base, gap, slash, path),
{
    reveal_strlit(".zcash");
    if is_plain_base(base) && base != seq!['\\'] {
        let middle = choose|middle: Seq<char>|
            (is_ordinary_base(base) ==> is_adjoined(base, ".zcash"@, middle)) && (
            #[trigger] is_ordinary_base(middle) ==> is_adjoined(
                middle,
                "zingo-auto-shield"@,
                path,
            ));
        adjoined_is_put_below(base, ".zcash"@, middle);
        assert(is_adjoined(base, ".zcash"@, middle));
        assert(".zcash"@[0] == '.');
        assert(is_ordinary_base(middle)) by {
            if base.len() >= 2 {
                assert(middle[0] == base[0]);
                assert(middle[1] == base[1]);
            } else if base.len() == 1 {
                assert(middle[0] == base[0]);
                if base[0] == '\\' {
                    assert(base == seq!['\\']);
                }
                if base[0] == '/' {
                    assert(base.last() == '/');
                    assert(middle == base + ".zcash"@);
                    assert(middle[1] == '.');
                }
            } else {
                assert(middle == base + ".zcash"@);
                assert(middle[0] == '.');
            }
        }
        let parts = two_levels_below(base, middle, path);
        assert(is_directory_below(base, parts.0, parts.1, path));
    }
}

/// The default directory is the daemon's own below the home directory, or below the current one
/// where there is no home directory. A home directory that is a single backslash or starts with
/// two separators is left out, as its meaning depends on the platform.
pub proof fn the_default_directory_is_below_home(home: Option<String>, path: String)
    requires
        call_ensures(default_state_dir, (home,), path),
    ensures
        home is None ==> exists|gap: Seq<char>, slash: Seq<char>|
            #[trigger] is_directory_below("."@, gap, slash, path@),
        home matches Some(text) ==> is_plain_base(text@) && text@ != seq!['\\'] ==> exists|
            gap: Seq<char>,
            slash: Seq<char>,
        |
            #[trigger] is_directory_below(text@, gap, slash, path@),
{
    reveal_strlit(".");
    own_directory_is_below(text_or(home, "."@), path@);
    assert("."@[0] == '.');
}

/// The state directory is the one that is configured, where one is, and else the daemon's own
/// below the home directory.
pub proof fn a_configured_directory_is_kept(file: FileConfig, home: Option<String>, dir: String)
    requires
        call_ensures(FileConfig::state_dir, (&file, home), dir),
    ensures
        file.state_dir matches Some(named) ==> dir@ == named@,
        file.state_dir is None ==> (home matches Some(text) ==> is_plain_base(text@) && text@
            != seq!['\\'] ==> exists|gap: Seq<char>, slash: Seq<char>|
            #[trigger] is_directory_below(text@, gap, slash, dir@)),
        file.state_dir is None && home is None ==> exists|gap: Seq<char>, slash: Seq<char>|
            #[trigger] is_directory_below("."@, gap, slash, dir@),
{
    if file.state_dir is None {
        own_directory_is_below(text_or(home, "."@), dir@);
        reveal_strlit(".");
    }
}

/// Whether `chosen` is the name that a file gives, or `default` where it gives none.
pub open spec fn is_named_or(
    given: Option<String>,
    default: Seq<char>,
    chosen: Seq<char>,
) -> bool {
    match given {
        Some(name) => chosen == name@,
        None => chosen == default,
    }
}

/// Each file has the name that is configured for it, or its default name.
pub proof fn files_have_their_names(file: FileConfig, names: FileNames)
    requires
        call_ensures(FileConfig::file_names, (&file,), names),
    ensures
        is_named_or(file.processed_log, "processed_blocks.json"@, names.processed_log@),
        is_named_or(file.rewards_log, "reward_blocks.json"@, names.rewards_log@),
        is_named_or(file.queue_log, "shield_queue.json"@, names.queue_log@),
        is_named_or(file.log_file, "auto-shield.log"@, names.log_file@),
        is_named_or(
            file.post_shield_send_log,
            "post_shield_send_log.json"@,
            names.post_shield_send_log@,
        ),
        is_named_or(
            file.post_shield_send_queue_log,
            "post_shield_queue.json"@,
            names.post_shield_send_queue_log@,
        ),
{
}

/// Every file with a relative name is put below the state directory under that name, and so is
/// the directory of the wallet.
pub proof fn files_are_put_below_the_state_directory(
    state_dir: &str,
    names: FileNames,
    paths: StatePaths,
)
    requires
        call_ensures(StatePaths::resolve, (state_dir, names), paths),
        is_plain_base(state_dir@),
    ensures
        is_put_below(state_dir@, "wallet"@, paths.wallet_dir@),
        is_below_anything(names.processed_log@) ==> is_put_below(
            state_dir@,
            names.processed_log@,
            paths.processed_log@,
        ),
        is_below_anything(names.rewards_log@) ==> is_put_below(
            state_dir@,
            names.rewards_log@,
            paths.rewards_log@,
        ),
        is_below_anything(names.queue_log@) ==> is_put_below(
            state_dir@,
            names.queue_log@,
            paths.queue_log@,
        ),
        is_below_anything(names.log_file@) ==> is_put_below(
            state_dir@,
            names.log_file@,
            paths.log_file@,
        ),
        is_below_anything(names.post_shield_send_log@) ==> is_put_below(
            state_dir@,
            names.post_shield_send_log@,
            paths.post_shield_send_log@,
        ),
        is_below_anything(names.post_shield_send_queue_log@) ==> is_put_below(
            state_dir@,
            names.post_shield_send_queue_log@,
            paths.post_shield_send_queue_log@,
        ),
{
    adjoined_is_put_below(state_dir@, "wallet"@, paths.wallet_dir@);
    adjoined_is_put_below(state_dir@, names.processed_log@, paths.processed_log@);
    adjoined_is_put_below(state_dir@, names.rewards_log@, paths.rewards_log@);
    adjoined_is_put_below(state_dir@, names.queue_log@, paths.queue_log@);
    adjoined_is_put_below(state_dir@, names.log_file@, paths.log_file@);
    adjoined_is_put_below(state_dir@, names.post_shield_send_log@, paths.post_shield_send_log@);
    adjoined_is_put_below(
        state_dir@,
        names.post_shield_send_queue_log@,
        paths.post_shield_send_queue_log@,
    );
}

} // verus!
