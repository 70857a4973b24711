//! File-system paths as text, and where the platform keeps per-user data.
use vstd::prelude::*;
use crate::text::chars_of;

verus! {

broadcast use vstd::string::group_string_axioms;

/// `base` joined with `leaf` the way `Path::join` does with `/`: an absolute
/// `leaf` replaces `base`, an empty `base` gives `leaf`, and otherwise one `/`
/// separates them.
pub open spec fn joined(base: Seq<char>, leaf: Seq<char>) -> Seq<char> {
    if leaf.len() > 0 && leaf[0] == '/' {
        leaf
    } else if base.len() == 0 {
        leaf
    } else if base.last() == '/' {
        base + leaf
    } else {
        base + seq!['/'] + leaf
    }
}

/// Joins `leaf` onto `base` (see [`joined`]).
pub fn join(base: &str, leaf: &str) -> (r: String)
    ensures
        r@ == joined(base@, leaf@),
{
    let b = chars_of(base);
    let l = chars_of(leaf);
    if l.len() > 0 && l[0] == '/' {
        return leaf.to_owned();
    }
    if b.len() == 0 {
        return leaf.to_owned();
    }
    let mut r = base.to_owned();
    if b[b.len() - 1] != '/' {
        let slash = "/";
        proof {
            reveal_strlit("/");
        }
        r.append(slash);
    }
    r.append(leaf);
    r
}

/// The directory the platform keeps per-user local application data in
/// (`directories::BaseDirs::new` and `BaseDirs::data_local_dir`), as text.
/// The answer depends on the environment and the operating system, so nothing
/// is stated of it; it is `None` when there is no home directory or the path is
/// not valid Unicode.
#[verifier::external_body]
fn local_data_dir() -> (r: Option<String>) {
    match directories::BaseDirs::new() {
        Some(dirs) => dirs.data_local_dir().to_str().map(|s| s.to_string()),
        None => None,
    }
}

/// The directory the platform keeps per-user configuration in
/// (`directories::BaseDirs::new` and `BaseDirs::config_dir`: `%APPDATA%` on
/// Windows, `$XDG_CONFIG_HOME` or `~/.config` on Linux,
/// `~/Library/Application Support` on macOS), as text. The answer depends on
/// the environment and the operating system, so nothing is stated of it; it
/// is `None` when there is no home directory or the path is not valid Unicode.
#[verifier::external_body]
pub(crate) fn config_base_dir() -> (r: Option<String>) {
    match directories::BaseDirs::new() {
        Some(dirs) => dirs.config_dir().to_str().map(|s| s.to_string()),
        None => None,
    }
}

/// The text an optional string holds.
pub open spec fn text_of(s: Option<String>) -> Option<Seq<char>> {
    match s {
        Some(t) => Some(t@),
        None => None,
    }
}

/// Where the speech model lives under a local data directory `base`, or the
/// relative fallback when there is none.
pub open spec fn model_dir_in(base: Option<Seq<char>>) -> Seq<char> {
    match base {
        Some(b) => joined(
            joined(joined(b, "privatewhisper"@), "models"@),
            "parakeet-v3"@,
        ),
        None => "./models/parakeet-v3"@,
    }
}

/// The model directory under `base` (see [`model_dir_in`]).
pub fn model_dir_under(base: Option<String>) -> (r: String)
    ensures
        r@ == model_dir_in(text_of(base)),
{
    match base {
        Some(b) => {
            let p = join(b.as_str(), "privatewhisper");
            let p = join(p.as_str(), "models");
            join(p.as_str(), "parakeet-v3")
        },
        None => "./models/parakeet-v3".to_owned(),
    }
}

/// The default model directory: `privatewhisper/models/parakeet-v3` under the
/// platform's local data directory, or `./models/parakeet-v3` when there is none.
pub fn default_model_dir() -> (r: String)
    ensures
        exists|base: Option<Seq<char>>| r@ == model_dir_in(base),
{
    let base = local_data_dir();
    let ghost b = text_of(base);
    let r = model_dir_under(base);
    assert(r@ == model_dir_in(b));
    r
}

/// Whatever the local data directory is, the model directory ends in
/// `models/parakeet-v3`, and when there is one it holds `privatewhisper`.
pub proof fn model_dir_shape(base: Option<Seq<char>>)
    ensures
        ({
            let d = model_dir_in(base);
            &&& d.len() >= 18
            &&& d.subrange(d.len() - 18, d.len() as int) == "models/parakeet-v3"@
            &&& base is Some ==> exists|i: int|
                0 <= i <= d.len() - 14 && #[trigger] d.subrange(i, i + 14) == "privatewhisper"@
        }),
{
    reveal_strlit("privatewhisper");
    reveal_strlit("models");
    reveal_strlit("parakeet-v3");
    reveal_strlit("models/parakeet-v3");
    reveal_strlit("./models/parakeet-v3");
    let d = model_dir_in(base);
    match base {
        Some(b) => {
            let p1 = joined(b, "privatewhisper"@);
            let p2 = joined(p1, "models"@);
            assert(p1.len() > 0 && p1.last() == 'r');
            assert(p2 == p1 + seq!['/'] + "models"@);
            assert(p2.last() == 's');
            assert(d == p2 + seq!['/'] + "parakeet-v3"@);
            assert(d.subrange(d.len() - 18, d.len() as int) =~= "models/parakeet-v3"@);
            let i = if b.len() == 0 {
                0int
            } else if b.last() == '/' {
                b.len() as int
            } else {
                b.len() + 1int
            };
            assert(p1.subrange(i, i + 14) =~= "privatewhisper"@);
            assert(d.subrange(i, i + 14) =~= "privatewhisper"@);
        },
        None => {
            assert(d.subrange(d.len() - 18, d.len() as int) =~= "models/parakeet-v3"@);
        },
    }
}

} // verus!
