use vstd::prelude::*;

verus! {

/// What `expand_tilde` makes of `path` when the home directory is `home`.
pub open spec fn expanded(path: Seq<char>, home: Option<Seq<char>>) -> Seq<char> {
    match home {
        Some(h) => if path.len() >= 2 && path[0] == '~' && path[1] == '/' {
            joined(h, path.subrange(2, path.len() as int))
        } else if path =~= seq!['~'] {
            h
        } else {
            path
        },
        None => path,
    }
}

/// A relative component appended to a base path, one separator between them;
/// an absolute component replaces the base.
pub open spec fn joined(base: Seq<char>, rest: Seq<char>) -> Seq<char> {
    if rest.len() > 0 && rest[0] == '/' {
        rest
    } else if base.len() == 0 || base.last() == '/' {
        base + rest
    } else {
        base + seq!['/'] + rest
    }
}

/// Relies on dirs::home_dir; the result depends on the environment, so
/// nothing is promised of it.
#[verifier::external_body]
fn home_dir() -> (r: Option<String>) {
    dirs::home_dir().map(|p| p.to_string_lossy().into_owned())
}

/// Joins `rest` to `base` as paths are joined on Unix.
pub fn join(base: &str, rest: &str) -> (r: String)
    ensures
        r@ == joined(base@, rest@),
{
    let rl = rest.unicode_len();
    let bl = base.unicode_len();
    if rl > 0 && rest.get_char(0) == '/' {
        return rest.to_string();
    }
    let mut r = base.to_string();
    if !(bl == 0 || base.get_char(bl - 1) == '/') {
        proof {
            reveal_strlit("/");
        }
        r.append("/");
    }
    r.append(rest);
    r
}

/// Replaces a leading `~` (alone, or followed by `/`) with `home`.
pub fn expand_tilde_with(path: &str, home: Option<&str>) -> (r: String)
    ensures
        r@ == expanded(path@, match home { Some(h) => Some(h@), None => None }),
{
    match home {
        None => path.to_string(),
        Some(h) => {
            let n = path.unicode_len();
            if n >= 2 && path.get_char(0) == '~' && path.get_char(1) == '/' {
                let rest = path.substring_char(2, n);
                join(h, rest)
            } else if n == 1 && path.get_char(0) == '~' {
                proof {
                    assert(path@ =~= seq![path@[0]]);
                }
                h.to_string()
            } else {
                proof {
                    if path@ =~= seq!['~'] {
                        assert(path@.len() == 1);
                    }
                }
                path.to_string()
            }
        },
    }
}

/// Expands a leading `~` in `path` to the current user's home directory;
/// the path is unchanged where no home directory is known.
pub fn expand_tilde(path: &str) -> (r: String)
    ensures
        exists|h: Option<Seq<char>>| r@ == expanded(path@, h),
        path@.len() == 0 || path@[0] != '~' ==> r@ == path@,
{
    let home = home_dir();
    let r = match &home {
        Some(h) => expand_tilde_with(path, Some(h.as_str())),
        None => expand_tilde_with(path, None),
    };
    proof {
        let h = match home { Some(s) => Some(s@), None => None };
        assert(r@ == expanded(path@, h));
    }
    r
}

/// Relies on dirs::config_dir; the result depends on the platform and the
/// environment, so nothing is promised of it.
#[verifier::external_body]
fn config_dir() -> (r: Option<String>) {
    dirs::config_dir().map(|p| p.to_string_lossy().into_owned())
}

/// The message-of-the-day file under the per-user configuration directory
/// `dir`, or under `.config` where that directory is unknown.
pub open spec fn motd_path_in(dir: Option<Seq<char>>) -> Seq<char> {
    let base = match dir {
        Some(d) => d,
        None => ".config"@,
    };
    joined(joined(base, "hyprgreetr"@), "motd.toml"@)
}

/// The message-of-the-day path for the configuration directory `dir`.
pub fn motd_file_in(dir: Option<&str>) -> (r: String)
    ensures
        r@ == motd_path_in(match dir { Some(d) => Some(d@), None => None }),
{
    let product = match dir {
        Some(d) => join(d, "hyprgreetr"),
        None => join(".config", "hyprgreetr"),
    };
    join(product.as_str(), "motd.toml")
}

/// The default message-of-the-day path of this user.
pub fn default_motd_file() -> (r: String)
    ensures
        exists|d: Option<Seq<char>>| r@ == motd_path_in(d),
{
    let dir = config_dir();
    let r = match &dir {
        Some(d) => motd_file_in(Some(d.as_str())),
        None => motd_file_in(None),
    };
    proof {
        let d = match dir { Some(x) => Some(x@), None => None };
        assert(r@ == motd_path_in(d));
    }
    r
}

} // verus!
