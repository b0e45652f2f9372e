use vstd::prelude::*;
use vstd::string::StrSliceExecFns;
use vstd::string::StringExecFns;

verus! {

/// What tilde expansion may return for a given input. The home directory
/// depends on the environment, so only the shape of the result is pinned
/// down: an input that does not begin with `~` comes back unchanged; one
/// that does either comes back unchanged too (no home directory known, or
/// a `~user` form, which is not expanded) or has the leading `~` replaced
/// by some home directory string.
pub open spec fn spec_tilde_rel(input: Seq<char>, out: Seq<char>) -> bool {
    if input.len() == 0 || input[0] != '~' {
        out == input
    } else {
        out == input || exists|home: Seq<char>| out == home + input.skip(1)
    }
}

/// Relies on shellexpand::tilde: a leading `~` (bare, or followed by `/`)
/// is replaced by the user's home directory when one is known; any other
/// input is returned unchanged.
#[verifier::external_body]
pub fn expand_tilde(s: &str) -> (r: String)
    ensures
        spec_tilde_rel(s@, r@),
{
    shellexpand::tilde(s).into_owned()
}

/// Whether a path string is absolute: it begins with the separator.
pub open spec fn spec_is_absolute(s: Seq<char>) -> bool {
    s.len() > 0 && s[0] == '/'
}

pub fn is_absolute_path(s: &str) -> (r: bool)
    ensures
        r == spec_is_absolute(s@),
{
    let len = s.unicode_len();
    len > 0 && s.get_char(0) == '/'
}

/// Joining a relative path onto a parent directory: a separator is
/// inserted unless the parent already ends with one; an empty parent
/// leaves the child alone.
pub open spec fn spec_join(parent: Seq<char>, child: Seq<char>) -> Seq<char> {
    if parent.len() == 0 {
        child
    } else if parent.last() == '/' {
        parent + child
    } else {
        parent + "/"@ + child
    }
}

pub fn join_path(parent: &str, child: &str) -> (r: String)
    ensures
        r@ == spec_join(parent@, child@),
{
    let plen = parent.unicode_len();
    if plen == 0 {
        return String::from_str(child);
    }
    let mut out = String::from_str(parent);
    if parent.get_char(plen - 1) != '/' {
        out.append("/");
    }
    out.append(child);
    out
}

pub open spec fn spec_last_index_of(s: Seq<char>, c: char) -> int
    decreases s.len(),
{
    if s.len() == 0 {
        -1
    } else if s.last() == c {
        s.len() - 1
    } else {
        spec_last_index_of(s.drop_last(), c)
    }
}

/// The directory part of a path: everything before the last separator,
/// `/` itself for a path directly under the root, nothing for a path
/// without a separator.
pub open spec fn spec_parent_dir(s: Seq<char>) -> Option<Seq<char>> {
    let i = spec_last_index_of(s, '/');
    if i < 0 {
        None
    } else if i == 0 {
        Some("/"@)
    } else {
        Some(s.subrange(0, i))
    }
}

/// The directory that holds the given path, if the path names one.
pub fn parent_dir(s: &str) -> (r: Option<String>)
    ensures
        match r {
            Some(p) => spec_parent_dir(s@) == Some(p@),
            None => spec_parent_dir(s@) is None,
        },
{
    let len = s.unicode_len();
    let mut j: usize = len;
    proof {
        assert(s@.subrange(0, len as int) =~= s@);
    }
    while j > 0 && s.get_char(j - 1) != '/'
        invariant
            0 <= j <= len,
            len == s@.len(),
            spec_last_index_of(s@, '/') == spec_last_index_of(s@.subrange(0, j as int), '/'),
        decreases j,
    {
        proof {
            let cur = s@.subrange(0, j as int);
            assert(cur.last() == s@[j - 1]);
            assert(cur.drop_last() =~= s@.subrange(0, j - 1));
        }
        j = j - 1;
    }
    proof {
        let cur = s@.subrange(0, j as int);
        if j > 0 {
            assert(cur.last() == s@[j - 1]);
        }
        assert(spec_last_index_of(s@, '/') == j - 1);
    }
    if j == 0 {
        None
    } else if j == 1 {
        Some(String::from_str("/"))
    } else {
        Some(String::from_str(s.substring_char(0, j - 1)))
    }
}

/// The target path of a project after tilde expansion: an absolute path
/// is taken as it stands, a relative one is joined onto the parent
/// directory.
pub open spec fn spec_resolve(expanded: Seq<char>, parent: Seq<char>) -> Seq<char> {
    if spec_is_absolute(expanded) {
        expanded
    } else {
        spec_join(parent, expanded)
    }
}

/// Resolves a project's declared path against the effective parent
/// directory. The tilde in the declared path is expanded first; the
/// contract fixes the result as a function of that expansion.
pub fn resolve_project_path(path: &str, parent_dir_path: &str) -> (r: String)
    ensures
        exists|e: Seq<char>|
            spec_tilde_rel(path@, e) && r@ == spec_resolve(e, parent_dir_path@),
{
    let expanded = expand_tilde(path);
    let ghost e = expanded@;
    if is_absolute_path(expanded.as_str()) {
        expanded
    } else {
        let joined = join_path(parent_dir_path, expanded.as_str());
        proof {
            assert(spec_tilde_rel(path@, e) && joined@ == spec_resolve(e, parent_dir_path@));
        }
        joined
    }
}

/// The effective parent directory for projects with a relative path: the
/// configured default (tilde-expanded, and itself resolved against the
/// configuration file's directory when relative); the working directory
/// when the default is declared but empty; the configuration file's
/// directory when no default is declared.
pub open spec fn spec_effective_parent(
    default_dir: Option<Seq<char>>,
    expanded: Seq<char>,
    config_dir: Seq<char>,
    cwd: Seq<char>,
) -> Seq<char> {
    match default_dir {
        None => config_dir,
        Some(d) => if d.len() == 0 {
            cwd
        } else {
            spec_resolve(expanded, config_dir)
        },
    }
}

/// Computes the effective parent directory from the configured default,
/// the configuration file's directory, and the working directory.
pub fn effective_parent_dir(default_dir: &Option<String>, config_dir: &str, cwd: &str) -> (r:
    String)
    ensures
        match default_dir {
            None => r@ == config_dir@,
            Some(d) => if d@.len() == 0 {
                r@ == cwd@
            } else {
                exists|e: Seq<char>|
                    spec_tilde_rel(d@, e) && r@ == spec_resolve(e, config_dir@)
            },
        },
{
    match default_dir {
        None => String::from_str(config_dir),
        Some(d) => {
            if d.as_str().unicode_len() == 0 {
                String::from_str(cwd)
            } else {
                resolve_project_path(d.as_str(), config_dir)
            }
        },
    }
}

/// Resolution law: an absolute expanded path is used exactly as given,
/// whatever the parent directory; a relative one becomes the parent
/// directory, a separator, and the path.
pub proof fn lemma_path_resolution(expanded: Seq<char>, parent: Seq<char>)
    ensures
        spec_is_absolute(expanded) ==> spec_resolve(expanded, parent) == expanded,
        (!spec_is_absolute(expanded) && parent.len() > 0 && parent.last() != '/')
            ==> spec_resolve(expanded, parent) == parent + "/"@ + expanded,
{
}

/// Resolution law for a tilde default: when the configured parent is the
/// home directory followed by `/work` and the project path is `app`, the
/// resolved path is the home directory followed by `/work/app` — provided
/// the home directory is an absolute path.
pub proof fn lemma_tilde_parent_resolution(home: Seq<char>)
    requires
        spec_is_absolute(home),
    ensures
        spec_resolve("app"@, home + "/work"@) == home + "/work/app"@,
{
    reveal_strlit("app");
    reveal_strlit("/work");
    reveal_strlit("/work/app");
    reveal_strlit("/");
    let parent = home + "/work"@;
    assert(!spec_is_absolute("app"@));
    assert(parent.last() == 'k');
    assert(parent + "/"@ + "app"@ =~= home + "/work/app"@);
}

} // verus!
