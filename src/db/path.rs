//! Where the store's file lives.
//!
//! A path is held as its components, the first of which is the root where the path has one, so
//! `/a/b/app.db` is `["/", "a", "b", "app.db"]`.

use vstd::prelude::*;

verus! {

/// How the running program was built; decided once per process.
#[derive(Debug, Clone, Copy, PartialEq, Eq, Structural)]
pub enum BuildMode {
    /// A development build: the store sits beside the executable.
    Development,
    /// A production build: the store sits in the user's configuration directory.
    Production,
}

/// Why no location could be found for the store.
#[derive(Debug, Clone, Copy, PartialEq, Eq, Structural)]
pub enum PathError {
    /// Neither the preferred place nor the home directory is known.
    NoLocation,
}

/// The components of a path.
pub open spec fn components(v: Vec<String>) -> Seq<Seq<char>> {
    v@.map_values(|s: String| s@)
}

/// The place that the build mode prefers: beside the executable `exe` for a development build;
/// for a production build, in the directory named by the application identifier `app_name`
/// within the user's configuration directory `config`.
pub open spec fn preferred_path(
    mode: BuildMode,
    exe: Option<Seq<Seq<char>>>,
    config: Option<Seq<Seq<char>>>,
    app_name: Seq<char>,
) -> Option<Seq<Seq<char>>> {
    match mode {
        BuildMode::Development => match exe {
            Some(e) => if e.len() >= 1 {
                Some(e.drop_last().push("app.db"@))
            } else {
                None
            },
            None => None,
        },
        BuildMode::Production => match config {
            Some(d) => Some(d + seq![app_name, "app.db"@]),
            None => None,
        },
    }
}

/// The place below the home directory used when the preferred one is not known.
pub open spec fn fallback_path(home: Seq<Seq<char>>, app_name: Seq<char>) -> Seq<Seq<char>> {
    home + seq![".config"@, app_name, "app.db"@]
}

/// Where the store's file lives: the preferred place where it is known, else the place below the
/// home directory, else none.
pub open spec fn db_path(
    mode: BuildMode,
    exe: Option<Seq<Seq<char>>>,
    config: Option<Seq<Seq<char>>>,
    home: Option<Seq<Seq<char>>>,
    app_name: Seq<char>,
) -> Option<Seq<Seq<char>>> {
    match preferred_path(mode, exe, config, app_name) {
        Some(p) => Some(p),
        None => match home {
            Some(h) => Some(fallback_path(h, app_name)),
            None => None,
        },
    }
}

/// The components of an optional path.
pub open spec fn optional_components(v: Option<Vec<String>>) -> Option<Seq<Seq<char>>> {
    match v {
        Some(p) => Some(components(p)),
        None => None,
    }
}

fn push_owned(out: &mut Vec<String>, t: &str)
    ensures
        components(*final(out)) == components(*old(out)).push(t@),
{
    out.push(t.to_owned());
    assert(components(*final(out)) =~= components(*old(out)).push(t@));
}

/// The first `n` components of `p`.
fn prefix(p: &Vec<String>, n: usize) -> (r: Vec<String>)
    requires
        n <= p@.len(),
    ensures
        components(r) == components(*p).subrange(0, n as int),
{
    let mut r: Vec<String> = Vec::new();
    let mut i: usize = 0;
    while i < n
        invariant
            n <= p@.len(),
            i <= n,
            r@.len() == i,
            components(r) == components(*p).subrange(0, i as int),
        decreases n - i,
    {
        let c = p[i].clone();
        assert(c@ == p@[i as int]@);
        r.push(c);
        assert(components(r) =~= components(*p).subrange(0, i + 1)) by {
            assert(components(r)[i as int] == r@[i as int]@);
        }
        i = i + 1;
    }
    r
}

/// Where the store's file lives, for a program built in `mode` whose executable is at `exe`,
/// run by a user whose configuration directory is `config` and whose home directory is `home`,
/// with the application identifier `app_name`.
pub fn resolve_db_path(
    mode: BuildMode,
    exe: Option<Vec<String>>,
    config: Option<Vec<String>>,
    home: Option<Vec<String>>,
    app_name: &str,
) -> (r: Result<Vec<String>, PathError>)
    ensures
        match db_path(
            mode,
            optional_components(exe),
            optional_components(config),
            optional_components(home),
            app_name@,
        ) {
            Some(p) => r is Ok && components(r->Ok_0) == p,
            None => r == Err::<Vec<String>, PathError>(PathError::NoLocation),
        },
{
    match mode {
        BuildMode::Development => {
            if let Some(e) = &exe {
                let n = e.len();
                if n >= 1 {
                    let mut p = prefix(e, n - 1);
                    push_owned(&mut p, "app.db");
                    assert(components(*e).drop_last() =~= components(*e).subrange(0, n - 1));
                    return Ok(p);
                }
            }
        },
        BuildMode::Production => {
            if let Some(d) = config {
                let mut p = d;
                let ghost start = components(p);
                push_owned(&mut p, app_name);
                push_owned(&mut p, "app.db");
                assert(components(p) =~= start + seq![app_name@, "app.db"@]);
                return Ok(p);
            }
        },
    }
    match home {
        Some(h) => {
            let mut p = h;
            let ghost start = components(p);
            push_owned(&mut p, ".config");
            push_owned(&mut p, app_name);
            push_owned(&mut p, "app.db");
            assert(components(p) =~= fallback_path(start, app_name@));
            Ok(p)
        },
        None => Err(PathError::NoLocation),
    }
}

} // verus!
