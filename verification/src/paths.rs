//! Construction of the candidate paths at which the bundled script may live.

use vstd::prelude::*;
use vstd::string::*;

verus! {

/// Joining a directory and a file name with the platform separator.
pub open spec fn spec_join(dir: Seq<char>, name: Seq<char>) -> Seq<char> {
    dir + "/"@ + name
}

/// Appends `name` to `dir` with a `/` between them.
pub fn join_path(dir: &str, name: &str) -> (r: String)
    ensures
        r@ == spec_join(dir@, name@),
{
    let mut r = String::from_str(dir);
    r.append("/");
    r.append(name);
    r
}

/// The candidate locations for the bundled script, in search order:
/// `bundle.js` in the working directory, then in the legacy
/// `language-server` subdirectory, then beside the executable when its
/// directory is known.
pub open spec fn spec_candidate_paths(
    current_dir: Seq<char>,
    exe_dir: Option<Seq<char>>,
) -> Seq<Seq<char>> {
    let base = seq![
        spec_join(current_dir, "bundle.js"@),
        spec_join(spec_join(current_dir, "language-server"@), "bundle.js"@),
    ];
    match exe_dir {
        Some(d) => base.push(spec_join(d, "bundle.js"@)),
        None => base,
    }
}

/// Builds the candidate locations searched for the bundled script.
pub fn candidate_paths(current_dir: &str, exe_dir: Option<&str>) -> (v: Vec<String>)
    ensures
        v.deep_view() == spec_candidate_paths(
            current_dir@,
            match exe_dir {
                Some(d) => Some(d@),
                None => None::<Seq<char>>,
            },
        ),
{
    let mut v: Vec<String> = Vec::new();
    v.push(join_path(current_dir, "bundle.js"));
    let legacy = join_path(current_dir, "language-server");
    v.push(join_path(legacy.as_str(), "bundle.js"));
    match exe_dir {
        Some(d) => {
            v.push(join_path(d, "bundle.js"));
        },
        None => {},
    }
    proof {
        assert(v.deep_view() =~= spec_candidate_paths(
            current_dir@,
            match exe_dir {
                Some(d) => Some(d@),
                None => None::<Seq<char>>,
            },
        ));
    }
    v
}

/// The fixed path to which the embedding variant writes the bundled
/// script: `arturo-lsp-bundle.js` in the working directory, whatever is
/// cached.
pub fn embedded_bundle_path(current_dir: &str) -> (r: String)
    ensures
        r@ == spec_join(current_dir@, "arturo-lsp-bundle.js"@),
{
    join_path(current_dir, "arturo-lsp-bundle.js")
}

} // verus!
