//! Resolution of the language-server script path.
//!
//! The host probes the filesystem and hands the outcomes over as plain
//! values: whether the cached path still exists, and for each candidate
//! location whether a file was found there. Resolution itself — which path
//! wins, how the cache moves, and what the failure message says — is decided
//! here and verified for every combination of outcomes.

use vstd::prelude::*;
use vstd::string::*;

use crate::text::{contains_seq, lemma_contains_append_left, lemma_contains_prefix};

verus! {

/// One candidate location, together with the host's report of whether a
/// file was found there.
pub struct ProbedPath {
    pub path: String,
    pub exists: bool,
}

/// The extension's only state: the last known good script path, if any.
pub struct ArturoExtension {
    pub cached_binary_path: Option<String>,
}

/// The paths of a candidate list, in order.
pub open spec fn paths_of(cs: Seq<ProbedPath>) -> Seq<Seq<char>> {
    cs.map_values(|c: ProbedPath| c.path@)
}

/// The path of the first candidate that exists, if any does.
pub open spec fn first_existing(cs: Seq<ProbedPath>) -> Option<Seq<char>>
    decreases cs.len(),
{
    if cs.len() == 0 {
        None
    } else if cs[0].exists {
        Some(cs[0].path@)
    } else {
        first_existing(cs.skip(1))
    }
}

/// One line of the failure message: the path, indented as a list entry.
pub open spec fn searched_line(path: Seq<char>) -> Seq<char> {
    "  - "@ + path + "\n"@
}

/// The failure message's enumeration of every path searched, in order.
pub open spec fn searched_lines(paths: Seq<Seq<char>>) -> Seq<char>
    decreases paths.len(),
{
    if paths.len() == 0 {
        Seq::<char>::empty()
    } else {
        searched_line(paths[0]) + searched_lines(paths.skip(1))
    }
}

/// The whole failure message for a search that found nothing.
pub open spec fn not_found_message(paths: Seq<Seq<char>>) -> Seq<char> {
    "Language server bundle not found. Searched:\n"@ + searched_lines(paths)
}

/// The cached path as a character sequence, if one is cached.
pub open spec fn cache_view(c: Option<String>) -> Option<Seq<char>> {
    match c {
        Some(s) => Some(s@),
        None => None,
    }
}

/// The cache settles resolution exactly when a path is cached and the host
/// found it still on disk.
pub open spec fn cache_hit(cache: Option<Seq<char>>, cached_exists: bool) -> bool {
    cache is Some && cached_exists
}

/// What resolution returns: the cached path on a cache hit, else the first
/// existing candidate, else the failure message.
pub open spec fn spec_resolve(
    cache: Option<Seq<char>>,
    cached_exists: bool,
    cs: Seq<ProbedPath>,
) -> Result<Seq<char>, Seq<char>> {
    if cache_hit(cache, cached_exists) {
        Ok(cache->0)
    } else {
        match first_existing(cs) {
            Some(p) => Ok(p),
            None => Err(not_found_message(paths_of(cs))),
        }
    }
}

/// How the cache moves: unchanged on a hit or on failure, else the path
/// that the search settled on.
pub open spec fn spec_cache_after(
    cache: Option<Seq<char>>,
    cached_exists: bool,
    cs: Seq<ProbedPath>,
) -> Option<Seq<char>> {
    if cache_hit(cache, cached_exists) {
        cache
    } else {
        match first_existing(cs) {
            Some(p) => Some(p),
            None => cache,
        }
    }
}

/// An executable result carries exactly the strings of a mathematical one.
pub open spec fn resolution_matches(
    r: Result<String, String>,
    m: Result<Seq<char>, Seq<char>>,
) -> bool {
    match r {
        Ok(p) => m is Ok && p@ == m->Ok_0,
        Err(e) => m is Err && e@ == m->Err_0,
    }
}

proof fn lemma_searched_lines_push(paths: Seq<Seq<char>>, p: Seq<char>)
    ensures
        searched_lines(paths.push(p)) == searched_lines(paths) + searched_line(p),
    decreases paths.len(),
{
    let whole = paths.push(p);
    if paths.len() == 0 {
        assert(whole[0] == p);
        assert(whole.skip(1) =~= Seq::<Seq<char>>::empty());
        assert(searched_lines(whole) == searched_line(p) + searched_lines(whole.skip(1)));
        assert(searched_lines(whole) =~= searched_lines(paths) + searched_line(p));
    } else {
        assert(whole[0] == paths[0]);
        assert(whole.skip(1) =~= paths.skip(1).push(p));
        lemma_searched_lines_push(paths.skip(1), p);
        assert(searched_lines(whole) == searched_line(paths[0]) + searched_lines(
            paths.skip(1).push(p),
        ));
        assert(searched_lines(whole) =~= searched_lines(paths) + searched_line(p));
    }
}

/// The report of a failed write of the embedded bundle, with the
/// filesystem's own account of the failure appended.
pub open spec fn write_failure_message(detail: Seq<char>) -> Seq<char> {
    "Failed to write language server bundle: "@ + detail
}

proof fn lemma_first_existing_unique(cs: Seq<ProbedPath>, i: int)
    requires
        0 <= i < cs.len(),
        cs[i].exists,
        forall|j: int| 0 <= j < cs.len() && j != i ==> !cs[j].exists,
    ensures
        first_existing(cs) == Some(cs[i].path@),
    decreases cs.len(),
{
    if i > 0 {
        assert(!cs[0].exists);
        let rest = cs.skip(1);
        assert forall|j: int| 0 <= j < rest.len() && j != i - 1 implies !rest[j].exists by {
            assert(rest[j] == cs[j + 1]);
        }
        assert(rest[i - 1] == cs[i]);
        lemma_first_existing_unique(rest, i - 1);
    }
}

proof fn lemma_first_existing_none(cs: Seq<ProbedPath>)
    requires
        forall|j: int| 0 <= j < cs.len() ==> !cs[j].exists,
    ensures
        first_existing(cs) is None,
    decreases cs.len(),
{
    if cs.len() > 0 {
        assert(!cs[0].exists);
        let rest = cs.skip(1);
        assert forall|j: int| 0 <= j < rest.len() implies !rest[j].exists by {
            assert(rest[j] == cs[j + 1]);
        }
        lemma_first_existing_none(rest);
    }
}

proof fn lemma_searched_lines_contains(paths: Seq<Seq<char>>, j: int)
    requires
        0 <= j < paths.len(),
    ensures
        contains_seq(searched_lines(paths), paths[j]),
    decreases paths.len(),
{
    if j == 0 {
        let tail = "\n"@ + searched_lines(paths.skip(1));
        lemma_contains_prefix(paths[0], tail);
        lemma_contains_append_left("  - "@, paths[0] + tail, paths[0]);
        assert(searched_lines(paths) =~= "  - "@ + (paths[0] + tail));
    } else {
        lemma_searched_lines_contains(paths.skip(1), j - 1);
        assert(paths.skip(1)[j - 1] == paths[j]);
        lemma_contains_append_left(
            searched_line(paths[0]),
            searched_lines(paths.skip(1)),
            paths[j],
        );
    }
}

/// Law: with a cached path that the host still finds on disk, resolution
/// returns exactly that path, leaves the cache alone, and never consults
/// the candidate list — any two candidate lists give the same outcome.
pub proof fn lemma_cached_path_wins(
    cache: Option<Seq<char>>,
    cs1: Seq<ProbedPath>,
    cs2: Seq<ProbedPath>,
)
    requires
        cache is Some,
    ensures
        spec_resolve(cache, true, cs1) == Ok::<Seq<char>, Seq<char>>(cache->0),
        spec_resolve(cache, true, cs1) == spec_resolve(cache, true, cs2),
        spec_cache_after(cache, true, cs1) == cache,
{
}

/// Law: with nothing cached and exactly one candidate that exists on disk,
/// resolution returns that candidate's path and caches it.
pub proof fn lemma_sole_candidate_found(cached_exists: bool, cs: Seq<ProbedPath>, i: int)
    requires
        0 <= i < cs.len(),
        cs[i].exists,
        forall|j: int| 0 <= j < cs.len() && j != i ==> !cs[j].exists,
    ensures
        spec_resolve(None::<Seq<char>>, cached_exists, cs) == Ok::<Seq<char>, Seq<char>>(
            cs[i].path@,
        ),
        spec_cache_after(None::<Seq<char>>, cached_exists, cs) == Some(cs[i].path@),
{
    lemma_first_existing_unique(cs, i);
}

/// Law: when the cache does not settle resolution and no candidate exists,
/// resolution fails, the failure message contains every candidate path,
/// and the cache is left alone.
pub proof fn lemma_missing_bundle_reports_all(
    cache: Option<Seq<char>>,
    cached_exists: bool,
    cs: Seq<ProbedPath>,
)
    requires
        !cache_hit(cache, cached_exists),
        forall|j: int| 0 <= j < cs.len() ==> !cs[j].exists,
    ensures
        spec_resolve(cache, cached_exists, cs) is Err,
        forall|j: int|
            0 <= j < cs.len() ==> contains_seq(
                spec_resolve(cache, cached_exists, cs)->Err_0,
                #[trigger] cs[j].path@,
            ),
        spec_cache_after(cache, cached_exists, cs) == cache,
{
    lemma_first_existing_none(cs);
    let msg = spec_resolve(cache, cached_exists, cs)->Err_0;
    assert forall|j: int| 0 <= j < cs.len() implies contains_seq(msg, #[trigger] cs[j].path@) by {
        assert(paths_of(cs)[j] == cs[j].path@);
        lemma_searched_lines_contains(paths_of(cs), j);
        lemma_contains_append_left(
            "Language server bundle not found. Searched:\n"@,
            searched_lines(paths_of(cs)),
            cs[j].path@,
        );
    }
}

impl ArturoExtension {
    /// A fresh instance with nothing cached yet.
    pub fn new() -> (s: Self)
        ensures
            s.cached_binary_path is None,
    {
        ArturoExtension { cached_binary_path: None }
    }

    /// Resolves the script path from the host's probe outcomes: the cached
    /// path if it still exists, otherwise the first existing candidate
    /// (which is then cached), otherwise an error naming every path
    /// searched.
    pub fn language_server_script_path(
        &mut self,
        cached_exists: bool,
        candidates: &Vec<ProbedPath>,
    ) -> (r: Result<String, String>)
        ensures
            resolution_matches(
                r,
                spec_resolve(cache_view(old(self).cached_binary_path), cached_exists, candidates@),
            ),
            cache_view(final(self).cached_binary_path) == spec_cache_after(
                cache_view(old(self).cached_binary_path),
                cached_exists,
                candidates@,
            ),
    {
        if cached_exists {
            if let Some(path) = &self.cached_binary_path {
                return Ok(path.clone());
            }
        }
        let n = candidates.len();
        proof {
            assert(candidates@.skip(0) =~= candidates@);
        }
        let mut i: usize = 0;
        while i < n
            invariant
                n == candidates@.len(),
                0 <= i <= n,
                self.cached_binary_path == old(self).cached_binary_path,
                !cache_hit(cache_view(old(self).cached_binary_path), cached_exists),
                forall|k: int| 0 <= k < i ==> !candidates@[k].exists,
                first_existing(candidates@) == first_existing(candidates@.skip(i as int)),
            decreases n - i,
        {
            if candidates[i].exists {
                let path = candidates[i].path.clone();
                proof {
                    let cs = candidates@;
                    assert(cs.skip(i as int)[0] == cs[i as int]);
                    assert(first_existing(cs.skip(i as int)) == Some(cs[i as int].path@));
                }
                self.cached_binary_path = Some(path.clone());
                return Ok(path);
            }
            proof {
                assert(candidates@.skip(i as int).skip(1) =~= candidates@.skip(i as int + 1));
            }
            i += 1;
        }
        proof {
            assert(candidates@.skip(n as int) =~= Seq::<ProbedPath>::empty());
        }
        let mut msg = String::from_str("Language server bundle not found. Searched:\n");
        let mut j: usize = 0;
        while j < n
            invariant
                n == candidates@.len(),
                0 <= j <= n,
                msg@ == "Language server bundle not found. Searched:\n"@ + searched_lines(
                    paths_of(candidates@).take(j as int),
                ),
            decreases n - j,
        {
            msg.append("  - ");
            msg.append(candidates[j].path.as_str());
            msg.append("\n");
            proof {
                lemma_searched_lines_push(
                    paths_of(candidates@).take(j as int),
                    candidates@[j as int].path@,
                );
                assert(paths_of(candidates@).take(j as int + 1) =~= paths_of(
                    candidates@,
                ).take(j as int).push(candidates@[j as int].path@));
                assert(msg@ =~= "Language server bundle not found. Searched:\n"@ + searched_lines(
                    paths_of(candidates@).take(j as int + 1),
                ));
            }
            j += 1;
        }
        proof {
            assert(paths_of(candidates@).take(n as int) =~= paths_of(candidates@));
        }
        Err(msg)
    }

    /// Records the outcome of the embedding variant's write, whatever was
    /// cached before: on success the target path is cached and returned;
    /// a failed write is reported with the filesystem's account of it and
    /// leaves the cache alone.
    pub fn finish_embedded_write(
        &mut self,
        bundle_path: String,
        write_error: Option<String>,
    ) -> (r: Result<String, String>)
        ensures
            write_error is None ==> r is Ok && r->Ok_0@ == bundle_path@,
            write_error is None ==> cache_view(final(self).cached_binary_path) == Some(
                bundle_path@,
            ),
            write_error is Some ==> r is Err && r->Err_0@ == write_failure_message(
                write_error->0@,
            ),
            write_error is Some ==> final(self).cached_binary_path == old(
                self,
            ).cached_binary_path,
    {
        match write_error {
            None => {
                self.cached_binary_path = Some(bundle_path.clone());
                Ok(bundle_path)
            },
            Some(e) => {
                let mut msg = String::from_str("Failed to write language server bundle: ");
                msg.append(e.as_str());
                Err(msg)
            },
        }
    }
}

} // verus!
