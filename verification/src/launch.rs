//! Construction of the process launch descriptor.

use vstd::prelude::*;
use vstd::string::*;

use crate::resolve::{
    cache_view, spec_cache_after, spec_resolve, ArturoExtension, ProbedPath,
};

verus! {

/// A description of the process that runs the language server: an
/// executable, its arguments in order, and its environment.
pub struct CommandDescriptor {
    pub command: String,
    pub args: Vec<String>,
    pub env: Vec<(String, String)>,
}

/// The argument list of a launch: the resolved script path, then the
/// `--stdio` flag, in that order and nothing else.
pub open spec fn spec_launch_args(script_path: Seq<char>) -> Seq<Seq<char>> {
    seq![script_path, "--stdio"@]
}

/// Builds the descriptor that starts the language server: the host's
/// interpreter runs the resolved script, `--stdio` appended after the
/// script path, in an empty environment.
pub fn build_launch_command(interpreter: String, script_path: String) -> (c: CommandDescriptor)
    ensures
        c.command@ == interpreter@,
        c.args.deep_view() == spec_launch_args(script_path@),
        c.env@ == Seq::<(String, String)>::empty(),
{
    let mut args: Vec<String> = Vec::new();
    let ghost script_chars = script_path@;
    args.push(script_path);
    args.push(String::from_str("--stdio"));
    proof {
        assert(args.deep_view() =~= spec_launch_args(script_chars));
    }
    CommandDescriptor { command: interpreter, args, env: Vec::new() }
}

impl ArturoExtension {
    /// Resolves the script path from the host's probe outcomes and
    /// describes the launch. On success the descriptor runs the host's
    /// interpreter on the resolved path with `--stdio` appended; a
    /// resolution failure is passed through unchanged, and the cache moves
    /// exactly as resolution moves it.
    pub fn language_server_command(
        &mut self,
        interpreter: String,
        cached_exists: bool,
        candidates: &Vec<ProbedPath>,
    ) -> (r: Result<CommandDescriptor, String>)
        ensures
            ({
                let m = spec_resolve(
                    cache_view(old(self).cached_binary_path),
                    cached_exists,
                    candidates@,
                );
                &&& (r is Ok <==> m is Ok)
                &&& (r is Ok ==> r->Ok_0.command@ == interpreter@)
                &&& (r is Ok ==> r->Ok_0.args.deep_view() == spec_launch_args(m->Ok_0))
                &&& (r is Ok ==> r->Ok_0.env@ == Seq::<(String, String)>::empty())
                &&& (r is Err ==> r->Err_0@ == m->Err_0)
            }),
            cache_view(final(self).cached_binary_path) == spec_cache_after(
                cache_view(old(self).cached_binary_path),
                cached_exists,
                candidates@,
            ),
    {
        let server_path = match self.language_server_script_path(cached_exists, candidates) {
            Ok(p) => p,
            Err(e) => {
                return Err(e);
            },
        };
        Ok(build_launch_command(interpreter, server_path))
    }
}

} // verus!
