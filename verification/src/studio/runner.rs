//! Running one job through the `render` binary: where the binary is looked for, how
//! much child output is kept, and what a finished run reports.
use vstd::prelude::*;
use crate::error::{StudioError, StudioErrorView};
use crate::text::{chars_of, str_string, string_of, trim, trim_chars};

verus! {

/// Keep the last this-many bytes of child output: enough for diagnostics without
/// letting a verbose render grow memory without bound.
pub const OUTPUT_TAIL_CAP: usize = 65536;

/// Environment variables naming the `render` binary, in the order they are tried.
pub const RENDER_ENV_VARS: [&'static str; 3] = ["RENDER", "IDLESCREEN_RENDER", "IDLE_RENDER"];

/// Program names looked up on `PATH`, in order.
pub const RENDER_PROGRAM_NAMES: [&'static str; 2] = ["render", "idle-render"];

/// Build-tree locations tried last, in order.
pub const RENDER_BUILD_PATHS: [&'static str; 10] = [
    "target/release/render",
    "target/debug/render",
    "../target/release/render",
    "../target/debug/render",
    "../render/target/release/render",
    "../render/target/debug/render",
    "render/target/release/render",
    "render/target/debug/render",
    "target/release/idle-render",
    "target/debug/idle-render",
];

/// The last `cap` bytes of `s` (all of `s` when it is shorter).
pub open spec fn tail(s: Seq<u8>, cap: nat) -> Seq<u8> {
    if s.len() > cap {
        s.skip(s.len() - cap)
    } else {
        s
    }
}

/// Add a chunk of child output to `buf`, keeping only the last `OUTPUT_TAIL_CAP` bytes.
pub fn keep_tail(buf: &mut Vec<u8>, chunk: &[u8])
    ensures
        final(buf)@ == tail(old(buf)@ + chunk@, OUTPUT_TAIL_CAP as nat),
{
    let mut i: usize = 0;
    let ghost start = buf@;
    while i < chunk.len()
        invariant
            i <= chunk@.len(),
            buf@ == start + chunk@.take(i as int),
        decreases chunk@.len() - i,
    {
        buf.push(chunk[i]);
        i = i + 1;
        assert(buf@ =~= start + chunk@.take(i as int));
    }
    assert(chunk@.take(i as int) =~= chunk@);
    if buf.len() > OUTPUT_TAIL_CAP {
        let cut = buf.len() - OUTPUT_TAIL_CAP;
        let mut kept: Vec<u8> = Vec::new();
        let mut j: usize = cut;
        while j < buf.len()
            invariant
                cut <= j <= buf@.len(),
                kept@ == buf@.subrange(cut as int, j as int),
            decreases buf@.len() - j,
        {
            kept.push(buf[j]);
            j = j + 1;
            assert(kept@ =~= buf@.subrange(cut as int, j as int));
        }
        assert(kept@ =~= buf@.skip(cut as int));
        *buf = kept;
    }
}

/// Capping after every chunk keeps exactly the tail of everything read: for any output
/// so far and any next chunk, capping the capped output plus the chunk equals capping
/// the whole.
pub proof fn law_tail_of_tail(before: Seq<u8>, chunk: Seq<u8>, cap: nat)
    ensures
        tail(tail(before, cap) + chunk, cap) == tail(before + chunk, cap),
{
    let t = tail(before, cap);
    let whole = before + chunk;
    if before.len() > cap {
        assert(before.len() == t.len() + (before.len() - cap));
        if (t + chunk).len() > cap {
            assert(tail(t + chunk, cap) =~= whole.skip(whole.len() - cap));
        }
    }
}

/// What is kept is the end of the output: all of it while it fits in `cap` bytes,
/// otherwise exactly its last `cap` bytes.
pub proof fn law_tail_is_the_end(s: Seq<u8>, cap: nat)
    ensures
        tail(s, cap).len() == if s.len() <= cap { s.len() } else { cap },
        forall|i: int| 0 <= i < tail(s, cap).len() ==> #[trigger] tail(s, cap)[i] == s[s.len() - tail(
            s,
            cap,
        ).len() + i],
{
}

/// The report of a finished render child: its stdout then its stderr, as success or as
/// a render failure.
pub fn run_outcome(success: bool, stdout: String, stderr: String) -> (r: Result<String, StudioError>)
    ensures
        success ==> (r matches Ok(m) && m@ == stdout@ + stderr@),
        !success ==> (r matches Err(e) && e@ == StudioErrorView::Render(stdout@ + stderr@)),
{
    let mut msg = stdout;
    msg.append(stderr.as_str());
    if success {
        Ok(msg)
    } else {
        Err(StudioError::Render(msg))
    }
}

/// The first of `env[k..]` that is set and names a file.
pub open spec fn env_pick(env: Seq<Option<(String, bool)>>, k: int) -> Option<Seq<char>>
    decreases env.len() - k,
{
    if k < 0 || k >= env.len() {
        None
    } else if env[k] is Some && env[k].unwrap().1 {
        Some(env[k].unwrap().0@)
    } else {
        env_pick(env, k + 1)
    }
}

/// The first of `which[k..]` that succeeded with a non-blank output, trimmed.
pub open spec fn which_pick(which: Seq<Option<String>>, k: int) -> Option<Seq<char>>
    decreases which.len() - k,
{
    if k < 0 || k >= which.len() {
        None
    } else if which[k] is Some && trim(which[k].unwrap()@).len() > 0 {
        Some(trim(which[k].unwrap()@))
    } else {
        which_pick(which, k + 1)
    }
}

/// The first of `paths[k..]` whose `found` flag is set.
pub open spec fn path_pick(paths: Seq<&'static str>, found: Seq<bool>, k: int) -> Option<Seq<char>>
    decreases found.len() - k,
{
    if k < 0 || k >= found.len() || k >= paths.len() {
        None
    } else if found[k] {
        Some(paths[k]@)
    } else {
        path_pick(paths, found, k + 1)
    }
}

/// Where the `render` binary is, from what the caller found: for each of
/// [`RENDER_ENV_VARS`] its value, if set, with whether it names a file; for each of
/// [`RENDER_PROGRAM_NAMES`] what `which` printed, if it succeeded; for each of
/// [`RENDER_BUILD_PATHS`] whether it is a file. A named file wins, then a `which`
/// hit, then a build path; with none, the binary is missing.
pub fn choose_render_bin(
    env: &Vec<Option<(String, bool)>>,
    which: &Vec<Option<String>>,
    built: &Vec<bool>,
) -> (r: Result<String, StudioError>)
    ensures
        match (env_pick(env@, 0), which_pick(which@, 0), path_pick(RENDER_BUILD_PATHS@, built@, 0)) {
            (Some(p), _, _) => r matches Ok(s) && s@ == p,
            (None, Some(p), _) => r matches Ok(s) && s@ == p,
            (None, None, Some(p)) => r matches Ok(s) && s@ == p,
            (None, None, None) => r matches Err(e) && e@ == StudioErrorView::RenderMissing,
        },
{
    let mut k: usize = 0;
    while k < env.len()
        invariant
            k <= env@.len(),
            env_pick(env@, 0) == env_pick(env@, k as int),
        decreases env@.len() - k,
    {
        match &env[k] {
            Some(v) => {
                if v.1 {
                    return Ok(v.0.clone());
                }
            },
            None => {},
        }
        k = k + 1;
    }
    let mut k: usize = 0;
    while k < which.len()
        invariant
            k <= which@.len(),
            env_pick(env@, 0) is None,
            which_pick(which@, 0) == which_pick(which@, k as int),
        decreases which@.len() - k,
    {
        match &which[k] {
            Some(out) => {
                let t = trim_chars(&chars_of(out.as_str()));
                if t.len() > 0 {
                    return Ok(string_of(&t));
                }
            },
            None => {},
        }
        k = k + 1;
    }
    let mut k: usize = 0;
    while k < built.len() && k < RENDER_BUILD_PATHS.len()
        invariant
            k <= built@.len(),
            k <= 10,
            env_pick(env@, 0) is None,
            which_pick(which@, 0) is None,
            path_pick(RENDER_BUILD_PATHS@, built@, 0) == path_pick(RENDER_BUILD_PATHS@, built@, k as int),
        decreases built@.len() - k,
    {
        if built[k] {
            return Ok(str_string(RENDER_BUILD_PATHS[k]));
        }
        k = k + 1;
    }
    Err(StudioError::RenderMissing)
}

} // verus!
