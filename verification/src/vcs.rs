//! Committing changed files: the paths are made relative to the
//! repository's working directory and committed by a fixed author. The git
//! operations themselves are the caller's.
use crate::error::{Error, ErrorKind};
use crate::text::views;
use vstd::prelude::*;

verus! {

/// What `Path::strip_prefix` leaves of `path` after `base`, as text, or
/// nothing when `base` is not a prefix of it (component by component).
pub uninterp spec fn stripped(path: Seq<char>, base: Seq<char>) -> Option<Seq<char>>;

/// `std::path::Path::strip_prefix`: the rest of `path` after `base`, when
/// `base` is one of its ancestors. What it gives is named `stripped`.
#[verifier::external_body]
fn strip_prefix(path: &str, base: &str) -> (r: Option<String>)
    ensures
        match r {
            Some(s) => stripped(path@, base@) == Some(s@),
            None => stripped(path@, base@) is None,
        },
{
    std::path::Path::new(path).strip_prefix(base).ok().map(|p| p.to_string_lossy().into_owned())
}

/// The paths relative to the working directory, in order; a path outside
/// it is an error.
pub open spec fn relative_spec(workdir: Seq<char>, paths: Seq<Seq<char>>) -> Result<
    Seq<Seq<char>>,
    (ErrorKind, Seq<char>),
>
    decreases paths.len(),
{
    if paths.len() == 0 {
        Ok(Seq::empty())
    } else {
        match relative_spec(workdir, paths.drop_last()) {
            Err(e) => Err(e),
            Ok(prev) => match stripped(paths.last(), workdir) {
                Some(r) => Ok(prev.push(r)),
                None => Err((ErrorKind::StripPrefix, "prefix not found"@)),
            },
        }
    }
}

pub fn relative_paths(workdir: &str, paths: &Vec<String>) -> (r: Result<Vec<String>, Error>)
    ensures
        match r {
            Ok(v) => relative_spec(workdir@, views(paths@)) == Ok::<_, (ErrorKind, Seq<char>)>(
                views(v@),
            ),
            Err(e) => relative_spec(workdir@, views(paths@)) == Err::<Seq<Seq<char>>, _>(e@),
        },
{
    let mut out: Vec<String> = Vec::new();
    let mut i: usize = 0;
    proof {
        assert(views(paths@).take(0) =~= Seq::<Seq<char>>::empty());
        assert(views(out@) =~= Seq::<Seq<char>>::empty());
    }
    while i < paths.len()
        invariant
            i <= paths@.len(),
            out@.len() == i,
            relative_spec(workdir@, views(paths@).take(i as int)) == Ok::<
                _,
                (ErrorKind, Seq<char>),
            >(views(out@)),
        decreases paths.len() - i,
    {
        proof {
            assert(views(paths@).take(i + 1).drop_last() =~= views(paths@).take(i as int));
            assert(views(paths@).take(i + 1).last() == paths@[i as int]@);
        }
        match strip_prefix(paths[i].as_str(), workdir) {
            Some(s) => {
                let ghost before = out@;
                out.push(s);
                proof {
                    assert(views(out@) =~= views(before).push(out@[i as int]@));
                }
            },
            None => {
                proof {
                    lemma_relative_error_stays(workdir@, views(paths@), i as int + 1);
                    assert(views(paths@).take(paths@.len() as int) =~= views(paths@));
                }
                return Err(Error::StripPrefix(crate::text::owned("prefix not found")));
            },
        }
        i += 1;
    }
    proof {
        assert(views(paths@).take(paths@.len() as int) =~= views(paths@));
    }
    Ok(out)
}

proof fn lemma_relative_error_stays(workdir: Seq<char>, paths: Seq<Seq<char>>, k: int)
    requires
        0 <= k <= paths.len(),
        relative_spec(workdir, paths.take(k)) is Err,
    ensures
        relative_spec(workdir, paths.take(paths.len() as int)) == relative_spec(workdir, paths.take(k)),
    decreases paths.len() - k,
{
    if k < paths.len() {
        assert(paths.take(k + 1).drop_last() =~= paths.take(k));
        lemma_relative_error_stays(workdir, paths, k + 1);
    }
}

/// The author and committer of the agent's commits.
pub fn commit_signature() -> (r: (String, String))
    ensures
        r.0@ == "AI Agent"@,
        r.1@ == "ai-agent@example.com"@,
{
    (crate::text::owned("AI Agent"), crate::text::owned("ai-agent@example.com"))
}

} // verus!
