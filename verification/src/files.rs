//! Selecting the files of a `FileScope`: a file is taken when `.gitignore`
//! does not ignore it, some pattern of `includes` matches its path relative to
//! the base directory and no pattern of `exclude` does. Patterns are compiled
//! and matched by `globset`; the directory walk and `.gitignore` are read by
//! the caller, which hands each file over as a `ScopedCandidate`.
use crate::error::{Error, Result};
use crate::flows::types::FileScope;
use crate::paths::{path_sorted, path_views, sort_paths};
use crate::text::views;
use vstd::prelude::*;

verus! {

#[verifier::external_type_specification]
#[verifier::external_body]
pub struct ExGlob(globset::Glob);

#[verifier::external_type_specification]
#[verifier::external_body]
pub struct ExGlobSet(globset::GlobSet);

#[verifier::external_type_specification]
#[verifier::external_body]
pub struct ExGlobSetBuilder(globset::GlobSetBuilder);

/// Whether `globset::Glob::new` accepts the pattern.
pub uninterp spec fn glob_parses(pattern: Seq<char>) -> bool;

/// The pattern text that a `Glob` was built from (what `Glob::glob` returns).
pub uninterp spec fn glob_text(g: globset::Glob) -> Seq<char>;

/// The patterns added to a builder, in order.
pub uninterp spec fn builder_patterns(b: globset::GlobSetBuilder) -> Seq<Seq<char>>;

/// The patterns that a compiled set was built from, in order.
pub uninterp spec fn set_patterns(s: globset::GlobSet) -> Seq<Seq<char>>;

/// Whether `GlobSetBuilder::build` compiles these patterns into a set.
pub uninterp spec fn set_builds(patterns: Seq<Seq<char>>) -> bool;

/// Whether `GlobSet::is_match` finds a path matched by a set of these patterns.
pub uninterp spec fn set_matches(patterns: Seq<Seq<char>>, path: Seq<char>) -> bool;

/// `globset::Glob::new`: parses a pattern. It succeeds exactly on the patterns
/// that `glob_parses` holds of, and the glob keeps its pattern text; the error
/// is the crate's message.
#[verifier::external_body]
fn glob_new(pattern: &str) -> (r: core::result::Result<globset::Glob, String>)
    ensures
        r is Ok <==> glob_parses(pattern@),
        r matches Ok(g) ==> glob_text(g) == pattern@,
{
    globset::Glob::new(pattern).map_err(|e| e.to_string())
}

/// `globset::GlobSetBuilder::new`: a builder with no patterns.
#[verifier::external_body]
fn builder_new() -> (b: globset::GlobSetBuilder)
    ensures
        builder_patterns(b) == Seq::<Seq<char>>::empty(),
{
    globset::GlobSetBuilder::new()
}

/// `globset::GlobSetBuilder::add`: appends one glob to the builder.
#[verifier::external_body]
fn builder_add(b: &mut globset::GlobSetBuilder, g: globset::Glob)
    ensures
        builder_patterns(*final(b)) == builder_patterns(*old(b)).push(glob_text(g)),
{
    b.add(g);
}

/// `globset::GlobSetBuilder::build`: compiles the builder's globs into a set
/// holding the same patterns; whether it succeeds is `set_builds` of them,
/// and a builder without globs always builds.
#[verifier::external_body]
fn builder_build(b: &globset::GlobSetBuilder) -> (r: core::result::Result<
    globset::GlobSet,
    String,
>)
    ensures
        r is Ok <==> set_builds(builder_patterns(*b)),
        builder_patterns(*b).len() == 0 ==> r is Ok,
        r matches Ok(s) ==> set_patterns(s) == builder_patterns(*b),
{
    b.build().map_err(|e| e.to_string())
}

/// `globset::GlobSet::is_match`: whether some glob of the set matches the
/// path. A set without globs matches nothing.
#[verifier::external_body]
fn set_is_match(s: &globset::GlobSet, path: &str) -> (b: bool)
    ensures
        b == set_matches(set_patterns(*s), path@),
        set_patterns(*s).len() == 0 ==> !b,
{
    s.is_match(path)
}

/// Whether every pattern parses and the set of them compiles.
pub open spec fn patterns_compile(patterns: Seq<Seq<char>>) -> bool {
    (forall|i: int| 0 <= i < patterns.len() ==> glob_parses(#[trigger] patterns[i]))
        && set_builds(patterns)
}

/// Compiles a list of patterns: one glob per pattern, stopping at the first
/// that does not parse, then the set.
fn compile_patterns(patterns: &Vec<String>) -> (r: Result<globset::GlobSet>)
    ensures
        r is Ok <==> patterns_compile(views(patterns@)),
        r matches Ok(s) ==> set_patterns(s) == views(patterns@),
        patterns@.len() == 0 ==> r is Ok,
        r matches Err(e) ==> e is Glob,
{
    let mut builder = builder_new();
    let mut i: usize = 0;
    while i < patterns.len()
        invariant
            i <= patterns.len(),
            builder_patterns(builder) == views(patterns@).take(i as int),
            forall|j: int| 0 <= j < i ==> glob_parses(#[trigger] views(patterns@)[j]),
        decreases patterns.len() - i,
    {
        match glob_new(patterns[i].as_str()) {
            Ok(g) => {
                builder_add(&mut builder, g);
                proof {
                    assert(views(patterns@).take(i + 1) == views(patterns@).take(i as int).push(
                        patterns@[i as int]@,
                    ));
                }
            },
            Err(msg) => {
                proof {
                    assert(!glob_parses(views(patterns@)[i as int]));
                }
                return Err(Error::Glob(msg));
            },
        }
        i += 1;
    }
    proof {
        assert(views(patterns@).take(patterns@.len() as int) == views(patterns@));
    }
    match builder_build(&builder) {
        Ok(s) => Ok(s),
        Err(msg) => Err(Error::Glob(msg)),
    }
}

/// A file met while walking the base directory.
#[derive(Debug, Clone)]
pub struct ScopedCandidate {
    /// Its path relative to the base directory, with `/` separators.
    pub relative: String,
    /// Whether the base directory's `.gitignore` ignores it.
    pub gitignored: bool,
}

/// Whether a file belongs to a scope with these patterns.
pub open spec fn in_scope(
    includes: Seq<Seq<char>>,
    exclude: Seq<Seq<char>>,
    c: ScopedCandidate,
) -> bool {
    !c.gitignored && set_matches(includes, c.relative@) && !set_matches(exclude, c.relative@)
}

/// The relative paths of the candidates that belong to the scope, in walk order.
pub open spec fn scoped_paths(
    cands: Seq<ScopedCandidate>,
    includes: Seq<Seq<char>>,
    exclude: Seq<Seq<char>>,
) -> Seq<Seq<char>>
    decreases cands.len(),
{
    if cands.len() == 0 {
        Seq::empty()
    } else {
        let rest = scoped_paths(cands.drop_last(), includes, exclude);
        if in_scope(includes, exclude, cands.last()) {
            rest.push(cands.last().relative@)
        } else {
            rest
        }
    }
}

/// Whether both pattern lists of the scope compile.
pub open spec fn scope_compiles(scope: FileScope) -> bool {
    patterns_compile(views(scope.includes@)) && patterns_compile(views(scope.exclude@))
}

/// The files of `candidates` that `scope` selects, sorted as paths.
///
/// Fails with `Error::Glob` exactly when a pattern does not parse or a list of
/// them does not compile.
pub fn select_scoped_files(candidates: &Vec<ScopedCandidate>, scope: &FileScope) -> (r: Result<
    Vec<String>,
>)
    ensures
        r is Ok <==> scope_compiles(*scope),
        r matches Err(e) ==> e is Glob,
        (scope.includes@.len() == 0 && scope.exclude@.len() == 0) ==> r is Ok,
        (scope.includes@.len() == 0 && r is Ok) ==> r->Ok_0@.len() == 0,
        r matches Ok(files) ==> {
            &&& path_sorted(path_views(files@))
            &&& path_views(files@).to_multiset() == scoped_paths(
                candidates@,
                views(scope.includes@),
                views(scope.exclude@),
            ).to_multiset()
        },
{
    let includes = compile_patterns(&scope.includes)?;
    let excludes = compile_patterns(&scope.exclude)?;
    let ghost inc = views(scope.includes@);
    let ghost exc = views(scope.exclude@);
    let mut files: Vec<String> = Vec::new();
    let mut i: usize = 0;
    while i < candidates.len()
        invariant
            i <= candidates.len(),
            set_patterns(includes) == inc,
            set_patterns(excludes) == exc,
            path_views(files@) == scoped_paths(candidates@.take(i as int), inc, exc),
            inc.len() == 0 ==> files@.len() == 0,
        decreases candidates.len() - i,
    {
        proof {
            assert(candidates@.take(i + 1).drop_last() == candidates@.take(i as int));
            assert(candidates@.take(i + 1).last() == candidates@[i as int]);
        }
        let c = &candidates[i];
        if !c.gitignored && set_is_match(&includes, c.relative.as_str()) && !set_is_match(
            &excludes,
            c.relative.as_str(),
        ) {
            let ghost before = files@;
            files.push(c.relative.clone());
            proof {
                assert(path_views(files@) =~= path_views(before).push(c.relative@));
            }
        }
        i += 1;
    }
    proof {
        assert(candidates@.take(candidates@.len() as int) == candidates@);
    }
    let sorted = sort_paths(files);
    proof {
        path_views(sorted@).to_multiset_ensures();
        path_views(files@).to_multiset_ensures();
    }
    Ok(sorted)
}

/// A path under a directory: the directory, a `/` unless it already ends
/// with one, and the relative path.
pub open spec fn joined_path(base: Seq<char>, rel: Seq<char>) -> Seq<char> {
    if base.len() > 0 && base.last() == '/' {
        base + rel
    } else {
        base + "/"@ + rel
    }
}

/// The path `rel` under `base`.
pub fn join_path(base: &str, rel: &str) -> (p: String)
    ensures
        p@ == joined_path(base@, rel@),
{
    let cs = crate::text::chars_of(base);
    if cs.len() > 0 && cs[cs.len() - 1] == '/' {
        crate::text::cat(base, rel)
    } else {
        crate::text::cat3(base, "/", rel)
    }
}

/// The files under the directory `base` (its canonical path) that `scope`
/// selects among the candidates met while walking it, each as `base` joined
/// with its relative path, in the order of the relative paths.
///
/// Fails with `Error::Glob` exactly when a pattern does not parse or a list of
/// them does not compile.
pub fn get_filtered_files(candidates: &Vec<ScopedCandidate>, scope: &FileScope, base: &str) -> (r:
    Result<Vec<String>>)
    ensures
        r is Ok <==> scope_compiles(*scope),
        r matches Err(e) ==> e is Glob,
        (scope.includes@.len() == 0 && scope.exclude@.len() == 0) ==> r is Ok,
        (scope.includes@.len() == 0 && r is Ok) ==> r->Ok_0@.len() == 0,
        r matches Ok(files) ==> exists|rel: Seq<Seq<char>>|
            {
                &&& path_sorted(rel)
                &&& rel.to_multiset() == scoped_paths(
                    candidates@,
                    views(scope.includes@),
                    views(scope.exclude@),
                ).to_multiset()
                &&& #[trigger] path_views(files@) == rel.map_values(|p: Seq<char>| joined_path(base@, p))
            },
{
    let relative = select_scoped_files(candidates, scope)?;
    let ghost rel = path_views(relative@);
    let mut out: Vec<String> = Vec::new();
    let mut i: usize = 0;
    while i < relative.len()
        invariant
            i <= relative@.len(),
            rel == path_views(relative@),
            path_views(out@) == rel.take(i as int).map_values(|p: Seq<char>| joined_path(base@, p)),
        decreases relative.len() - i,
    {
        let p = join_path(base, relative[i].as_str());
        let ghost before = out@;
        out.push(p);
        proof {
            assert(path_views(out@) =~= path_views(before).push(joined_path(base@, rel[i as int])));
            assert(rel.take(i + 1) =~= rel.take(i as int).push(rel[i as int]));
            assert(rel.take(i + 1).map_values(|p: Seq<char>| joined_path(base@, p)) =~= rel.take(
                i as int,
            ).map_values(|p: Seq<char>| joined_path(base@, p)).push(joined_path(base@, rel[i as int])));
        }
        i += 1;
    }
    proof {
        assert(rel.take(rel.len() as int) =~= rel);
    }
    Ok(out)
}

} // verus!
