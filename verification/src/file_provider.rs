//! The filter file of a context, `.ai/filter=<context>` (`all` by default): sections opened by a `#exclude` or
//! `#`-`include` line hold one glob per line; the globs become overrides of the
//! directory walk, the excluded ones negated with `!`. Without a filter file
//! the walk leaves out `/.git` and `/.ai`.
use crate::error::{Error, Result};
use crate::text::{chars_eq, chars_start_with, split_chars, split_on, string_of, trim, trim_chars, trim_end};
use vstd::prelude::*;

verus! {

/// The filter file of a context, relative to the project root: the context
/// `all` when none is given.
pub fn filter_file(context: Option<&str>) -> (p: String)
    ensures
        p@ == ".ai/filter="@ + match context {
            Some(c) => c@,
            None => "all"@,
        },
{
    match context {
        Some(c) => crate::text::cat(".ai/filter=", c),
        None => {
            proof {
                reveal_strlit(".ai/filter=all");
                reveal_strlit(".ai/filter=");
                reveal_strlit("all");
                assert(".ai/filter=all"@ =~= ".ai/filter="@ + "all"@);
            }
            crate::text::owned(".ai/filter=all")
        },
    }
}

/// The line that opens a section of globs to leave out.
pub open spec fn exclude_marker() -> Seq<char> {
    seq!['#', 'e', 'x', 'c', 'l', 'u', 'd', 'e']
}

/// The line that opens a section of globs to take.
pub open spec fn take_marker() -> Seq<char> {
    seq!['#', 'i', 'n', 'c', 'l', 'u', 'd', 'e']
}

/// The state of the reader after some lines: the overrides so far, whether
/// the current section leaves files out, and whether a section has opened.
pub struct FilterState {
    pub overrides: Seq<Seq<char>>,
    pub is_exclude: bool,
    pub section_found: bool,
}

/// Reads one line of the filter file.
pub open spec fn filter_step(st: FilterState, raw: Seq<char>) -> FilterState {
    let line = trim(raw);
    if line.len() == 0 || (!crate::text::starts_with(line, exclude_marker())
        && !crate::text::starts_with(line, take_marker()) && line[0] == '#') {
        st
    } else if line == exclude_marker() {
        FilterState { is_exclude: true, section_found: true, ..st }
    } else if line == take_marker() {
        FilterState { is_exclude: false, section_found: true, ..st }
    } else if st.section_found {
        let pattern = if st.is_exclude {
            seq!['!'] + line
        } else {
            line
        };
        FilterState { overrides: st.overrides.push(pattern), ..st }
    } else {
        st
    }
}

/// Reads the given lines from the start.
pub open spec fn filter_scan(lines: Seq<Seq<char>>) -> FilterState
    decreases lines.len(),
{
    if lines.len() == 0 {
        FilterState { overrides: Seq::empty(), is_exclude: false, section_found: false }
    } else {
        filter_step(filter_scan(lines.drop_last()), lines.last())
    }
}

/// The characters of an optional text.
pub open spec fn opt_view(o: Option<&str>) -> Option<Seq<char>> {
    match o {
        Some(c) => Some(c@),
        None => None,
    }
}

/// The override globs given to the directory walk: those of the filter file
/// when there is one, otherwise the two that leave out `/.git` and `/.ai`.
pub open spec fn filter_overrides(content: Option<Seq<char>>) -> Seq<Seq<char>> {
    match content {
        Some(c) => filter_scan(split_on(c, '\n')).overrides,
        None => seq!["!/.git"@, "!/.ai"@],
    }
}

fn marker_chars(exclude: bool) -> (m: Vec<char>)
    ensures
        m@ == if exclude {
            exclude_marker()
        } else {
            take_marker()
        },
{
    let mut m: Vec<char> = Vec::new();
    m.push('#');
    if exclude {
        m.push('e');
        m.push('x');
    } else {
        m.push('i');
        m.push('n');
    }
    m.push('c');
    m.push('l');
    m.push('u');
    m.push('d');
    m.push('e');
    proof {
        if exclude {
            assert(m@ =~= exclude_marker());
        } else {
            assert(m@ =~= take_marker());
        }
    }
    m
}

/// The override globs for the walk, from the filter file's text when it exists.
pub fn filter_patterns(content: Option<&str>) -> (out: Vec<String>)
    ensures
        out@.map_values(|p: String| p@) == filter_overrides(
            opt_view(content),
        ),
{
    match content {
        None => {
            let mut out: Vec<String> = Vec::new();
            out.push(crate::text::owned("!/.git"));
            out.push(crate::text::owned("!/.ai"));
            proof {
                assert(out@.map_values(|p: String| p@) =~= seq!["!/.git"@, "!/.ai"@]);
            }
            out
        },
        Some(c) => {
            let cs = crate::text::chars_of(c);
            let lines = split_chars(&cs, '\n');
            let ghost ls = lines@.map_values(|p: Vec<char>| p@);
            let ex = marker_chars(true);
            let tk = marker_chars(false);
            let mut out: Vec<String> = Vec::new();
            let mut is_exclude = false;
            let mut section_found = false;
            let mut i: usize = 0;
            proof {
                assert(ls.take(0) =~= Seq::<Seq<char>>::empty());
                assert(out@.map_values(|p: String| p@) =~= Seq::<Seq<char>>::empty());
            }
            while i < lines.len()
                invariant
                    i <= lines.len(),
                    ls == lines@.map_values(|p: Vec<char>| p@),
                    ls == split_on(c@, '\n'),
                    ex@ == exclude_marker(),
                    tk@ == take_marker(),
                    filter_scan(ls.take(i as int)) == (FilterState {
                        overrides: out@.map_values(|p: String| p@),
                        is_exclude,
                        section_found,
                    }),
                decreases lines.len() - i,
            {
                proof {
                    assert(ls.take(i + 1).drop_last() == ls.take(i as int));
                    assert(ls.take(i + 1).last() == lines@[i as int]@);
                }
                let line = trim_chars(&lines[i]);
                let skip = line.len() == 0 || (!chars_start_with(&line, &ex) && !chars_start_with(
                    &line,
                    &tk,
                ) && line[0] == '#');
                if skip {
                } else if chars_eq(&line, &ex) {
                    is_exclude = true;
                    section_found = true;
                } else if chars_eq(&line, &tk) {
                    is_exclude = false;
                    section_found = true;
                } else if section_found {
                    let ghost before = out@;
                    let pattern = if is_exclude {
                        let mut p = crate::text::owned("!");
                        p.append(string_of(&line).as_str());
                        proof {
                            reveal_strlit("!");
                            assert("!"@ =~= seq!['!']);
                        }
                        p
                    } else {
                        string_of(&line)
                    };
                    out.push(pattern);
                    proof {
                        assert(out@.map_values(|p: String| p@) =~= before.map_values(
                            |p: String| p@,
                        ).push(pattern@));
                    }
                }
                i += 1;
            }
            proof {
                assert(ls.take(ls.len() as int) == ls);
            }
            out
        },
    }
}

#[verifier::external_type_specification]
#[verifier::external_body]
pub struct ExOverrideBuilder(ignore::overrides::OverrideBuilder);

#[verifier::external_type_specification]
#[verifier::external_body]
pub struct ExOverride(ignore::overrides::Override);

/// The glob lines an override builder holds, in the order added (each as
/// stored: trailing whitespace trimmed).
pub uninterp spec fn builder_globs(b: ignore::overrides::OverrideBuilder) -> Seq<Seq<char>>;

/// The directory an override builder was made for.
pub uninterp spec fn builder_root(b: ignore::overrides::OverrideBuilder) -> Seq<char>;

/// The glob lines that an override matcher was built from, in order.
pub uninterp spec fn override_globs(o: ignore::overrides::Override) -> Seq<Seq<char>>;

/// The directory whose paths an override matcher matches.
pub uninterp spec fn override_root(o: ignore::overrides::Override) -> Seq<char>;

/// Whether `OverrideBuilder::add` accepts a glob.
pub uninterp spec fn override_glob_parses(glob: Seq<char>) -> bool;

/// Whether `OverrideBuilder::build` compiles these globs.
pub uninterp spec fn overrides_build(globs: Seq<Seq<char>>) -> bool;

/// The directory a builder keeps for `root`: `root` without a leading `./`.
pub open spec fn builder_dir(root: Seq<char>) -> Seq<char> {
    if root.len() >= 2 && root[0] == '.' && root[1] == '/' {
        root.skip(2)
    } else {
        root
    }
}

/// A glob line as the builder stores it: trailing whitespace trimmed,
/// unless the line ends with an escaped space.
pub open spec fn stored_line(line: Seq<char>) -> Seq<char> {
    if line.len() >= 2 && line[line.len() - 2] == '\\' && line.last() == ' ' {
        line
    } else {
        trim_end(line)
    }
}

/// Whether the builder keeps a line: comments (`#` first) and lines blank
/// after trimming add nothing.
pub open spec fn line_kept(line: Seq<char>) -> bool {
    !(line.len() > 0 && line[0] == '#') && stored_line(line).len() > 0
}

/// The lines a builder holds after these lines are added in order.
pub open spec fn added_globs(lines: Seq<Seq<char>>) -> Seq<Seq<char>>
    decreases lines.len(),
{
    if lines.len() == 0 {
        Seq::empty()
    } else {
        let prev = added_globs(lines.drop_last());
        if line_kept(lines.last()) {
            prev.push(stored_line(lines.last()))
        } else {
            prev
        }
    }
}

/// `ignore::overrides::OverrideBuilder::new`: a builder with no globs for
/// the directory `root` (kept without a leading `./`).
#[verifier::external_body]
fn override_builder_new(root: &str) -> (b: ignore::overrides::OverrideBuilder)
    ensures
        builder_globs(b) == Seq::<Seq<char>>::empty(),
        builder_root(b) == builder_dir(root@),
{
    ignore::overrides::OverrideBuilder::new(root)
}

/// `ignore::overrides::OverrideBuilder::add`: adds one glob line. A comment
/// line (`#` first) or a line blank after trimming is accepted and adds
/// nothing; another line is stored trimmed, and the call fails exactly on
/// the lines `override_glob_parses` refuses. What the builder holds after a
/// failure is not stated.
#[verifier::external_body]
fn override_builder_add(b: &mut ignore::overrides::OverrideBuilder, glob: &str) -> (r:
    core::result::Result<(), String>)
    ensures
        r is Ok <==> override_glob_parses(glob@),
        !line_kept(glob@) ==> (r is Ok && builder_globs(*final(b)) == builder_globs(*old(b))),
        (line_kept(glob@) && r is Ok) ==> builder_globs(*final(b)) == builder_globs(*old(b)).push(
            stored_line(glob@),
        ),
        builder_root(*final(b)) == builder_root(*old(b)),
{
    b.add(glob).map(|_| ()).map_err(|e| e.to_string())
}

/// `ignore::overrides::OverrideBuilder::build`: the matcher of the lines
/// added; a builder with no lines always builds. A matcher built from some
/// lines matches relative to the builder's directory.
#[verifier::external_body]
fn override_builder_build(b: &ignore::overrides::OverrideBuilder) -> (r: core::result::Result<
    ignore::overrides::Override,
    String,
>)
    ensures
        r is Ok <==> overrides_build(builder_globs(*b)),
        builder_globs(*b).len() == 0 ==> r is Ok,
        r matches Ok(o) ==> override_globs(o) == builder_globs(*b),
        r matches Ok(o) ==> (builder_globs(*b).len() > 0 ==> override_root(o) == builder_root(*b)),
{
    b.build().map_err(|e| e.to_string())
}

/// Whether every glob is accepted and the list compiles.
pub open spec fn overrides_compile(lines: Seq<Seq<char>>) -> bool {
    (forall|i: int| 0 <= i < lines.len() ==> override_glob_parses(#[trigger] lines[i]))
        && overrides_build(added_globs(lines))
}

/// The override matcher for a walk under `root`, from the filter file's text
/// when there is one: it holds the globs the builder keeps of the filter's
/// lines and, when it holds any, matches relative to `root` (without a
/// leading `./`). Fails with
/// `Error::Ignore` exactly when a glob is refused or the globs do not compile.
pub fn build_overrides(root: &str, filter_content: Option<&str>) -> (r: Result<
    ignore::overrides::Override,
>)
    ensures
        r is Ok <==> overrides_compile(
            filter_overrides(
                opt_view(filter_content),
            ),
        ),
        r matches Ok(o) ==> override_globs(o) == added_globs(
            filter_overrides(opt_view(filter_content)),
        ),
        r matches Ok(o) ==> (added_globs(filter_overrides(opt_view(filter_content))).len() > 0
            ==> override_root(o) == builder_dir(root@)),
        r matches Err(e) ==> e is Ignore,
{
    let patterns = filter_patterns(filter_content);
    let ghost ps = patterns@.map_values(|p: String| p@);
    let ghost fo = filter_overrides(
        opt_view(filter_content),
    );
    assert(ps == fo);
    let mut builder = override_builder_new(root);
    let mut i: usize = 0;
    while i < patterns.len()
        invariant
            i <= patterns.len(),
            ps == patterns@.map_values(|p: String| p@),
            ps == fo,
            fo == filter_overrides(opt_view(filter_content)),
            builder_globs(builder) == added_globs(ps.take(i as int)),
            builder_root(builder) == builder_dir(root@),
            forall|j: int| 0 <= j < i ==> override_glob_parses(#[trigger] ps[j]),
        decreases patterns.len() - i,
    {
        match override_builder_add(&mut builder, patterns[i].as_str()) {
            Ok(()) => {
                proof {
                    assert(ps.take(i + 1).drop_last() == ps.take(i as int));
                    assert(ps.take(i + 1).last() == patterns@[i as int]@);
                }
            },
            Err(msg) => {
                proof {
                    assert(!override_glob_parses(fo[i as int]));
                    assert(!overrides_compile(fo));
                }
                return Err(Error::Ignore(msg));
            },
        }
        i += 1;
    }
    proof {
        assert(ps.take(ps.len() as int) == ps);
    }
    match override_builder_build(&builder) {
        Ok(o) => Ok(o),
        Err(msg) => Err(Error::Ignore(msg)),
    }
}

} // verus!
