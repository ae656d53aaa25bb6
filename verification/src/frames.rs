//! The frame collector: which files of a directory are frames, and in what
//! order they are rendered.
//!
//! The caller lists the directory; the collector keeps the names that match
//! the glob pattern and returns their paths in lexicographic order. It looks
//! at the names it is given and nowhere else, so it never descends into
//! subdirectories.

use vstd::prelude::*;
use vstd::string::*;
use vstd::seq_lib::*;
use crate::error::RenderError;
use crate::order::{is_sorted, lemma_lex_le_transitive, lex_le, path_key, path_le};
use crate::text::{ends_with, texts};

verus! {

/// The pattern of a request that names none.
pub const DEFAULT_PATTERN: &'static str = "*.png";

/// `glob::Pattern`, a compiled glob expression.
#[verifier::external_type_specification]
#[verifier::external_body]
pub struct ExPattern(glob::Pattern);

/// `glob::PatternError`, why a pattern text is no glob expression.
#[verifier::external_type_specification]
#[verifier::external_body]
pub struct ExPatternError(glob::PatternError);

/// Whether `glob::Pattern::new` compiles a pattern text.
pub uninterp spec fn glob_accepts(pattern: Seq<char>) -> bool;

/// The text that a compiled pattern was made from (`glob::Pattern::as_str`).
pub uninterp spec fn pattern_source(pattern: glob::Pattern) -> Seq<char>;

/// Whether the pattern compiled from `pattern` matches `name`
/// (`glob::Pattern::matches`): `?` for one character, `*` for any run of
/// them, `[...]` for a class. What counts as a path separator follows the
/// target that the library is built for.
pub uninterp spec fn glob_matches(pattern: Seq<char>, name: Seq<char>) -> bool;

/// Calls `glob::Pattern::new`. It compiles a pattern or rejects its syntax,
/// and a compiled pattern remembers the text it was made from.
#[verifier::external_body]
fn compile_pattern(pattern: &str) -> (r: Result<glob::Pattern, glob::PatternError>)
    ensures
        r is Ok <==> glob_accepts(pattern@),
        r matches Ok(p) ==> pattern_source(p) == pattern@,
{
    glob::Pattern::new(pattern)
}

/// Calls `glob::Pattern::matches`, whose answer depends on the pattern's
/// text and the name alone.
#[verifier::external_body]
fn pattern_matches(pattern: &glob::Pattern, name: &str) -> (r: bool)
    ensures
        r == glob_matches(pattern_source(*pattern), name@),
{
    pattern.matches(name)
}

/// Writes out a `glob::PatternError` through its `Display`. Nothing is
/// claimed of the text.
#[verifier::external_body]
fn pattern_error_text(error: &glob::PatternError) -> (r: String) {
    format!("{}", error)
}

/// The pattern in force: the one given, or the default.
pub open spec fn effective_pattern(file_pattern: Option<String>) -> Seq<char> {
    match file_pattern {
        Some(p) => p@,
        None => DEFAULT_PATTERN@,
    }
}

/// The path of a file `name` in the directory `dir`: the two are joined by
/// one `/`, which is left out where `dir` is empty or ends in one already.
pub open spec fn frame_path(dir: Seq<char>, name: Seq<char>) -> Seq<char> {
    if dir.len() == 0 || dir.last() == '/' {
        dir + name
    } else {
        dir + "/"@ + name
    }
}

/// Joins a directory and a file name to a path.
pub fn join_path(dir: &str, name: &str) -> (r: String)
    ensures
        r@ == frame_path(dir@, name@),
{
    proof {
        reveal_strlit("/");
        if dir@.len() > 0 {
            let end = dir@.subrange(dir@.len() - 1, dir@.len() as int);
            assert(end.len() == 1 && end[0] == dir@.last());
            assert("/"@.len() == 1 && "/"@[0] == '/');
            if dir@.last() == '/' {
                assert(end =~= "/"@);
            }
        }
    }
    if dir.is_empty() || ends_with(dir, "/") {
        String::from_str(dir).concat(name)
    } else {
        String::from_str(dir).concat("/").concat(name)
    }
}

/// The paths of the names that match, in the order of the listing.
pub open spec fn matching_paths(dir: Seq<char>, names: Seq<Seq<char>>, pattern: Seq<char>) -> Seq<
    Seq<char>,
> {
    names.filter(|n: Seq<char>| glob_matches(pattern, n)).map_values(
        |n: Seq<char>| frame_path(dir, n),
    )
}

/// Listing one more name adds its path where it matches, and nothing else.
proof fn lemma_matching_paths_push(
    dir: Seq<char>,
    names: Seq<Seq<char>>,
    name: Seq<char>,
    pattern: Seq<char>,
)
    ensures
        matching_paths(dir, names.push(name), pattern) == if glob_matches(pattern, name) {
            matching_paths(dir, names, pattern).push(frame_path(dir, name))
        } else {
            matching_paths(dir, names, pattern)
        },
{
    let keep = |n: Seq<char>| glob_matches(pattern, n);
    let to_path = |n: Seq<char>| frame_path(dir, n);
    names.lemma_filter_push(name, keep);
    if glob_matches(pattern, name) {
        names.filter(keep).lemma_push_map_commute(to_path, name);
    }
}

/// Puts `path` into a sorted list, behind every path that comes no later.
fn insert_sorted(sorted: &mut Vec<String>, path: String)
    requires
        is_sorted(texts(old(sorted)@)),
    ensures
        is_sorted(texts(final(sorted)@)),
        texts(final(sorted)@).to_multiset() == texts(old(sorted)@).to_multiset().insert(path@),
        final(sorted)@.len() == old(sorted)@.len() + 1,
{
    let ghost before = texts(sorted@);
    let mut at: usize = 0;
    while at < sorted.len() && path_le(sorted[at].as_str(), path.as_str())
        invariant
            at <= sorted.len(),
            sorted@ == old(sorted)@,
            before == texts(sorted@),
            forall|q: int| 0 <= q < at ==> lex_le(path_key(#[trigger] before[q]), path_key(path@)),
        decreases sorted.len() - at,
    {
        at = at + 1;
    }
    proof {
        assert forall|q: int| at <= q < before.len() implies lex_le(
            path_key(path@),
            path_key(#[trigger] before[q]),
        ) by {
            if q > at {
                lemma_lex_le_transitive(
                    path_key(path@),
                    path_key(before[at as int]),
                    path_key(before[q]),
                );
            }
        }
    }
    sorted.insert(at, path);
    proof {
        let after = texts(sorted@);
        assert(after =~= before.insert(at as int, path@));
        to_multiset_insert(before, at as int, path@);
    }
}

/// Collects the frames of a directory.
///
/// `entries` are the names of the files in `input_folder`. The result holds
/// the path of each entry that matches the pattern (`*.png` where none is
/// given), each as often as it is listed, in ascending lexicographic order of
/// the path strings. It is empty where nothing matches. A pattern that is no
/// well-formed glob expression is rejected.
pub fn collect_input_frames(
    input_folder: &str,
    entries: &Vec<String>,
    file_pattern: Option<String>,
) -> (r: Result<Vec<String>, RenderError>)
    ensures
        r is Ok <==> glob_accepts(effective_pattern(file_pattern)),
        r matches Ok(frames) ==> {
            let expected = matching_paths(
                input_folder@,
                texts(entries@),
                effective_pattern(file_pattern),
            );
            &&& frames@.len() == expected.len()
            &&& is_sorted(texts(frames@))
            &&& texts(frames@).to_multiset() == expected.to_multiset()
        },
        r matches Err(e) ==> e is FramePatternInvalid,
{
    let pattern_text = match file_pattern {
        Some(p) => p,
        None => String::from_str(DEFAULT_PATTERN),
    };
    let pattern = match compile_pattern(pattern_text.as_str()) {
        Ok(p) => p,
        Err(e) => {
            return Err(RenderError::FramePatternInvalid { detail: pattern_error_text(&e) });
        },
    };
    let ghost names = texts(entries@);
    let ghost source = effective_pattern(file_pattern);
    let mut frames: Vec<String> = Vec::new();
    let mut i: usize = 0;
    assert(texts(frames@) =~= matching_paths(input_folder@, names.take(0), source));
    while i < entries.len()
        invariant
            i <= entries.len(),
            names == texts(entries@),
            pattern_source(pattern) == source,
            is_sorted(texts(frames@)),
            frames@.len() == matching_paths(input_folder@, names.take(i as int), source).len(),
            texts(frames@).to_multiset() == matching_paths(
                input_folder@,
                names.take(i as int),
                source,
            ).to_multiset(),
        decreases entries.len() - i,
    {
        let name = entries[i].as_str();
        proof {
            assert(names.take(i + 1) =~= names.take(i as int).push(name@));
            lemma_matching_paths_push(input_folder@, names.take(i as int), name@, source);
        }
        if pattern_matches(&pattern, name) {
            let path = join_path(input_folder, name);
            proof {
                to_multiset_build(
                    matching_paths(input_folder@, names.take(i as int), source),
                    path@,
                );
            }
            insert_sorted(&mut frames, path);
        }
        i = i + 1;
    }
    assert(names.take(i as int) =~= names);
    Ok(frames)
}

} // verus!
