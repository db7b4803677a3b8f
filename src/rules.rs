//! Resolving the rules of a run, and deciding for one path whether it is kept.
use vstd::prelude::*;
use crate::default_ignore::{DefaultIgnore, string_texts};
use crate::glob::{glob_is_match, glob_matches, is_usable_glob, usable_glob};
use crate::path::{
    chars_of, components, components_of, contains_component, ends_with_exec, has_component,
    path_ends_with,
};

verus! {

/// How the rules of a run select files.
#[derive(Clone, Copy, Debug, PartialEq, Eq, Structural)]
pub enum Mode {
    /// Keep every file that no ignore rule excludes.
    IgnoreBased,
    /// Keep only the files that end with one of the listed paths.
    IncludeOnly,
}

/// What the user asked for on top of the built-in policy.
pub struct Overrides {
    pub ignore_files: Option<Vec<String>>,
    pub ignore_dirs: Option<Vec<String>>,
    pub include_files: Option<Vec<String>>,
}

/// Why the rules of a run could not be resolved.
#[derive(Debug)]
pub enum ConfigError {
    /// An include list was given together with an ignore list.
    ConflictingOptions,
    /// This file pattern is not a usable glob: globset refuses it, or it holds
    /// more braces `{` than the library allows.
    InvalidGlob(String),
}

/// A configuration error, with its pattern as text.
pub enum ConfigErrorView {
    ConflictingOptions,
    InvalidGlob(Seq<char>),
}

impl View for ConfigError {
    type V = ConfigErrorView;

    open spec fn view(&self) -> ConfigErrorView {
        match self {
            ConfigError::ConflictingOptions => ConfigErrorView::ConflictingOptions,
            ConfigError::InvalidGlob(p) => ConfigErrorView::InvalidGlob(p@),
        }
    }
}

/// The resolved rules of one run.
pub struct RuleSet {
    pub mode: Mode,
    pub ignore_files: Vec<String>,
    pub ignore_dirs: Vec<String>,
    pub include_paths: Vec<String>,
}

/// A rule set, with each string as its text.
pub struct RuleSetView {
    pub mode: Mode,
    pub ignore_files: Seq<Seq<char>>,
    pub ignore_dirs: Seq<Seq<char>>,
    pub include_paths: Seq<Seq<char>>,
}

impl View for RuleSet {
    type V = RuleSetView;

    open spec fn view(&self) -> RuleSetView {
        RuleSetView {
            mode: self.mode,
            ignore_files: string_texts(self.ignore_files@),
            ignore_dirs: string_texts(self.ignore_dirs@),
            include_paths: string_texts(self.include_paths@),
        }
    }
}

/// Every pattern is a usable glob.
pub open spec fn all_globs_parse(globs: Seq<Seq<char>>) -> bool {
    forall|i: int| 0 <= i < globs.len() ==> usable_glob(globs[i])
}

/// The first pattern that is not a usable glob, if any.
pub open spec fn first_unparsable(globs: Seq<Seq<char>>) -> Option<Seq<char>>
    decreases globs.len(),
{
    if globs.len() == 0 {
        None
    } else if !usable_glob(globs[0]) {
        Some(globs[0])
    } else {
        first_unparsable(globs.drop_first())
    }
}

pub proof fn lemma_first_unparsable_none(globs: Seq<Seq<char>>)
    ensures
        first_unparsable(globs) is None <==> all_globs_parse(globs),
    decreases globs.len(),
{
    if globs.len() > 0 {
        lemma_first_unparsable_none(globs.drop_first());
        if all_globs_parse(globs.drop_first()) && usable_glob(globs[0]) {
            assert forall|i: int| 0 <= i < globs.len() implies usable_glob(globs[i]) by {
                if i > 0 {
                    assert(globs[i] == globs.drop_first()[i - 1]);
                }
            }
        }
        if all_globs_parse(globs) {
            assert forall|i: int| 0 <= i < globs.len() - 1 implies usable_glob(
                globs.drop_first()[i],
            ) by {
                assert(globs.drop_first()[i] == globs[i + 1]);
            }
        }
    }
}

/// A rule set that can be used: in ignore mode its file patterns are globs.
pub open spec fn well_formed(r: RuleSetView) -> bool {
    r.mode == Mode::IgnoreBased ==> all_globs_parse(r.ignore_files)
}

/// The texts of an optional list; nothing when it is absent.
pub open spec fn optional_texts(o: Option<Vec<String>>) -> Seq<Seq<char>> {
    match o {
        Some(v) => string_texts(v@),
        None => Seq::empty(),
    }
}

/// An include list was given together with an ignore list.
pub open spec fn conflicting(o: &Overrides) -> bool {
    o.include_files is Some && (o.ignore_files is Some || o.ignore_dirs is Some)
}

/// The rules that the built-in policy and the overrides give: include-only
/// when an include list is given, else the defaults followed by the user's
/// ignore lists.
pub open spec fn resolved(defaults: &DefaultIgnore, o: &Overrides) -> RuleSetView {
    if o.include_files is Some {
        RuleSetView {
            mode: Mode::IncludeOnly,
            ignore_files: Seq::empty(),
            ignore_dirs: Seq::empty(),
            include_paths: optional_texts(o.include_files),
        }
    } else {
        RuleSetView {
            mode: Mode::IgnoreBased,
            ignore_files: string_texts(defaults.ignore_files@) + optional_texts(o.ignore_files),
            ignore_dirs: string_texts(defaults.ignore_dirs@) + optional_texts(o.ignore_dirs),
            include_paths: Seq::empty(),
        }
    }
}

/// The overrides can be resolved: they do not conflict, and the rules they
/// give are well formed.
pub open spec fn resolvable(defaults: &DefaultIgnore, o: &Overrides) -> bool {
    !conflicting(o) && well_formed(resolved(defaults, o))
}

/// The error that resolving the overrides gives, if any: a conflict first,
/// then, in ignore mode, the first file pattern that is not a usable glob.
pub open spec fn resolution_error(defaults: &DefaultIgnore, o: &Overrides) -> Option<
    ConfigErrorView,
> {
    if conflicting(o) {
        Some(ConfigErrorView::ConflictingOptions)
    } else if o.include_files is Some {
        None
    } else {
        match first_unparsable(resolved(defaults, o).ignore_files) {
            Some(p) => Some(ConfigErrorView::InvalidGlob(p)),
            None => None,
        }
    }
}

/// An outcome of `should_include`, with its error as a view.
pub open spec fn outcome_view(r: Result<bool, ConfigError>) -> Result<bool, ConfigErrorView> {
    match r {
        Ok(b) => Ok(b),
        Err(e) => Err(e@),
    }
}

/// What resolving the overrides and deciding on `path` gives.
pub open spec fn expected_outcome(path: Seq<char>, defaults: &DefaultIgnore, o: &Overrides) -> Result<
    bool,
    ConfigErrorView,
> {
    match resolution_error(defaults, o) {
        Some(e) => Err(e),
        None => Ok(decision(path, resolved(defaults, o))),
    }
}

/// Some file rule excludes `path`: it matches as a glob, or `path` ends with it.
pub open spec fn excluded_by_file_rules(path: Seq<char>, globs: Seq<Seq<char>>) -> bool {
    exists|i: int|
        0 <= i < globs.len() && (glob_matches(globs[i], path) || path_ends_with(path, globs[i]))
}

/// Some component of `path` is one of the directory names.
pub open spec fn excluded_by_dir_rules(path: Seq<char>, dirs: Seq<Seq<char>>) -> bool {
    exists|i: int| 0 <= i < dirs.len() && has_component(path, dirs[i])
}

/// `path` ends with one of the listed paths.
pub open spec fn matches_include(path: Seq<char>, paths: Seq<Seq<char>>) -> bool {
    exists|i: int| 0 <= i < paths.len() && path_ends_with(path, paths[i])
}

/// Whether `path` is kept under the rules `r`.
pub open spec fn decision(path: Seq<char>, r: RuleSetView) -> bool {
    match r.mode {
        Mode::IncludeOnly => matches_include(path, r.include_paths),
        Mode::IgnoreBased => !excluded_by_file_rules(path, r.ignore_files)
            && !excluded_by_dir_rules(path, r.ignore_dirs),
    }
}

/// Appends copies of the strings of `src` to `dst`.
fn append_strings(dst: &mut Vec<String>, src: &Vec<String>)
    ensures
        string_texts(final(dst)@) == string_texts(old(dst)@) + string_texts(src@),
{
    let ghost start = string_texts(dst@);
    let mut i: usize = 0;
    while i < src.len()
        invariant
            i <= src@.len(),
            string_texts(dst@) == start + string_texts(src@.subrange(0, i as int)),
        decreases src.len() - i,
    {
        let ghost prev = dst@;
        let c = src[i].clone();
        dst.push(c);
        assert(src@.subrange(0, i + 1) =~= src@.subrange(0, i as int).push(src@[i as int]));
        assert(string_texts(prev.push(c)) =~= string_texts(prev).push(c@));
        assert(string_texts(src@.subrange(0, i as int).push(src@[i as int])) =~= string_texts(
            src@.subrange(0, i as int),
        ).push(c@));
        i += 1;
        assert(string_texts(dst@) =~= start + string_texts(src@.subrange(0, i as int)));
    }
    assert(src@.subrange(0, i as int) =~= src@);
}

/// Appends the strings of an optional list to `dst`.
fn append_optional(dst: &mut Vec<String>, src: &Option<Vec<String>>)
    ensures
        string_texts(final(dst)@) == string_texts(old(dst)@) + optional_texts(*src),
{
    match src {
        Some(v) => append_strings(dst, v),
        None => {
            assert(string_texts(dst@) =~= string_texts(dst@) + Seq::<Seq<char>>::empty());
        },
    }
}

/// The first pattern that is not a usable glob, if any.
fn first_invalid_glob(globs: &Vec<String>) -> (r: Option<usize>)
    ensures
        r is None <==> all_globs_parse(string_texts(globs@)),
        r matches Some(k) ==> k < globs@.len() && first_unparsable(string_texts(globs@)) == Some(
            globs@[k as int]@,
        ),
        r is None ==> first_unparsable(string_texts(globs@)) is None,
{
    let mut i: usize = 0;
    assert(string_texts(globs@).subrange(0, globs@.len() as int) =~= string_texts(globs@));
    while i < globs.len()
        invariant
            i <= globs@.len(),
            forall|k: int| 0 <= k < i ==> usable_glob(#[trigger] string_texts(globs@)[k]),
            first_unparsable(string_texts(globs@)) == first_unparsable(
                string_texts(globs@).subrange(i as int, globs@.len() as int),
            ),
        decreases globs.len() - i,
    {
        let ghost rest = string_texts(globs@).subrange(i as int, globs@.len() as int);
        assert(rest[0] == string_texts(globs@)[i as int]);
        if !is_usable_glob(globs[i].as_str()) {
            assert(!usable_glob(string_texts(globs@)[i as int]));
            return Some(i);
        }
        assert(rest.drop_first() =~= string_texts(globs@).subrange(i + 1, globs@.len() as int));
        i += 1;
    }
    assert(string_texts(globs@).subrange(i as int, globs@.len() as int).len() == 0);
    None
}

/// Resolves the rules of a run from the built-in policy and the overrides.
/// An include list together with an ignore list is refused; so is, in ignore
/// mode, a file pattern that is not a usable glob.
pub fn resolve(defaults: &DefaultIgnore, o: &Overrides) -> (r: Result<RuleSet, ConfigError>)
    ensures
        conflicting(o) <==> r matches Err(ConfigError::ConflictingOptions),
        r is Ok <==> resolvable(defaults, o),
        r matches Ok(rs) ==> rs@ == resolved(defaults, o) && well_formed(rs@),
        r is Ok <==> resolution_error(defaults, o) is None,
        r matches Err(e) ==> resolution_error(defaults, o) == Some(e@),
{
    proof {
        lemma_first_unparsable_none(resolved(defaults, o).ignore_files);
    }
    if o.include_files.is_some() && (o.ignore_files.is_some() || o.ignore_dirs.is_some()) {
        return Err(ConfigError::ConflictingOptions);
    }
    match &o.include_files {
        Some(paths) => {
            let mut include_paths: Vec<String> = Vec::new();
            append_strings(&mut include_paths, paths);
            let rs = RuleSet {
                mode: Mode::IncludeOnly,
                ignore_files: Vec::new(),
                ignore_dirs: Vec::new(),
                include_paths,
            };
            assert(rs@.ignore_files =~= Seq::<Seq<char>>::empty());
            assert(rs@.ignore_dirs =~= Seq::<Seq<char>>::empty());
            assert(rs@.include_paths =~= string_texts(paths@));
            Ok(rs)
        },
        None => {
            let mut ignore_files: Vec<String> = Vec::new();
            append_strings(&mut ignore_files, &defaults.ignore_files);
            append_optional(&mut ignore_files, &o.ignore_files);
            let mut ignore_dirs: Vec<String> = Vec::new();
            append_strings(&mut ignore_dirs, &defaults.ignore_dirs);
            append_optional(&mut ignore_dirs, &o.ignore_dirs);
            assert(string_texts(Seq::<String>::empty()) =~= Seq::<Seq<char>>::empty());
            assert(string_texts(ignore_files@) =~= resolved(defaults, o).ignore_files);
            assert(string_texts(ignore_dirs@) =~= resolved(defaults, o).ignore_dirs);
            match first_invalid_glob(&ignore_files) {
                Some(k) => {
                    assert(!all_globs_parse(resolved(defaults, o).ignore_files));
                    Err(ConfigError::InvalidGlob(ignore_files[k].clone()))
                },
                None => {
                    let rs = RuleSet {
                        mode: Mode::IgnoreBased,
                        ignore_files,
                        ignore_dirs,
                        include_paths: Vec::new(),
                    };
                    assert(rs@.include_paths =~= Seq::<Seq<char>>::empty());
                    Ok(rs)
                },
            }
        },
    }
}

/// Whether `path` is kept under the rules `rules`.
pub fn decide(path: &str, rules: &RuleSet) -> (r: bool)
    requires
        well_formed(rules@),
    ensures
        r == decision(path@, rules@),
{
    let text = chars_of(path);
    let comps = components_of(&text);
    match rules.mode {
        Mode::IncludeOnly => {
            let mut i: usize = 0;
            while i < rules.include_paths.len()
                invariant
                    rules.mode == Mode::IncludeOnly,
                    i <= rules.include_paths@.len(),
                    crate::path::texts(comps@) == components(path@),
                    forall|k: int|
                        0 <= k < i ==> !path_ends_with(path@, #[trigger] rules@.include_paths[k]),
                decreases rules.include_paths.len() - i,
            {
                let entry = components_of(&chars_of(rules.include_paths[i].as_str()));
                if ends_with_exec(&comps, &entry) {
                    assert(path_ends_with(path@, rules@.include_paths[i as int]));
                    return true;
                }
                i += 1;
            }
            false
        },
        Mode::IgnoreBased => {
            let mut i: usize = 0;
            while i < rules.ignore_files.len()
                invariant
                    rules.mode == Mode::IgnoreBased,
                    well_formed(rules@),
                    i <= rules.ignore_files@.len(),
                    crate::path::texts(comps@) == components(path@),
                    forall|k: int|
                        0 <= k < i ==> !glob_matches(#[trigger] rules@.ignore_files[k], path@)
                            && !path_ends_with(path@, rules@.ignore_files[k]),
                decreases rules.ignore_files.len() - i,
            {
                let pattern = rules.ignore_files[i].as_str();
                assert(usable_glob(rules@.ignore_files[i as int]));
                if glob_is_match(pattern, path) {
                    return false;
                }
                let entry = components_of(&chars_of(pattern));
                if ends_with_exec(&comps, &entry) {
                    return false;
                }
                i += 1;
            }
            let mut j: usize = 0;
            while j < rules.ignore_dirs.len()
                invariant
                    rules.mode == Mode::IgnoreBased,
                    j <= rules.ignore_dirs@.len(),
                    crate::path::texts(comps@) == components(path@),
                    !excluded_by_file_rules(path@, rules@.ignore_files),
                    forall|k: int|
                        0 <= k < j ==> !has_component(path@, #[trigger] rules@.ignore_dirs[k]),
                decreases rules.ignore_dirs.len() - j,
            {
                let name = chars_of(rules.ignore_dirs[j].as_str());
                if contains_component(&comps, &name) {
                    assert(has_component(path@, rules@.ignore_dirs[j as int]));
                    return false;
                }
                j += 1;
            }
            true
        },
    }
}

/// Resolves the rules from the built-in policy and the overrides, then
/// decides whether `path` is kept under them.
pub fn should_include(path: &str, o: &Overrides, config: &DefaultIgnore) -> (r: Result<
    bool,
    ConfigError,
>)
    ensures
        r is Ok <==> resolvable(config, o),
        conflicting(o) <==> r matches Err(ConfigError::ConflictingOptions),
        r matches Ok(b) ==> b == decision(path@, resolved(config, o)),
        outcome_view(r) == expected_outcome(path@, config, o),
{
    match resolve(config, o) {
        Ok(rules) => Ok(decide(path, &rules)),
        Err(e) => Err(e),
    }
}

/// Deciding is a function of its inputs alone: two calls of `should_include`
/// on the same path, overrides and policy give the same outcome.
pub proof fn lemma_should_include_deterministic(
    path: Seq<char>,
    o: &Overrides,
    config: &DefaultIgnore,
    r1: Result<bool, ConfigError>,
    r2: Result<bool, ConfigError>,
)
    requires
        outcome_view(r1) == expected_outcome(path, config, o),
        outcome_view(r2) == expected_outcome(path, config, o),
    ensures
        outcome_view(r1) == outcome_view(r2),
        r1 is Ok <==> r2 is Ok,
        r1 matches Ok(b1) ==> r2 matches Ok(b2) && b1 == b2,
{
}

/// In ignore mode, a path with a component among the ignored directory
/// names is excluded, whatever its file name.
pub proof fn lemma_ignored_dir_excludes(path: Seq<char>, r: RuleSetView, dir: Seq<char>)
    requires
        r.mode == Mode::IgnoreBased,
        r.ignore_dirs.contains(dir),
        has_component(path, dir),
    ensures
        !decision(path, r),
{
    let i = choose|i: int| 0 <= i < r.ignore_dirs.len() && r.ignore_dirs[i] == dir;
    assert(has_component(path, r.ignore_dirs[i]));
}

/// In ignore mode, a path that a file pattern matches as a glob, or that ends
/// with the pattern taken literally, is excluded.
pub proof fn lemma_ignored_file_excludes(path: Seq<char>, r: RuleSetView, pattern: Seq<char>)
    requires
        r.mode == Mode::IgnoreBased,
        r.ignore_files.contains(pattern),
        glob_matches(pattern, path) || path_ends_with(path, pattern),
    ensures
        !decision(path, r),
{
    let i = choose|i: int| 0 <= i < r.ignore_files.len() && r.ignore_files[i] == pattern;
    assert(glob_matches(r.ignore_files[i], path) || path_ends_with(path, r.ignore_files[i]));
}

/// In include-only mode a path is kept exactly when it ends with one of the
/// listed paths, and the ignore lists, built-in ones included, change nothing.
pub proof fn lemma_include_only(path: Seq<char>, r: RuleSetView, other: RuleSetView)
    requires
        r.mode == Mode::IncludeOnly,
        other.mode == Mode::IncludeOnly,
        other.include_paths == r.include_paths,
    ensures
        decision(path, r) <==> (exists|i: int|
            0 <= i < r.include_paths.len() && path_ends_with(path, r.include_paths[i])),
        decision(path, r) == decision(path, other),
{
}

/// Resolution never merges the two modes: with an include list the ignore
/// lists, built-in ones included, are dropped; without one the built-in
/// lists are kept whole, in front of the user's.
pub proof fn lemma_resolved_modes(defaults: &DefaultIgnore, o: &Overrides)
    ensures
        o.include_files is Some ==> resolved(defaults, o).ignore_files.len() == 0
            && resolved(defaults, o).ignore_dirs.len() == 0,
        o.include_files is None ==> resolved(defaults, o).include_paths.len() == 0
            && resolved(defaults, o).ignore_files.subrange(
            0,
            defaults.ignore_files@.len() as int,
        ) == string_texts(defaults.ignore_files@) && resolved(defaults, o).ignore_dirs.subrange(
            0,
            defaults.ignore_dirs@.len() as int,
        ) == string_texts(defaults.ignore_dirs@),
{
    if o.include_files is None {
        let r = resolved(defaults, o);
        assert(r.ignore_files.subrange(0, defaults.ignore_files@.len() as int) =~= string_texts(
            defaults.ignore_files@,
        ));
        assert(r.ignore_dirs.subrange(0, defaults.ignore_dirs@.len() as int) =~= string_texts(
            defaults.ignore_dirs@,
        ));
    }
}

} // verus!
