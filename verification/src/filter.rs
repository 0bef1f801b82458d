use vstd::prelude::*;

use crate::errors::ScanError;
use globset::GlobSet;
use globset::GlobSetBuilder;

verus! {

// The include/exclude layer compiles glob patterns with the globset crate
// and keeps, at the specification level, the list of (pattern, ignore-case)
// pairs each compiled set was built from. What one pattern matches is left
// abstract: `glob_match` names it, and every statement about the filter goes
// through that name.

#[verifier::external_type_specification]
#[verifier::external_body]
pub struct ExGlobSet(GlobSet);

#[verifier::external_type_specification]
#[verifier::external_body]
pub struct ExGlobSetBuilder(GlobSetBuilder);

/// Whether glob pattern `pattern`, compiled with case-insensitivity
/// `ignore_case`, is syntactically valid. Valid on one input or not,
/// the same way every time: glob compilation reads nothing but the pattern.
pub uninterp spec fn glob_ok(pattern: Seq<char>, ignore_case: bool) -> bool;

/// Whether glob pattern `pattern`, compiled with case-insensitivity
/// `ignore_case`, matches the path `path`.
pub uninterp spec fn glob_match(pattern: Seq<char>, ignore_case: bool, path: Seq<char>) -> bool;

/// The (pattern, ignore-case) pairs added to a set builder so far.
pub uninterp spec fn builder_globs(b: GlobSetBuilder) -> Seq<(Seq<char>, bool)>;

/// The (pattern, ignore-case) pairs a compiled set was built from.
pub uninterp spec fn globset_globs(s: GlobSet) -> Seq<(Seq<char>, bool)>;

/// Whether a list of already-compiled patterns builds into one matcher set.
/// The set-build step reads nothing but the patterns, so its outcome is a
/// function of them; an empty list always builds.
pub uninterp spec fn globs_compile(globs: Seq<(Seq<char>, bool)>) -> bool;

/// Whether any pattern of a compiled set matches the path. An empty set
/// matches nothing.
pub open spec fn set_matches(globs: Seq<(Seq<char>, bool)>, path: Seq<char>) -> bool {
    exists|i: int| 0 <= i < globs.len() && glob_match((#[trigger] globs[i]).0, globs[i].1, path)
}

/// Relies on globset::GlobSetBuilder::new: a fresh builder holds no patterns.
#[verifier::external_body]
fn globset_builder_new() -> (b: GlobSetBuilder)
    ensures
        builder_globs(b) == Seq::<(Seq<char>, bool)>::empty(),
{
    GlobSetBuilder::new()
}

/// Relies on globset::GlobBuilder (new, case_insensitive, build) to compile
/// one pattern, and on globset::GlobSetBuilder::add to append the compiled
/// pattern to the set under construction.
#[verifier::external_body]
fn globset_builder_add(b: &mut GlobSetBuilder, pattern: &String, ignore_case: bool) -> (r:
    Result<(), String>)
    ensures
        r is Ok <==> glob_ok(pattern@, ignore_case),
        r is Ok ==> builder_globs(*final(b)) == builder_globs(*old(b)).push(
            (pattern@, ignore_case),
        ),
        r is Err ==> builder_globs(*final(b)) == builder_globs(*old(b)),
{
    match globset::GlobBuilder::new(pattern).case_insensitive(ignore_case).build() {
        Ok(glob) => {
            b.add(glob);
            Ok(())
        },
        Err(e) => Err(format!("{}", e)),
    }
}

/// Relies on globset::GlobSetBuilder::build: on success the compiled set
/// holds exactly the patterns added to the builder. Building reads only the
/// added patterns (it can fail only while assembling their matching
/// strategies), so its outcome is a function of them; with no patterns it
/// returns the empty set at once.
#[verifier::external_body]
fn globset_builder_build(b: &GlobSetBuilder) -> (r: Result<GlobSet, String>)
    ensures
        r is Ok <==> globs_compile(builder_globs(*b)),
        builder_globs(*b).len() == 0 ==> r is Ok,
        r is Ok ==> globset_globs(r->Ok_0) == builder_globs(*b),
{
    b.build().map_err(|e| format!("{}", e))
}

/// Relies on globset::GlobSet::is_match: true iff any pattern in the set
/// matches the path.
#[verifier::external_body]
fn globset_is_match(s: &GlobSet, path: &String) -> (r: bool)
    ensures
        r == (exists|i: int|
            0 <= i < globset_globs(*s).len() && glob_match(
                (#[trigger] globset_globs(*s)[i]).0,
                globset_globs(*s)[i].1,
                path@,
            )),
{
    s.is_match(path.as_str())
}

/// The (pattern, ignore-case) pairs that compiling `patterns` with
/// case-sensitivity flag `case_sensitive` yields.
pub open spec fn compiled_globs(patterns: Seq<String>, case_sensitive: bool) -> Seq<
    (Seq<char>, bool),
> {
    patterns.map_values(|p: String| (p@, !case_sensitive))
}

/// Compile a pattern list into one matcher set. Matching ignores case unless
/// `case_sensitive` is set. Succeeds exactly when every pattern is a valid
/// glob and the resulting list builds into a set — so an empty list always
/// succeeds — and then the set holds exactly the given patterns, in order.
/// Every failure is a `Pattern` error.
pub fn create_globset(patterns: &Vec<String>, case_sensitive: bool) -> (r: Result<GlobSet, ScanError>)
    ensures
        r is Ok <==> ((forall|i: int|
            0 <= i < patterns@.len() ==> glob_ok(#[trigger] patterns@[i]@, !case_sensitive))
            && globs_compile(compiled_globs(patterns@, case_sensitive))),
        patterns@.len() == 0 ==> r is Ok,
        r is Ok ==> globset_globs(r->Ok_0) == compiled_globs(patterns@, case_sensitive),
        r is Err ==> r->Err_0 is Pattern,
{
    let ignore_case = !case_sensitive;
    let mut builder = globset_builder_new();
    let mut i: usize = 0;
    while i < patterns.len()
        invariant
            i <= patterns@.len(),
            ignore_case == !case_sensitive,
            builder_globs(builder) == compiled_globs(patterns@.take(i as int), case_sensitive),
            forall|j: int| 0 <= j < i ==> glob_ok(#[trigger] patterns@[j]@, !case_sensitive),
        decreases patterns@.len() - i,
    {
        match globset_builder_add(&mut builder, &patterns[i], ignore_case) {
            Ok(()) => {
                proof {
                    assert(patterns@.take(i as int + 1).drop_last() =~= patterns@.take(i as int));
                    assert(builder_globs(builder) =~= compiled_globs(
                        patterns@.take(i as int + 1),
                        case_sensitive,
                    ));
                }
            },
            Err(detail) => {
                proof {
                    assert(!glob_ok(patterns@[i as int]@, !case_sensitive));
                }
                return Err(ScanError::Pattern { detail });
            },
        }
        i = i + 1;
    }
    proof {
        assert(patterns@.take(patterns@.len() as int) =~= patterns@);
    }
    match globset_builder_build(&builder) {
        Ok(set) => Ok(set),
        Err(detail) => Err(ScanError::Pattern { detail }),
    }
}

/// The compiled include/exclude pair that decides which entries a scan
/// visits. Directories are tested only against the exclude set, so that an
/// excluded directory prunes its whole subtree; files are tested against
/// both sets, and exclusion takes precedence over inclusion.
pub struct EntryFilter {
    pub includes: GlobSet,
    pub excludes: GlobSet,
}

impl EntryFilter {
    /// The (pattern, ignore-case) pairs of the include set.
    pub open spec fn include_globs(&self) -> Seq<(Seq<char>, bool)> {
        globset_globs(self.includes)
    }

    /// The (pattern, ignore-case) pairs of the exclude set.
    pub open spec fn exclude_globs(&self) -> Seq<(Seq<char>, bool)> {
        globset_globs(self.excludes)
    }

    /// A directory is kept iff no exclude pattern matches it.
    pub open spec fn keep_dir_spec(&self, path: Seq<char>) -> bool {
        !set_matches(self.exclude_globs(), path)
    }

    /// A file is kept iff no exclude pattern matches it and some include
    /// pattern does.
    pub open spec fn keep_file_spec(&self, path: Seq<char>) -> bool {
        &&& !set_matches(self.exclude_globs(), path)
        &&& set_matches(self.include_globs(), path)
    }

    /// Compile both pattern lists. Succeeds exactly when every pattern of
    /// both lists is a valid glob and each list builds into its set — in
    /// particular, two empty lists always succeed. Every failure is a
    /// `Pattern` error.
    pub fn new(
        include_patterns: &Vec<String>,
        exclude_patterns: &Vec<String>,
        case_sensitive: bool,
    ) -> (r: Result<EntryFilter, ScanError>)
        ensures
            r is Ok <==> ((forall|i: int|
                0 <= i < include_patterns@.len() ==> glob_ok(
                    #[trigger] include_patterns@[i]@,
                    !case_sensitive,
                )) && globs_compile(compiled_globs(include_patterns@, case_sensitive)) && (
            forall|i: int|
                0 <= i < exclude_patterns@.len() ==> glob_ok(
                    #[trigger] exclude_patterns@[i]@,
                    !case_sensitive,
                )) && globs_compile(compiled_globs(exclude_patterns@, case_sensitive))),
            include_patterns@.len() == 0 && exclude_patterns@.len() == 0 ==> r is Ok,
            r is Ok ==> r->Ok_0.include_globs() == compiled_globs(
                include_patterns@,
                case_sensitive,
            ),
            r is Ok ==> r->Ok_0.exclude_globs() == compiled_globs(
                exclude_patterns@,
                case_sensitive,
            ),
            r is Err ==> r->Err_0 is Pattern,
    {
        let includes = create_globset(include_patterns, case_sensitive)?;
        let excludes = create_globset(exclude_patterns, case_sensitive)?;
        Ok(EntryFilter { includes, excludes })
    }

    /// Decide whether a directory entry is kept (and its subtree descended
    /// into).
    pub fn keep_dir(&self, path: &String) -> (r: bool)
        ensures
            r == self.keep_dir_spec(path@),
    {
        !globset_is_match(&self.excludes, path)
    }

    /// Decide whether a file entry is kept (and analyzed).
    pub fn keep_file(&self, path: &String) -> (r: bool)
        ensures
            r == self.keep_file_spec(path@),
    {
        !globset_is_match(&self.excludes, path) && globset_is_match(&self.includes, path)
    }
}

/// An empty pattern set matches no path at all.
pub proof fn lemma_empty_set_matches_nothing(path: Seq<char>)
    ensures
        !set_matches(Seq::<(Seq<char>, bool)>::empty(), path),
{
}

} // verus!
