//! Exclusion rules: which paths of the working tree stay out of a build
//! package.
//!
//! A rule is a glob pattern.  Rules come from the lines of an ignore file and
//! from a fixed list of built-in rules; every one of them is normalised
//! before it is compiled: anchored at `./`, and widened to `dir/*` where it
//! names a directory.  Which paths are directories is an input, given as the
//! list of anchored rules that name one.

use crate::text::{
    chars_of,
    char_is_whitespace,
    concat2,
    is_blank,
    is_whitespace,
    starts_with_char,
    starts_with_pair,
    trim,
    trimmed,
};
use vstd::prelude::*;

verus! {

/// A rule anchored at the working tree's root: a leading `/` becomes `./`,
/// and a rule that does not start with `./` gets it put in front.
pub open spec fn anchored(rule: Seq<char>) -> Seq<char> {
    if rule.len() > 0 && rule[0] == '/' {
        seq!['.'] + rule
    } else if rule.len() > 1 && rule[0] == '.' && rule[1] == '/' {
        rule
    } else {
        seq!['.', '/'] + rule
    }
}

/// A rule that names a directory, widened to everything beneath it.
pub open spec fn widened(rule: Seq<char>) -> Seq<char> {
    rule + seq!['/', '*']
}

/// The compiled form of one line: trimmed, anchored, and widened when
/// `dirs` lists the anchored rule as a directory.
pub open spec fn normalized(line: Seq<char>, dirs: Seq<Seq<char>>) -> Seq<char> {
    let rule = anchored(trimmed(line));
    if dirs.contains(rule) {
        widened(rule)
    } else {
        rule
    }
}

/// The rules that apply whatever the ignore file holds: private keys, the
/// version control directory, the staging directory and build packages.
pub open spec fn builtin_rule_lines() -> Seq<Seq<char>> {
    seq!["*.pem"@, ".git/*"@, "_build/*"@, "*.tar.gz"@]
}

/// The lines that become rules: the non-blank lines of the ignore file, in
/// order, then the built-in rules.
pub open spec fn rule_lines(raw: Seq<Seq<char>>) -> Seq<Seq<char>> {
    raw.filter(|line: Seq<char>| !is_blank(line)) + builtin_rule_lines()
}

/// The anchored rule of every rule line, before any widening.
pub open spec fn anchored_rule_lines(raw: Seq<Seq<char>>) -> Seq<Seq<char>> {
    rule_lines(raw).map_values(|line: Seq<char>| anchored(trimmed(line)))
}

/// The compiled rule strings for the ignore lines `raw`, given the
/// directories `dirs`.
pub open spec fn compiled_rules(raw: Seq<Seq<char>>, dirs: Seq<Seq<char>>) -> Seq<Seq<char>> {
    rule_lines(raw).map_values(|line: Seq<char>| normalized(line, dirs))
}

/// Whether `rule` begins with `./`.
pub open spec fn is_anchored(rule: Seq<char>) -> bool {
    rule.len() >= 2 && rule[0] == '.' && rule[1] == '/'
}

/// Whether `rule` ends with `/*`.
pub open spec fn is_widened(rule: Seq<char>) -> bool {
    rule.len() >= 2 && rule[rule.len() - 2] == '/' && rule[rule.len() - 1] == '*'
}

/// Every normalised rule starts with `./`, and one that names a directory
/// ends with `/*`.
pub proof fn lemma_normalized_shape(line: Seq<char>, dirs: Seq<Seq<char>>)
    ensures
        is_anchored(normalized(line, dirs)),
        dirs.contains(anchored(trimmed(line))) ==> is_widened(normalized(line, dirs)),
{
}

/// For any ignore lines and any directories, every compiled rule starts
/// with `./`, and every compiled rule whose anchored form names a directory
/// ends with `/*`.
pub proof fn lemma_compiled_rules_shape(raw: Seq<Seq<char>>, dirs: Seq<Seq<char>>)
    ensures
        compiled_rules(raw, dirs).len() == rule_lines(raw).len(),
        compiled_rules(raw, dirs).len() == anchored_rule_lines(raw).len(),
        forall|i: int|
            0 <= i < compiled_rules(raw, dirs).len() ==> is_anchored(
                #[trigger] compiled_rules(raw, dirs)[i],
            ),
        forall|i: int|
            0 <= i < compiled_rules(raw, dirs).len() && dirs.contains(anchored_rule_lines(raw)[i])
                ==> is_widened(#[trigger] compiled_rules(raw, dirs)[i]),
{
    assert forall|i: int| 0 <= i < compiled_rules(raw, dirs).len() implies is_anchored(
        #[trigger] compiled_rules(raw, dirs)[i],
    ) by {
        lemma_normalized_shape(rule_lines(raw)[i], dirs);
    }
    assert forall|i: int|
        0 <= i < compiled_rules(raw, dirs).len() && dirs.contains(
            anchored_rule_lines(raw)[i],
        ) implies is_widened(#[trigger] compiled_rules(raw, dirs)[i]) by {
        lemma_normalized_shape(rule_lines(raw)[i], dirs);
    }
}

/// The built-in rules always apply: whatever the ignore lines, the compiled
/// rules end with the compiled forms of the four built-in rules.
pub proof fn lemma_builtin_rules_always_apply(raw: Seq<Seq<char>>, dirs: Seq<Seq<char>>)
    ensures
        compiled_rules(raw, dirs).len() >= builtin_rule_lines().len(),
        forall|k: int|
            0 <= k < builtin_rule_lines().len() ==> #[trigger] compiled_rules(
                raw,
                dirs,
            )[compiled_rules(raw, dirs).len() - builtin_rule_lines().len() + k] == normalized(
                builtin_rule_lines()[k],
                dirs,
            ),
{
    let kept = raw.filter(|line: Seq<char>| !is_blank(line));
    assert forall|k: int| 0 <= k < builtin_rule_lines().len() implies #[trigger] compiled_rules(
        raw,
        dirs,
    )[compiled_rules(raw, dirs).len() - builtin_rule_lines().len() + k] == normalized(
        builtin_rule_lines()[k],
        dirs,
    ) by {
        assert(rule_lines(raw)[kept.len() + k] == builtin_rule_lines()[k]);
    }
}

/// Whether `line` holds nothing but whitespace.
pub fn line_is_blank(line: &str) -> (r: bool)
    ensures
        r == is_blank(line@),
{
    let chars = chars_of(line);
    let mut i: usize = 0;
    while i < chars.len()
        invariant
            i <= chars@.len(),
            chars@ == line@,
            forall|k: int| 0 <= k < i ==> is_whitespace(#[trigger] chars@[k]),
        decreases chars@.len() - i,
    {
        if !char_is_whitespace(chars[i]) {
            assert(!is_whitespace(line@[i as int]));
            return false;
        }
        i += 1;
    }
    true
}

/// Trims `line` and anchors it at `./`.
pub fn anchor_rule(line: &str) -> (r: String)
    ensures
        r@ == anchored(trimmed(line@)),
{
    let rule = trim(line);
    if starts_with_char(rule.as_str(), '/') {
        proof {
            reveal_strlit(".");
            assert("."@ =~= seq!['.']);
        }
        concat2(".", rule.as_str())
    } else if starts_with_pair(rule.as_str(), '.', '/') {
        rule
    } else {
        proof {
            reveal_strlit("./");
            assert("./"@ =~= seq!['.', '/']);
        }
        concat2("./", rule.as_str())
    }
}

/// Widens an anchored rule to everything beneath the directory it names.
pub fn widen_rule(rule: &str) -> (r: String)
    ensures
        r@ == widened(rule@),
{
    proof {
        reveal_strlit("/*");
        assert("/*"@ =~= seq!['/', '*']);
    }
    concat2(rule, "/*")
}

/// Whether `dirs` lists `path`.
pub fn lists_directory(dirs: &Vec<String>, path: &String) -> (r: bool)
    ensures
        r == dirs.deep_view().contains(path@),
{
    let mut i: usize = 0;
    while i < dirs.len()
        invariant
            i <= dirs@.len(),
            forall|k: int| 0 <= k < i ==> dirs.deep_view()[k] != path@,
        decreases dirs@.len() - i,
    {
        if dirs[i] == *path {
            assert(dirs.deep_view()[i as int] == path@);
            return true;
        }
        i += 1;
    }
    false
}

/// The compiled form of one line, given the directories `dirs`.
pub fn normalize_rule(line: &str, dirs: &Vec<String>) -> (r: String)
    ensures
        r@ == normalized(line@, dirs.deep_view()),
{
    let rule = anchor_rule(line);
    if lists_directory(dirs, &rule) {
        widen_rule(rule.as_str())
    } else {
        rule
    }
}

/// The built-in rules, as lines.
pub fn builtin_rules() -> (r: Vec<String>)
    ensures
        r.deep_view() == builtin_rule_lines(),
{
    let mut out: Vec<String> = Vec::new();
    out.push("*.pem".to_owned());
    out.push(".git/*".to_owned());
    out.push("_build/*".to_owned());
    out.push("*.tar.gz".to_owned());
    assert(out.deep_view() =~= builtin_rule_lines());
    out
}

/// The lines that become rules: the non-blank lines of `raw_lines`, then the
/// built-in rules.
pub fn collect_rule_lines(raw_lines: &Vec<String>) -> (r: Vec<String>)
    ensures
        r.deep_view() == rule_lines(raw_lines.deep_view()),
{
    let ghost keep = |line: Seq<char>| !is_blank(line);
    let mut out: Vec<String> = Vec::new();
    let mut i: usize = 0;
    proof {
        assert(raw_lines.deep_view().take(0) =~= Seq::<Seq<char>>::empty());
        reveal(Seq::filter);
        assert(out.deep_view() =~= raw_lines.deep_view().take(0).filter(keep));
    }
    while i < raw_lines.len()
        invariant
            i <= raw_lines@.len(),
            keep == (|line: Seq<char>| !is_blank(line)),
            out.deep_view() == raw_lines.deep_view().take(i as int).filter(keep),
        decreases raw_lines@.len() - i,
    {
        let ghost before = out.deep_view();
        proof {
            let lines = raw_lines.deep_view();
            assert(lines.take(i as int + 1) =~= lines.take(i as int).push(lines[i as int]));
            lines.take(i as int).lemma_filter_push(lines[i as int], keep);
        }
        if !line_is_blank(raw_lines[i].as_str()) {
            out.push(raw_lines[i].clone());
            assert(out.deep_view() =~= before.push(raw_lines.deep_view()[i as int]));
        }
        i += 1;
    }
    assert(raw_lines.deep_view().take(i as int) =~= raw_lines.deep_view());
    let mut builtin = builtin_rules();
    let ghost kept = out.deep_view();
    out.append(&mut builtin);
    assert(out.deep_view() =~= kept + builtin_rule_lines());
    out
}


/// The anchored rules of `raw_lines` and the built-in rules, before any
/// widening: the paths to look up when the list of directories is made.
pub fn anchored_rules(raw_lines: &Vec<String>) -> (r: Vec<String>)
    ensures
        r.deep_view() == anchored_rule_lines(raw_lines.deep_view()),
{
    let lines = collect_rule_lines(raw_lines);
    let mut out: Vec<String> = Vec::new();
    let mut i: usize = 0;
    while i < lines.len()
        invariant
            i <= lines@.len(),
            out@.len() == i,
            forall|k: int| 0 <= k < i ==> (#[trigger] out@[k])@ == anchored(trimmed(lines@[k]@)),
        decreases lines@.len() - i,
    {
        out.push(anchor_rule(lines[i].as_str()));
        i += 1;
    }
    assert(out.deep_view() =~= anchored_rule_lines(raw_lines.deep_view()));
    out
}

/// The compiled rule strings for `raw_lines` and the built-in rules, where
/// `dirs` lists the anchored rules that name a directory.
pub fn exclusion_rules(raw_lines: &Vec<String>, dirs: &Vec<String>) -> (r: Vec<String>)
    ensures
        r.deep_view() == compiled_rules(raw_lines.deep_view(), dirs.deep_view()),
{
    let lines = collect_rule_lines(raw_lines);
    let mut out: Vec<String> = Vec::new();
    let mut i: usize = 0;
    while i < lines.len()
        invariant
            i <= lines@.len(),
            out@.len() == i,
            forall|k: int|
                0 <= k < i ==> (#[trigger] out@[k])@ == normalized(lines@[k]@, dirs.deep_view()),
        decreases lines@.len() - i,
    {
        out.push(normalize_rule(lines[i].as_str(), dirs));
        i += 1;
    }
    assert(out.deep_view() =~= compiled_rules(raw_lines.deep_view(), dirs.deep_view()));
    out
}

/// A parsed glob pattern of the `globset` crate.
#[verifier::external_type_specification]
#[verifier::external_body]
pub struct ExGlob(globset::Glob);

/// A compiled set of glob patterns of the `globset` crate.
#[verifier::external_type_specification]
#[verifier::external_body]
pub struct ExGlobSet(globset::GlobSet);

/// The error of the `globset` crate for a pattern that it cannot parse or
/// compile.
#[verifier::external_type_specification]
#[verifier::external_body]
pub struct ExGlobError(globset::Error);

/// Whether `globset` accepts `pattern` as a glob with its default options,
/// on a platform whose path separator is `/`.
pub uninterp spec fn glob_parses(pattern: Seq<char>) -> bool;

/// The pattern text that a parsed glob was made from.
pub uninterp spec fn glob_pattern(glob: globset::Glob) -> Seq<char>;

/// Whether `globset` can compile the parsed patterns `patterns` into one set.
pub uninterp spec fn glob_set_compiles(patterns: Seq<Seq<char>>) -> bool;

/// The pattern texts that a compiled set holds, in the order in which they
/// were given.
pub uninterp spec fn glob_set_patterns(set: globset::GlobSet) -> Seq<Seq<char>>;

/// Whether the glob `pattern`, parsed with `globset`'s default options,
/// matches `path`, on a platform whose path separator is `/`.
pub uninterp spec fn glob_matches(pattern: Seq<char>, path: Seq<char>) -> bool;

/// Calls `globset::Glob::new`.  The call succeeds on the patterns that
/// `globset` accepts, and the glob it gives remembers the pattern's text.
#[verifier::external_body]
fn parse_glob(pattern: &str) -> (r: Result<globset::Glob, globset::Error>)
    ensures
        r is Ok <==> glob_parses(pattern@),
        r matches Ok(glob) ==> glob_pattern(glob) == pattern@,
{
    globset::Glob::new(pattern)
}

/// Calls `globset::GlobSet::new`.  The set it gives holds the patterns of
/// `globs` in their order.
#[verifier::external_body]
fn build_glob_set(globs: &Vec<globset::Glob>) -> (r: Result<globset::GlobSet, globset::Error>)
    ensures
        r is Ok <==> glob_set_compiles(globs@.map_values(|g: globset::Glob| glob_pattern(g))),
        r matches Ok(set) ==> glob_set_patterns(set) == globs@.map_values(
            |g: globset::Glob| glob_pattern(g),
        ),
{
    globset::GlobSet::new(globs.iter())
}

/// Calls `globset::GlobSet::matches`.  It gives the positions of the
/// patterns of the set that match `path`, each once, in ascending order.
#[verifier::external_body]
fn glob_set_matches(set: &globset::GlobSet, path: &str) -> (r: Vec<usize>)
    ensures
        forall|i: int| 0 <= i && i + 1 < r@.len() ==> r@[i] < #[trigger] r@[i + 1],
        forall|k: usize| #[trigger]
            r@.contains(k) <==> (k < glob_set_patterns(*set).len() && glob_matches(
                glob_set_patterns(*set)[k as int],
                path@,
            )),
{
    set.matches(path)
}

/// Gives the text of a `globset::Error`, as its `Display` impl writes it.
#[verifier::external_body]
fn glob_error_text(error: &globset::Error) -> (r: String) {
    error.to_string()
}

/// Whether `globset` accepts every rule of `rules`.
pub open spec fn all_parse(rules: Seq<Seq<char>>) -> bool {
    forall|i: int| 0 <= i < rules.len() ==> glob_parses(#[trigger] rules[i])
}

/// Whether `rules` can be made into a matcher: every rule parses, and the
/// set of them compiles.
pub open spec fn rules_compile(rules: Seq<Seq<char>>) -> bool {
    all_parse(rules) && glob_set_compiles(rules)
}

/// Whether `index` is the position of the first rule of `rules` that
/// `globset` does not accept.
pub open spec fn is_first_rejected(rules: Seq<Seq<char>>, index: int) -> bool {
    &&& 0 <= index < rules.len()
    &&& !glob_parses(rules[index])
    &&& forall|k: int| 0 <= k < index ==> glob_parses(#[trigger] rules[k])
}

/// Whether some rule of `rules` matches `path`.
pub open spec fn excluded(rules: Seq<Seq<char>>, path: Seq<char>) -> bool {
    exists|i: int| 0 <= i < rules.len() && glob_matches(#[trigger] rules[i], path)
}

/// Why a list of rules could not be made into a matcher.
#[derive(Debug, Clone, PartialEq, Eq)]
pub struct PatternCompileError {
    /// The first rule that is no valid glob; `None` when every rule is one
    /// and the set of them could not be compiled.
    pub rule: Option<String>,
    /// The diagnostic of the glob compiler.
    pub message: String,
}

/// A compiled list of exclusion rules.  Its view is the list of rule strings.
pub struct ExclusionMatcher {
    rules: Vec<String>,
    set: globset::GlobSet,
}

impl View for ExclusionMatcher {
    type V = Seq<Seq<char>>;

    closed spec fn view(&self) -> Seq<Seq<char>> {
        self.rules.deep_view()
    }
}

impl ExclusionMatcher {
    #[verifier::type_invariant]
    spec fn holds_its_rules(self) -> bool {
        glob_set_patterns(self.set) == self.rules.deep_view()
    }

    /// Compiles normalised rule strings.  Succeeds exactly when the rules
    /// compile; otherwise names the first rule that is no valid glob, or none
    /// when only the set as a whole was refused.
    pub fn from_rules(rules: Vec<String>) -> (r: Result<ExclusionMatcher, PatternCompileError>)
        ensures
            r is Ok <==> rules_compile(rules.deep_view()),
            r matches Ok(m) ==> m@ == rules.deep_view(),
            r matches Err(e) ==> (e.rule is None <==> all_parse(rules.deep_view())),
            r matches Err(e) ==> (e.rule matches Some(rule) ==> exists|i: int|
                is_first_rejected(rules.deep_view(), i) && rule@ == #[trigger] rules.deep_view()[i]),
    {
        let mut globs: Vec<globset::Glob> = Vec::new();
        let mut i: usize = 0;
        while i < rules.len()
            invariant
                i <= rules@.len(),
                globs@.map_values(|g: globset::Glob| glob_pattern(g)) == rules.deep_view().take(
                    i as int,
                ),
                forall|k: int| 0 <= k < i ==> glob_parses(#[trigger] rules.deep_view()[k]),
            decreases rules@.len() - i,
        {
            match parse_glob(rules[i].as_str()) {
                Ok(glob) => {
                    let ghost before = globs@;
                    globs.push(glob);
                    assert(globs@.map_values(|g: globset::Glob| glob_pattern(g))
                        =~= before.map_values(|g: globset::Glob| glob_pattern(g)).push(
                        glob_pattern(glob),
                    ));
                    assert(rules.deep_view().take(i as int + 1) =~= rules.deep_view().take(
                        i as int,
                    ).push(rules.deep_view()[i as int]));
                },
                Err(error) => {
                    let rule = rules[i].clone();
                    assert(is_first_rejected(rules.deep_view(), i as int));
                    assert(rule@ == rules.deep_view()[i as int]);
                    return Err(
                        PatternCompileError { rule: Some(rule), message: glob_error_text(&error) },
                    );
                },
            }
            i += 1;
        }
        assert(rules.deep_view().take(i as int) =~= rules.deep_view());
        match build_glob_set(&globs) {
            Ok(set) => Ok(ExclusionMatcher { rules, set }),
            Err(error) => Err(PatternCompileError { rule: None, message: glob_error_text(&error) }),
        }
    }

    /// Compiles the rules that the ignore lines `raw_lines` and the built-in
    /// rules give, where `dirs` lists the anchored rules that name a
    /// directory.
    pub fn compile(raw_lines: &Vec<String>, dirs: &Vec<String>) -> (r: Result<
        ExclusionMatcher,
        PatternCompileError,
    >)
        ensures
            r is Ok <==> rules_compile(compiled_rules(raw_lines.deep_view(), dirs.deep_view())),
            r matches Ok(m) ==> m@ == compiled_rules(raw_lines.deep_view(), dirs.deep_view()),
            r matches Err(e) ==> (e.rule is None <==> all_parse(
                compiled_rules(raw_lines.deep_view(), dirs.deep_view()),
            )),
            r matches Err(e) ==> (e.rule matches Some(rule) ==> exists|i: int|
                is_first_rejected(compiled_rules(raw_lines.deep_view(), dirs.deep_view()), i)
                    && rule@ == #[trigger] compiled_rules(
                    raw_lines.deep_view(),
                    dirs.deep_view(),
                )[i]),
    {
        ExclusionMatcher::from_rules(exclusion_rules(raw_lines, dirs))
    }

    /// The compiled rule strings, in order.
    pub fn rules(&self) -> (r: &Vec<String>)
        ensures
            r.deep_view() == self@,
    {
        &self.rules
    }

    /// The positions of the rules that match `path`, in ascending order.
    pub fn matching_rules(&self, path: &str) -> (r: Vec<usize>)
        ensures
            forall|i: int| 0 <= i && i + 1 < r@.len() ==> r@[i] < #[trigger] r@[i + 1],
            forall|k: usize| #[trigger]
                r@.contains(k) <==> (k < self@.len() && glob_matches(self@[k as int], path@)),
    {
        proof {
            use_type_invariant(self);
            assert(self@ == glob_set_patterns(self.set));
        }
        glob_set_matches(&self.set, path)
    }

    /// Whether any rule matches `path`.
    pub fn matches(&self, path: &str) -> (r: bool)
        ensures
            r == excluded(self@, path@),
    {
        let matched = self.matching_rules(path);
        let count: usize = self.rules.len();
        proof {
            assert(self@.len() == count);
            if matched@.len() > 0 {
                assert(matched@.contains(matched@[0]));
                assert(glob_matches(self@[matched@[0] as int], path@));
            }
            if excluded(self@, path@) {
                let i = choose|i: int| 0 <= i < self@.len() && glob_matches(#[trigger] self@[i], path@);
                assert(matched@.contains(i as usize));
            }
        }
        matched.len() > 0
    }
}

} // verus!
