//! The security gate: the rules that a proposed operation must pass, whatever
//! the operator has approved.
use crate::config::{Config, ConfigManager};
use crate::paths;
use crate::pattern::{
    any_pattern_matches, compile, is_match, pattern_matches, regex_compiles, search,
    regex_matches, regex_source,
};
use crate::text::{
    concat, concat3, contains_text, is_substring, occurs_at, replace, replaced, texts,
};
use vstd::prelude::*;
use vstd::string::*;

verus! {

/// Why the validator turned an operation down.
#[derive(Debug)]
pub enum SecurityError {
    /// The path is absolute and absolute paths are closed.
    AbsolutePath,
    /// The path lies in the configuration directory and that is closed.
    ConfigDirectory,
    /// The extension of the path, with its leading dot, is blocked.
    BlockedExtension(String),
    /// An ignore pattern matches the path.
    IgnoredPath,
    /// The kind of operation is not permitted.
    OperationNotAllowed(String),
}

/// A [`SecurityError`] with its texts as sequences of characters.
pub enum SecurityDenial {
    AbsolutePath,
    ConfigDirectory,
    BlockedExtension(Seq<char>),
    IgnoredPath,
    OperationNotAllowed(Seq<char>),
}

impl View for SecurityError {
    type V = SecurityDenial;

    open spec fn view(&self) -> SecurityDenial {
        match self {
            SecurityError::AbsolutePath => SecurityDenial::AbsolutePath,
            SecurityError::ConfigDirectory => SecurityDenial::ConfigDirectory,
            SecurityError::BlockedExtension(ext) => SecurityDenial::BlockedExtension(ext@),
            SecurityError::IgnoredPath => SecurityDenial::IgnoredPath,
            SecurityError::OperationNotAllowed(kind) => SecurityDenial::OperationNotAllowed(kind@),
        }
    }
}

impl SecurityDenial {
    /// The message shown to the operator.
    pub open spec fn message(self) -> Seq<char> {
        match self {
            SecurityDenial::AbsolutePath => "Absolute paths are not allowed"@,
            SecurityDenial::ConfigDirectory => "Access to configuration directory is not allowed"@,
            SecurityDenial::BlockedExtension(ext) => "File extension "@ + ext + " is blocked"@,
            SecurityDenial::IgnoredPath => "Path matches ignore pattern"@,
            SecurityDenial::OperationNotAllowed(kind) => "Operation "@ + kind + " is not allowed"@,
        }
    }
}

impl SecurityError {
    /// The message shown to the operator.
    pub fn message(&self) -> (text: String)
        ensures
            text@ == self@.message(),
    {
        match self {
            SecurityError::AbsolutePath => String::from_str("Absolute paths are not allowed"),
            SecurityError::ConfigDirectory => String::from_str(
                "Access to configuration directory is not allowed",
            ),
            SecurityError::BlockedExtension(ext) => concat3(
                "File extension ",
                ext.as_str(),
                " is blocked",
            ),
            SecurityError::IgnoredPath => String::from_str("Path matches ignore pattern"),
            SecurityError::OperationNotAllowed(kind) => concat3(
                "Operation ",
                kind.as_str(),
                " is not allowed",
            ),
        }
    }
}

/// The denial that a verdict of the validator carries, if it is one.
pub open spec fn denial_of(verdict: Result<(), SecurityError>) -> Option<SecurityDenial> {
    match verdict {
        Ok(()) => None,
        Err(error) => Some(error@),
    }
}

/// What the platform's path syntax says of a path.
#[derive(Debug)]
pub struct PathFacts {
    /// The path is absolute.
    pub absolute: bool,
    /// The path lies in the configuration directory.
    pub in_config_dir: bool,
    /// The extension of the path, without a dot, if it has one.
    pub extension: Option<String>,
}

/// [`PathFacts`] with the extension as a sequence of characters.
pub struct PathFactsView {
    pub absolute: bool,
    pub in_config_dir: bool,
    pub extension: Option<Seq<char>>,
}

impl View for PathFacts {
    type V = PathFactsView;

    open spec fn view(&self) -> PathFactsView {
        PathFactsView {
            absolute: self.absolute,
            in_config_dir: self.in_config_dir,
            extension: match self.extension {
                Some(ext) => Some(ext@),
                None => None,
            },
        }
    }
}

/// Whether `facts` can be what the platform says of `path`, where the
/// configuration directory is `config_dir`. On every platform a path lies in
/// the directory that it names itself, and an extension is what follows the
/// last dot of a file name: it holds no dot, and it stands in the path right
/// after one. Beyond that the platforms differ.
pub open spec fn befits(facts: PathFactsView, path: Seq<char>, config_dir: Seq<char>) -> bool {
    &&& path == config_dir ==> facts.in_config_dir
    &&& facts.extension matches Some(ext) ==> !ext.contains('.') && is_substring(
        path,
        "."@ + ext,
    )
}

/// A text in which a dot and something after it stand holds a dot.
pub proof fn lemma_dotted_part_shows_a_dot(path: Seq<char>, ext: Seq<char>)
    requires
        is_substring(path, "."@ + ext),
    ensures
        path.contains('.'),
{
    reveal_strlit(".");
    let dotted = "."@ + ext;
    let at = choose|at: int| #[trigger] occurs_at(path, at, dotted);
    assert(path.subrange(at, at + dotted.len())[0] == dotted[0]);
    assert(path[at] == '.');
}

/// The regular expression that an ignore pattern stands for: each `*` of the
/// pattern matches any run of characters.
pub open spec fn glob_regex(pattern: Seq<char>) -> Seq<char> {
    replaced(pattern, "*"@, ".*"@)
}

/// The expressions of those ignore patterns that compile, in the order of the
/// patterns.
pub open spec fn compiled_globs(patterns: Seq<Seq<char>>) -> Seq<Seq<char>>
    decreases patterns.len(),
{
    if patterns.len() == 0 {
        Seq::empty()
    } else {
        let earlier = compiled_globs(patterns.drop_last());
        let regex = glob_regex(patterns.last());
        if regex_compiles(regex) {
            earlier.push(regex)
        } else {
            earlier
        }
    }
}

/// Whether one of the compiled expressions `sources` matches in `path`.
pub open spec fn matched_by(sources: Seq<Seq<char>>, path: Seq<char>) -> bool {
    exists|i: int| 0 <= i < sources.len() && #[trigger] regex_matches(sources[i], path)
}

/// The patterns that a row of compiled expressions was made from.
pub open spec fn sources_of(compiled: Seq<regex::Regex>) -> Seq<Seq<char>> {
    compiled.map_values(|regex: regex::Regex| regex_source(regex))
}

/// The validator itself. It holds the configuration it was made with and the
/// ignore patterns, compiled once, and never changes.
pub struct SecurityValidator {
    config: Config,
    config_manager: ConfigManager,
    ignore_patterns: Vec<regex::Regex>,
}

impl SecurityValidator {
    /// The configuration that the validator enforces.
    pub closed spec fn config(self) -> Config {
        self.config
    }

    /// The configuration directory that the validator protects.
    pub closed spec fn config_dir(self) -> Seq<char> {
        self.config_manager.config_dir()
    }

    /// The compiled ignore patterns, as the expressions they were made from.
    pub closed spec fn ignore_sources(self) -> Seq<Seq<char>> {
        sources_of(self.ignore_patterns@)
    }

    /// Whether an ignore pattern matches `path`.
    pub open spec fn ignores(self, path: Seq<char>) -> bool {
        matched_by(self.ignore_sources(), path)
    }

    /// Whether a whitelist pattern matches `command`.
    pub open spec fn whitelists(self, command: Seq<char>) -> bool {
        any_pattern_matches(texts(self.config().whitelist@), command)
    }

    /// Whether the extension `ext`, given without a dot, is blocked.
    pub open spec fn blocks(self, ext: Seq<char>) -> bool {
        texts(self.config().security.blocked_extensions@).contains("."@ + ext)
    }

    /// The extension with its dot, if the path has an extension and it is
    /// blocked.
    pub open spec fn blocked_extension(self, extension: Option<Seq<char>>) -> Option<Seq<char>> {
        match extension {
            Some(ext) => if self.blocks(ext) {
                Some("."@ + ext)
            } else {
                None
            },
            None => None,
        }
    }

    /// The verdict on `path`, given what the platform says of it: the first
    /// rule that the path breaks, or `None` if it breaks none. The rules are
    /// tried in this order: absolute path, configuration directory, blocked
    /// extension, ignore pattern.
    pub open spec fn path_verdict(self, path: Seq<char>, facts: PathFactsView) -> Option<
        SecurityDenial,
    > {
        if facts.absolute && !self.config().security.allow_absolute_paths {
            Some(SecurityDenial::AbsolutePath)
        } else if !self.config().security.allow_config_path_access && facts.in_config_dir {
            Some(SecurityDenial::ConfigDirectory)
        } else if self.blocked_extension(facts.extension) is Some {
            Some(SecurityDenial::BlockedExtension(self.blocked_extension(facts.extension).unwrap()))
        } else if self.ignores(path) {
            Some(SecurityDenial::IgnoredPath)
        } else {
            None
        }
    }

    /// The verdict on an operation of the kind named `kind`.
    pub open spec fn operation_verdict(self, kind: Seq<char>) -> Option<SecurityDenial> {
        if self.config().security.allowed_operations.permits(kind) {
            None
        } else {
            Some(SecurityDenial::OperationNotAllowed(kind))
        }
    }

    /// A gate for `config`. Each line of `patterns` is an ignore pattern; those
    /// that do not compile are left out.
    pub fn new(config: Config, config_manager: ConfigManager, patterns: &Vec<String>) -> (gate:
        SecurityValidator)
        ensures
            gate.config() == config,
            gate.config_dir() == config_manager.config_dir(),
            gate.ignore_sources() == compiled_globs(texts(patterns@)),
    {
        let mut ignore_patterns: Vec<regex::Regex> = Vec::new();
        let mut i: usize = 0;
        while i < patterns.len()
            invariant
                i <= patterns.len(),
                sources_of(ignore_patterns@) == compiled_globs(texts(patterns@).take(i as int)),
            decreases patterns.len() - i,
        {
            let ghost earlier = texts(patterns@).take(i as int);
            let ghost upto = texts(patterns@).take(i + 1);
            proof {
                assert(upto.drop_last() =~= earlier);
            }
            let source = replace(patterns[i].as_str(), "*", ".*");
            match compile(source.as_str()) {
                Ok(regex) => {
                    ignore_patterns.push(regex);
                },
                Err(_) => {},
            }
            i += 1;
        }
        proof {
            assert(texts(patterns@).take(patterns.len() as int) =~= texts(patterns@));
        }
        SecurityValidator { config, config_manager, ignore_patterns }
    }

    /// Asks the platform what it makes of `path`: whether it is absolute,
    /// whether it lies in the configuration directory, and what its extension
    /// is. The answer differs from platform to platform; what is promised is
    /// what holds on all of them: the configuration directory lies in itself,
    /// and an extension holds no dot and stands in the path right after one.
    pub(crate) fn inspect_path(&self, path: &str) -> (facts: PathFacts)
        ensures
            befits(facts@, path@, self.config_dir()),
    {
        PathFacts {
            absolute: paths::is_absolute(path),
            in_config_dir: paths::starts_with(path, self.config_manager.get_config_dir().as_str()),
            extension: paths::extension(path),
        }
    }

    /// Whether an ignore pattern matches `path`.
    pub fn is_ignored(&self, path: &str) -> (ignored: bool)
        ensures
            ignored == self.ignores(path@),
    {
        let mut i: usize = 0;
        while i < self.ignore_patterns.len()
            invariant
                i <= self.ignore_patterns.len(),
                forall|k: int|
                    0 <= k < i ==> !#[trigger] regex_matches(self.ignore_sources()[k], path@),
            decreases self.ignore_patterns.len() - i,
        {
            if is_match(&self.ignore_patterns[i], path) {
                assert(regex_matches(self.ignore_sources()[i as int], path@));
                return true;
            }
            i += 1;
        }
        false
    }

    /// Judges `path` by what the platform says of it. The result is the first
    /// rule that the path breaks, in the order absolute path, configuration
    /// directory, blocked extension, ignore pattern.
    pub fn check_path(&self, path: &str, facts: &PathFacts) -> (verdict: Result<
        (),
        SecurityError,
    >)
        ensures
            denial_of(verdict) == self.path_verdict(path@, facts@),
    {
        if facts.absolute && !self.config.security.allow_absolute_paths {
            return Err(SecurityError::AbsolutePath);
        }
        if !self.config.security.allow_config_path_access && facts.in_config_dir {
            return Err(SecurityError::ConfigDirectory);
        }
        if let Some(ext) = &facts.extension {
            let dotted = concat(".", ext.as_str());
            if contains_text(&self.config.security.blocked_extensions, dotted.as_str()) {
                return Err(SecurityError::BlockedExtension(dotted));
            }
        }
        if self.is_ignored(path) {
            return Err(SecurityError::IgnoredPath);
        }
        Ok(())
    }

    /// Judges `path`. The verdict is that of [`Self::check_path`] on what the
    /// platform says of the path. Whatever the platform says:
    /// - a path that an ignore pattern matches is refused, and so is the
    ///   configuration directory itself while it is closed;
    /// - a path that is refused for its extension holds that extension, dot
    ///   and all, and the extension is one of the blocked ones;
    /// - a path that no pattern matches passes where absolute paths and the
    ///   configuration directory are open and either no extension is blocked
    ///   or the path holds no dot.
    pub fn validate_path(&self, path: &str) -> (verdict: Result<(), SecurityError>)
        ensures
            exists|facts: PathFactsView|
                befits(facts, path@, self.config_dir()) && denial_of(verdict)
                    == #[trigger] self.path_verdict(path@, facts),
            self.ignores(path@) ==> verdict is Err,
            path@ == self.config_dir() && !self.config().security.allow_config_path_access
                ==> verdict is Err,
            verdict matches Err(SecurityError::BlockedExtension(ext)) ==> is_substring(
                path@,
                ext@,
            ) && texts(self.config().security.blocked_extensions@).contains(ext@),
            !self.ignores(path@) && self.config().security.allow_absolute_paths
                && self.config().security.allow_config_path_access && (
            self.config().security.blocked_extensions@.len() == 0 || !path@.contains('.'))
                ==> verdict is Ok,
    {
        let facts = self.inspect_path(path);
        proof {
            if let Some(ext) = facts@.extension {
                lemma_dotted_part_shows_a_dot(path@, ext);
            }
        }
        self.check_path(path, &facts)
    }

    /// Judges an operation by its kind: it passes exactly where the
    /// configuration permits the kind. A name that is none of the six kinds is
    /// refused.
    pub fn validate_operation(&self, operation: &str) -> (verdict: Result<(), SecurityError>)
        ensures
            denial_of(verdict) == self.operation_verdict(operation@),
    {
        if self.config.security.allowed_operations.allows(operation) {
            Ok(())
        } else {
            Err(SecurityError::OperationNotAllowed(String::from_str(operation)))
        }
    }

    /// Whether `command` is whitelisted: one of the whitelist patterns, read
    /// as a regular expression, matches somewhere in it. A pattern that does
    /// not compile matches nothing.
    pub fn is_whitelisted(&self, command: &str) -> (listed: bool)
        ensures
            listed == self.whitelists(command@),
    {
        let mut i: usize = 0;
        while i < self.config.whitelist.len()
            invariant
                i <= self.config.whitelist.len(),
                forall|k: int|
                    0 <= k < i ==> !#[trigger] pattern_matches(
                        texts(self.config().whitelist@)[k],
                        command@,
                    ),
            decreases self.config.whitelist.len() - i,
        {
            if search(self.config.whitelist[i].as_str(), command) {
                assert(pattern_matches(texts(self.config().whitelist@)[i as int], command@));
                return true;
            }
            i += 1;
        }
        false
    }
}

/// With absolute paths closed, every absolute path is refused for being
/// absolute, and a relative path that breaks no other rule passes.
pub proof fn law_absolute_paths_closed(gate: SecurityValidator, path: Seq<char>, facts: PathFactsView)
    requires
        !gate.config().security.allow_absolute_paths,
    ensures
        facts.absolute ==> gate.path_verdict(path, facts) == Some(SecurityDenial::AbsolutePath),
        !facts.absolute && !(facts.in_config_dir && !gate.config().security.allow_config_path_access)
            && gate.blocked_extension(facts.extension) is None && !gate.ignores(path)
            ==> gate.path_verdict(path, facts) is None,
{
}

/// The four rules are independent: a path passes exactly if it breaks none
/// of them. The order in which they are tried decides only which one is
/// named when several are broken.
pub proof fn law_path_passes_iff_no_rule_is_broken(
    gate: SecurityValidator,
    path: Seq<char>,
    facts: PathFactsView,
)
    ensures
        gate.path_verdict(path, facts) is None <==> {
            &&& !(facts.absolute && !gate.config().security.allow_absolute_paths)
            &&& !(facts.in_config_dir && !gate.config().security.allow_config_path_access)
            &&& gate.blocked_extension(facts.extension) is None
            &&& !gate.ignores(path)
        },
{
}

/// A path with a blocked extension never passes, whatever else holds of it,
/// and where it is refused for its extension the denial names the extension
/// with its dot.
pub proof fn law_blocked_extension(
    gate: SecurityValidator,
    path: Seq<char>,
    facts: PathFactsView,
    ext: Seq<char>,
)
    requires
        facts.extension == Some(ext),
        gate.blocks(ext),
    ensures
        gate.path_verdict(path, facts) is Some,
        !(facts.absolute && !gate.config().security.allow_absolute_paths) && !(facts.in_config_dir
            && !gate.config().security.allow_config_path_access) ==> gate.path_verdict(path, facts)
            == Some(SecurityDenial::BlockedExtension("."@ + ext)),
{
}

/// An ignore pattern bars a path exactly where the pattern, with each `*`
/// read as any run of characters, compiles and matches in the path.
pub proof fn law_ignore_patterns(patterns: Seq<Seq<char>>, path: Seq<char>)
    ensures
        matched_by(compiled_globs(patterns), path) <==> exists|i: int|
            0 <= i < patterns.len() && #[trigger] pattern_matches(glob_regex(patterns[i]), path),
    decreases patterns.len(),
{
    if patterns.len() > 0 {
        let earlier = patterns.drop_last();
        law_ignore_patterns(earlier, path);
        let sources = compiled_globs(patterns);
        let before = compiled_globs(earlier);
        if matched_by(sources, path) {
            let i = choose|i: int| 0 <= i < sources.len() && #[trigger] regex_matches(sources[i], path);
            if i < before.len() {
                // Found among the earlier patterns already.
                assert(matched_by(before, path));
            } else {
                assert(pattern_matches(glob_regex(patterns[patterns.len() - 1]), path));
            }
        }
        if exists|i: int|
            0 <= i < patterns.len() && #[trigger] pattern_matches(glob_regex(patterns[i]), path) {
            let i = choose|i: int|
                0 <= i < patterns.len() && #[trigger] pattern_matches(glob_regex(patterns[i]), path);
            if i < earlier.len() {
                assert(pattern_matches(glob_regex(earlier[i]), path));
                let j = choose|j: int| 0 <= j < before.len() && #[trigger] regex_matches(before[j], path);
                assert(regex_matches(sources[j], path));
            } else {
                assert(regex_matches(sources[sources.len() - 1], path));
            }
        }
    }
}

} // verus!
