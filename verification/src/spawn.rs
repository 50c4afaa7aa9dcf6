//! The process spawner: the argument vector of the editor that is spawned,
//! the configuration file it is given, and the names of what is created for
//! it in the scratch directory.

use vstd::prelude::*;
use vstd::string::*;

verus! {

/// `shell_words::ParseError`, the error of the outside tokenizer. It carries
/// nothing; the tokenizer gives it where a quote in the line is not closed.
#[verifier::external_type_specification]
#[verifier::external_body]
pub struct ExParseError(shell_words::ParseError);

/// What `shell_words::split` makes of `line`: the words it splits the line
/// into by the quoting rules of a shell, or `None` where it reports an error.
pub uninterp spec fn shell_words_of(line: Seq<char>) -> Option<Seq<Seq<char>>>;

/// The words of `words`, each as its characters.
pub open spec fn words_view(words: Seq<String>) -> Seq<Seq<char>> {
    Seq::new(words.len(), |i: int| words[i]@)
}

/// Calls `shell_words::split`. Nothing is proved of the call; it is taken to
/// return what [`shell_words_of`] names, which says no more than that the
/// result depends on the line alone.
#[verifier::external_body]
fn split_words(line: &str) -> (words: Result<Vec<String>, shell_words::ParseError>)
    ensures
        match words {
            Ok(found) => shell_words_of(line@) == Some(words_view(found@)),
            Err(_) => shell_words_of(line@).is_none(),
        },
{
    shell_words::split(line)
}

/// Why no argument vector could be built.
#[derive(Clone, Copy, Debug, PartialEq, Eq, Structural)]
pub enum SpawnError {
    /// A quote in the free-form arguments is not closed.
    UnclosedQuote,
}

/// A place where a default configuration file may lie.
#[derive(Debug, PartialEq, Eq)]
pub struct ConfigCandidate {
    /// The path of the file.
    pub path: String,
    /// Whether a file exists there.
    pub exists: bool,
}

/// The arguments that every spawned editor is given, each as one word: the
/// flag that suppresses the intro message with its setting, the flag to
/// listen with the address, and the flag for the configuration file with its
/// path where one is given. Neither the address nor the path is split.
pub open spec fn fixed_arguments(listen_addr: Seq<char>, config: Option<Seq<char>>) -> Seq<
    Seq<char>,
> {
    let head = seq!["--cmd"@, "set shortmess+=I"@, "--listen"@, listen_addr];
    match config {
        Some(path) => head.push("-u"@).push(path),
        None => head,
    }
}

/// The characters of an optional string.
pub open spec fn option_text(text: Option<&str>) -> Option<Seq<char>> {
    match text {
        Some(given) => Some(given@),
        None => None,
    }
}

/// Whether `index` is the first place among `candidates` where a file exists.
pub open spec fn first_existing(candidates: Seq<ConfigCandidate>, index: int) -> bool {
    &&& 0 <= index < candidates.len()
    &&& candidates[index].exists
    &&& forall|j: int| 0 <= j < index ==> !(#[trigger] candidates[j]).exists
}

/// Whether no file exists at any of `candidates`.
pub open spec fn none_exists(candidates: Seq<ConfigCandidate>) -> bool {
    forall|j: int| 0 <= j < candidates.len() ==> !(#[trigger] candidates[j]).exists
}

/// The name of the socket of the session `page_id` in the scratch directory.
pub fn socket_file_name(page_id: &str) -> (name: String)
    ensures
        name@ == "socket-"@ + page_id@,
{
    let mut name = String::from_str("socket-");
    name.append(page_id);
    name
}

/// The name of the directory that guards against a redirection of the
/// output. No shell takes it for a file to write to.
pub fn redirect_protection_name() -> (name: &'static str)
    ensures
        name@ == "DO-NOT-REDIRECT-OUTSIDE-OF-NVIM-TERM(--help[-W])"@,
{
    "DO-NOT-REDIRECT-OUTSIDE-OF-NVIM-TERM(--help[-W])"
}

/// Where the default configuration file lies below the directory that the
/// configuration-home variable names.
pub fn config_home_subpath() -> (subpath: &'static str)
    ensures
        subpath@ == "page/init.vim"@,
{
    "page/init.vim"
}

/// Where the default configuration file lies below the home directory.
pub fn home_subpath() -> (subpath: &'static str)
    ensures
        subpath@ == ".config/page/init.vim"@,
{
    ".config/page/init.vim"
}

/// Picks the default configuration file: the first of `candidates` at which a
/// file exists, and none where no file exists at any.
pub fn default_config_path(candidates: &Vec<ConfigCandidate>) -> (config: Option<String>)
    ensures
        match config {
            Some(path) => exists|index: int| #[trigger]
                first_existing(candidates@, index) && candidates@[index].path@ == path@,
            None => none_exists(candidates@),
        },
{
    let mut i: usize = 0;
    while i < candidates.len()
        invariant
            i <= candidates@.len(),
            forall|j: int| 0 <= j < i ==> !(#[trigger] candidates@[j]).exists,
        decreases candidates@.len() - i,
    {
        if candidates[i].exists {
            assert(first_existing(candidates@, i as int));
            return Some(candidates[i].path.clone());
        }
        i += 1;
    }
    None
}

/// Picks the configuration file of the spawned editor: the one that the user
/// named, else the default one, else none.
pub fn resolve_config(explicit: Option<&str>, candidates: &Vec<ConfigCandidate>) -> (config:
    Option<String>)
    ensures
        match explicit {
            Some(given) => config matches Some(path) && path@ == given@,
            None => match config {
                Some(path) => exists|index: int| #[trigger]
                    first_existing(candidates@, index) && candidates@[index].path@ == path@,
                None => none_exists(candidates@),
            },
        },
{
    match explicit {
        Some(given) => Some(String::from_str(given)),
        None => default_config_path(candidates),
    }
}

/// Builds the argument vector of the spawned editor: the fixed arguments,
/// then the words of the free-form arguments by the quoting rules of a
/// shell. Only the free-form arguments are split.
///
/// The vector is owed whenever every quote in the free-form arguments is
/// closed, and always where none are given.
pub fn spawn_child_nvim_process(
    listen_addr: &str,
    config: Option<&str>,
    arguments: Option<&str>,
) -> (nvim_args: Result<Vec<String>, SpawnError>)
    ensures
        match arguments {
            None => nvim_args matches Ok(words) && words_view(words@) == fixed_arguments(
                listen_addr@,
                option_text(config),
            ),
            Some(custom) => match shell_words_of(custom@) {
                Some(extra) => nvim_args matches Ok(words) && words_view(words@)
                    == fixed_arguments(listen_addr@, option_text(config)) + extra,
                None => nvim_args matches Err(error) && error == SpawnError::UnclosedQuote,
            },
        },
{
    let mut words: Vec<String> = Vec::new();
    words.push(String::from_str("--cmd"));
    words.push(String::from_str("set shortmess+=I"));
    words.push(String::from_str("--listen"));
    words.push(String::from_str(listen_addr));
    if let Some(path) = config {
        words.push(String::from_str("-u"));
        words.push(String::from_str(path));
    }
    assert(words_view(words@) =~= fixed_arguments(listen_addr@, option_text(config)));
    match arguments {
        None => Ok(words),
        Some(custom) => match split_words(custom) {
            Ok(mut extra) => {
                let ghost fixed = words@;
                let ghost split = extra@;
                words.append(&mut extra);
                assert(words_view(words@) =~= words_view(fixed) + words_view(split));
                Ok(words)
            },
            Err(_) => Err(SpawnError::UnclosedQuote),
        },
    }
}

} // verus!
