//! What is read from the editor's variables and from what it reports about
//! the channel of a terminal buffer.

use vstd::prelude::*;
use vstd::string::*;

use crate::registry::{is_key_missing, is_key_not_found};
use crate::text::same_text;
use crate::value::RpcValue;

verus! {

/// The value of a variable, or the default that stands in for it.
#[derive(Debug, PartialEq, Eq)]
pub struct VarOr {
    /// The variable's value as text, or the default.
    pub value: String,
    /// Whether the read failed for another reason than a missing variable;
    /// such a failure is worth a diagnostic.
    pub unexpected: bool,
}

/// Why no sink path was found in what the editor reports about a channel.
#[derive(Clone, Copy, Debug, PartialEq, Eq, Structural)]
pub enum PtyError {
    /// The report is no map.
    NotAMap,
    /// A key of the report, met before the one looked for, is no string.
    KeyNotText,
    /// The report names no pseudo-terminal.
    Missing,
    /// The pseudo-terminal is not given as a string.
    PathNotText,
}

/// The key under which a channel report names the pseudo-terminal.
pub open spec fn pty_key() -> Seq<char> {
    "pty"@
}

/// The sink path that the pairs of a channel report give, read from the pair
/// at `from` on: the value of the first key that is `pty`.
pub open spec fn pty_from(pairs: Seq<(RpcValue, RpcValue)>, from: int) -> Result<
    Seq<char>,
    PtyError,
>
    decreases pairs.len() - from,
{
    if from < 0 || from >= pairs.len() {
        Err(PtyError::Missing)
    } else {
        match pairs[from].0.text() {
            None => Err(PtyError::KeyNotText),
            Some(key) => if key == pty_key() {
                match pairs[from].1.text() {
                    Some(path) => Ok(path),
                    None => Err(PtyError::PathNotText),
                }
            } else {
                pty_from(pairs, from + 1)
            },
        }
    }
}

/// The sink path that a channel report gives.
pub open spec fn pty_of(info: RpcValue) -> Result<Seq<char>, PtyError> {
    match info.pairs() {
        Some(pairs) => pty_from(pairs, 0),
        None => Err(PtyError::NotAMap),
    }
}

/// Gives the value of the variable `key`, where `read` holds what reading it
/// gave: its value as text, or the description of a failure. A failed read
/// gives `default`, and is unexpected unless it says that the variable does
/// not exist.
pub fn get_var_or(read: &Result<String, String>, key: &str, default: &str) -> (found: VarOr)
    ensures
        match *read {
            Ok(value) => found.value@ == value@ && !found.unexpected,
            Err(description) => found.value@ == default@ && found.unexpected == !is_key_missing(
                description@,
                key@,
            ),
        },
{
    match read {
        Ok(value) => VarOr { value: value.clone(), unexpected: false },
        Err(description) => VarOr {
            value: String::from_str(default),
            unexpected: !is_key_not_found(description.as_str(), key),
        },
    }
}

/// Reads the sink path of the current buffer from what the editor reports
/// about its channel: the path of the pseudo-terminal.
pub fn get_current_buffer_pty_path(info: &RpcValue) -> (path: Result<String, PtyError>)
    ensures
        match path {
            Ok(found) => pty_of(*info) == Ok::<Seq<char>, PtyError>(found@),
            Err(error) => pty_of(*info) == Err::<Seq<char>, PtyError>(error),
        },
{
    let pairs = match info.as_map() {
        Some(pairs) => pairs,
        None => {
            return Err(PtyError::NotAMap);
        },
    };
    let mut i: usize = 0;
    while i < pairs.len()
        invariant
            i <= pairs@.len(),
            info.pairs() == Some(pairs@),
            pty_from(pairs@, 0) == pty_from(pairs@, i as int),
        decreases pairs@.len() - i,
    {
        match pairs[i].0.as_str() {
            None => {
                return Err(PtyError::KeyNotText);
            },
            Some(key) => {
                if same_text(key, "pty") {
                    return match pairs[i].1.as_str() {
                        Some(path) => Ok(String::from_str(path)),
                        None => Err(PtyError::PathNotText),
                    };
                }
            },
        }
        i += 1;
    }
    Err(PtyError::Missing)
}

} // verus!
