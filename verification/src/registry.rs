//! The instance registry: named, reusable output buffers are marked by a
//! variable that lives in the editor, and found again by scanning what the
//! editor reports for each open buffer. Nothing is kept between calls.

use vstd::prelude::*;
use vstd::string::*;

use crate::decimal::{decimal, i64_to_string};
use crate::text::same_text;
use crate::value::RpcValue;

verus! {

/// The name of the buffer variable that holds an instance mark.
pub open spec fn instance_key() -> Seq<char> {
    "page_instance"@
}

/// The name of the buffer variable that holds an instance mark.
pub fn instance_variable() -> (key: &'static str)
    ensures
        key@ == instance_key(),
{
    "page_instance"
}

/// The instance name and the sink path that `value` holds, if it is an array
/// of exactly two strings.
pub open spec fn decoded_mark(value: RpcValue) -> Option<(Seq<char>, Seq<char>)> {
    match value.items() {
        Some(items) => if items.len() == 2 && items[0].text().is_some()
            && items[1].text().is_some() {
            Some((items[0].text().unwrap(), items[1].text().unwrap()))
        } else {
            None
        },
        None => None,
    }
}

/// What the editor says when a variable named `key` does not exist, in the
/// wording of its older versions.
pub open spec fn key_missing_former(key: Seq<char>) -> Seq<char> {
    "1 - Key '"@ + key + "' not found"@
}

/// What the editor says when a variable named `key` does not exist, in the
/// wording of its newer versions.
pub open spec fn key_missing_recent(key: Seq<char>) -> Seq<char> {
    "1 - Key not found: "@ + key
}

/// Whether the description of a failed read says that no variable `key` exists.
pub open spec fn is_key_missing(description: Seq<char>, key: Seq<char>) -> bool {
    description == key_missing_former(key) || description == key_missing_recent(key)
}

/// Whether reading the mark of a buffer failed in a way that the registry
/// does not know: the scan cannot go on.
pub open spec fn is_fatal_read(read: Result<RpcValue, String>) -> bool {
    match read {
        Ok(_) => false,
        Err(description) => !is_key_missing(description@, instance_key()),
    }
}

/// The sink path of the instance `name`, if the buffer whose mark was read as
/// `read` is that instance.
pub open spec fn matching_sink(read: Result<RpcValue, String>, name: Seq<char>) -> Option<
    Seq<char>,
> {
    match read {
        Ok(value) => match decoded_mark(value) {
            Some((found, sink)) => if found == name {
                Some(sink)
            } else {
                None
            },
            None => None,
        },
        Err(_) => None,
    }
}

/// Whether the scan for `name` ends at a buffer whose mark was read as `read`.
pub open spec fn ends_scan(read: Result<RpcValue, String>, name: Seq<char>) -> bool {
    is_fatal_read(read) || matching_sink(read, name).is_some()
}

/// Whether no buffer before `index` ends the scan for `name`.
pub open spec fn none_ends_before(
    reads: Seq<Result<RpcValue, String>>,
    name: Seq<char>,
    index: int,
) -> bool {
    forall|j: int| 0 <= j < index && j < reads.len() ==> !ends_scan(#[trigger] reads[j], name)
}

/// Whether the scan for `name` finds the instance at `index`, with the sink
/// path `sink`: the buffer there carries the name, and the scan got that far.
pub open spec fn found_at(
    reads: Seq<Result<RpcValue, String>>,
    name: Seq<char>,
    index: int,
    sink: Seq<char>,
) -> bool {
    &&& 0 <= index < reads.len()
    &&& none_ends_before(reads, name, index)
    &&& matching_sink(reads[index], name) == Some(sink)
}

/// Whether the scan for `name` fails at `index` on a read that failed with
/// `description`, and got that far.
pub open spec fn fails_at(
    reads: Seq<Result<RpcValue, String>>,
    name: Seq<char>,
    index: int,
    description: Seq<char>,
) -> bool {
    &&& 0 <= index < reads.len()
    &&& none_ends_before(reads, name, index)
    &&& is_fatal_read(reads[index])
    &&& reads[index] matches Err(d) && d@ == description
}

/// Whether the scan for `name` runs through all the buffers and finds nothing.
pub open spec fn none_found(reads: Seq<Result<RpcValue, String>>, name: Seq<char>) -> bool {
    none_ends_before(reads, name, reads.len() as int)
}

/// What one buffer means for the scan.
#[derive(Debug, PartialEq, Eq)]
pub enum ScanStep {
    /// The buffer is not the instance looked for: go on with the next.
    Skip,
    /// The buffer is the instance; its sink path is given.
    Found(String),
    /// The read failed in an unknown way; its description is given.
    Fatal(String),
}

/// How a scan over the open buffers ended.
#[derive(Debug, PartialEq, Eq)]
pub enum FindOutcome {
    /// The buffer at `index` is the first that carries the name.
    Found { index: usize, sink: String },
    /// No buffer carries the name.
    NotFound,
    /// Before any buffer matched, the read at `index` failed in an unknown way.
    Fatal { index: usize, description: String },
}

/// What is to be done to bring a buffer to the front.
#[derive(Clone, Copy, Debug, PartialEq, Eq, Structural)]
pub enum FocusAction {
    /// The buffer is the current one already.
    Nothing,
    /// Make the window at this index the current window: it shows the buffer.
    SwitchWindow(usize),
    /// No window shows the buffer: show it in the current window.
    SwitchBuffer,
}

/// The value that marks a buffer as the instance `inst_name` writing to the
/// sink `inst_pty_path`: an array of the two strings.
pub fn mark_buffer_as_instance(inst_name: &str, inst_pty_path: &str) -> (mark: RpcValue)
    ensures
        decoded_mark(mark) == Some((inst_name@, inst_pty_path@)),
{
    let mut items: Vec<RpcValue> = Vec::new();
    items.push(RpcValue::Text(String::from_str(inst_name)));
    items.push(RpcValue::Text(String::from_str(inst_pty_path)));
    RpcValue::List(items)
}

/// Reads an instance mark: the name and the sink path, if `value` is an array
/// of exactly two strings.
pub fn decode_instance_mark(value: &RpcValue) -> (mark: Option<(String, String)>)
    ensures
        mark.is_some() == decoded_mark(*value).is_some(),
        mark matches Some((name, sink)) ==> decoded_mark(*value) == Some((name@, sink@)),
{
    match value.as_array() {
        Some(items) => {
            if items.len() != 2 {
                return None;
            }
            match (items[0].as_str(), items[1].as_str()) {
                (Some(name), Some(sink)) => Some((String::from_str(name), String::from_str(sink))),
                _ => None,
            }
        },
        None => None,
    }
}

/// Tells whether the description of a failed read says that the variable
/// `key` does not exist, in either wording of the editor.
pub fn is_key_not_found(description: &str, key: &str) -> (missing: bool)
    ensures
        missing == is_key_missing(description@, key@),
{
    let mut former = String::from_str("1 - Key '");
    former.append(key);
    former.append("' not found");
    let mut recent = String::from_str("1 - Key not found: ");
    recent.append(key);
    same_text(description, former.as_str()) || same_text(description, recent.as_str())
}

/// Judges one buffer of the scan for the instance `inst_name` by what reading
/// its mark gave.
///
/// A buffer without a mark, with a mark that is no pair of strings, or with
/// another instance's name is skipped.
pub fn inspect_instance_var(read: &Result<RpcValue, String>, inst_name: &str) -> (step: ScanStep)
    ensures
        match step {
            ScanStep::Skip => !ends_scan(*read, inst_name@),
            ScanStep::Found(sink) => matching_sink(*read, inst_name@) == Some(sink@),
            ScanStep::Fatal(description) => {
                &&& is_fatal_read(*read)
                &&& read matches Err(d) && d@ == description@
            },
        },
{
    match read {
        Ok(value) => match decode_instance_mark(value) {
            Some((found, sink)) => {
                if same_text(found.as_str(), inst_name) {
                    ScanStep::Found(sink)
                } else {
                    ScanStep::Skip
                }
            },
            None => ScanStep::Skip,
        },
        Err(description) => {
            if is_key_not_found(description.as_str(), instance_variable()) {
                ScanStep::Skip
            } else {
                ScanStep::Fatal(description.clone())
            }
        },
    }
}

/// Scans the open buffers for the instance `inst_name`. `reads` holds, for
/// each open buffer in the editor's order, what reading its mark gave.
///
/// The first buffer that ends the scan decides: a match is found there, or the
/// scan fails there.
pub fn find_instance_buffer(reads: &Vec<Result<RpcValue, String>>, inst_name: &str) -> (outcome:
    FindOutcome)
    ensures
        match outcome {
            FindOutcome::Found { index, sink } => found_at(
                reads@,
                inst_name@,
                index as int,
                sink@,
            ),
            FindOutcome::NotFound => none_found(reads@, inst_name@),
            FindOutcome::Fatal { index, description } => fails_at(
                reads@,
                inst_name@,
                index as int,
                description@,
            ),
        },
{
    let mut i: usize = 0;
    while i < reads.len()
        invariant
            i <= reads@.len(),
            none_ends_before(reads@, inst_name@, i as int),
        decreases reads@.len() - i,
    {
        match inspect_instance_var(&reads[i], inst_name) {
            ScanStep::Skip => {},
            ScanStep::Found(sink) => {
                return FindOutcome::Found { index: i, sink };
            },
            ScanStep::Fatal(description) => {
                return FindOutcome::Fatal { index: i, description };
            },
        }
        i += 1;
    }
    FindOutcome::NotFound
}

/// The editor command that closes the buffer numbered `buffer_number` and
/// discards what was not saved in it.
pub open spec fn close_command_text(buffer_number: int) -> Seq<char> {
    "exe 'bd!' . "@ + decimal(buffer_number)
}

/// Builds the command that force-closes an instance's buffer.
pub fn close_instance_buffer(buffer_number: i64) -> (command: String)
    ensures
        command@ == close_command_text(buffer_number as int),
{
    let mut command = String::from_str("exe 'bd!' . ");
    let number = i64_to_string(buffer_number);
    command.append(number.as_str());
    command
}

/// Decides how to bring the buffer `target` to the front. `current` is the
/// current buffer, and `window_buffers` holds the buffer shown in each open
/// window, in the editor's order.
pub fn focus_instance_buffer(current: i64, target: i64, window_buffers: &Vec<i64>) -> (action:
    FocusAction)
    ensures
        current == target ==> action == FocusAction::Nothing,
        current != target ==> match action {
            FocusAction::Nothing => false,
            FocusAction::SwitchWindow(index) => {
                &&& index < window_buffers@.len()
                &&& window_buffers@[index as int] == target
                &&& forall|j: int| 0 <= j < index ==> window_buffers@[j] != target
            },
            FocusAction::SwitchBuffer => forall|j: int|
                0 <= j < window_buffers@.len() ==> window_buffers@[j] != target,
        },
{
    if current == target {
        return FocusAction::Nothing;
    }
    let mut i: usize = 0;
    while i < window_buffers.len()
        invariant
            current != target,
            i <= window_buffers@.len(),
            forall|j: int| 0 <= j < i ==> window_buffers@[j] != target,
        decreases window_buffers@.len() - i,
    {
        if window_buffers[i] == target {
            return FocusAction::SwitchWindow(i);
        }
        i += 1;
    }
    FocusAction::SwitchBuffer
}

/// A scan has one outcome: where it finds the instance it neither fails nor
/// comes back empty, and the place and the sink path are the only ones.
pub proof fn lemma_scan_outcome_is_unique(
    reads: Seq<Result<RpcValue, String>>,
    name: Seq<char>,
    index: int,
    sink: Seq<char>,
)
    requires
        found_at(reads, name, index, sink),
    ensures
        !none_found(reads, name),
        forall|other: int, description: Seq<char>| !fails_at(reads, name, other, description),
        forall|other: int, path: Seq<char>| #[trigger]
            found_at(reads, name, other, path) ==> other == index && path == sink,
{
    assert(ends_scan(reads[index], name));
    assert forall|other: int, description: Seq<char>| !fails_at(
        reads,
        name,
        other,
        description,
    ) by {
        if fails_at(reads, name, other, description) {
            assert(ends_scan(reads[other], name));
        }
    }
    assert forall|other: int, path: Seq<char>| #[trigger]
        found_at(reads, name, other, path) implies other == index && path == sink by {
        assert(ends_scan(reads[other], name));
    }
}

/// Marking, then finding: when the buffer at `index` is given the mark of
/// `(name, sink)` and the scan gets that far, the scan finds the instance
/// there, with that sink path.
pub proof fn lemma_marked_buffer_is_found(
    reads: Seq<Result<RpcValue, String>>,
    index: int,
    mark: RpcValue,
    name: Seq<char>,
    sink: Seq<char>,
)
    requires
        0 <= index < reads.len(),
        decoded_mark(mark) == Some((name, sink)),
        none_ends_before(reads, name, index),
    ensures
        found_at(reads.update(index, Ok(mark)), name, index, sink),
{
    let marked = reads.update(index, Ok(mark));
    assert forall|j: int| 0 <= j < index && j < marked.len() implies !ends_scan(
        #[trigger] marked[j],
        name,
    ) by {
        assert(marked[j] == reads[j]);
    }
}

/// Closing the marked buffer: when the instance was found at `index` and no
/// other buffer ends the scan, the scan finds nothing once that buffer has
/// left the open buffers.
pub proof fn lemma_closed_buffer_is_not_found(
    reads: Seq<Result<RpcValue, String>>,
    index: int,
    name: Seq<char>,
)
    requires
        0 <= index < reads.len(),
        forall|j: int| 0 <= j < reads.len() && j != index ==> !ends_scan(#[trigger] reads[j], name),
    ensures
        none_found(reads.remove(index), name),
{
    let rest = reads.remove(index);
    assert forall|j: int| 0 <= j < rest.len() implies !ends_scan(#[trigger] rest[j], name) by {
        if j < index {
            assert(rest[j] == reads[j]);
        } else {
            assert(rest[j] == reads[j + 1]);
        }
    }
}

/// Buffers without a mark hold no instance: when every read says, in either
/// wording, that the variable does not exist, the scan finds nothing and does
/// not fail.
pub proof fn lemma_unmarked_buffers_hold_nothing(
    reads: Seq<Result<RpcValue, String>>,
    name: Seq<char>,
)
    requires
        forall|j: int|
            0 <= j < reads.len() ==> (#[trigger] reads[j] matches Err(d) && is_key_missing(
                d@,
                instance_key(),
            )),
    ensures
        none_found(reads, name),
{
}

} // verus!
