//! The commands that are sent to the editor to create and prepare the
//! buffers that show the output, and to tell the user how far the input was
//! read.

use vstd::prelude::*;
use vstd::string::*;

use crate::decimal::{decimal, decimal_digits, i64_to_string, u64_to_string};

verus! {

/// The command that turns the current buffer into a terminal that waits for
/// output.
pub const SUBSTITUTING_BUFFER: &'static str = "term tail -f <<EOF";

/// The command that runs the hooks for a connected output buffer.
pub const CONNECT_AUTOCMD: &'static str = "silent doautocmd User PageConnect";

/// The command that runs the hooks for a disconnected output buffer.
pub const DISCONNECT_AUTOCMD: &'static str = "silent doautocmd User PageDisconnect";

/// The command that puts the terminal of the current buffer into insert mode.
pub const INSERT_MODE: &'static str = "call feedkeys(\"\\<C-\\>\\<C-n>A\", 'n')";

/// The command that moves to the end of the current buffer, where new output
/// appears.
pub const FOLLOW_OUTPUT_MODE: &'static str = "call feedkeys(\"\\<C-\\>\\<C-n>G, 'n'\")";

/// The command that moves to the start of the current buffer.
pub const SCROLL_MODE: &'static str = "call feedkeys(\"\\<C-\\>\\<C-n>ggM, 'n'\")";

/// The command that tells the user that the input has ended.
pub const END_OF_INPUT: &'static str =
    "redraw | echoh Comment | echom '-- [PAGE] end of input --' | echoh None";

/// The command that redraws the display, so that the status line shows a new
/// buffer name.
pub const REDRAW: &'static str = "redraw!";

/// Which split the output buffer is opened in. The first setting that is
/// given decides, in the order of the fields; a proportional split is given
/// by a count above zero.
#[derive(Clone, Copy, Debug, PartialEq, Eq)]
pub struct SplitOptions {
    /// Split to the right, the more often given the narrower.
    pub split_right: u8,
    /// Split to the left, the more often given the narrower.
    pub split_left: u8,
    /// Split below, the more often given the lower.
    pub split_below: u8,
    /// Split above, the more often given the lower.
    pub split_above: u8,
    /// Split to the right with this many columns.
    pub split_right_cols: Option<u8>,
    /// Split to the left with this many columns.
    pub split_left_cols: Option<u8>,
    /// Split below with this many rows.
    pub split_below_rows: Option<u8>,
    /// Split above with this many rows.
    pub split_above_rows: Option<u8>,
}

/// The command of a split that takes a share of the current window: three
/// halves of its extent, divided by `divisor`.
pub open spec fn proportional_split_text(
    side: Seq<char>,
    extent: Seq<char>,
    divisor: nat,
    split: Seq<char>,
    fixed: Seq<char>,
) -> Seq<char> {
    "exe '"@ + side + " ' . (("@ + extent + "(0)/2) * 3 / "@ + decimal_digits(divisor) + ") . '"@
        + split + " term://tail -f <<EOF' | set "@ + fixed
}

/// The command of a split of `size` columns or rows.
pub open spec fn sized_split_text(
    side: Seq<char>,
    size: nat,
    split: Seq<char>,
    fixed: Seq<char>,
) -> Seq<char> {
    side + " "@ + decimal_digits(size) + split + " term://tail -f <<EOF | set "@ + fixed
}

/// The command that opens the split which `opt` asks for; the empty command
/// where it asks for none.
pub open spec fn split_command_text(opt: SplitOptions) -> Seq<char> {
    if opt.split_right > 0 {
        proportional_split_text(
            "belowright"@,
            "winwidth"@,
            (opt.split_right + 1) as nat,
            "vsplit"@,
            "winfixwidth"@,
        )
    } else if opt.split_left > 0 {
        proportional_split_text(
            "aboveleft"@,
            "winwidth"@,
            (opt.split_left + 1) as nat,
            "vsplit"@,
            "winfixwidth"@,
        )
    } else if opt.split_below > 0 {
        proportional_split_text(
            "belowright"@,
            "winheight"@,
            (opt.split_below + 1) as nat,
            "split"@,
            "winfixheight"@,
        )
    } else if opt.split_above > 0 {
        proportional_split_text(
            "aboveleft"@,
            "winheight"@,
            (opt.split_above + 1) as nat,
            "split"@,
            "winfixheight"@,
        )
    } else if let Some(columns) = opt.split_right_cols {
        sized_split_text("belowright"@, columns as nat, "vsplit"@, "winfixwidth"@)
    } else if let Some(columns) = opt.split_left_cols {
        sized_split_text("aboveleft"@, columns as nat, "vsplit"@, "winfixwidth"@)
    } else if let Some(rows) = opt.split_below_rows {
        sized_split_text("belowright"@, rows as nat, "split"@, "winfixheight"@)
    } else if let Some(rows) = opt.split_above_rows {
        sized_split_text("aboveleft"@, rows as nat, "split"@, "winfixheight"@)
    } else {
        Seq::empty()
    }
}

/// Builds the command of a split that takes a share of the current window.
fn proportional_split(side: &str, extent: &str, divisor: u64, split: &str, fixed: &str) -> (command:
    String)
    ensures
        command@ == proportional_split_text(side@, extent@, divisor as nat, split@, fixed@),
{
    let number = u64_to_string(divisor);
    let mut command = String::from_str("exe '");
    command.append(side);
    command.append(" ' . ((");
    command.append(extent);
    command.append("(0)/2) * 3 / ");
    command.append(number.as_str());
    command.append(") . '");
    command.append(split);
    command.append(" term://tail -f <<EOF' | set ");
    command.append(fixed);
    command
}

/// Builds the command of a split of `size` columns or rows.
fn sized_split(side: &str, size: u64, split: &str, fixed: &str) -> (command: String)
    ensures
        command@ == sized_split_text(side@, size as nat, split@, fixed@),
{
    let number = u64_to_string(size);
    let mut command = String::from_str(side);
    command.append(" ");
    command.append(number.as_str());
    command.append(split);
    command.append(" term://tail -f <<EOF | set ");
    command.append(fixed);
    command
}

/// Builds the command that opens a terminal in the current window, in place
/// of the buffer shown there.
pub fn create_substituting_output_buffer() -> (command: &'static str)
    ensures
        command@ == SUBSTITUTING_BUFFER@,
{
    SUBSTITUTING_BUFFER
}

/// Builds the command that opens a terminal in the split which `opt` asks
/// for.
pub fn create_split_output_buffer(opt: &SplitOptions) -> (command: String)
    ensures
        command@ == split_command_text(*opt),
{
    if opt.split_right > 0u8 {
        proportional_split(
            "belowright",
            "winwidth",
            opt.split_right as u64 + 1,
            "vsplit",
            "winfixwidth",
        )
    } else if opt.split_left > 0u8 {
        proportional_split(
            "aboveleft",
            "winwidth",
            opt.split_left as u64 + 1,
            "vsplit",
            "winfixwidth",
        )
    } else if opt.split_below > 0u8 {
        proportional_split(
            "belowright",
            "winheight",
            opt.split_below as u64 + 1,
            "split",
            "winfixheight",
        )
    } else if opt.split_above > 0u8 {
        proportional_split(
            "aboveleft",
            "winheight",
            opt.split_above as u64 + 1,
            "split",
            "winfixheight",
        )
    } else if let Some(columns) = opt.split_right_cols {
        sized_split("belowright", columns as u64, "vsplit", "winfixwidth")
    } else if let Some(columns) = opt.split_left_cols {
        sized_split("aboveleft", columns as u64, "vsplit", "winfixwidth")
    } else if let Some(rows) = opt.split_below_rows {
        sized_split("belowright", rows as u64, "split", "winfixheight")
    } else if let Some(rows) = opt.split_above_rows {
        sized_split("aboveleft", rows as u64, "split", "winfixheight")
    } else {
        String::new()
    }
}

/// The text `text` as it stands inside a string literal of the editor's
/// language: every single quote is written twice.
pub open spec fn doubled_quotes(text: Seq<char>) -> Seq<char>
    decreases text.len(),
{
    if text.len() == 0 {
        Seq::empty()
    } else if text.last() == '\'' {
        doubled_quotes(text.drop_last()).push('\'').push('\'')
    } else {
        doubled_quotes(text.drop_last()).push(text.last())
    }
}

/// The part of the preparing command that runs the user's command; empty
/// where the user gave none.
pub open spec fn user_command_text(cmd_user: Seq<char>) -> Seq<char> {
    if cmd_user.len() == 0 {
        Seq::empty()
    } else {
        "| exe '"@ + doubled_quotes(cmd_user) + "'"@
    }
}

/// The command that prepares the current buffer for showing output.
pub open spec fn prepare_command_text(
    ft: Seq<char>,
    cmd_user: Seq<char>,
    cmd_pre: Seq<char>,
    cmd_post: Seq<char>,
    initial_buf_nr: int,
) -> Seq<char> {
    " | let b:page_alternate_bufnr="@ + decimal(initial_buf_nr)
        + " | let b:page_scrolloff_backup=&scrolloff | setl scrollback=100000 scrolloff=999 signcolumn=no nonumber nomodifiable "@
        + ft
        + " | exe 'autocmd BufEnter <buffer> set scrolloff=999' | exe 'autocmd BufLeave <buffer> let &scrolloff=b:page_scrolloff_backup' "@
        + cmd_pre + " | exe 'silent doautocmd User PageOpen' | redraw "@ + user_command_text(
        cmd_user,
    ) + " "@ + cmd_post + " "@
}

/// The part of the preparing command that lets the user ask for more lines
/// and reports the closing of the buffer, both under the session `page_id`.
pub open spec fn query_options_text(page_id: Seq<char>) -> Seq<char> {
    " | exe 'command! -nargs=? Page call rpcnotify(0, ''page_fetch_lines'', ''"@ + page_id
        + "'', <args>)' | exe 'autocmd BufEnter <buffer> command! -nargs=? Page call rpcnotify(0, ''page_fetch_lines'', ''"@
        + page_id
        + "'', <args>)' | exe 'autocmd BufDelete <buffer> call rpcnotify(0, ''page_buffer_closed'', ''"@
        + page_id + "'')' "@
}

/// The part of the preparing command that makes `pwd` the working directory
/// of the buffer.
pub open spec fn pwd_options_text(pwd: Seq<char>) -> Seq<char> {
    " | let b:page_lcd_backup = getcwd() | lcd "@ + pwd + " | exe 'autocmd BufEnter <buffer> lcd "@
        + pwd + "' | exe 'autocmd BufLeave <buffer> lcd ' .. b:page_lcd_backup "@
}

/// What goes before the opening hooks in the command that prepares an output
/// buffer.
pub open spec fn output_options_text(
    page_id: Seq<char>,
    pwd: Option<Seq<char>>,
    query_lines: u64,
) -> Seq<char> {
    let query = if query_lines > 0 {
        query_options_text(page_id)
    } else {
        Seq::empty()
    };
    match pwd {
        Some(directory) => query + pwd_options_text(directory),
        None => query,
    }
}

/// The command that tells the user how many lines were read so far.
pub open spec fn query_finished_text(lines_read: u64) -> Seq<char> {
    "redraw | echoh Comment | echom '-- [PAGE] "@ + decimal_digits(lines_read as nat)
        + " lines read; has more --' | echoh None"@
}

/// Writes every single quote of `text` twice.
pub fn double_quotes(text: &str) -> (doubled: String)
    ensures
        doubled@ == doubled_quotes(text@),
{
    let length = text.unicode_len();
    let mut doubled = String::new();
    let mut i: usize = 0;
    while i < length
        invariant
            length == text@.len(),
            i <= length,
            doubled@ == doubled_quotes(text@.subrange(0, i as int)),
        decreases length - i,
    {
        proof {
            let upto = text@.subrange(0, i + 1);
            assert(upto.drop_last() =~= text@.subrange(0, i as int));
            assert(upto.last() == text@[i as int]);
            reveal_strlit("''");
        }
        if text.get_char(i) == '\'' {
            doubled.append("''");
            assert(doubled@ =~= doubled_quotes(text@.subrange(0, i + 1)));
        } else {
            doubled.append(text.substring_char(i, i + 1));
            assert(doubled@ =~= doubled_quotes(text@.subrange(0, i + 1)));
        }
        i += 1;
    }
    assert(text@.subrange(0, length as int) =~= text@);
    doubled
}

/// Builds the command that prepares the current buffer: it remembers the
/// buffer shown before, sets the options of a pager, and runs the opening
/// hooks and the user's command.
pub fn prepare_current_buffer(
    ft: &str,
    cmd_user: &str,
    cmd_pre: &str,
    cmd_post: &str,
    initial_buf_nr: i64,
) -> (options: String)
    ensures
        options@ == prepare_command_text(
            ft@,
            cmd_user@,
            cmd_pre@,
            cmd_post@,
            initial_buf_nr as int,
        ),
{
    let number = i64_to_string(initial_buf_nr);
    let mut options = String::from_str(" | let b:page_alternate_bufnr=");
    options.append(number.as_str());
    options.append(
        " | let b:page_scrolloff_backup=&scrolloff | setl scrollback=100000 scrolloff=999 signcolumn=no nonumber nomodifiable ",
    );
    options.append(ft);
    options.append(
        " | exe 'autocmd BufEnter <buffer> set scrolloff=999' | exe 'autocmd BufLeave <buffer> let &scrolloff=b:page_scrolloff_backup' ",
    );
    options.append(cmd_pre);
    options.append(" | exe 'silent doautocmd User PageOpen' | redraw ");
    let ghost before_user = options@;
    if cmd_user.unicode_len() != 0 {
        let escaped = double_quotes(cmd_user);
        options.append("| exe '");
        options.append(escaped.as_str());
        options.append("'");
        assert(options@ =~= before_user + user_command_text(cmd_user@));
    } else {
        assert(options@ =~= before_user + user_command_text(cmd_user@));
    }
    options.append(" ");
    options.append(cmd_post);
    options.append(" ");
    options
}

/// Builds the command that prepares a buffer which shows a file.
pub fn prepare_file_buffer(cmd_user: &str, initial_buf_nr: i64) -> (options: String)
    ensures
        options@ == prepare_command_text(
            Seq::empty(),
            cmd_user@,
            Seq::empty(),
            "| exe 'silent doautocmd User PageOpenFile'"@,
            initial_buf_nr as int,
        ),
{
    proof {
        reveal_strlit("");
    }
    assert(""@ =~= Seq::<char>::empty());
    prepare_current_buffer(
        "",
        cmd_user,
        "",
        "| exe 'silent doautocmd User PageOpenFile'",
        initial_buf_nr,
    )
}

/// Builds the command that prepares a buffer which shows output. `pwd` is
/// the working directory to be taken over, where that is wanted; with
/// `query_lines` above zero the buffer can ask for more lines.
pub fn prepare_output_buffer(
    page_id: &str,
    ft: &str,
    cmd_user: &str,
    pwd: Option<&str>,
    query_lines: u64,
    initial_buf_nr: i64,
) -> (options: String)
    ensures
        options@ == prepare_command_text(
            "filetype="@ + ft@,
            cmd_user@,
            output_options_text(
                page_id@,
                match pwd {
                    Some(directory) => Some(directory@),
                    None => None,
                },
                query_lines,
            ),
            Seq::empty(),
            initial_buf_nr as int,
        ),
{
    let mut filetype = String::from_str("filetype=");
    filetype.append(ft);
    let mut cmd_pre = String::new();
    if query_lines > 0u64 {
        cmd_pre.append(
            " | exe 'command! -nargs=? Page call rpcnotify(0, ''page_fetch_lines'', ''",
        );
        cmd_pre.append(page_id);
        cmd_pre.append(
            "'', <args>)' | exe 'autocmd BufEnter <buffer> command! -nargs=? Page call rpcnotify(0, ''page_fetch_lines'', ''",
        );
        cmd_pre.append(page_id);
        cmd_pre.append(
            "'', <args>)' | exe 'autocmd BufDelete <buffer> call rpcnotify(0, ''page_buffer_closed'', ''",
        );
        cmd_pre.append(page_id);
        cmd_pre.append("'')' ");
        assert(cmd_pre@ =~= query_options_text(page_id@));
    }
    if let Some(directory) = pwd {
        let ghost query = cmd_pre@;
        cmd_pre.append(" | let b:page_lcd_backup = getcwd() | lcd ");
        cmd_pre.append(directory);
        cmd_pre.append(" | exe 'autocmd BufEnter <buffer> lcd ");
        cmd_pre.append(directory);
        cmd_pre.append("' | exe 'autocmd BufLeave <buffer> lcd ' .. b:page_lcd_backup ");
        assert(cmd_pre@ =~= query + pwd_options_text(directory@));
    }
    proof {
        reveal_strlit("");
    }
    assert(""@ =~= Seq::<char>::empty());
    prepare_current_buffer(filetype.as_str(), cmd_user, cmd_pre.as_str(), "", initial_buf_nr)
}

/// Builds the command that tells the user how many lines were read so far.
pub fn notify_query_finished(lines_read: u64) -> (command: String)
    ensures
        command@ == query_finished_text(lines_read),
{
    let number = u64_to_string(lines_read);
    let mut command = String::from_str("redraw | echoh Comment | echom '-- [PAGE] ");
    command.append(number.as_str());
    command.append(" lines read; has more --' | echoh None");
    command
}

/// Builds the command that tells the user that the input has ended.
pub fn notify_end_of_input() -> (command: &'static str)
    ensures
        command@ == END_OF_INPUT@,
{
    END_OF_INPUT
}

/// Builds the command that opens the file at `canonical_path` for editing.
pub fn open_file_buffer(canonical_path: &str) -> (command: String)
    ensures
        command@ == "e "@ + canonical_path@,
{
    let mut command = String::from_str("e ");
    command.append(canonical_path);
    command
}

} // verus!
