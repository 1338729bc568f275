use crate::commands::Context;
use crate::container::{Status, lemma_status_text_injective};
use crate::models::state::{State, bundle_of};
use crate::utils::{decimal, decimal_string};
use std::io::Write;
use vstd::prelude::*;

verus! {

/// The `list` command.
pub struct Command {
    ctx: Context,
}

impl Command {
    /// The context whose containers are listed.
    pub closed spec fn context_view(&self) -> Context {
        self.ctx
    }

    /// The command that lists the containers of `ctx`.
    pub fn new(ctx: Context) -> (cmd: Command)
        ensures
            cmd.context_view() == ctx,
    {
        Command { ctx }
    }

    /// Returns the context whose containers are listed.
    pub fn context(&self) -> (ctx: &Context)
        ensures
            *ctx == self.context_view(),
    {
        &self.ctx
    }
}

/// The first line of the listing.
pub open spec fn header_text() -> Seq<char> {
    "ID\tPID\tSTATUS\tBUNDLE\tCREATED\n"@
}

/// The line of the listing for a container with recorded `state` and
/// current `status`: id, pid, status, bundle and creation time, separated by
/// tabs.
pub open spec fn row_text(state: State, status: Status) -> Seq<char> {
    state.id@ + "\t"@ + decimal(state.init_process_pid as nat) + "\t"@ + status.text() + "\t"@
        + bundle_of(state.config.labels.deep_view()) + "\t"@ + state.created@ + "\n"@
}

/// The lines of the listing for `entries`, in their order.
pub open spec fn rows_text(entries: Seq<(State, Status)>) -> Seq<char>
    decreases entries.len(),
{
    if entries.len() == 0 {
        Seq::empty()
    } else {
        rows_text(entries.drop_last()) + row_text(entries.last().0, entries.last().1)
    }
}

/// The listing before its columns are aligned: the header, then one line
/// per entry.
pub open spec fn table_text(entries: Seq<(State, Status)>) -> Seq<char> {
    header_text() + rows_text(entries)
}

/// Adding an entry to the listing adds exactly that entry's own line at its
/// end, with the entry's own state and status, and leaves the lines before it
/// as they were.
pub proof fn lemma_table_push(entries: Seq<(State, Status)>, entry: (State, Status))
    ensures
        table_text(entries.push(entry)) == table_text(entries) + row_text(entry.0, entry.1),
        table_text(entries.push(entry)).subrange(0, table_text(entries).len() as int)
            == table_text(entries),
{
    assert(entries.push(entry).drop_last() =~= entries);
    assert(entries.push(entry).last() == entry);
    let t = table_text(entries.push(entry));
    assert(t.subrange(0, table_text(entries).len() as int) =~= table_text(entries));
}

/// The line of a container shows its status: lines of the same recorded
/// state under different statuses differ, and the status name stands right
/// after the id and the pid, each followed by a tab.
pub proof fn lemma_row_shows_status(state: State, a: Status, b: Status)
    ensures
        row_text(state, a) == row_text(state, b) ==> a == b,
        ({
            let before = state.id@ + "\t"@ + decimal(state.init_process_pid as nat) + "\t"@;
            row_text(state, a).subrange(before.len() as int, (before.len() + a.text().len()) as int)
                == a.text()
        }),
{
    let before = state.id@ + "\t"@ + decimal(state.init_process_pid as nat) + "\t"@;
    let after = "\t"@ + bundle_of(state.config.labels.deep_view()) + "\t"@ + state.created@
        + "\n"@;
    assert(row_text(state, a) =~= before + a.text() + after);
    assert(row_text(state, b) =~= before + b.text() + after);
    assert((before + a.text() + after).subrange(before.len() as int, (before.len() + a.text().len()) as int)
        =~= a.text());
    if row_text(state, a) == row_text(state, b) {
        reveal_strlit("loaded");
        reveal_strlit("created");
        reveal_strlit("running");
        reveal_strlit("stopped");
        assert(a.text().len() == b.text().len());
        assert((before + b.text() + after).subrange(
            before.len() as int,
            (before.len() + b.text().len()) as int,
        ) =~= b.text());
        lemma_status_text_injective(a, b);
    }
}

/// What `tabwriter::TabWriter`, with its default settings, writes out for
/// `text` once it is flushed.
pub uninterp spec fn tab_aligned(text: Seq<char>) -> Seq<char>;

/// Aligns the tab-separated columns of `text` with `tabwriter::TabWriter`
/// (default settings, writing into memory). The contract states only that
/// the result is what that writer gives for `text`; how it pads the columns
/// is left to its source.
#[verifier::external_body]
fn align_columns(text: &str) -> (aligned: String)
    ensures
        aligned@ == tab_aligned(text@),
{
    let mut tw = tabwriter::TabWriter::new(Vec::new());
    tw.write_all(text.as_bytes()).unwrap();
    tw.flush().unwrap();
    String::from_utf8(tw.into_inner().unwrap()).unwrap()
}

/// The line of the listing for one container.
pub fn row(state: &State, status: Status) -> (line: String)
    ensures
        line@ == row_text(*state, status),
{
    let (_, bundle) = state.annotations();
    let mut line = state.id.clone();
    line.append("\t");
    line.append(decimal_string(state.init_process_pid).as_str());
    line.append("\t");
    line.append(status.to_string().as_str());
    line.append("\t");
    line.append(bundle.as_str());
    line.append("\t");
    line.append(state.created.as_str());
    line.append("\n");
    line
}

/// The listing before its columns are aligned.
pub fn table(entries: &Vec<(State, Status)>) -> (text: String)
    ensures
        text@ == table_text(entries@),
{
    let mut text = "ID\tPID\tSTATUS\tBUNDLE\tCREATED\n".to_owned();
    let n = entries.len();
    for i in 0..n
        invariant
            n == entries.len(),
            text@ == header_text() + rows_text(entries@.take(i as int)),
    {
        let line = row(&entries[i].0, entries[i].1);
        text.append(line.as_str());
        assert(entries@.take(i + 1).drop_last() =~= entries@.take(i as int));
        assert(header_text() + rows_text(entries@.take(i + 1)) =~= header_text() + rows_text(
            entries@.take(i as int),
        ) + row_text(entries@[i as int].0, entries@[i as int].1));
    }
    assert(entries@.take(n as int) =~= entries@);
    text
}

/// The listing of `entries` as the `list` command prints it, its columns
/// aligned.
pub fn render(entries: &Vec<(State, Status)>) -> (out: String)
    ensures
        out@ == tab_aligned(table_text(entries@)),
{
    let text = table(entries);
    align_columns(text.as_str())
}

} // verus!
