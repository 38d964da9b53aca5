//! The lines that the routine logs, word for word.

use crate::digits::{
    all_decimal_digits, decimal_digits, decimal_digits_are_digits, decimal_digits_injective,
    decimal_value, decimal_value_of_digits, hex_digits, is_decimal_digit, push_decimal, push_hex,
};
use crate::object_id::{all_zero, ObjectId};
use crate::transfer::TransferStats;
use vstd::prelude::*;

verus! {

/// How loudly a line is logged.
#[derive(Clone, Copy, Debug, PartialEq, Eq, Structural)]
pub enum Level {
    /// Progress and results.
    Info,
    /// Something failed.
    Error,
}

/// One line for the log.
#[derive(Clone, Debug, PartialEq, Eq)]
pub struct LogLine {
    pub level: Level,
    pub text: String,
}

/// A [`LogLine`] as a value of logic.
pub struct LogLineView {
    pub level: Level,
    pub text: Seq<char>,
}

impl View for LogLine {
    type V = LogLineView;

    open spec fn view(&self) -> LogLineView {
        LogLineView { level: self.level, text: self.text@ }
    }
}

/// A line that may be missing, as a value of logic.
pub open spec fn optional_line(line: Option<LogLine>) -> Option<LogLineView> {
    match line {
        Some(l) => Some(l@),
        None => None,
    }
}

/// A failure of the Git library, as text: the library's error type stays with
/// the caller.
#[derive(Clone, Debug, PartialEq, Eq)]
pub struct Failure {
    /// The error as it is shown to a user.
    pub message: String,
    /// The error with all its fields, as shown to a developer.
    pub detail: String,
}

/// A [`Failure`] as a value of logic.
pub struct FailureView {
    pub message: Seq<char>,
    pub detail: Seq<char>,
}

impl View for Failure {
    type V = FailureView;

    open spec fn view(&self) -> FailureView {
        FailureView { message: self.message@, detail: self.detail@ }
    }
}

/// What a transfer callback answers: a line to log, if any, and whether the
/// transfer goes on.
#[derive(Clone, Debug, PartialEq, Eq)]
pub struct Reply {
    pub line: Option<LogLine>,
    pub proceed: bool,
}

/// The line that opens the routine.
pub open spec fn announcement(remote: Seq<char>) -> LogLineView {
    LogLineView { level: Level::Info, text: "Fetching "@ + remote + " for repo"@ }
}

/// The counts that every summary of a download begins with: objects
/// indexed, objects in the pack, and the number of bytes received.
pub open spec fn summary_counts(stats: TransferStats) -> Seq<char> {
    "Received "@ + decimal_digits(stats.indexed_objects as nat) + "/"@ + decimal_digits(
        stats.total_objects as nat,
    ) + " objects in "@ + decimal_digits(stats.received_bytes as nat)
}

/// The summary of a download that took nothing from the local store.
pub open spec fn plain_summary_text(stats: TransferStats) -> Seq<char> {
    summary_counts(stats) + " bytes\n"@
}

/// The summary of a download that found some objects in the local store:
/// it says how many.
pub open spec fn local_summary_text(stats: TransferStats) -> Seq<char> {
    summary_counts(stats) + " bytes (used "@ + decimal_digits(stats.local_objects as nat)
        + " local objects)\n"@
}

/// The text that sums up a finished download: the one that names the local
/// objects where there were any, the plain one where there were none.
pub open spec fn summary_text(stats: TransferStats) -> Seq<char> {
    if stats.local_objects > 0 {
        local_summary_text(stats)
    } else {
        plain_summary_text(stats)
    }
}

/// The line that sums up a finished download.
pub open spec fn summary(stats: TransferStats) -> LogLineView {
    LogLineView { level: Level::Info, text: summary_text(stats) }
}

/// The text that a transfer in progress is reported with, if any: delta
/// resolution once as many objects have arrived as the pack has, object
/// counts while the numbers differ, and nothing where objects are counted
/// though the pack is said to have none.
pub open spec fn progress_text(stats: TransferStats) -> Option<Seq<char>> {
    if stats.received_objects == stats.total_objects {
        Some(
            "Resolving deltas "@ + decimal_digits(stats.indexed_deltas as nat) + "/"@
                + decimal_digits(stats.total_deltas as nat) + "\n"@,
        )
    } else if stats.total_objects > 0 {
        Some(
            "Received "@ + decimal_digits(stats.received_objects as nat) + "/"@ + decimal_digits(
                stats.total_objects as nat,
            ) + " objects ("@ + decimal_digits(stats.indexed_objects as nat) + ") in "@
                + decimal_digits(stats.received_bytes as nat) + " bytes\n"@,
        )
    } else {
        None
    }
}

/// The text for one reference that a fetch created or moved.
pub open spec fn tip_text(refname: Seq<char>, old: Seq<u8>, new: Seq<u8>) -> Seq<char> {
    if all_zero(old) {
        "[new]     "@ + hex_digits(new) + " "@ + refname + "\n"@
    } else {
        "[updated] "@ + hex_digits(old) + ".."@ + hex_digits(new) + " "@ + refname + "\n"@
    }
}

/// The line for a merge that went through.
pub open spec fn merge_success() -> LogLineView {
    LogLineView { level: Level::Info, text: "test"@ }
}

/// The line for a merge that the Git library refused.
pub open spec fn merge_failure(failure: FailureView) -> LogLineView {
    LogLineView { level: Level::Error, text: failure.detail }
}

/// The line for a failure that ends the routine.
pub open spec fn failure_line(message: Seq<char>) -> LogLineView {
    LogLineView { level: Level::Error, text: "error: "@ + message }
}

/// A run of digits ends where the first other character stands: two texts
/// that are equal, and each a run of digits followed by something that does
/// not begin with a digit, have the same run and the same rest.
proof fn digits_end_at_the_first_other_character(
    a: Seq<char>,
    after_a: Seq<char>,
    b: Seq<char>,
    after_b: Seq<char>,
)
    requires
        all_decimal_digits(a),
        all_decimal_digits(b),
        after_a.len() > 0,
        after_b.len() > 0,
        !is_decimal_digit(after_a[0]),
        !is_decimal_digit(after_b[0]),
        a + after_a == b + after_b,
    ensures
        a == b,
        after_a == after_b,
{
    let whole = a + after_a;
    if a.len() < b.len() {
        assert(whole[a.len() as int] == after_a[0]);
        assert((b + after_b)[a.len() as int] == b[a.len() as int]);
    } else if b.len() < a.len() {
        assert((b + after_b)[b.len() as int] == after_b[0]);
        assert(whole[b.len() as int] == a[b.len() as int]);
    }
    assert(a =~= whole.take(a.len() as int));
    assert(b =~= (b + after_b).take(b.len() as int));
    assert(after_a =~= whole.skip(a.len() as int));
    assert(after_b =~= (b + after_b).skip(b.len() as int));
}

/// What follows the byte count in a summary.
spec fn summary_ending(stats: TransferStats, local: bool) -> Seq<char> {
    if local {
        " bytes (used "@ + (decimal_digits(stats.local_objects as nat) + " local objects)\n"@)
    } else {
        " bytes\n"@
    }
}

/// A summary of either form, read from the left: each count followed by all
/// that comes after it.
spec fn summary_from_the_left(stats: TransferStats, local: bool) -> Seq<char> {
    "Received "@ + (decimal_digits(stats.indexed_objects as nat) + ("/"@ + (decimal_digits(
        stats.total_objects as nat,
    ) + (" objects in "@ + (decimal_digits(stats.received_bytes as nat) + summary_ending(
        stats,
        local,
    ))))))
}

/// Both forms of the summary are the text read from the left.
proof fn summary_is_read_from_the_left(stats: TransferStats)
    ensures
        plain_summary_text(stats) == summary_from_the_left(stats, false),
        local_summary_text(stats) == summary_from_the_left(stats, true),
        summary_text(stats) == summary_from_the_left(stats, stats.local_objects > 0),
{
    assert(plain_summary_text(stats) =~= summary_from_the_left(stats, false));
    assert(local_summary_text(stats) =~= summary_from_the_left(stats, true));
}

/// Two summaries of whatever form that are the same text report the same
/// three counts and end alike.
proof fn summaries_share_counts_and_ending(
    a: TransferStats,
    a_local: bool,
    b: TransferStats,
    b_local: bool,
)
    requires
        summary_from_the_left(a, a_local) == summary_from_the_left(b, b_local),
    ensures
        a.indexed_objects == b.indexed_objects,
        a.total_objects == b.total_objects,
        a.received_bytes == b.received_bytes,
        summary_ending(a, a_local) == summary_ending(b, b_local),
{
    reveal_strlit("Received ");
    reveal_strlit("/");
    reveal_strlit(" objects in ");
    reveal_strlit(" bytes\n");
    reveal_strlit(" bytes (used ");
    decimal_digits_are_digits(a.indexed_objects as nat);
    decimal_digits_are_digits(b.indexed_objects as nat);
    decimal_digits_are_digits(a.total_objects as nat);
    decimal_digits_are_digits(b.total_objects as nat);
    decimal_digits_are_digits(a.received_bytes as nat);
    decimal_digits_are_digits(b.received_bytes as nat);

    let bytes_a = decimal_digits(a.received_bytes as nat);
    let bytes_b = decimal_digits(b.received_bytes as nat);
    let from_bytes_a = bytes_a + summary_ending(a, a_local);
    let from_bytes_b = bytes_b + summary_ending(b, b_local);
    let total_a = decimal_digits(a.total_objects as nat);
    let total_b = decimal_digits(b.total_objects as nat);
    let from_total_a = total_a + (" objects in "@ + from_bytes_a);
    let from_total_b = total_b + (" objects in "@ + from_bytes_b);
    let indexed_a = decimal_digits(a.indexed_objects as nat);
    let indexed_b = decimal_digits(b.indexed_objects as nat);

    assert(indexed_a + ("/"@ + from_total_a) =~= summary_from_the_left(a, a_local).skip(9));
    assert(indexed_b + ("/"@ + from_total_b) =~= summary_from_the_left(b, b_local).skip(9));
    digits_end_at_the_first_other_character(
        indexed_a,
        "/"@ + from_total_a,
        indexed_b,
        "/"@ + from_total_b,
    );
    decimal_digits_injective(a.indexed_objects as nat, b.indexed_objects as nat);

    assert(from_total_a =~= ("/"@ + from_total_a).skip(1));
    assert(from_total_b =~= ("/"@ + from_total_b).skip(1));
    digits_end_at_the_first_other_character(
        total_a,
        " objects in "@ + from_bytes_a,
        total_b,
        " objects in "@ + from_bytes_b,
    );
    decimal_digits_injective(a.total_objects as nat, b.total_objects as nat);

    assert(from_bytes_a =~= (" objects in "@ + from_bytes_a).skip(12));
    assert(from_bytes_b =~= (" objects in "@ + from_bytes_b).skip(12));
    digits_end_at_the_first_other_character(
        bytes_a,
        summary_ending(a, a_local),
        bytes_b,
        summary_ending(b, b_local),
    );
    decimal_digits_injective(a.received_bytes as nat, b.received_bytes as nat);
}

/// The two forms of the summary are told apart by the text alone: no plain
/// summary is also a summary that names local objects.
pub proof fn summary_forms_differ(plain: TransferStats, local: TransferStats)
    ensures
        plain_summary_text(plain) != local_summary_text(local),
{
    reveal_strlit(" bytes\n");
    reveal_strlit(" bytes (used ");
    summary_is_read_from_the_left(plain);
    summary_is_read_from_the_left(local);
    if plain_summary_text(plain) == local_summary_text(local) {
        summaries_share_counts_and_ending(plain, false, local, true);
        assert(summary_ending(plain, false)[6] == '\n');
        assert(summary_ending(local, true)[6] == ' ');
    }
}

/// A summary reports the counters it was made from: two downloads with the
/// same summary have indexed the same number of objects out of the same
/// total, have received the same number of bytes, and have taken the same
/// number of objects from the local store.
pub proof fn summary_reports_the_counts(a: TransferStats, b: TransferStats)
    requires
        summary_text(a) == summary_text(b),
    ensures
        a.indexed_objects == b.indexed_objects,
        a.total_objects == b.total_objects,
        a.received_bytes == b.received_bytes,
        a.local_objects == b.local_objects,
{
    let a_local = a.local_objects > 0;
    let b_local = b.local_objects > 0;
    summary_is_read_from_the_left(a);
    summary_is_read_from_the_left(b);
    summaries_share_counts_and_ending(a, a_local, b, b_local);
    if a_local && !b_local {
        summary_forms_differ(b, a);
    } else if b_local && !a_local {
        summary_forms_differ(a, b);
    } else if a_local {
        reveal_strlit(" bytes (used ");
        reveal_strlit(" local objects)\n");
        decimal_digits_are_digits(a.local_objects as nat);
        decimal_digits_are_digits(b.local_objects as nat);
        let local_a = decimal_digits(a.local_objects as nat);
        let local_b = decimal_digits(b.local_objects as nat);
        assert(local_a + " local objects)\n"@ =~= summary_ending(a, true).skip(13));
        assert(local_b + " local objects)\n"@ =~= summary_ending(b, true).skip(13));
        digits_end_at_the_first_other_character(
            local_a,
            " local objects)\n"@,
            local_b,
            " local objects)\n"@,
        );
        decimal_digits_injective(a.local_objects as nat, b.local_objects as nat);
    }
}

/// The numbers that a summary shows are those of the counters: read back,
/// the indexed and total counts and the bytes are the counters' own, so a
/// summary of counters that do not contradict themselves never shows more
/// objects indexed than the pack has.
pub proof fn summary_shows_the_counters(stats: TransferStats)
    ensures
        decimal_value(decimal_digits(stats.indexed_objects as nat)) == stats.indexed_objects,
        decimal_value(decimal_digits(stats.total_objects as nat)) == stats.total_objects,
        decimal_value(decimal_digits(stats.received_bytes as nat)) == stats.received_bytes,
        decimal_value(decimal_digits(stats.local_objects as nat)) == stats.local_objects,
        stats.consistent() ==> decimal_value(decimal_digits(stats.indexed_objects as nat))
            <= decimal_value(decimal_digits(stats.total_objects as nat)),
{
    decimal_value_of_digits(stats.indexed_objects as nat);
    decimal_value_of_digits(stats.total_objects as nat);
    decimal_value_of_digits(stats.received_bytes as nat);
    decimal_value_of_digits(stats.local_objects as nat);
}

/// Counters in which no partial count exceeds its total are always reported:
/// a transfer in progress is silent only on counters that contradict
/// themselves.
pub proof fn consistent_progress_is_reported(stats: TransferStats)
    requires
        stats.consistent(),
    ensures
        progress_text(stats) is Some,
{
}

/// The line that opens the routine: which remote is fetched.
pub fn announce(remote: &str) -> (line: LogLine)
    ensures
        line@ == announcement(remote@),
{
    let mut text = String::from_str("Fetching ");
    text.append(remote);
    text.append(" for repo");
    LogLine { level: Level::Info, text }
}

/// Sums up a finished download: objects indexed and in the pack, bytes
/// received and, where any object was taken from the local store, how many.
pub fn fetch_summary(stats: &TransferStats) -> (line: LogLine)
    ensures
        line@ == summary(*stats),
{
    let mut text = String::from_str("Received ");
    push_decimal(&mut text, stats.indexed_objects);
    text.append("/");
    push_decimal(&mut text, stats.total_objects);
    text.append(" objects in ");
    push_decimal(&mut text, stats.received_bytes);
    if stats.local_objects > 0 {
        text.append(" bytes (used ");
        push_decimal(&mut text, stats.local_objects);
        text.append(" local objects)\n");
    } else {
        text.append(" bytes\n");
    }
    LogLine { level: Level::Info, text }
}

/// Answers the Git library's report on a transfer in progress. The transfer
/// always goes on.
pub fn transfer_progress(stats: &TransferStats) -> (reply: Reply)
    ensures
        reply.proceed,
        optional_line(reply.line) == match progress_text(*stats) {
            Some(text) => Some(LogLineView { level: Level::Info, text }),
            None => None,
        },
{
    if stats.received_objects == stats.total_objects {
        let mut text = String::from_str("Resolving deltas ");
        push_decimal(&mut text, stats.indexed_deltas);
        text.append("/");
        push_decimal(&mut text, stats.total_deltas);
        text.append("\n");
        Reply { line: Some(LogLine { level: Level::Info, text }), proceed: true }
    } else if stats.total_objects > 0 {
        let mut text = String::from_str("Received ");
        push_decimal(&mut text, stats.received_objects);
        text.append("/");
        push_decimal(&mut text, stats.total_objects);
        text.append(" objects (");
        push_decimal(&mut text, stats.indexed_objects);
        text.append(") in ");
        push_decimal(&mut text, stats.received_bytes);
        text.append(" bytes\n");
        Reply { line: Some(LogLine { level: Level::Info, text }), proceed: true }
    } else {
        Reply { line: None, proceed: true }
    }
}

/// Answers the Git library's report that a reference was created (`old` is
/// the zero id) or moved from `old` to `new`. The fetch always goes on.
pub fn tip_updated(refname: &str, old: &ObjectId, new: &ObjectId) -> (reply: Reply)
    ensures
        reply.proceed,
        optional_line(reply.line) == Some(
            LogLineView { level: Level::Info, text: tip_text(refname@, old@, new@) },
        ),
{
    let mut text;
    if old.is_zero() {
        text = String::from_str("[new]     ");
    } else {
        text = String::from_str("[updated] ");
        push_hex(&mut text, old.bytes.as_slice());
        text.append("..");
    }
    push_hex(&mut text, new.bytes.as_slice());
    text.append(" ");
    text.append(refname);
    text.append("\n");
    Reply { line: Some(LogLine { level: Level::Info, text }), proceed: true }
}

/// The line for the outcome of a merge: a short note where it went through,
/// the Git library's error in full where it did not.
pub fn merge_report(failure: Option<&Failure>) -> (line: LogLine)
    ensures
        line@ == match failure {
            Some(f) => merge_failure(f@),
            None => merge_success(),
        },
{
    match failure {
        Some(f) => LogLine { level: Level::Error, text: f.detail.clone() },
        None => LogLine { level: Level::Info, text: String::from_str("test") },
    }
}

/// The line for a failure that ends the routine: `error: ` and the message.
pub fn report_failure(message: &str) -> (line: LogLine)
    ensures
        line@ == failure_line(message@),
{
    let mut text = String::from_str("error: ");
    text.append(message);
    LogLine { level: Level::Error, text }
}

} // verus!
