//! What the engine is answered once a callback has run, and what is reported when it did not
//! come back.

use crate::callbacks::{
    consistent, decoded_row, delivered_row, noticed, placed, row_noticed, CellFailure, PartitionRef,
    RoutedRow,
};
use crate::text::{decimal, push_decimal, text_of};
use vstd::prelude::*;
use vstd::string::StringExecFns;

verus! {

/// What a callback that panicked carried out.
#[derive(Debug, PartialEq, Eq)]
pub enum PanicPayload {
    /// A formatted message.
    Text(String),
    /// A literal message.
    Literal(&'static str),
    /// Anything else.
    Opaque,
}

/// The message of a panic.
pub open spec fn panic_message(payload: PanicPayload) -> Seq<char> {
    match payload {
        PanicPayload::Text(text) => text@,
        PanicPayload::Literal(text) => text@,
        PanicPayload::Opaque => "unknown panic"@,
    }
}

/// The report on a callback that panicked, named by `context`.
pub open spec fn panic_report(context: Seq<char>, payload: PanicPayload) -> Seq<char> {
    "ladybug routing callback panicked in "@ + context + ": "@ + panic_message(payload)
        + "; aborting"@
}

/// The report on a routed cell that could not be decoded.
pub open spec fn cell_report(failure: CellFailure) -> Seq<char> {
    "ladybug routing: cannot decode routed cell "@ + decimal(failure.index as nat) + ": "@
        + failure.reason@ + "; aborting"@
}

/// The engine's answer to a placement question: `claimed` is 1 for a remote partition and 0 for
/// a local one, and a remote partition comes with its handle.
#[derive(Debug, Clone, Copy, PartialEq, Eq, Structural)]
pub struct LocateAnswer {
    pub claimed: u8,
    pub handle: Option<u64>,
}

/// The answer that hands `placement` to the engine.
pub open spec fn locate_answer(placement: Option<u64>) -> LocateAnswer {
    match placement {
        Some(handle) => LocateAnswer { claimed: 1, handle: Some(handle) },
        None => LocateAnswer { claimed: 0, handle: None },
    }
}

/// What is printed once a callback named by `context` has run: nothing if it came back.
pub open spec fn callback_report(context: Seq<char>, result: Result<(), PanicPayload>) -> Option<
    Seq<char>,
> {
    match result {
        Ok(_) => None,
        Err(payload) => Some(panic_report(context, payload)),
    }
}

/// What is printed once a routed row has been handled: nothing if it was delivered.
pub open spec fn row_report(result: Result<Result<(), CellFailure>, PanicPayload>) -> Option<
    Seq<char>,
> {
    match result {
        Ok(Ok(_)) => None,
        Ok(Err(failure)) => Some(cell_report(failure)),
        Err(payload) => Some(panic_report("insert_row"@, payload)),
    }
}

/// What a placement question ends with: the engine's answer, or the report on a panic.
pub open spec fn located(result: Result<Option<u64>, PanicPayload>) -> Result<
    LocateAnswer,
    Seq<char>,
> {
    match result {
        Ok(placement) => Ok(locate_answer(placement)),
        Err(payload) => Err(panic_report("locate"@, payload)),
    }
}

/// The report on a callback that panicked.
fn report_panic(context: &str, payload: PanicPayload) -> (res: String)
    ensures
        res@ == panic_report(context@, payload),
{
    let mut report = "ladybug routing callback panicked in ".to_owned();
    report.append(context);
    report.append(": ");
    match payload {
        PanicPayload::Text(text) => report.append(text.as_str()),
        PanicPayload::Literal(text) => report.append(text),
        PanicPayload::Opaque => report.append("unknown panic"),
    }
    report.append("; aborting");
    report
}

/// Decides whether the process may go on after a callback: `None` if the callback returned, and
/// otherwise the report to print before aborting.
pub fn abort_on_panic(context: &str, result: Result<(), PanicPayload>) -> (res: Option<String>)
    ensures
        text_of(res) == callback_report(context@, result),
        match result {
            Ok(_) => res is None,
            Err(payload) => res matches Some(report) && report@ == panic_report(context@, payload),
        },
{
    match result {
        Ok(_) => None,
        Err(payload) => Some(report_panic(context, payload)),
    }
}

/// Answers a placement question from what `locate` came back with. A panic yields the report to
/// print before aborting, so that no answer flows back to the engine.
pub fn locate_cb(result: Result<Option<u64>, PanicPayload>) -> (res: Result<LocateAnswer, String>)
    ensures
        match res {
            Ok(answer) => located(result) == Ok::<LocateAnswer, Seq<char>>(answer),
            Err(report) => located(result) == Err::<LocateAnswer, Seq<char>>(report@),
        },
        match result {
            Ok(placement) => res == Ok::<LocateAnswer, String>(locate_answer(placement)),
            Err(payload) => res matches Err(report) && report@ == panic_report("locate"@, payload),
        },
{
    match result {
        Ok(Some(handle)) => Ok(LocateAnswer { claimed: 1, handle: Some(handle) }),
        Ok(None) => Ok(LocateAnswer { claimed: 0, handle: None }),
        Err(payload) => Err(report_panic("locate", payload)),
    }
}

/// Settles a creation notice: the report to print before aborting, if the callback panicked.
pub fn create_cb(result: Result<(), PanicPayload>) -> (res: Option<String>)
    ensures
        text_of(res) == callback_report("on_partition_create"@, result),
        match result {
            Ok(_) => res is None,
            Err(payload) => res matches Some(report) && report@ == panic_report(
                "on_partition_create"@,
                payload,
            ),
        },
{
    abort_on_panic("on_partition_create", result)
}

/// Settles a drop notice: the report to print before aborting, if the callback panicked.
pub fn drop_cb(result: Result<(), PanicPayload>) -> (res: Option<String>)
    ensures
        text_of(res) == callback_report("on_partition_drop"@, result),
        match result {
            Ok(_) => res is None,
            Err(payload) => res matches Some(report) && report@ == panic_report(
                "on_partition_drop"@,
                payload,
            ),
        },
{
    abort_on_panic("on_partition_drop", result)
}

/// Settles a routed row: the report to print before aborting, if a cell could not be decoded or
/// the callback panicked.
pub fn insert_row_cb(result: Result<Result<(), CellFailure>, PanicPayload>) -> (res: Option<String>)
    ensures
        text_of(res) == row_report(result),
        match result {
            Ok(Ok(_)) => res is None,
            Ok(Err(failure)) => res matches Some(report) && report@ == cell_report(failure),
            Err(payload) => res matches Some(report) && report@ == panic_report(
                "insert_row"@,
                payload,
            ),
        },
{
    match result {
        Ok(Ok(_)) => None,
        Ok(Err(failure)) => {
            let mut report = "ladybug routing: cannot decode routed cell ".to_owned();
            push_decimal(&mut report, failure.index as u64);
            report.append(": ");
            report.append(failure.reason.as_str());
            report.append("; aborting");
            Some(report)
        },
        Err(payload) => Some(report_panic("insert_row", payload)),
    }
}

/// Without a `locate` callback every partition is answered as local.
pub proof fn law_unset_locate_is_local<L, K: FnOnce(&L, PartitionRef) -> Option<u64>>(
    partition: PartitionRef,
    call: K,
    placement: Option<u64>,
)
    requires
        placed(None::<L>, partition, call, placement),
    ensures
        locate_answer(placement) == (LocateAnswer { claimed: 0, handle: None }),
{
}

/// The engine gets a handle exactly for the partitions that are claimed, and it is the handle
/// that `locate` gave, unchanged.
pub proof fn law_handle_verbatim(placement: Option<u64>)
    ensures
        locate_answer(placement).handle == placement,
        locate_answer(placement).claimed == 1 <==> placement is Some,
        locate_answer(placement).claimed == 0 <==> placement is None,
{
}

/// The handle comes back: if the engine passes on a later notice the word that it was answered,
/// the notice's call is made, with the handle that `locate` gave.
pub proof fn law_handle_comes_back<C, T, K: FnOnce(&C, PartitionRef, u64) -> T>(
    callback: C,
    partition: PartitionRef,
    given: u64,
    passed: u64,
    call: K,
    result: Option<T>,
)
    requires
        locate_answer(Some(given)).handle == Some(passed),
        noticed(Some(callback), partition, passed, call, result),
    ensures
        result matches Some(receipt) && call_ensures(
            call,
            (&callback, partition, given),
            receipt,
        ),
{
}

/// The handle comes back with routed rows, too: the call of a row is made with the handle that
/// `locate` gave, if the engine passes the word that it was answered.
pub proof fn law_handle_comes_back_with_rows<
    R,
    V,
    F: Fn(usize) -> Result<V, String>,
    T,
    K: FnOnce(&R, PartitionRef, u64, Vec<V>) -> T,
>(callback: R, given: u64, routed: RoutedRow<F>, call: K, receipt: T) -> (row: Vec<V>)
    requires
        locate_answer(Some(given)).handle == Some(routed.handle),
        row_noticed(Some(callback), routed, call, Ok(Some(receipt))),
    ensures
        decoded_row(routed.decode, routed.n_cells, row@),
        call_ensures(call, (&callback, routed.partition, given, row), receipt),
{
    choose|row: Vec<V>| #[trigger] delivered_row(callback, routed, call, row, receipt)
}

/// A consistent `locate` makes consistent answers: the engine is told the same of a partition
/// each time it asks.
pub proof fn law_consistent_placement<L, K: FnOnce(&L, PartitionRef) -> Option<u64>>(
    locate: L,
    answers: spec_fn(PartitionRef) -> Option<u64>,
    partition: PartitionRef,
    first_call: K,
    first: Option<u64>,
    second_call: K,
    second: Option<u64>,
)
    requires
        consistent(locate, first_call, answers),
        consistent(locate, second_call, answers),
        placed(Some(locate), partition, first_call, first),
        placed(Some(locate), partition, second_call, second),
    ensures
        locate_answer(first) == locate_answer(second),
{
}

/// A report holds the whole message of the panic behind the name of the callback, and ends with
/// the announcement that the process aborts.
pub proof fn law_panic_told_in_full(context: Seq<char>, text: String, literal: &'static str)
    ensures
        panic_report(context, PanicPayload::Text(text)) == "ladybug routing callback panicked in "@
            + context + ": "@ + text@ + "; aborting"@,
        panic_report(context, PanicPayload::Literal(literal))
            == "ladybug routing callback panicked in "@ + context + ": "@ + literal@
            + "; aborting"@,
        panic_report(context, PanicPayload::Opaque) == "ladybug routing callback panicked in "@
            + context + ": "@ + "unknown panic"@ + "; aborting"@,
{
}

/// A report on a cell holds its position in decimal and the decoder's whole reason.
pub proof fn law_bad_cell_told_in_full(failure: CellFailure)
    ensures
        cell_report(failure) == "ladybug routing: cannot decode routed cell "@ + decimal(
            failure.index as nat,
        ) + ": "@ + failure.reason@ + "; aborting"@,
{
}

/// Two reports from the same callback are the same only if the messages are.
pub proof fn law_reports_tell_messages_apart(
    context: Seq<char>,
    first: PanicPayload,
    second: PanicPayload,
)
    requires
        panic_report(context, first) == panic_report(context, second),
    ensures
        panic_message(first) == panic_message(second),
{
    let head = "ladybug routing callback panicked in "@ + context + ": "@;
    let tail = "; aborting"@;
    let one = head + panic_message(first) + tail;
    let other = head + panic_message(second) + tail;
    assert(panic_message(first) =~= one.subrange(head.len() as int, one.len() - tail.len()));
    assert(panic_message(second) =~= other.subrange(head.len() as int, other.len() - tail.len()));
}

/// A callback that came back is never reported, and one that panicked always is, with its report.
pub proof fn law_reported_exactly_on_panic(context: Seq<char>, payload: PanicPayload)
    ensures
        callback_report(context, Ok(())) is None,
        callback_report(context, Err(payload)) == Some(panic_report(context, payload)),
{
}

/// A routed row is reported exactly if a cell failed or the callback panicked, with the report on
/// that.
pub proof fn law_row_reported_exactly_on_failure(failure: CellFailure, payload: PanicPayload)
    ensures
        row_report(Ok(Ok(()))) is None,
        row_report(Ok(Err(failure))) == Some(cell_report(failure)),
        row_report(Err(payload)) == Some(panic_report("insert_row"@, payload)),
{
}

/// A placement that `locate` came back with reaches the engine as its claim and its handle, and no
/// answer goes to the engine after a panic.
pub proof fn law_located_or_reported(handle: u64, payload: PanicPayload)
    ensures
        located(Ok(Some(handle))) == Ok::<LocateAnswer, Seq<char>>(
            LocateAnswer { claimed: 1, handle: Some(handle) },
        ),
        located(Ok(None)) == Ok::<LocateAnswer, Seq<char>>(
            LocateAnswer { claimed: 0, handle: None },
        ),
        located(Err(payload)) == Err::<LocateAnswer, Seq<char>>(
            panic_report("locate"@, payload),
        ),
{
}

} // verus!
