//! The wrapper's callbacks, and how an engine notification reaches them.

use vstd::prelude::*;

verus! {

/// Identifies one partition subgraph: the partitioned parent's table ID plus the partition
/// index.
#[derive(Debug, Clone, Copy, PartialEq, Eq, Hash, Structural)]
pub struct PartitionRef {
    pub parent_table_id: u64,
    pub partition_index: u64,
}

/// The engine passes a partition as two words: the parent table's ID, then the partition index.
impl From<(u64, u64)> for PartitionRef {
    fn from(words: (u64, u64)) -> (res: Self) {
        PartitionRef { parent_table_id: words.0, partition_index: words.1 }
    }
}

impl vstd::std_specs::convert::FromSpecImpl<(u64, u64)> for PartitionRef {
    open spec fn obeys_from_spec() -> bool {
        true
    }

    open spec fn from_spec(words: (u64, u64)) -> Self {
        PartitionRef { parent_table_id: words.0, partition_index: words.1 }
    }
}

/// Wrapper callbacks implementing the distributed side of partitioned tables.
///
/// Every member is optional; unset means "handle locally" for `locate` and "not observed" for
/// everything else. The engine calls from any query thread, so a callback that is dispatched is
/// `Send + Sync`.
///
/// Dispatching picks the callback and its arguments and hands both to `call`, which makes the one
/// call. `call` is used up by that, so no callback is ever called twice for one notification, and
/// what `call` gives back is the receipt of it.
pub struct Callbacks<L, C, D, R> {
    /// Placement: `Some(handle)` claims the partition as remote, `None` leaves it to local
    /// storage. The handle is an opaque word handed back verbatim with every later notification
    /// for that partition. Must be side-effect free and consistent.
    pub locate: Option<L>,
    /// Fires for every partition creation, which is how a wrapper learns parent table IDs.
    pub on_partition_create: Option<C>,
    /// Fires for claimed partitions when their subgraph entry is dropped.
    pub on_partition_drop: Option<D>,
    /// One call per row routed to a claimed partition, cells in parent schema order.
    pub insert_row: Option<R>,
}

impl<L, C, D, R> Default for Callbacks<L, C, D, R> {
    /// No callback is set: everything stays local and nothing is observed.
    fn default() -> (res: Self)
        ensures
            res.locate is None,
            res.on_partition_create is None,
            res.on_partition_drop is None,
            res.insert_row is None,
    {
        Callbacks {
            locate: None,
            on_partition_create: None,
            on_partition_drop: None,
            insert_row: None,
        }
    }
}

/// `placement` is where `partition` lives: what the one call of `locate` gave, or local storage if
/// it is not set.
pub open spec fn placed<L, K: FnOnce(&L, PartitionRef) -> Option<u64>>(
    locate: Option<L>,
    partition: PartitionRef,
    call: K,
    placement: Option<u64>,
) -> bool {
    match locate {
        Some(f) => call_ensures(call, (&f, partition), placement),
        None => placement is None,
    }
}

/// `call` asks `locate`, which answers as `answers` says: side-effect free and consistent.
pub open spec fn consistent<L, K: FnOnce(&L, PartitionRef) -> Option<u64>>(
    locate: L,
    call: K,
    answers: spec_fn(PartitionRef) -> Option<u64>,
) -> bool {
    forall|partition: PartitionRef, placement: Option<u64>| #[trigger]
        call_ensures(call, (&locate, partition), placement) ==> placement == answers(partition)
}

/// A notice on `partition` made the one call of the callback, with the engine's handle word, and
/// `receipt` is what came back of it. Without a callback there is no call and no receipt.
pub open spec fn noticed<C, T, K: FnOnce(&C, PartitionRef, u64) -> T>(
    callback: Option<C>,
    partition: PartitionRef,
    handle: u64,
    call: K,
    receipt: Option<T>,
) -> bool {
    match (callback, receipt) {
        (Some(f), Some(receipt)) => call_ensures(call, (&f, partition, handle), receipt),
        (None, None) => true,
        _ => false,
    }
}

/// A routed cell that could not be decoded: its position in the row, and the decoder's reason.
#[derive(Debug, PartialEq, Eq)]
pub struct CellFailure {
    pub index: usize,
    pub reason: String,
}

/// `decode` can give a value for cell `i`.
pub open spec fn decodes<V, F: Fn(usize) -> Result<V, String>>(decode: F, i: usize) -> bool {
    exists|value: V| #[trigger] call_ensures(decode, (i,), Ok::<V, String>(value))
}

/// The failure names the first cell that `decode` failed on, and its reason.
pub open spec fn first_failure<V, F: Fn(usize) -> Result<V, String>>(
    decode: F,
    failure: CellFailure,
) -> bool {
    &&& call_ensures(decode, (failure.index,), Err::<V, String>(failure.reason))
    &&& forall|j: usize| j < failure.index ==> #[trigger] decodes(decode, j)
}

/// `row` holds what `decode` gives for the cells `0..n_cells`, in that order.
pub open spec fn decoded_row<V, F: Fn(usize) -> Result<V, String>>(
    decode: F,
    n_cells: usize,
    row: Seq<V>,
) -> bool {
    &&& row.len() == n_cells
    &&& forall|j: usize|
        j < n_cells ==> call_ensures(decode, (j,), Ok::<V, String>(#[trigger] row[j as int]))
}

/// `decode` may be asked for every cell up to the first that it fails on.
pub open spec fn decodable<V, F: Fn(usize) -> Result<V, String>>(decode: F, n_cells: usize) -> bool {
    forall|i: usize|
        i < n_cells && (forall|j: usize| j < i ==> #[trigger] decodes(decode, j))
            ==> #[trigger] call_requires(decode, (i,))
}

/// Decodes the cells of a routed row one after the other, up to the first that fails.
pub fn decode_row<V, F: Fn(usize) -> Result<V, String>>(n_cells: usize, decode: F) -> (res: Result<
    Vec<V>,
    CellFailure,
>)
    requires
        decodable(decode, n_cells),
    ensures
        match res {
            Ok(row) => decoded_row(decode, n_cells, row@),
            Err(failure) => failure.index < n_cells && first_failure(decode, failure),
        },
{
    let mut row: Vec<V> = Vec::new();
    let mut i: usize = 0;
    while i < n_cells
        invariant
            i <= n_cells,
            decodable(decode, n_cells),
            row@.len() == i,
            forall|j: usize|
                j < i ==> call_ensures(decode, (j,), Ok::<V, String>(#[trigger] row@[j as int])),
        decreases n_cells - i,
    {
        assert forall|j: usize| j < i implies #[trigger] decodes(decode, j) by {
            assert(call_ensures(decode, (j,), Ok::<V, String>(row@[j as int])));
        }
        match decode(i) {
            Ok(value) => row.push(value),
            Err(reason) => return Err(CellFailure { index: i, reason }),
        }
        i = i + 1;
    }
    Ok(row)
}

/// One row on its way to a claimed partition, as the engine hands it over.
pub struct RoutedRow<F> {
    pub partition: PartitionRef,
    pub handle: u64,
    pub n_cells: usize,
    pub decode: F,
}

/// `receipt` is what came back of calling the callback with the routed row, decoded to `row`.
pub open spec fn delivered_row<
    R,
    V,
    F: Fn(usize) -> Result<V, String>,
    T,
    K: FnOnce(&R, PartitionRef, u64, Vec<V>) -> T,
>(callback: R, routed: RoutedRow<F>, call: K, row: Vec<V>, receipt: T) -> bool {
    &&& decoded_row(routed.decode, routed.n_cells, row@)
    &&& call_ensures(call, (&callback, routed.partition, routed.handle, row), receipt)
}

/// `receipt` is what came back of calling the callback with the routed row, decoded.
pub open spec fn delivered<
    R,
    V,
    F: Fn(usize) -> Result<V, String>,
    T,
    K: FnOnce(&R, PartitionRef, u64, Vec<V>) -> T,
>(callback: R, routed: RoutedRow<F>, call: K, receipt: T) -> bool {
    exists|row: Vec<V>| #[trigger] delivered_row(callback, routed, call, row, receipt)
}

/// A routed row made the one call of the callback, with exactly the decoded cells, and the
/// receipt is what came back of it. A row with a cell that fails makes no call, and neither does
/// any row if there is no callback.
pub open spec fn row_noticed<
    R,
    V,
    F: Fn(usize) -> Result<V, String>,
    T,
    K: FnOnce(&R, PartitionRef, u64, Vec<V>) -> T,
>(callback: Option<R>, routed: RoutedRow<F>, call: K, res: Result<Option<T>, CellFailure>) -> bool {
    match callback {
        None => res == Ok::<Option<T>, CellFailure>(None),
        Some(f) => match res {
            Ok(receipt) => receipt is Some && delivered(f, routed, call, receipt->0),
            Err(failure) => failure.index < routed.n_cells && first_failure(
                routed.decode,
                failure,
            ),
        },
    }
}

impl<L, C, D, R> Callbacks<L, C, D, R> {
    /// Asks where a partition lives: what `locate` answers, or local storage if it is not set.
    pub fn dispatch_locate<K: FnOnce(&L, PartitionRef) -> Option<u64>>(
        &self,
        partition: PartitionRef,
        call: K,
    ) -> (res: Option<u64>) where L: Send + Sync,
        requires
            self.locate matches Some(f) ==> call_requires(call, (&f, partition)),
        ensures
            placed(self.locate, partition, call, res),
            self.locate matches Some(f) ==> call_ensures(call, (&f, partition), res),
            self.locate is None ==> res is None,
    {
        match &self.locate {
            Some(f) => call(f, partition),
            None => None,
        }
    }

    /// Tells the wrapper that a partition was created.
    pub fn dispatch_create<T, K: FnOnce(&C, PartitionRef, u64) -> T>(
        &self,
        partition: PartitionRef,
        handle: u64,
        call: K,
    ) -> (res: Option<T>) where C: Send + Sync,
        requires
            self.on_partition_create matches Some(f) ==> call_requires(
                call,
                (&f, partition, handle),
            ),
        ensures
            noticed(self.on_partition_create, partition, handle, call, res),
            res is Some <==> self.on_partition_create is Some,
            self.on_partition_create matches Some(f) ==> call_ensures(
                call,
                (&f, partition, handle),
                res->0,
            ),
    {
        match &self.on_partition_create {
            Some(f) => Some(call(f, partition, handle)),
            None => None,
        }
    }

    /// Tells the wrapper that a claimed partition's subgraph entry was dropped.
    pub fn dispatch_drop<T, K: FnOnce(&D, PartitionRef, u64) -> T>(
        &self,
        partition: PartitionRef,
        handle: u64,
        call: K,
    ) -> (res: Option<T>) where D: Send + Sync,
        requires
            self.on_partition_drop matches Some(f) ==> call_requires(call, (&f, partition, handle)),
        ensures
            noticed(self.on_partition_drop, partition, handle, call, res),
            res is Some <==> self.on_partition_drop is Some,
            self.on_partition_drop matches Some(f) ==> call_ensures(
                call,
                (&f, partition, handle),
                res->0,
            ),
    {
        match &self.on_partition_drop {
            Some(f) => Some(call(f, partition, handle)),
            None => None,
        }
    }

    /// Hands one routed row to the wrapper. Without an `insert_row` callback no cell is decoded.
    pub fn dispatch_insert_row<
        V,
        F: Fn(usize) -> Result<V, String>,
        T,
        K: FnOnce(&R, PartitionRef, u64, Vec<V>) -> T,
    >(&self, partition: PartitionRef, handle: u64, n_cells: usize, decode: F, call: K) -> (res:
        Result<Option<T>, CellFailure>) where R: Send + Sync,
        requires
            self.insert_row is Some ==> decodable(decode, n_cells),
            self.insert_row matches Some(f) ==> forall|row: Vec<V>|
                decoded_row(decode, n_cells, row@) ==> #[trigger] call_requires(
                    call,
                    (&f, partition, handle, row),
                ),
        ensures
            row_noticed(
                self.insert_row,
                (RoutedRow { partition, handle, n_cells, decode }),
                call,
                res,
            ),
            self.insert_row is None ==> res == Ok::<Option<T>, CellFailure>(None),
            self.insert_row is Some ==> match res {
                Ok(receipt) => receipt is Some,
                Err(failure) => failure.index < n_cells && call_ensures(
                    decode,
                    (failure.index,),
                    Err::<V, String>(failure.reason),
                ),
            },
    {
        match &self.insert_row {
            None => Ok(None),
            Some(f) => match decode_row(n_cells, decode) {
                Err(failure) => Err(failure),
                Ok(row) => {
                    let ghost handed = row;
                    let receipt = call(f, partition, handle, row);
                    assert(delivered_row(
                        *f,
                        RoutedRow { partition, handle, n_cells, decode },
                        call,
                        handed,
                        receipt,
                    ));
                    Ok(Some(receipt))
                },
            },
        }
    }
}

/// The cells of a routed row hold exactly `values`.
pub open spec fn holds<V, F: Fn(usize) -> Result<V, String>>(
    routed: RoutedRow<F>,
    values: Seq<V>,
) -> bool {
    &&& values.len() == routed.n_cells
    &&& forall|j: usize, cell: Result<V, String>|
        j < routed.n_cells && #[trigger] call_ensures(routed.decode, (j,), cell) ==> cell == Ok::<
            V,
            String,
        >(values[j as int])
}

/// `call` writes what it was called with behind `log`, and its receipt reads as the whole log.
pub open spec fn logs_notice<C, T, K: FnOnce(&C, PartitionRef, u64) -> T>(
    callback: C,
    call: K,
    log: Seq<(PartitionRef, u64)>,
    read: spec_fn(T) -> Seq<(PartitionRef, u64)>,
) -> bool {
    forall|partition: PartitionRef, handle: u64, receipt: T| #[trigger]
        call_ensures(call, (&callback, partition, handle), receipt) ==> read(receipt) == log.push(
            (partition, handle),
        )
}

/// `call` writes what it was called with behind `log`, and its receipt reads as the whole log.
pub open spec fn logs_row<R, V, T, K: FnOnce(&R, PartitionRef, u64, Vec<V>) -> T>(
    callback: R,
    call: K,
    log: Seq<(PartitionRef, u64, Seq<V>)>,
    read: spec_fn(T) -> Seq<(PartitionRef, u64, Seq<V>)>,
) -> bool {
    forall|partition: PartitionRef, handle: u64, row: Vec<V>, receipt: T| #[trigger]
        call_ensures(call, (&callback, partition, handle, row), receipt) ==> read(receipt)
            == log.push((partition, handle, row@))
}

/// The log before event `k`: what the receipt of the event before it reads as.
pub open spec fn log_before<T, E>(receipts: Seq<T>, read: spec_fn(T) -> Seq<E>, k: int) -> Seq<E> {
    if k == 0 {
        Seq::empty()
    } else {
        read(receipts[k - 1])
    }
}

/// One call per notice, in order. Dispatch a series of creation or drop notices to a callback that
/// is set, each with a call that writes behind the log of the one before: every notice has a
/// receipt, and after notice `k` the log holds exactly the first `k + 1` notices, each once and
/// with the engine's handle word.
pub proof fn law_one_call_per_notice<C, T, K: FnOnce(&C, PartitionRef, u64) -> T>(
    callback: C,
    notices: Seq<(PartitionRef, u64)>,
    calls: Seq<K>,
    results: Seq<Option<T>>,
    read: spec_fn(T) -> Seq<(PartitionRef, u64)>,
    k: int,
)
    requires
        calls.len() == notices.len(),
        results.len() == notices.len(),
        forall|i: int|
            0 <= i < notices.len() ==> noticed(
                Some(callback),
                notices[i].0,
                notices[i].1,
                #[trigger] calls[i],
                results[i],
            ),
        forall|i: int|
            0 <= i < notices.len() ==> logs_notice(
                callback,
                #[trigger] calls[i],
                if i == 0 {
                    Seq::empty()
                } else {
                    read(results[i - 1]->0)
                },
                read,
            ),
        0 <= k < notices.len(),
    ensures
        results[k] is Some,
        read(results[k]->0) == notices.take(k + 1),
    decreases k,
{
    if k > 0 {
        law_one_call_per_notice(callback, notices, calls, results, read, k - 1);
    } else {
        assert(notices.take(0) == Seq::<(PartitionRef, u64)>::empty());
    }
    assert(logs_notice(callback, calls[k], notices.take(k), read));
    assert(noticed(Some(callback), notices[k].0, notices[k].1, calls[k], results[k]));
    assert(notices.take(k + 1) == notices.take(k).push((notices[k].0, notices[k].1)));
}

/// One call per row, in order. Dispatch a series of routed rows that all decode, each with a call
/// that writes behind the log of the one before: after row `k` the log holds exactly the first
/// `k + 1` rows, each once, with its own partition, handle word and cells. Nothing is batched,
/// merged, dropped or carried over.
pub proof fn law_one_call_per_row<
    R,
    V,
    F: Fn(usize) -> Result<V, String>,
    T,
    K: FnOnce(&R, PartitionRef, u64, Vec<V>) -> T,
>(
    callback: R,
    routed: Seq<RoutedRow<F>>,
    values: Seq<Seq<V>>,
    calls: Seq<K>,
    results: Seq<Result<Option<T>, CellFailure>>,
    receipts: Seq<T>,
    read: spec_fn(T) -> Seq<(PartitionRef, u64, Seq<V>)>,
    k: int,
)
    requires
        values.len() == routed.len(),
        calls.len() == routed.len(),
        results.len() == routed.len(),
        receipts.len() == routed.len(),
        forall|i: int| 0 <= i < routed.len() ==> holds(#[trigger] routed[i], values[i]),
        forall|i: int|
            0 <= i < routed.len() ==> row_noticed(
                Some(callback),
                routed[i],
                #[trigger] calls[i],
                results[i],
            ),
        forall|i: int|
            0 <= i < routed.len() ==> (results[i] matches Ok(Some(receipt)) ==> #[trigger]
            receipts[i] == receipt),
        forall|i: int|
            0 <= i < routed.len() ==> logs_row(
                callback,
                #[trigger] calls[i],
                log_before(receipts, read, i),
                read,
            ),
        0 <= k < routed.len(),
    ensures
        results[k] == Ok::<Option<T>, CellFailure>(Some(receipts[k])),
        read(receipts[k]) == Seq::new(
            (k + 1) as nat,
            |i: int| (routed[i].partition, routed[i].handle, values[i]),
        ),
    decreases k,
{
    let expected = |n: int|
        Seq::new(n as nat, |i: int| (routed[i].partition, routed[i].handle, values[i]));
    if k > 0 {
        law_one_call_per_row(callback, routed, values, calls, results, receipts, read, k - 1);
    }
    assert(log_before(receipts, read, k) == expected(k));
    let call = calls[k];
    let row_k = routed[k];
    assert(holds(row_k, values[k]));
    assert(row_noticed(Some(callback), row_k, call, results[k]));
    assert(results[k] matches Ok(Some(receipt)) ==> receipts[k] == receipt);
    let row = choose|row: Vec<V>| #[trigger]
        delivered_row(callback, row_k, call, row, receipts[k]);
    assert forall|j: int| 0 <= j < row@.len() implies row@[j] == values[k][j] by {
        let cell: usize = j as usize;
        assert(call_ensures(row_k.decode, (cell,), Ok::<V, String>(row@[cell as int])));
    }
    assert(row@ == values[k]);
    assert(expected(k + 1) == expected(k).push((row_k.partition, row_k.handle, values[k])));
}

/// The engine's two words make a partition in that order.
pub proof fn law_partition_words(parent_table_id: u64, partition_index: u64)
    ensures
        <PartitionRef as vstd::std_specs::convert::FromSpec<(u64, u64)>>::obeys_from_spec(),
        <PartitionRef as vstd::std_specs::convert::FromSpec<(u64, u64)>>::from_spec(
            (parent_table_id, partition_index),
        ) == (PartitionRef { parent_table_id, partition_index }),
{
}

/// Whenever `locate` is set, the placement of every partition is an answer that asking it about
/// that very partition gave. If it is not set, the partition is local.
pub proof fn law_placement_is_an_answer<L, K: FnOnce(&L, PartitionRef) -> Option<u64>>(
    locate: Option<L>,
    partition: PartitionRef,
    call: K,
    placement: Option<u64>,
)
    requires
        placed(locate, partition, call, placement),
    ensures
        locate matches Some(f) ==> call_ensures(call, (&f, partition), placement),
        locate is None ==> placement is None,
{
}

/// If all that `locate` ever answers on a partition is what `answers` says, that is the
/// partition's placement, whatever its parent table and index.
pub proof fn law_placement_follows_locate<L, K: FnOnce(&L, PartitionRef) -> Option<u64>>(
    locate: L,
    answers: spec_fn(PartitionRef) -> Option<u64>,
    parent_table_id: u64,
    partition_index: u64,
    call: K,
    placement: Option<u64>,
)
    requires
        forall|p: PartitionRef, answer: Option<u64>| #[trigger]
            call_ensures(call, (&locate, p), answer) ==> answer == answers(p),
        placed(
            Some(locate),
            (PartitionRef { parent_table_id, partition_index }),
            call,
            placement,
        ),
    ensures
        placement == answers(PartitionRef { parent_table_id, partition_index }),
{
}

/// A `locate` that claims every partition has every partition placed remotely.
pub proof fn law_claim_of_all_is_kept<L, K: FnOnce(&L, PartitionRef) -> Option<u64>>(
    locate: L,
    parent_table_id: u64,
    partition_index: u64,
    call: K,
    placement: Option<u64>,
)
    requires
        forall|p: PartitionRef, answer: Option<u64>| #[trigger]
            call_ensures(call, (&locate, p), answer) ==> answer is Some,
        placed(
            Some(locate),
            (PartitionRef { parent_table_id, partition_index }),
            call,
            placement,
        ),
    ensures
        placement is Some,
{
}

/// A notice has a receipt exactly if the callback is set, and the receipt is what came back of
/// calling it with that partition and handle.
pub proof fn law_notice_has_a_receipt<C, T, K: FnOnce(&C, PartitionRef, u64) -> T>(
    callback: Option<C>,
    partition: PartitionRef,
    handle: u64,
    call: K,
    result: Option<T>,
)
    requires
        noticed(callback, partition, handle, call, result),
    ensures
        result is Some <==> callback is Some,
        callback matches Some(f) ==> call_ensures(call, (&f, partition, handle), result->0),
{
}

/// A decoder that may be asked for every cell of the row may be handed over.
pub proof fn law_total_decoder_accepted<V, F: Fn(usize) -> Result<V, String>>(
    decode: F,
    n_cells: usize,
)
    requires
        forall|i: usize| i < n_cells ==> #[trigger] call_requires(decode, (i,)),
    ensures
        decodable(decode, n_cells),
{
}

/// A decoded row has one value for every cell, each one that decoding its own cell gave.
pub proof fn law_row_is_its_cells<V, F: Fn(usize) -> Result<V, String>>(
    decode: F,
    n_cells: usize,
    row: Seq<V>,
)
    ensures
        decoded_row(decode, n_cells, row) <==> {
            &&& row.len() == n_cells
            &&& forall|j: usize|
                j < n_cells ==> call_ensures(
                    decode,
                    (j,),
                    Ok::<V, String>(#[trigger] row[j as int]),
                )
        },
{
}

/// If every cell up to the failing one decodes, that one is named, with the reason that decoding it
/// gave.
pub proof fn law_first_bad_cell_named<V, F: Fn(usize) -> Result<V, String>>(
    decode: F,
    failure: CellFailure,
    bad: usize,
)
    requires
        first_failure(decode, failure),
        forall|j: usize, cell: Result<V, String>|
            j < bad && #[trigger] call_ensures(decode, (j,), cell) ==> cell is Ok,
        forall|cell: Result<V, String>| #[trigger]
            call_ensures(decode, (bad,), cell) ==> cell is Err,
    ensures
        failure.index == bad,
        call_ensures(decode, (bad,), Err::<V, String>(failure.reason)),
{
    if bad < failure.index {
        assert(decodes(decode, bad));
        let value = choose|value: V| #[trigger]
            call_ensures(decode, (bad,), Ok::<V, String>(value));
        assert(call_ensures(decode, (bad,), Ok::<V, String>(value)));
    }
}

/// A row whose cells all decode is delivered, however many they are: the callback is called with
/// the row's partition and handle and with exactly one value for every cell, and the result is the
/// receipt of that call.
pub proof fn law_good_row_delivered<
    R,
    V,
    F: Fn(usize) -> Result<V, String>,
    T,
    K: FnOnce(&R, PartitionRef, u64, Vec<V>) -> T,
>(callback: R, routed: RoutedRow<F>, call: K, result: Result<Option<T>, CellFailure>) -> (row: Vec<
    V,
>)
    requires
        row_noticed(Some(callback), routed, call, result),
        forall|j: usize, cell: Result<V, String>|
            j < routed.n_cells && #[trigger] call_ensures(routed.decode, (j,), cell) ==> cell is Ok,
    ensures
        result is Ok,
        result->Ok_0 is Some,
        row@.len() == routed.n_cells,
        forall|j: usize|
            j < routed.n_cells ==> call_ensures(
                routed.decode,
                (j,),
                Ok::<V, String>(#[trigger] row@[j as int]),
            ),
        call_ensures(
            call,
            (&callback, routed.partition, routed.handle, row),
            result->Ok_0->0,
        ),
{
    if result is Err {
        let failure = result->Err_0;
        assert(call_ensures(
            routed.decode,
            (failure.index,),
            Err::<V, String>(failure.reason),
        ));
    }
    choose|row: Vec<V>| #[trigger]
        delivered_row(callback, routed, call, row, result->Ok_0->0)
}

/// A row with a cell that does not decode is not delivered: the result names the first such cell,
/// with the reason that decoding it gave.
pub proof fn law_bad_row_refused<
    R,
    V,
    F: Fn(usize) -> Result<V, String>,
    T,
    K: FnOnce(&R, PartitionRef, u64, Vec<V>) -> T,
>(
    callback: R,
    routed: RoutedRow<F>,
    call: K,
    result: Result<Option<T>, CellFailure>,
    bad: usize,
)
    requires
        row_noticed(Some(callback), routed, call, result),
        bad < routed.n_cells,
        forall|j: usize, cell: Result<V, String>|
            j < bad && #[trigger] call_ensures(routed.decode, (j,), cell) ==> cell is Ok,
        forall|cell: Result<V, String>| #[trigger]
            call_ensures(routed.decode, (bad,), cell) ==> cell is Err,
    ensures
        result matches Err(failure) && failure.index == bad && call_ensures(
            routed.decode,
            (bad,),
            Err::<V, String>(failure.reason),
        ),
{
    match result {
        Ok(receipt) => {
            let row = choose|row: Vec<V>| #[trigger]
                delivered_row(callback, routed, call, row, receipt->0);
            assert(call_ensures(routed.decode, (bad,), Ok::<V, String>(row@[bad as int])));
        },
        Err(failure) => {
            law_first_bad_cell_named::<V, F>(routed.decode, failure, bad);
        },
    }
}

/// Without an `insert_row` callback a row ends without a receipt and without a failure, whatever
/// its cells are.
pub proof fn law_unobserved_row_ends_well<
    R,
    V,
    F: Fn(usize) -> Result<V, String>,
    T,
    K: FnOnce(&R, PartitionRef, u64, Vec<V>) -> T,
>(routed: RoutedRow<F>, call: K, result: Result<Option<T>, CellFailure>)
    requires
        row_noticed(None::<R>, routed, call, result),
    ensures
        result == Ok::<Option<T>, CellFailure>(None),
{
}

} // verus!
