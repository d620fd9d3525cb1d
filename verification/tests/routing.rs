use lbug::callbacks::{decode_row, CellFailure};
use lbug::hooks::{insert_row_cb, locate_cb, LocateAnswer};
use lbug::registry::settle_schema;
use lbug::schema::SchemaPlan;
use lbug::{Callbacks, Error, LogicalType, PartitionRef, Registry, RoutingGuard};
use std::cell::{Cell, RefCell};
use std::collections::HashSet;
use std::sync::{Arc, Mutex};

#[derive(Debug, Clone, PartialEq)]
enum Value {
    Int64(i64),
    Double(f64),
}

type Locate = Box<dyn Fn(PartitionRef) -> Option<u64> + Send + Sync>;
type Notice = Box<dyn Fn(PartitionRef) + Send + Sync>;
type InsertRow = Box<dyn Fn(PartitionRef, Vec<Value>) + Send + Sync>;
type BoxedCallbacks = Callbacks<Locate, Notice, Notice, InsertRow>;

fn partition(parent_table_id: u64, partition_index: u64) -> PartitionRef {
    PartitionRef { parent_table_id, partition_index }
}

/// How the hooks of these tests reach the callbacks: one call each.
fn locate(callbacks: &BoxedCallbacks, target: PartitionRef) -> Option<u64> {
    callbacks.dispatch_locate(target, |f, r| f(r))
}

fn create(callbacks: &BoxedCallbacks, target: PartitionRef) {
    callbacks.dispatch_create(target, 0, |f, r, _| f(r));
}

fn drop_partition(callbacks: &BoxedCallbacks, target: PartitionRef) {
    callbacks.dispatch_drop(target, 0, |f, r, _| f(r));
}

fn insert_row(
    callbacks: &BoxedCallbacks,
    target: PartitionRef,
    n_cells: usize,
    decode: impl Fn(usize) -> Result<Value, String>,
) -> Result<(), CellFailure> {
    callbacks
        .dispatch_insert_row(target, 0xC0FFEE, n_cells, decode, |f, r, _, row| f(r, row))
        .map(|_| ())
}

fn refusal(text: &str) -> Error {
    Error::FailedQuery(text.to_string())
}

/// The characters of a C string.
fn read_c_string(bytes: &[u8]) -> String {
    let end = bytes.iter().position(|b| *b == 0).unwrap();
    String::from_utf8(bytes[..end].to_vec()).unwrap()
}

/// A small stand-in for the engine: it keeps the rows that were routed to claimed partitions and
/// serves reads through the registered schema.
struct Engine {
    hooks: Cell<bool>,
    schema: RefCell<Option<(u64, Vec<String>)>>,
    rows: RefCell<Vec<Vec<i64>>>,
}

impl Engine {
    fn insert(&self, callbacks: &BoxedCallbacks, parent: u64, row: &[i64]) {
        let target = partition(parent, (row[1] as u64) % 3);
        assert_eq!(
            locate_cb(Ok(locate(&callbacks, target))),
            Ok(LocateAnswer { claimed: 1, handle: Some(0xC0FFEE) })
        );
        let result = insert_row(&callbacks, target, row.len(), |i| Ok(Value::Int64(row[i])));
        assert_eq!(insert_row_cb(Ok(result)), None);
        self.rows.borrow_mut().push(row.to_vec());
    }

    fn scan(&self) -> String {
        let schema = self.schema.borrow();
        let (_, names) = schema.as_ref().unwrap();
        let mut rows = self.rows.borrow().clone();
        rows.sort();
        let header: Vec<String> = names.iter().map(|name| format!("r.{name}")).collect();
        let mut out = header.join("|") + "\n";
        for row in rows {
            let cells: Vec<String> = row.iter().map(|cell| cell.to_string()).collect();
            out += &(cells.join("|") + "\n");
        }
        out
    }
}

#[test]
fn remote_partition_round_trip() {
    let created: Arc<Mutex<Vec<PartitionRef>>> = Arc::new(Mutex::new(Vec::new()));
    let dropped: Arc<Mutex<Vec<PartitionRef>>> = Arc::new(Mutex::new(Vec::new()));
    let observed: Arc<Mutex<Vec<(PartitionRef, Vec<Value>)>>> = Arc::new(Mutex::new(Vec::new()));
    let created_cb = created.clone();
    let dropped_cb = dropped.clone();
    let observed_cb = observed.clone();
    let engine = Engine {
        hooks: Cell::new(false),
        schema: RefCell::new(None),
        rows: RefCell::new(Vec::new()),
    };
    let accept = |_: &Box<BoxedCallbacks>| {
        engine.hooks.set(true);
        0
    };
    let reset = |_: &Registry<Box<BoxedCallbacks>>| engine.hooks.set(false);
    let mut registry: Registry<Box<BoxedCallbacks>> = Registry::new();

    // Double install fails while the first guard lives.
    let guard =
        RoutingGuard::install(&mut registry, Box::new(Callbacks::default()), accept).unwrap();
    assert!(
        RoutingGuard::install(&mut registry, Box::new(Callbacks::default()), accept).is_err(),
        "double install must fail"
    );
    guard.uninstall(&mut registry, reset);

    let callbacks: Box<BoxedCallbacks> = Box::new(Callbacks {
        locate: Some(Box::new(|_r: PartitionRef| Some(0xC0FFEE))),
        on_partition_create: Some(Box::new(move |r: PartitionRef| {
            created_cb.lock().unwrap().push(r);
        })),
        on_partition_drop: Some(Box::new(move |r: PartitionRef| {
            dropped_cb.lock().unwrap().push(r);
        })),
        insert_row: Some(Box::new(move |r: PartitionRef, row: Vec<Value>| {
            observed_cb.lock().unwrap().push((r, row));
        })),
    });
    let guard = RoutingGuard::install(&mut registry, callbacks, accept).unwrap();
    assert!(guard.is_installed(|| engine.hooks.get() as u8));
    let callbacks = registry.state().unwrap();

    for index in 0..3 {
        create(&callbacks, PartitionRef::from((7, index)));
    }

    // The parent table ID arrives via the create notifications.
    let parent = created.lock().unwrap()[0].parent_table_id;
    guard
        .register_parent_schema(
            parent,
            vec![
                ("id".to_string(), LogicalType::Int64),
                ("v".to_string(), LogicalType::Int64),
            ],
            |id: u64, plan: &SchemaPlan| {
                assert_eq!(plan.type_ids, vec![23, 23]);
                let names = plan.names.iter().map(|name| read_c_string(name)).collect();
                *engine.schema.borrow_mut() = Some((id, names));
                0
            },
        )
        .unwrap();
    assert_eq!(engine.schema.borrow().as_ref().unwrap().0, 7);

    for row in [[1, 10], [2, 10], [3, 20], [4, 30], [5, 30]] {
        engine.insert(callbacks, parent, &row);
    }
    assert_eq!(engine.scan(), "r.id|r.v\n1|10\n2|10\n3|20\n4|30\n5|30\n");

    let seen: HashSet<i64> = observed
        .lock()
        .unwrap()
        .iter()
        .map(|(_, row)| match &row[0] {
            Value::Int64(id) => *id,
            other => panic!("expected Int64 id, got {other:?}"),
        })
        .collect();
    assert_eq!(seen, HashSet::from([1, 2, 3, 4, 5]));
    assert_eq!(created.lock().unwrap().len(), 3, "one create per HASH partition");

    // Dropping the parent notifies once per claimed partition.
    for index in 0..3 {
        drop_partition(&callbacks, partition(parent, index));
    }
    assert_eq!(dropped.lock().unwrap().len(), 3);
    guard.uninstall(&mut registry, reset);
    assert!(!engine.hooks.get());
}

#[test]
fn second_install_is_refused_without_asking_the_engine() {
    let calls = Cell::new(0);
    let engine = |_: &u8| {
        calls.set(calls.get() + 1);
        0
    };
    let mut registry: Registry<u8> = Registry::new();
    let guard = RoutingGuard::install(&mut registry, 1, engine).unwrap();
    let second = RoutingGuard::install(&mut registry, 2, engine);
    assert_eq!(
        second.unwrap_err(),
        refusal("partition routing hooks are already installed")
    );
    assert_eq!(calls.get(), 1);
    assert_eq!(registry, Registry::Active(1));
    guard.uninstall(&mut registry, |_| ());
    assert_eq!(registry, Registry::Vacant);
}

#[test]
fn install_hands_the_state_to_the_engine() {
    let seen = Cell::new(0);
    let mut registry: Registry<u8> = Registry::new();
    let guard = RoutingGuard::install(&mut registry, 9, |state: &u8| {
        seen.set(*state);
        0
    })
    .unwrap();
    assert_eq!(seen.get(), 9);
    assert_eq!(registry.state(), Some(&9));
    guard.uninstall(&mut registry, |_| ());
    assert_eq!(registry.state(), None);
}

#[test]
fn rejected_install_leaves_nothing_installed() {
    let mut registry: Registry<u8> = Registry::new();
    for code in [1, -1, i32::MAX, i32::MIN] {
        let res = RoutingGuard::install(&mut registry, 1, |_: &u8| code);
        assert_eq!(
            res.unwrap_err(),
            refusal("engine rejected partition routing installation")
        );
        assert_eq!(registry, Registry::Vacant);
    }
    assert!(RoutingGuard::install(&mut registry, 2, |_: &u8| 0).is_ok());
    assert_eq!(registry, Registry::Active(2));
}

#[test]
fn uninstall_undoes_install_and_reopens() {
    let mut registry: Registry<u8> = Registry::new();
    for state in 0..3 {
        let guard = RoutingGuard::install(&mut registry, state, |_: &u8| 0).unwrap();
        assert_eq!(registry, Registry::Active(state));
        let reset = Cell::new(false);
        guard.uninstall(&mut registry, |_| reset.set(true));
        assert!(reset.get());
        assert_eq!(registry, Registry::Vacant);
    }
}

#[test]
fn hooks_are_reset_while_the_state_is_held() {
    let mut registry: Registry<u8> = Registry::new();
    let guard = RoutingGuard::install(&mut registry, 8, |_: &u8| 0).unwrap();
    let held = Cell::new(None);
    guard.uninstall(&mut registry, |standing: &Registry<u8>| held.set(standing.state().copied()));
    assert_eq!(held.get(), Some(8));
    assert_eq!(registry, Registry::Vacant);
}

#[test]
fn dropping_a_guard_resets_the_hooks_once() {
    let mut registry: Registry<u8> = Registry::new();
    let mut first = RoutingGuard::install(&mut registry, 1, |_: &u8| 0).unwrap();
    let resets = Cell::new(0);
    let reset = |_: &Registry<u8>| resets.set(resets.get() + 1);
    first.drop(&mut registry, reset);
    assert_eq!(resets.get(), 1);
    assert_eq!(registry, Registry::Vacant);

    let second = RoutingGuard::install(&mut registry, 2, |_: &u8| 0).unwrap();
    first.drop(&mut registry, reset);
    first.uninstall(&mut registry, reset);
    assert_eq!(resets.get(), 1);
    assert_eq!(registry, Registry::Active(2));
    second.uninstall(&mut registry, reset);
    assert_eq!(resets.get(), 2);
    assert_eq!(registry, Registry::Vacant);
}

#[test]
fn rows_of_a_series_arrive_one_by_one() {
    let observed: Arc<Mutex<Vec<(PartitionRef, Vec<Value>)>>> = Arc::new(Mutex::new(Vec::new()));
    let observed_cb = observed.clone();
    let callbacks: BoxedCallbacks = Callbacks {
        insert_row: Some(Box::new(move |r: PartitionRef, row: Vec<Value>| {
            observed_cb.lock().unwrap().push((r, row));
        })),
        ..Default::default()
    };
    let series: Vec<(PartitionRef, Vec<Value>)> = vec![
        (partition(1, 0), vec![Value::Int64(1), Value::Int64(10)]),
        (partition(1, 2), vec![]),
        (partition(1, 0), vec![Value::Int64(1), Value::Int64(10)]),
        (partition(2, 1), vec![Value::Double(2.5)]),
    ];
    for (target, cells) in &series {
        let res = insert_row(&callbacks, *target, cells.len(), |i| Ok(cells[i].clone()));
        assert_eq!(res, Ok(()));
    }
    assert_eq!(*observed.lock().unwrap(), series);
}

#[test]
fn reserve_and_settle_step_by_step() {
    let mut registry: Registry<u8> = Registry::new();
    assert_eq!(registry.reserve(), Ok(()));
    assert_eq!(registry, Registry::Reserved);
    assert_eq!(
        registry.reserve(),
        Err(refusal("partition routing hooks are already installed"))
    );
    assert_eq!(registry.state(), None);
    assert_eq!(
        registry.settle(4, 2).unwrap_err(),
        refusal("engine rejected partition routing installation")
    );
    assert_eq!(registry, Registry::Vacant);
    assert_eq!(registry.reserve(), Ok(()));
    assert!(registry.settle(4, 0).is_ok());
    assert_eq!(registry, Registry::Active(4));
}

#[test]
fn at_most_one_guard_over_a_history() {
    let mut registry: Registry<usize> = Registry::new();
    let mut held: Vec<RoutingGuard> = Vec::new();
    for (step, code) in [1, 0, 0, 3, 0, 0].into_iter().enumerate() {
        if step == 3 {
            held.pop().unwrap().uninstall(&mut registry, |_| ());
        }
        if let Ok(guard) = RoutingGuard::install(&mut registry, step, |_: &usize| code) {
            held.push(guard);
        }
        assert!(held.len() <= 1);
        assert_eq!(held.len() == 1, matches!(registry, Registry::Active(_)));
    }
    assert_eq!(registry, Registry::Active(4));
}

#[test]
fn installed_as_the_engine_answers() {
    let mut registry: Registry<u8> = Registry::new();
    let guard = RoutingGuard::install(&mut registry, 1, |_: &u8| 0).unwrap();
    assert!(!guard.is_installed(|| 0));
    assert!(guard.is_installed(|| 1));
    assert!(guard.is_installed(|| 255));
}

#[test]
fn schema_answers_of_the_engine() {
    assert_eq!(settle_schema(0), Ok(()));
    assert_eq!(
        settle_schema(-7),
        Err(refusal("engine rejected partition routing schema"))
    );
    let mut registry: Registry<u8> = Registry::new();
    let guard = RoutingGuard::install(&mut registry, 1, |_: &u8| 0).unwrap();
    let columns = || vec![("id".to_string(), LogicalType::Int64)];
    assert_eq!(guard.register_parent_schema(3, columns(), |_: u64, _: &SchemaPlan| 0), Ok(()));
    assert_eq!(
        guard.register_parent_schema(3, columns(), |_: u64, _: &SchemaPlan| 1),
        Err(refusal("engine rejected partition routing schema"))
    );
}

#[test]
fn refused_schema_does_not_reach_the_engine() {
    let mut registry: Registry<u8> = Registry::new();
    let guard = RoutingGuard::install(&mut registry, 1, |_: &u8| 0).unwrap();
    let asked = Cell::new(false);
    let res = guard.register_parent_schema(3, Vec::new(), |_: u64, _: &SchemaPlan| {
        asked.set(true);
        0
    });
    assert_eq!(
        res,
        Err(refusal("partition routing schema needs at least one column"))
    );
    assert!(!asked.get());
}

#[test]
fn unset_callbacks_are_local_and_silent() {
    let callbacks: BoxedCallbacks = Callbacks::default();
    let target = partition(1, 2);
    assert_eq!(locate(&callbacks, target), None);
    assert_eq!(
        locate_cb(Ok(locate(&callbacks, target))),
        Ok(LocateAnswer { claimed: 0, handle: None })
    );
    create(&callbacks, target);
    drop_partition(&callbacks, target);
    let decoded = Cell::new(0);
    let res = insert_row(&callbacks, target, 3, |_| {
        decoded.set(decoded.get() + 1);
        Err("no value".to_string())
    });
    assert_eq!(res, Ok(()));
    assert_eq!(decoded.get(), 0);
}

#[test]
fn locate_sees_the_partition_and_may_leave_it_local() {
    let callbacks: BoxedCallbacks = Callbacks {
        locate: Some(Box::new(|r: PartitionRef| {
            if r.partition_index == 0 {
                None
            } else {
                Some(r.parent_table_id * 10 + r.partition_index)
            }
        })),
        ..Default::default()
    };
    assert_eq!(locate(&callbacks, partition(4, 0)), None);
    assert_eq!(locate(&callbacks, partition(4, 2)), Some(42));
    assert_eq!(locate(&callbacks, partition(4, 2)), Some(42));
}

#[test]
fn rows_arrive_in_cell_order() {
    let observed: Arc<Mutex<Vec<(PartitionRef, Vec<Value>)>>> = Arc::new(Mutex::new(Vec::new()));
    let observed_cb = observed.clone();
    let callbacks: BoxedCallbacks = Callbacks {
        insert_row: Some(Box::new(move |r: PartitionRef, row: Vec<Value>| {
            observed_cb.lock().unwrap().push((r, row));
        })),
        ..Default::default()
    };
    let cells = [Value::Int64(5), Value::Double(0.5), Value::Int64(-1)];
    let res = insert_row(&callbacks, partition(1, 1), 3, |i| Ok(cells[i].clone()));
    assert_eq!(res, Ok(()));
    let empty = insert_row(&callbacks, partition(1, 2), 0, |_| Err("none".to_string()));
    assert_eq!(empty, Ok(()));
    assert_eq!(
        *observed.lock().unwrap(),
        vec![(partition(1, 1), cells.to_vec()), (partition(1, 2), Vec::new())]
    );
}

#[test]
fn first_undecodable_cell_stops_the_row() {
    let decoded = Cell::new(0);
    let res: Result<Vec<u8>, CellFailure> = decode_row(5, |i| {
        decoded.set(decoded.get() + 1);
        if i >= 2 {
            Err(format!("bad cell {i}"))
        } else {
            Ok(i as u8)
        }
    });
    assert_eq!(
        res,
        Err(CellFailure { index: 2, reason: "bad cell 2".to_string() })
    );
    assert_eq!(decoded.get(), 3);
    assert_eq!(decode_row(3, |i| Ok(i * 2)), Ok(vec![0, 2, 4]));
}

#[test]
fn undecodable_row_is_not_delivered() {
    let observed: Arc<Mutex<usize>> = Arc::new(Mutex::new(0));
    let observed_cb = observed.clone();
    let callbacks: BoxedCallbacks = Callbacks {
        insert_row: Some(Box::new(move |_r: PartitionRef, _row: Vec<Value>| {
            *observed_cb.lock().unwrap() += 1;
        })),
        ..Default::default()
    };
    let res = insert_row(&callbacks, partition(1, 1), 2, |i| {
        if i == 1 {
            Err("unknown type".to_string())
        } else {
            Ok(Value::Int64(0))
        }
    });
    assert_eq!(
        res,
        Err(CellFailure { index: 1, reason: "unknown type".to_string() })
    );
    assert_eq!(*observed.lock().unwrap(), 0);
}

#[test]
fn partition_words_keep_their_order() {
    assert_eq!(PartitionRef::from((3, 5)), partition(3, 5));
    assert_ne!(PartitionRef::from((3, 5)), partition(5, 3));
}

#[test]
fn each_notification_is_one_call_with_its_handle() {
    let callbacks = Callbacks {
        locate: Some("locate"),
        on_partition_create: Some("create"),
        on_partition_drop: Some("drop"),
        insert_row: Some("insert"),
    };
    let target = partition(3, 1);
    assert_eq!(
        callbacks.dispatch_locate(target, |f, r| {
            assert_eq!((*f, r), ("locate", target));
            Some(11)
        }),
        Some(11)
    );
    let mut log: Vec<(&str, PartitionRef, u64, Vec<u8>)> = Vec::new();
    for handle in [11, 12] {
        log = callbacks
            .dispatch_create(target, handle, |f, r, h| {
                log.push((*f, r, h, vec![]));
                log
            })
            .unwrap();
        log = callbacks
            .dispatch_insert_row(target, handle, 2, |i| Ok(i as u8 + 5), |f, r, h, row| {
                log.push((*f, r, h, row));
                log
            })
            .unwrap()
            .unwrap();
        log = callbacks
            .dispatch_drop(target, handle, |f, r, h| {
                log.push((*f, r, h, vec![]));
                log
            })
            .unwrap();
    }
    assert_eq!(
        log,
        vec![
            ("create", target, 11, vec![]),
            ("insert", target, 11, vec![5, 6]),
            ("drop", target, 11, vec![]),
            ("create", target, 12, vec![]),
            ("insert", target, 12, vec![5, 6]),
            ("drop", target, 12, vec![]),
        ]
    );
}

#[test]
fn unset_callbacks_give_no_receipt() {
    let callbacks: Callbacks<(), (), (), ()> = Callbacks::default();
    let target = partition(3, 1);
    assert_eq!(callbacks.dispatch_create(target, 1, |_, _, _| 1), None);
    assert_eq!(callbacks.dispatch_drop(target, 1, |_, _, _| 1), None);
    let row = callbacks.dispatch_insert_row(
        target,
        1,
        2,
        |_| Err::<u8, String>("never asked".to_string()),
        |_, _, _, _| 1,
    );
    assert_eq!(row, Ok(None));
}
