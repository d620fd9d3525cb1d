use lbug::callbacks::CellFailure;
use lbug::hooks::{
    abort_on_panic, create_cb, drop_cb, insert_row_cb, locate_cb, LocateAnswer, PanicPayload,
};

#[test]
fn returned_callbacks_go_on() {
    assert_eq!(abort_on_panic("insert_row", Ok(())), None);
    assert_eq!(create_cb(Ok(())), None);
    assert_eq!(drop_cb(Ok(())), None);
    assert_eq!(insert_row_cb(Ok(Ok(()))), None);
}

#[test]
fn panic_reports_name_callback_and_message() {
    assert_eq!(
        create_cb(Err(PanicPayload::Text("boom".to_string()))),
        Some(
            "ladybug routing callback panicked in on_partition_create: boom; aborting".to_string()
        )
    );
    assert_eq!(
        drop_cb(Err(PanicPayload::Literal("gone"))),
        Some("ladybug routing callback panicked in on_partition_drop: gone; aborting".to_string())
    );
    assert_eq!(
        insert_row_cb(Err(PanicPayload::Opaque)),
        Some("ladybug routing callback panicked in insert_row: unknown panic; aborting".to_string())
    );
    assert_eq!(
        abort_on_panic("here", Err(PanicPayload::Literal(""))),
        Some("ladybug routing callback panicked in here: ; aborting".to_string())
    );
}

#[test]
fn undecodable_cell_is_reported_with_its_position() {
    for (index, digits) in [(0, "0"), (9, "9"), (10, "10"), (1203, "1203")] {
        assert_eq!(
            insert_row_cb(Ok(Err(CellFailure { index, reason: "unsupported".to_string() }))),
            Some(format!(
                "ladybug routing: cannot decode routed cell {digits}: unsupported; aborting"
            ))
        );
    }
    let largest = insert_row_cb(Ok(Err(CellFailure { index: usize::MAX, reason: String::new() })));
    assert_eq!(
        largest,
        Some(format!("ladybug routing: cannot decode routed cell {}: ; aborting", usize::MAX))
    );
}

#[test]
fn placements_are_answered_verbatim() {
    assert_eq!(locate_cb(Ok(None)), Ok(LocateAnswer { claimed: 0, handle: None }));
    for handle in [0, 1, 0xC0FFEE, u64::MAX] {
        assert_eq!(
            locate_cb(Ok(Some(handle))),
            Ok(LocateAnswer { claimed: 1, handle: Some(handle) })
        );
    }
}

#[test]
fn panicking_locate_aborts() {
    assert_eq!(
        locate_cb(Err(PanicPayload::Literal("no placement"))),
        Err("ladybug routing callback panicked in locate: no placement; aborting".to_string())
    );
}
