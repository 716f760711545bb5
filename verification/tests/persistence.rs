use swww_itch::persistence::{
    insert_or_replace, queue_rows, read_state, replace_rows, replace_with, stored_label,
    write_queue, WriteQueueError,
};
use swww_itch::queue::Queue;
use swww_itch::row_types::{paths_from_rows, LastQueueNameSetting, QueuePathOnly};

fn strings(names: &[&str]) -> Vec<String> {
    names.iter().map(|s| s.to_string()).collect()
}

#[test]
fn rows_carry_their_place_as_playing_order() {
    assert_eq!(
        queue_rows(&strings(&["a", "b", "c"])),
        vec![("a".to_string(), 0), ("b".to_string(), 1), ("c".to_string(), 2)]
    );
    assert!(queue_rows(&vec![]).is_empty());
}

#[test]
fn variant_rows_carry_the_mark_of_the_variant() {
    assert_eq!(
        insert_or_replace(&strings(&["a", "b"]), true),
        vec![("a".to_string(), 0, true), ("b".to_string(), 1, true)]
    );
    assert_eq!(insert_or_replace(&strings(&["n"]), false), vec![("n".to_string(), 0, false)]);
}

#[test]
fn write_without_refusals_succeeds() {
    let queue = strings(&["a", "b", "c"]);
    let outcomes: Vec<Result<(), String>> = vec![Ok(()), Ok(()), Ok(())];
    assert!(write_queue(&queue, outcomes).is_ok());
    assert!(write_queue::<String>(&vec![], vec![]).is_ok());
}

#[test]
fn write_with_one_refusal_reports_it_alone() {
    let queue = strings(&["a", "b", "bad", "d"]);
    let outcomes = vec![Ok(()), Ok(()), Err("constraint".to_string()), Ok(())];
    let report = write_queue(&queue, outcomes).unwrap_err();
    assert_eq!(report.as_vec(), &vec![(2, "bad".to_string(), "constraint".to_string())]);
    assert_eq!(report.to_string(), "WriteQueueError");
    let written: Vec<(String, usize)> = queue_rows(&queue)
        .into_iter()
        .filter(|row| report.as_vec().iter().all(|refused| refused.0 != row.1))
        .collect();
    assert_eq!(
        written,
        vec![("a".to_string(), 0), ("b".to_string(), 1), ("d".to_string(), 3)]
    );
}

#[test]
fn write_goes_on_after_a_refusal() {
    let queue = strings(&["a", "b", "c"]);
    let outcomes = vec![Err(1), Ok(()), Err(3)];
    let report = write_queue(&queue, outcomes).unwrap_err();
    assert_eq!(report.as_vec(), &vec![(0, "a".to_string(), 1), (2, "c".to_string(), 3)]);
}

#[test]
fn report_holds_what_it_was_made_of() {
    let report = WriteQueueError::from(vec![(4, "p".to_string(), 'e')]);
    assert_eq!(report.as_vec(), &vec![(4, "p".to_string(), 'e')]);
}

#[test]
fn stored_label_is_null_for_no_label() {
    assert_eq!(stored_label(&Queue::new(None)), "NULL");
    assert_eq!(stored_label(&Queue::with_name(Some("DAY".to_string()), vec![])), "DAY");
}

#[test]
fn nothing_is_inserted_when_clearing_failed() {
    let q = Queue::new(Some(strings(&["a", "b"])));
    let cleared: Result<u64, String> = Err("busy".to_string());
    assert_eq!(replace_rows(&q, &cleared), None);
    let (name, cleared, inserts) = replace_with(&q, Ok(1), cleared, None);
    assert_eq!(name, Ok(1));
    assert_eq!(cleared, Err("busy".to_string()));
    assert!(inserts.is_none());
}

#[test]
fn rows_are_inserted_after_clearing() {
    let q = Queue::new(Some(strings(&["a", "b"])));
    let cleared: Result<u64, String> = Ok(5);
    assert_eq!(replace_rows(&q, &cleared), Some(vec![("a".to_string(), 0), ("b".to_string(), 1)]));
    let (name, cleared, inserts) =
        replace_with(&q, Err("no settings".to_string()), cleared, Some(vec![Ok(()), Ok(())]));
    assert_eq!(name, Err("no settings".to_string()));
    assert_eq!(cleared, Ok(5));
    assert!(matches!(inserts, Some(Ok(()))));
}

#[test]
fn refused_inserts_are_reported() {
    let q = Queue::new(Some(strings(&["a", "b"])));
    let (_, _, inserts) = replace_with::<u64, String>(
        &q,
        Ok(1),
        Ok(1),
        Some(vec![Ok(()), Err("dup".to_string())]),
    );
    match inserts {
        Some(Err(report)) => {
            assert_eq!(report.as_vec(), &vec![(1, "b".to_string(), "dup".to_string())])
        }
        _ => panic!("the refusal was lost"),
    }
}

#[test]
fn rows_give_their_paths_in_order() {
    let rows = vec![
        QueuePathOnly { path: "x".to_string() },
        QueuePathOnly { path: "y".to_string() },
    ];
    assert_eq!(paths_from_rows(rows), strings(&["x", "y"]));
    assert!(paths_from_rows(vec![]).is_empty());
}

#[test]
fn state_is_read_from_label_and_rows() {
    let q = read_state::<String>(
        Ok(LastQueueNameSetting { string: Some("NIGHT".to_string()) }),
        Ok(vec![QueuePathOnly { path: "n".to_string() }]),
    )
    .unwrap_or_else(|_| unreachable!());
    assert_eq!(q.name(), &Some("NIGHT".to_string()));
    assert_eq!(q.as_vec(), &strings(&["n"]));
    let q = read_state::<String>(Ok(LastQueueNameSetting { string: None }), Ok(vec![]))
        .unwrap_or_else(|_| unreachable!());
    assert_eq!(q.name(), &None);
}

#[test]
fn state_read_fails_with_the_first_failure() {
    let r = read_state(Err("name".to_string()), Err("rows".to_string()));
    assert_eq!(r.err(), Some("name".to_string()));
    let r = read_state(Ok(LastQueueNameSetting { string: None }), Err("rows".to_string()));
    assert_eq!(r.err(), Some("rows".to_string()));
    let r = read_state(Err("name".to_string()), Ok(vec![]));
    assert_eq!(r.err(), Some("name".to_string()));
}
