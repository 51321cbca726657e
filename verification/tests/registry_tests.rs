use pahserver::fairness::{Energy, Priority, SessionError};
use pahserver::permuter::{Permuter, PermuterData};
use pahserver::registry::Registry;
use pahserver::session::{handle_message, register_batch, ClientMessage, Submission};

fn sample_permuter() -> Permuter {
    Permuter {
        data: PermuterData {
            source: "int g(void) { return 0; }".to_string(),
            target_o_bin: vec![0, 1, 2, 3],
        },
        work_queue: Vec::new(),
        result_queue: Vec::new(),
        stale: false,
        priority: Priority { num: 1, den: 1 },
        energy_add: Energy { num: 1, den: 1 },
    }
}

#[test]
fn allocate_id_is_strictly_increasing() {
    let mut reg = Registry::new();
    let a = reg.allocate_id();
    let b = reg.allocate_id();
    let c = reg.allocate_id();
    assert_eq!((a, b, c), (0, 1, 2));
    assert_eq!(reg.next_permuter_id, 3);
    assert_eq!(reg.len(), 0);
}

#[test]
fn insert_then_remove_round_trips() {
    let mut reg = Registry::new();
    let id = reg.allocate_id();
    reg.insert(id, sample_permuter());
    assert!(reg.contains(id));
    assert_eq!(reg.len(), 1);
    let q = reg.remove(id).expect("entry was present");
    assert_eq!(q.data.target_o_bin, vec![0, 1, 2, 3]);
    assert!(!reg.contains(id));
    assert_eq!(reg.len(), 0);
    // removing an absent identifier is a no-op, not an error
    assert!(reg.remove(id).is_none());
}

#[test]
fn lookup_finds_only_registered_entries() {
    let mut reg = Registry::new();
    let id = reg.allocate_id();
    reg.insert(id, sample_permuter());
    assert!(reg.get(id).is_some());
    assert!(reg.get(id + 1).is_none());
}

/// A message for an identifier the connection owns but whose entry was
/// already removed (a race with supervisory cleanup) is a quiet no-op.
#[test]
fn message_after_cleanup_race_is_a_noop() {
    let mut reg = Registry::new();
    let sub = Submission {
        permuters: vec![PermuterData {
            source: "int f(void) { return 1; }".to_string(),
            target_o_bin: vec![1],
        }],
        priority: Priority { num: 1, den: 1 },
    };
    let mine = register_batch(&mut reg, sub).unwrap();
    reg.remove(mine[0]);
    let r = handle_message(
        &mut reg,
        &mine,
        ClientMessage::SubmitResult {
            perm_id: mine[0],
            result: b"late".to_vec(),
        },
    );
    assert_eq!(r, Ok(()));
    assert_eq!(reg.len(), 0);

    let r = handle_message(
        &mut reg,
        &mine,
        ClientMessage::UpdateTask {
            perm_id: mine[0],
            source: "int f(void) { return 2; }".to_string(),
            target_o_bin: vec![2],
        },
    );
    assert_eq!(r, Ok(()));
    assert_eq!(reg.len(), 0);
}

/// An unowned task update is rejected just like an unowned result.
#[test]
fn unowned_update_is_a_protocol_error() {
    let mut reg = Registry::new();
    let sub = Submission {
        permuters: vec![PermuterData {
            source: "int f(void) { return 1; }".to_string(),
            target_o_bin: vec![1],
        }],
        priority: Priority { num: 1, den: 1 },
    };
    let mine = register_batch(&mut reg, sub).unwrap();
    let r = handle_message(
        &mut reg,
        &mine,
        ClientMessage::UpdateTask {
            perm_id: 999,
            source: "int f(void) { return 3; }".to_string(),
            target_o_bin: vec![3],
        },
    );
    assert_eq!(r, Err(SessionError::Protocol));
    let q = reg.get(mine[0]).unwrap();
    assert!(!q.stale);
    assert_eq!(q.data.target_o_bin, vec![1]);
}
