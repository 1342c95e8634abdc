use iris_server::server::queue::ConnectionHandle;
use iris_server::server::registry::ConnectionRegistry;
use tokio::sync::mpsc::error::TryRecvError;
use tokio::sync::mpsc::Receiver;

fn queue(registry: &mut ConnectionRegistry, capacity: usize) -> (ConnectionHandle, Receiver<Vec<u8>>) {
    let (handle, queue) = registry.open_queue(capacity);
    assert_eq!(handle.connection(), queue.connection());
    (handle, queue.into_receiver())
}

fn connection_of(registry: &ConnectionRegistry, user_id: i64) -> Option<u64> {
    registry.get(user_id).map(|handle| handle.connection())
}

#[test]
fn new_registry_is_empty() {
    let registry = ConnectionRegistry::new();
    assert!(!registry.contains(1));
    assert!(registry.get(1).is_none());
    assert!(registry.get_many(&vec![1, 2, 3]).is_empty());
}

#[test]
fn queues_are_numbered_from_zero_and_register_nobody() {
    let mut registry = ConnectionRegistry::new();
    for expected in 0..5 {
        let (handle, queue) = registry.open_queue(3);
        assert_eq!(handle.connection(), expected);
        assert_eq!(queue.connection(), expected);
    }
    assert!(!registry.contains(0));
}

#[test]
fn the_two_sides_of_a_queue_belong_together() {
    let mut registry = ConnectionRegistry::new();
    let (first, mut first_rx) = queue(&mut registry, 2);
    let (second, mut second_rx) = queue(&mut registry, 2);
    first.sender().try_send(vec![1]).unwrap();
    second.sender().try_send(vec![2]).unwrap();
    assert_eq!(first_rx.try_recv(), Ok(vec![1]));
    assert_eq!(second_rx.try_recv(), Ok(vec![2]));
    assert_eq!(first_rx.try_recv(), Err(TryRecvError::Empty));
}

#[test]
fn insert_registers_the_handle() {
    let mut registry = ConnectionRegistry::new();
    let (_unused, _unused_rx) = queue(&mut registry, 4);
    let (tx, mut rx) = queue(&mut registry, 4);
    assert!(registry.insert(10, tx).is_none());
    assert!(registry.contains(10));
    assert!(!registry.contains(11));
    let found = registry.get(10).unwrap();
    assert_eq!(found.connection(), 1);
    found.sender().try_send(vec![1, 2]).unwrap();
    assert_eq!(rx.try_recv(), Ok(vec![1, 2]));
}

#[test]
fn remove_takes_the_user_out() {
    let mut registry = ConnectionRegistry::new();
    let (tx, mut rx) = queue(&mut registry, 4);
    registry.insert(10, tx);
    let removed = registry.remove(10).unwrap();
    assert_eq!(removed.connection(), 0);
    removed.sender().try_send(vec![3]).unwrap();
    assert_eq!(rx.try_recv(), Ok(vec![3]));
    assert!(!registry.contains(10));
    assert!(registry.get(10).is_none());
    assert!(registry.remove(10).is_none());
}

#[test]
fn remove_of_a_stranger_changes_nothing() {
    let mut registry = ConnectionRegistry::new();
    let (tx, _rx) = queue(&mut registry, 4);
    registry.insert(10, tx);
    assert!(registry.remove(11).is_none());
    assert!(registry.contains(10));
    assert_eq!(connection_of(&registry, 10), Some(0));
}

#[test]
fn remove_leaves_the_handles_of_others() {
    let mut registry = ConnectionRegistry::new();
    let (a, _a_rx) = queue(&mut registry, 4);
    let (b, mut b_rx) = queue(&mut registry, 4);
    registry.insert(10, a);
    registry.insert(20, b);
    assert_eq!(registry.remove(10).unwrap().connection(), 0);
    let kept = registry.get(20).unwrap();
    assert_eq!(kept.connection(), 1);
    kept.sender().try_send(vec![9]).unwrap();
    assert_eq!(b_rx.try_recv(), Ok(vec![9]));
}

#[test]
fn last_connection_wins() {
    let mut registry = ConnectionRegistry::new();
    let (first, mut first_rx) = queue(&mut registry, 4);
    let (second, mut second_rx) = queue(&mut registry, 4);
    assert!(registry.insert(10, first).is_none());
    let replaced = registry.insert(10, second).unwrap();
    assert_eq!(replaced.connection(), 0);
    let current = registry.get(10).unwrap();
    assert_eq!(current.connection(), 1);
    current.sender().try_send(vec![7]).unwrap();
    assert_eq!(second_rx.try_recv(), Ok(vec![7]));
    assert_eq!(first_rx.try_recv(), Err(TryRecvError::Empty));
    drop(replaced);
    assert_eq!(first_rx.try_recv(), Err(TryRecvError::Disconnected));
}

#[test]
fn negative_and_zero_ids_are_ids_like_any_other() {
    let mut registry = ConnectionRegistry::new();
    for id in [0, -1, i64::MIN, i64::MAX] {
        let (tx, _rx) = queue(&mut registry, 1);
        registry.insert(id, tx);
    }
    for (connection, id) in [0, -1, i64::MIN, i64::MAX].into_iter().enumerate() {
        assert_eq!(connection_of(&registry, id), Some(connection as u64));
    }
    assert!(!registry.contains(1));
}

#[test]
fn get_many_keeps_order_and_skips_strangers() {
    let mut registry = ConnectionRegistry::new();
    let mut receivers = Vec::new();
    for id in [1, 3, 5] {
        let (tx, rx) = queue(&mut registry, 4);
        registry.insert(id, tx);
        receivers.push((id, rx));
    }
    let found = registry.get_many(&vec![5, 4, 3, 2, 1, 5]);
    let ids: Vec<(i64, u64)> = found.iter().map(|(id, handle)| (*id, handle.connection())).collect();
    assert_eq!(ids, vec![(5, 2), (3, 1), (1, 0), (5, 2)]);
    for (id, handle) in found.iter() {
        handle.sender().try_send(vec![*id as u8]).unwrap();
    }
    for (id, rx) in receivers.iter_mut() {
        assert_eq!(rx.try_recv(), Ok(vec![*id as u8]));
    }
    assert_eq!(receivers[2].1.try_recv(), Ok(vec![5]));
    assert_eq!(receivers[0].1.try_recv(), Err(TryRecvError::Empty));
}

#[test]
fn registry_holds_exactly_the_users_not_removed() {
    let mut registry = ConnectionRegistry::new();
    let users: Vec<i64> = (0..200).collect();
    for (step, id) in users.iter().enumerate() {
        let (tx, _rx) = queue(&mut registry, 1);
        registry.insert(*id, tx);
        if step >= 3 && (step - 3) % 3 == 0 {
            registry.remove(users[step - 3]);
        }
    }
    for id in users.iter().rev() {
        if id % 5 == 0 {
            registry.remove(*id);
        }
    }
    for id in users {
        let removed = (id % 3 == 0 && id + 3 < 200) || id % 5 == 0;
        assert_eq!(registry.contains(id), !removed);
        assert_eq!(connection_of(&registry, id), if removed { None } else { Some(id as u64) });
    }
}

#[test]
fn order_of_distinct_changes_does_not_matter() {
    let orders: Vec<Vec<(bool, i64)>> = vec![
        vec![(true, 1), (true, 2), (true, 3), (false, 2)],
        vec![(true, 2), (false, 2), (true, 3), (true, 1)],
        vec![(true, 3), (true, 2), (true, 1), (false, 2)],
        vec![(true, 2), (true, 1), (false, 2), (true, 3)],
    ];
    for order in orders {
        let mut registry = ConnectionRegistry::new();
        let mut opened = std::collections::HashMap::new();
        for (insert, id) in order {
            if insert {
                let (tx, _rx) = queue(&mut registry, 1);
                opened.insert(id, tx.connection());
                registry.insert(id, tx);
            } else {
                registry.remove(id);
            }
        }
        assert_eq!(connection_of(&registry, 1), Some(opened[&1]));
        assert!(!registry.contains(2));
        assert_eq!(connection_of(&registry, 3), Some(opened[&3]));
    }
}
