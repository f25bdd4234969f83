use agent_pull::addr::IpAddress;
use agent_pull::error::PullError;
use agent_pull::limiter::{ConnectionPermit, MaxConnectionsGuard};

const HERE: IpAddress = IpAddress::V4(0x7f00_0001);
const THERE: IpAddress = IpAddress::V6(1);

fn take(guard: &mut MaxConnectionsGuard, addr: IpAddress, n: usize) -> Vec<ConnectionPermit> {
    (0..n).map(|_| guard.try_make_task_for_addr(addr).unwrap()).collect()
}

#[test]
fn a_new_guard_has_seen_nobody() {
    let guard = MaxConnectionsGuard::new(3);
    assert_eq!(guard.max_connections(), 3);
    assert_eq!(guard.active_connections(&HERE), 0);
    assert_eq!(guard.active_connections(&THERE), 0);
}

#[test]
fn exactly_the_limit_is_admitted() {
    for limit in [1usize, 2, 3, 7] {
        let mut guard = MaxConnectionsGuard::new(limit);
        let permits = take(&mut guard, HERE, limit);
        assert_eq!(permits.len(), limit);
        assert_eq!(guard.active_connections(&HERE), limit);
        assert_eq!(
            guard.try_make_task_for_addr(HERE).unwrap_err(),
            PullError::TooManyConnections
        );
        assert_eq!(
            guard.try_make_task_for_addr(HERE).unwrap_err(),
            PullError::TooManyConnections
        );
        assert_eq!(guard.active_connections(&HERE), limit);
    }
}

#[test]
fn a_permit_names_its_address() {
    let mut guard = MaxConnectionsGuard::new(1);
    assert_eq!(guard.try_make_task_for_addr(THERE).unwrap().addr(), THERE);
    assert_eq!(guard.try_make_task_for_addr(HERE).unwrap().addr(), HERE);
}

#[test]
fn a_release_makes_room_for_one_more() {
    let mut guard = MaxConnectionsGuard::new(3);
    let mut permits = take(&mut guard, HERE, 3);
    assert!(guard.try_make_task_for_addr(HERE).is_err());
    guard.release(permits.remove(1));
    assert_eq!(guard.active_connections(&HERE), 2);
    let again = guard.try_make_task_for_addr(HERE).unwrap();
    assert_eq!(guard.active_connections(&HERE), 3);
    assert!(guard.try_make_task_for_addr(HERE).is_err());
    guard.release(again);
    for permit in permits {
        guard.release(permit);
    }
    assert_eq!(guard.active_connections(&HERE), 0);
    assert_eq!(take(&mut guard, HERE, 3).len(), 3);
}

#[test]
fn addresses_have_limits_of_their_own() {
    let mut guard = MaxConnectionsGuard::new(2);
    let here = take(&mut guard, HERE, 2);
    assert!(guard.try_make_task_for_addr(HERE).is_err());
    assert_eq!(guard.active_connections(&THERE), 0);
    let there = take(&mut guard, THERE, 2);
    assert!(guard.try_make_task_for_addr(THERE).is_err());
    assert_eq!(guard.active_connections(&HERE), 2);
    assert_eq!(guard.active_connections(&THERE), 2);
    for permit in there {
        guard.release(permit);
    }
    assert_eq!(guard.active_connections(&HERE), 2);
    assert!(guard.try_make_task_for_addr(HERE).is_err());
    assert!(guard.try_make_task_for_addr(THERE).is_ok());
    drop(here);
}

#[test]
fn the_same_bits_in_two_families_are_two_addresses() {
    let mut guard = MaxConnectionsGuard::new(1);
    assert!(guard.try_make_task_for_addr(IpAddress::V4(1)).is_ok());
    assert!(guard.try_make_task_for_addr(IpAddress::V6(1)).is_ok());
    assert!(guard.try_make_task_for_addr(IpAddress::V4(1)).is_err());
    assert!(guard.try_make_task_for_addr(IpAddress::V6(1)).is_err());
}

#[test]
fn a_limit_of_zero_admits_nobody() {
    let mut guard = MaxConnectionsGuard::new(0);
    assert_eq!(guard.try_make_task_for_addr(HERE).unwrap_err(), PullError::TooManyConnections);
    assert_eq!(guard.active_connections(&HERE), 0);
}

#[test]
fn a_release_never_counts_below_zero() {
    let mut first = MaxConnectionsGuard::new(2);
    let mut second = MaxConnectionsGuard::new(2);
    let permit = first.try_make_task_for_addr(HERE).unwrap();
    second.release(permit);
    assert_eq!(second.active_connections(&HERE), 0);
    assert_eq!(take(&mut second, HERE, 2).len(), 2);
    assert!(second.try_make_task_for_addr(HERE).is_err());
}

#[test]
fn the_largest_limit_counts_without_overflow() {
    let mut guard = MaxConnectionsGuard::new(usize::MAX);
    let permits = take(&mut guard, HERE, 100);
    assert_eq!(guard.active_connections(&HERE), 100);
    drop(permits);
}
