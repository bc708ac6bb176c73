use signal_hub::directory::SessionDirectory;
use signal_hub::groups::GroupTable;
use signal_hub::message::{ClientId, Envelope, Payload};

fn sorted(mut ids: Vec<ClientId>) -> Vec<ClientId> {
    ids.sort();
    ids
}

#[test]
fn directory_starts_empty() {
    let dir: SessionDirectory<u32> = SessionDirectory::new();
    assert_eq!(dir.lookup(1), None);
    assert_eq!(dir.lookup(0), None);
    assert_eq!(dir.lookup(u128::MAX), None);
}

#[test]
fn directory_register_then_lookup() {
    let mut dir: SessionDirectory<u32> = SessionDirectory::new();
    dir.register(7, 70);
    dir.register(8, 80);
    assert_eq!(dir.lookup(7), Some(&70));
    assert_eq!(dir.lookup(8), Some(&80));
    assert_eq!(dir.lookup(9), None);
}

#[test]
fn directory_register_twice_keeps_last_handle() {
    let mut dir: SessionDirectory<String> = SessionDirectory::new();
    dir.register(7, String::from("first"));
    dir.register(7, String::from("second"));
    assert_eq!(dir.lookup(7), Some(&String::from("second")));
}

#[test]
fn directory_remove_deletes_only_that_entry() {
    let mut dir: SessionDirectory<u32> = SessionDirectory::new();
    dir.register(7, 70);
    dir.register(8, 80);
    dir.remove(7);
    assert_eq!(dir.lookup(7), None);
    assert_eq!(dir.lookup(8), Some(&80));
}

#[test]
fn directory_remove_of_absent_entry_changes_nothing() {
    let mut dir: SessionDirectory<u32> = SessionDirectory::new();
    dir.register(8, 80);
    dir.remove(7);
    dir.remove(7);
    assert_eq!(dir.lookup(7), None);
    assert_eq!(dir.lookup(8), Some(&80));
}

#[test]
fn directory_register_after_remove_is_a_fresh_entry() {
    let mut dir: SessionDirectory<u32> = SessionDirectory::new();
    dir.register(7, 70);
    dir.remove(7);
    dir.register(7, 71);
    assert_eq!(dir.lookup(7), Some(&71));
}

#[test]
fn groups_start_empty() {
    let table = GroupTable::new();
    assert_eq!(table.members_of(1), Vec::<ClientId>::new());
}

#[test]
fn groups_add_member_creates_the_group() {
    let mut table = GroupTable::new();
    table.add_member(100, 1);
    assert_eq!(table.members_of(100), vec![1]);
    assert_eq!(table.members_of(1), Vec::<ClientId>::new());
}

#[test]
fn groups_add_member_twice_is_idempotent() {
    let mut table = GroupTable::new();
    table.add_member(100, 1);
    table.add_member(100, 1);
    assert_eq!(table.members_of(100), vec![1]);
}

#[test]
fn groups_hold_several_members_and_several_hosts() {
    let mut table = GroupTable::new();
    table.add_member(100, 1);
    table.add_member(100, 2);
    table.add_member(100, 3);
    table.add_member(200, 2);
    assert_eq!(sorted(table.members_of(100)), vec![1, 2, 3]);
    assert_eq!(table.members_of(200), vec![2]);
}

#[test]
fn groups_remove_member_returns_the_rest() {
    let mut table = GroupTable::new();
    table.add_member(100, 1);
    table.add_member(100, 2);
    table.add_member(100, 3);
    let remaining = table.remove_member_everywhere(1, Some(100));
    assert_eq!(sorted(remaining), vec![2, 3]);
    assert_eq!(sorted(table.members_of(100)), vec![2, 3]);
}

#[test]
fn groups_remove_member_without_host_is_a_no_op() {
    let mut table = GroupTable::new();
    table.add_member(100, 1);
    table.add_member(100, 2);
    let remaining = table.remove_member_everywhere(1, None);
    assert_eq!(remaining, Vec::<ClientId>::new());
    assert_eq!(sorted(table.members_of(100)), vec![1, 2]);
}

#[test]
fn groups_remove_member_touches_the_named_host_only() {
    let mut table = GroupTable::new();
    table.add_member(100, 1);
    table.add_member(200, 1);
    table.add_member(200, 5);
    let remaining = table.remove_member_everywhere(1, Some(100));
    assert_eq!(remaining, Vec::<ClientId>::new());
    assert_eq!(table.members_of(100), Vec::<ClientId>::new());
    assert_eq!(sorted(table.members_of(200)), vec![1, 5]);
}

#[test]
fn groups_remove_member_under_unknown_host_is_a_no_op() {
    let mut table = GroupTable::new();
    table.add_member(100, 1);
    let remaining = table.remove_member_everywhere(1, Some(300));
    assert_eq!(remaining, Vec::<ClientId>::new());
    assert_eq!(table.members_of(100), vec![1]);
    assert_eq!(table.members_of(300), Vec::<ClientId>::new());
}

#[test]
fn groups_remove_of_a_non_member_returns_all_members() {
    let mut table = GroupTable::new();
    table.add_member(100, 1);
    table.add_member(100, 2);
    let remaining = table.remove_member_everywhere(9, Some(100));
    assert_eq!(sorted(remaining), vec![1, 2]);
    assert_eq!(sorted(table.members_of(100)), vec![1, 2]);
}

#[test]
fn groups_remove_last_member_leaves_a_usable_empty_group() {
    let mut table = GroupTable::new();
    table.add_member(100, 1);
    let remaining = table.remove_member_everywhere(1, Some(100));
    assert_eq!(remaining, Vec::<ClientId>::new());
    assert_eq!(table.members_of(100), Vec::<ClientId>::new());
    table.add_member(100, 2);
    assert_eq!(table.members_of(100), vec![2]);
}

#[test]
fn join_host_of_a_successful_join_is_the_sender() {
    let envelope = Envelope { from: Some(100), to: 1, content: Payload::JoinResult { ok: true } };
    assert_eq!(envelope.join_host(), Some(100));
}

#[test]
fn join_host_of_a_failed_join_is_none() {
    let envelope = Envelope { from: Some(100), to: 1, content: Payload::JoinResult { ok: false } };
    assert_eq!(envelope.join_host(), None);
}

#[test]
fn join_host_without_sender_is_none() {
    let envelope = Envelope { from: None, to: 1, content: Payload::JoinResult { ok: true } };
    assert_eq!(envelope.join_host(), None);
}

#[test]
fn join_host_of_other_payloads_is_none() {
    let offline = Envelope { from: Some(100), to: 1, content: Payload::Offline { client_id: 3 } };
    assert_eq!(offline.join_host(), None);
    let signal = Envelope { from: Some(100), to: 1, content: Payload::Signal { body: vec![1, 2, 3] } };
    assert_eq!(signal.join_host(), None);
}

#[test]
fn offline_notice_comes_from_the_hub() {
    let notice = Envelope::offline(2, 1);
    assert_eq!(notice, Envelope { from: None, to: 2, content: Payload::Offline { client_id: 1 } });
}
