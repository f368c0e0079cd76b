use raw_node::eraftpb::{ConfChange, ConfChangeType, ConfState};
use raw_node::wire::encode_conf_change;

#[test]
fn empty_conf_change() {
    assert_eq!(encode_conf_change(&ConfChange::default()), Vec::<u8>::new());
}

#[test]
fn full_conf_change() {
    let cc = ConfChange {
        id: 1,
        change_type: ConfChangeType::BeginMembershipChange,
        node_id: 128,
        context: vec![0xaa, 0xbb],
        configuration: Some(ConfState { nodes: vec![1, 300], learners: vec![2] }),
        start_index: u64::MAX,
    };
    assert_eq!(
        encode_conf_change(&cc),
        vec![
            0x08, 0x01, // id
            0x10, 0x03, // change_type
            0x18, 0x80, 0x01, // node_id
            0x22, 0x02, 0xaa, 0xbb, // context
            0x2a, 0x08, // configuration
            0x0a, 0x03, 0x01, 0xac, 0x02, // its nodes
            0x12, 0x01, 0x02, // its learners
            0x30, 0xff, 0xff, 0xff, 0xff, 0xff, 0xff, 0xff, 0xff, 0xff, 0x01, // start_index
        ]
    );
}

#[test]
fn an_empty_configuration_is_not_a_missing_one() {
    let cc = ConfChange {
        configuration: Some(ConfState::default()),
        ..ConfChange::default()
    };
    assert_eq!(encode_conf_change(&cc), vec![0x2a, 0x00]);
}

#[test]
fn every_kind_of_change() {
    let kinds = vec![
        (ConfChangeType::AddNode, vec![]),
        (ConfChangeType::RemoveNode, vec![0x10, 0x01]),
        (ConfChangeType::AddLearnerNode, vec![0x10, 0x02]),
        (ConfChangeType::BeginMembershipChange, vec![0x10, 0x03]),
        (ConfChangeType::FinalizeMembershipChange, vec![0x10, 0x04]),
    ];
    for (change_type, bytes) in kinds {
        let cc = ConfChange { change_type, ..ConfChange::default() };
        assert_eq!(encode_conf_change(&cc), bytes);
    }
}

#[test]
fn long_contexts() {
    let cc = ConfChange { context: vec![7; 200], ..ConfChange::default() };
    let data = encode_conf_change(&cc);
    assert_eq!(&data[..3], &[0x22, 0xc8, 0x01]);
    assert_eq!(&data[3..], vec![7; 200].as_slice());
}

#[test]
fn conf_changes_differ_in_their_bytes() {
    let changes = vec![
        ConfChange::default(),
        ConfChange { id: 1, ..ConfChange::default() },
        ConfChange { node_id: 1, ..ConfChange::default() },
        ConfChange { start_index: 1, ..ConfChange::default() },
        ConfChange { change_type: ConfChangeType::RemoveNode, ..ConfChange::default() },
        ConfChange { context: vec![1], ..ConfChange::default() },
        ConfChange { configuration: Some(ConfState::default()), ..ConfChange::default() },
        ConfChange {
            configuration: Some(ConfState { nodes: vec![1], learners: vec![] }),
            ..ConfChange::default()
        },
        ConfChange {
            configuration: Some(ConfState { nodes: vec![], learners: vec![1] }),
            ..ConfChange::default()
        },
    ];
    for (i, a) in changes.iter().enumerate() {
        for (j, b) in changes.iter().enumerate() {
            assert_eq!(encode_conf_change(a) == encode_conf_change(b), i == j);
        }
    }
}
