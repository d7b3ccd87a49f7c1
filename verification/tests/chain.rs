use snake_chain::chain::{node_radials_valid, REQUIRED_NODE_COUNT};

#[test]
fn exact_count_is_accepted() {
    let radials: Vec<i16> = vec![64, 64, 68, 68, 66, 64, 62, 60, 60, 56];
    assert_eq!(radials.len(), REQUIRED_NODE_COUNT);
    assert!(node_radials_valid(&radials));
}

#[test]
fn empty_list_is_rejected() {
    let radials: Vec<i16> = vec![];
    assert!(!node_radials_valid(&radials));
}

#[test]
fn short_list_is_rejected() {
    let radials: Vec<i16> = vec![32, 32, 32, 32, 32, 32, 32, 32, 32];
    assert!(!node_radials_valid(&radials));
}

#[test]
fn long_list_is_rejected() {
    let radials: Vec<i16> = vec![32, 32, 32, 32, 32, 32, 32, 32, 32, 32, 32];
    assert!(!node_radials_valid(&radials));
}

#[test]
fn double_count_is_rejected() {
    let radials: Vec<i16> = vec![
        32, 32, 32, 32, 32, 32, 32, 32, 32, 32, 32, 32, 32, 32, 32, 32, 32, 32, 32, 32,
    ];
    assert!(!node_radials_valid(&radials));
}
