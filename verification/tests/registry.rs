use rsmf::registry::{find_model_index, ModelRegistry};

#[test]
fn registry_hands_out_fresh_ids_from_one() {
    let mut reg = ModelRegistry::new();
    assert_eq!(reg.next_id(), 1);
    let a = reg.register(false);
    let b = reg.register(true);
    let c = reg.register(false);
    assert_eq!((a, b, c), (1, 2, 3));
    assert_eq!(reg.next_id(), 4);
}

#[test]
fn registered_models_are_found_in_their_own_list() {
    let mut reg = ModelRegistry::new();
    let dense0 = reg.register(false);
    let moe0 = reg.register(true);
    let dense1 = reg.register(false);
    assert_eq!(reg.find_dense(dense0), Some(0));
    assert_eq!(reg.find_dense(dense1), Some(1));
    assert_eq!(reg.find_moe(moe0), Some(0));
    assert_eq!(reg.find_dense(moe0), None);
    assert_eq!(reg.find_moe(dense1), None);
    assert_eq!(reg.find_dense(42), None);
}

#[test]
fn find_model_index_returns_first_match() {
    assert_eq!(find_model_index(&vec![5, 7, 7, 9], 7), Some(1));
    assert_eq!(find_model_index(&vec![5, 7, 9], 9), Some(2));
    assert_eq!(find_model_index(&vec![], 1), None);
    assert_eq!(find_model_index(&vec![5, 7, 9], 8), None);
}
