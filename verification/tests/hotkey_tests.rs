use window_rectangle::hotkey::registered_indices;

#[test]
fn registered_indices_skip_conflicts() {
    let outcomes = vec![true, false, true, true, false];
    assert_eq!(registered_indices(&outcomes), vec![0, 2, 3]);
    assert_eq!(registered_indices(&vec![false, false]), Vec::<usize>::new());
    assert_eq!(registered_indices(&Vec::new()), Vec::<usize>::new());
}
