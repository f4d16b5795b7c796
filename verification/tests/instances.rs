use wayland_color::instances::remove_instance_id;

#[test]
fn removing_takes_every_occurrence() {
    let mut ids = vec![3, 1, 3, 2];
    remove_instance_id(&mut ids, 3);
    assert_eq!(ids, vec![1, 2]);
    remove_instance_id(&mut ids, 9);
    assert_eq!(ids, vec![1, 2]);
}

#[test]
fn adding_and_removing_cancel() {
    let mut ids = vec![1, 2];
    ids.push(7);
    remove_instance_id(&mut ids, 7);
    assert_eq!(ids, vec![1, 2]);
}
