use parlab::rebuild::needs_rebuild;

#[test]
fn missing_output_is_rebuilt() {
    assert_eq!(needs_rebuild(None, &[]), Some(true));
    assert_eq!(needs_rebuild(None, &[Some(1), Some(2), Some(3)]), Some(true));
    assert_eq!(needs_rebuild(None, &[None]), Some(true));
}

#[test]
fn existing_output_without_inputs_is_kept() {
    assert_eq!(needs_rebuild(Some(100), &[]), Some(false));
}

#[test]
fn newer_input_forces_rebuild() {
    assert_eq!(needs_rebuild(Some(100), &[Some(50), Some(101), Some(20)]), Some(true));
}

#[test]
fn equally_old_input_does_not() {
    assert_eq!(needs_rebuild(Some(100), &[Some(100), Some(99), Some(-5)]), Some(false));
}

#[test]
fn times_before_the_reference_instant() {
    assert_eq!(needs_rebuild(Some(-10), &[Some(-9)]), Some(true));
    assert_eq!(needs_rebuild(Some(-10), &[Some(-11)]), Some(false));
}

#[test]
fn unreadable_input_before_a_newer_one_is_undecided() {
    assert_eq!(needs_rebuild(Some(100), &[Some(50), None, Some(200)]), None);
    assert_eq!(needs_rebuild(Some(100), &[None]), None);
}

#[test]
fn unreadable_input_after_a_newer_one_is_never_looked_at() {
    assert_eq!(needs_rebuild(Some(100), &[Some(150), None]), Some(true));
}
