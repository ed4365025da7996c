use spacies::folder::{add_members, holds, plan_add_request, plan_additions, plan_remove_request, remove_member};

#[test]
fn plan_skips_members_and_repeats() {
    let members: Vec<i32> = vec![1, 4];
    let requested: Vec<i32> = vec![1, 2, 2, 3, 4, 3];
    assert_eq!(plan_additions(&members, &requested), vec![2, 3]);
}

#[test]
fn plan_on_empty_request_adds_nobody() {
    let members: Vec<i32> = vec![5];
    assert_eq!(plan_additions(&members, &Vec::new()), Vec::<i32>::new());
}

#[test]
fn plan_on_empty_folder_keeps_first_occurrences() {
    let requested: Vec<i32> = vec![9, 7, 9, 8, 7];
    assert_eq!(plan_additions(&Vec::new(), &requested), vec![9, 7, 8]);
}

#[test]
fn plan_handles_extreme_ids() {
    let requested: Vec<i32> = vec![i32::MIN, i32::MAX, i32::MIN, 0];
    assert_eq!(plan_additions(&vec![0], &requested), vec![i32::MIN, i32::MAX]);
}

#[test]
fn re_adding_the_same_users_changes_nothing() {
    let mut members: Vec<i32> = vec![1];
    let requested: Vec<i32> = vec![2, 1, 3, 2];
    add_members(&mut members, &requested);
    assert_eq!(members, vec![1, 2, 3]);
    add_members(&mut members, &requested);
    assert_eq!(members, vec![1, 2, 3]);
    assert!(plan_additions(&members, &requested).is_empty());
}

#[test]
fn removing_a_non_member_changes_nothing() {
    let mut members: Vec<i32> = vec![1, 2, 3];
    remove_member(&mut members, 7);
    assert_eq!(members, vec![1, 2, 3]);
}

#[test]
fn removing_a_member_keeps_the_others_in_order() {
    let mut members: Vec<i32> = vec![4, 2, 4, 3];
    remove_member(&mut members, 4);
    assert_eq!(members, vec![2, 3]);
    assert!(!holds(&members, 4));
}

#[test]
fn holds_finds_members() {
    let members: Vec<i32> = vec![3, 1, 2];
    assert!(holds(&members, 2));
    assert!(!holds(&members, 5));
    assert!(!holds(&Vec::new(), 0));
}

#[test]
fn non_admin_add_is_refused() {
    let r = plan_add_request(false, &vec![1], &vec![2, 3]);
    let e = r.unwrap_err();
    assert!(!e.success);
    assert_eq!(e.message, "only admin allowed to add users to folder");
}

#[test]
fn admin_add_plans_the_new_members() {
    let r = plan_add_request(true, &vec![1], &vec![2, 1, 2]);
    assert_eq!(r.ok(), Some(vec![2]));
}

#[test]
fn non_admin_remove_is_refused() {
    let e = plan_remove_request(false, &vec![1], 1).unwrap_err();
    assert!(!e.success);
    assert_eq!(e.message, "only admin allowed to add users to folder");
}

#[test]
fn admin_remove_deletes_only_members() {
    assert_eq!(plan_remove_request(true, &vec![1, 2], 2).ok(), Some(true));
    assert_eq!(plan_remove_request(true, &vec![1, 2], 5).ok(), Some(false));
}
