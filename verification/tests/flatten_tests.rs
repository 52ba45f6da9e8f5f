use unarch::flatten::plan_flatten;
use unarch::flatten::FlattenPlan;

fn names(v: &[&str]) -> Vec<String> {
    v.iter().map(|s| s.to_string()).collect()
}

#[test]
fn single_entry_with_free_name_promotes_in_place() {
    let plan = plan_flatten("t", &names(&["x"]), &names(&["t"]), 1);
    match plan {
        Some(FlattenPlan::Promote { dest }) => assert_eq!(dest, "x"),
        other => panic!("expected a promotion, got {:?}", other),
    }
}

#[test]
fn entry_named_like_the_target_needs_the_rename_dance() {
    let plan = plan_flatten("t", &names(&["t"]), &names(&["t"]), 42);
    match plan {
        Some(FlattenPlan::Dance { temp }) => assert_eq!(temp, "t.tmp.42"),
        other => panic!("expected the rename dance, got {:?}", other),
    }
}

#[test]
fn collision_with_unrelated_sibling_takes_a_numeric_suffix() {
    let plan = plan_flatten("t", &names(&["x"]), &names(&["t", "x"]), 7);
    match plan {
        Some(FlattenPlan::Promote { dest }) => assert_eq!(dest, "x1"),
        other => panic!("expected a suffixed promotion, got {:?}", other),
    }
}

#[test]
fn probe_skips_taken_candidates() {
    let plan = plan_flatten("t", &names(&["x"]), &names(&["t", "x", "x1", "x2"]), 7);
    match plan {
        Some(FlattenPlan::Promote { dest }) => assert_eq!(dest, "x3"),
        other => panic!("expected a suffixed promotion, got {:?}", other),
    }
}

#[test]
fn probe_counts_in_decimal_past_nine() {
    let mut siblings = vec!["t".to_string(), "x".to_string()];
    for i in 1..=11 {
        siblings.push(format!("x{}", i));
    }
    let plan = plan_flatten("t", &names(&["x"]), &siblings, 7);
    match plan {
        Some(FlattenPlan::Promote { dest }) => assert_eq!(dest, "x12"),
        other => panic!("expected a suffixed promotion, got {:?}", other),
    }
}

#[test]
fn exhausted_probe_falls_back_to_the_base_name() {
    let mut siblings = vec!["t".to_string(), "x".to_string()];
    for i in 1..=99 {
        siblings.push(format!("x{}", i));
    }
    let plan = plan_flatten("t", &names(&["x"]), &siblings, 7);
    match plan {
        Some(FlattenPlan::Promote { dest }) => assert_eq!(dest, "x"),
        other => panic!("expected the last-resort promotion, got {:?}", other),
    }
}

#[test]
fn no_entries_means_nothing_to_flatten() {
    assert!(plan_flatten("t", &names(&[]), &names(&["t"]), 1).is_none());
}

#[test]
fn several_entries_mean_nothing_to_flatten() {
    assert!(plan_flatten("t", &names(&["a", "b"]), &names(&["t"]), 1).is_none());
}

#[test]
fn temporary_name_carries_the_process_id() {
    let plan = plan_flatten("out", &names(&["out"]), &names(&["out"]), 0);
    match plan {
        Some(FlattenPlan::Dance { temp }) => assert_eq!(temp, "out.tmp.0"),
        other => panic!("expected the rename dance, got {:?}", other),
    }
    let plan = plan_flatten("out", &names(&["out"]), &names(&["out"]), u64::MAX);
    match plan {
        Some(FlattenPlan::Dance { temp }) => {
            assert_eq!(temp, "out.tmp.18446744073709551615")
        },
        other => panic!("expected the rename dance, got {:?}", other),
    }
}
