use makepad_packaging::probe::names_indicate_makepad;
use makepad_packaging::probe::record_query_result;
use makepad_packaging::probe::vec_has_makepad;
use makepad_packaging::probe::OnceFlag;

#[test]
fn fresh_flag_is_empty() {
    let flag = OnceFlag::new();
    assert_eq!(flag.get(), None);
}

#[test]
fn first_offer_wins_and_is_kept() {
    let mut flag = OnceFlag::new();
    assert_eq!(flag.get_or_set(true), true);
    // The second offer carries the opposite value, standing in for a
    // recomputation; the cached verdict must come back unchanged.
    assert_eq!(flag.get_or_set(false), true);
    assert_eq!(flag.get(), Some(true));
}

#[test]
fn first_offer_wins_for_false_too() {
    let mut flag = OnceFlag::new();
    assert_eq!(flag.get_or_set(false), false);
    assert_eq!(flag.get_or_set(true), false);
    assert_eq!(flag.get(), Some(false));
}

#[test]
fn toolkit_name_is_recognised() {
    let names = vec![
        String::from("serde"),
        String::from("makepad-widgets"),
        String::from("robrix"),
    ];
    assert!(vec_has_makepad(&names));
    assert!(names_indicate_makepad(&Some(names)));
}

#[test]
fn other_names_do_not_count() {
    let names = vec![String::from("makepad"), String::from("makepad_widgets")];
    assert!(!vec_has_makepad(&names));
    assert!(!names_indicate_makepad(&Some(names)));
}

#[test]
fn failed_query_counts_as_absent() {
    assert!(!names_indicate_makepad(&None));
}

#[test]
fn recorded_verdict_is_cached() {
    let mut flag = OnceFlag::new();
    let without = Some(vec![String::from("serde")]);
    let with = Some(vec![String::from("makepad-widgets")]);
    assert_eq!(record_query_result(&mut flag, &without), false);
    // A second query outcome that would change the verdict must be
    // ignored: the first recorded verdict stands for the process.
    assert_eq!(record_query_result(&mut flag, &with), false);
    assert_eq!(flag.get(), Some(false));
}

#[test]
fn recorded_verdict_reads_the_first_outcome() {
    let mut flag = OnceFlag::new();
    let with = Some(vec![String::from("makepad-widgets")]);
    assert_eq!(record_query_result(&mut flag, &with), true);
    assert_eq!(record_query_result(&mut flag, &None), true);
    assert_eq!(flag.get(), Some(true));
}
