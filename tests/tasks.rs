use hypertask::{Id, Mutation, Prop, Query, Recur, Sign, Tag, Task};

const T0: i64 = 1_600_000_000;
const DAY: i64 = 86_400;

fn task_at(now: i64) -> Task {
    Task::generate(now, Id::new("23456789abcdefgh"))
}

fn tag(sign: Sign, name: &str) -> Tag {
    Tag::new(sign, name)
}

fn with_tags(names: &[&str]) -> Task {
    let mut t = task_at(T0);
    let ms: Vec<Mutation> = names.iter().map(|n| Mutation::SetTag(tag(Sign::Plus, n))).collect();
    t.apply_mutations(&ms, T0);
    t
}

#[test]
fn generate_sets_times_and_nothing_else() {
    let t = task_at(T0);
    assert_eq!(*t.get_created_at(), T0);
    assert_eq!(*t.get_updated_at(), T0);
    assert!(t.get_description().is_none());
    assert!(t.get_done().is_none());
    assert!(t.get_due().is_none());
    assert!(t.get_recur().is_none());
    assert!(t.get_snooze().is_none());
    assert!(t.get_wait().is_none());
    assert!(t.get_tags().is_empty());
    assert_eq!(t.get_id().as_str(), "23456789abcdefgh");
}

#[test]
fn empty_queries_select_nothing() {
    assert!(!task_at(T0).satisfies_queries(&[]));
    assert!(!with_tags(&["x"]).satisfies_queries(&[]));
}

#[test]
fn lone_plus_tag_selects_tagged() {
    let q = vec![Query::Tag(tag(Sign::Plus, "x"))];
    assert!(with_tags(&["x"]).satisfies_queries(&q));
    assert!(!with_tags(&["y"]).satisfies_queries(&q));
    assert!(!task_at(T0).satisfies_queries(&q));
}

#[test]
fn lone_minus_tag_selects_untagged() {
    let q = vec![Query::Tag(tag(Sign::Minus, "x"))];
    assert!(!with_tags(&["x"]).satisfies_queries(&q));
    assert!(with_tags(&["y"]).satisfies_queries(&q));
    assert!(task_at(T0).satisfies_queries(&q));
}

#[test]
fn id_query_matches_prefix() {
    let q = vec![Query::Id(Id::new("2345"))];
    assert!(task_at(T0).satisfies_queries(&q));
    let q = vec![Query::Id(Id::new("zzzz"))];
    assert!(!task_at(T0).satisfies_queries(&q));
}

#[test]
fn minus_veto_comes_before_later_plus() {
    let t = with_tags(&["a", "b"]);
    let q = vec![Query::Tag(tag(Sign::Minus, "a")), Query::Tag(tag(Sign::Plus, "b"))];
    assert!(!t.satisfies_queries(&q));
}

#[test]
fn plus_match_comes_before_later_veto() {
    let t = with_tags(&["a", "b"]);
    let q = vec![Query::Tag(tag(Sign::Plus, "b")), Query::Tag(tag(Sign::Minus, "a"))];
    assert!(t.satisfies_queries(&q));
}

#[test]
fn absent_minus_then_present_minus_rejects() {
    let t = with_tags(&["a"]);
    let q = vec![Query::Tag(tag(Sign::Minus, "z")), Query::Tag(tag(Sign::Minus, "a"))];
    assert!(!t.satisfies_queries(&q));
}

#[test]
fn absent_minus_then_unmatched_plus_accepts() {
    let t = with_tags(&["a"]);
    let q = vec![Query::Tag(tag(Sign::Minus, "z")), Query::Tag(tag(Sign::Plus, "q"))];
    assert!(t.satisfies_queries(&q));
}

#[test]
fn set_tag_plus_is_idempotent_and_minus_removes() {
    let mut t = task_at(T0);
    t.apply_mutation(&Mutation::SetTag(tag(Sign::Plus, "x")), T0 + 1);
    t.apply_mutation(&Mutation::SetTag(tag(Sign::Plus, "x")), T0 + 2);
    assert_eq!(t.get_tags().len(), 1);
    assert!(t.has_tag(&"x".to_string()));
    t.apply_mutation(&Mutation::SetTag(tag(Sign::Minus, "x")), T0 + 3);
    assert!(!t.has_tag(&"x".to_string()));
    t.apply_mutation(&Mutation::SetTag(tag(Sign::Minus, "x")), T0 + 4);
    assert!(t.get_tags().is_empty());
    assert_eq!(*t.get_updated_at(), T0 + 4);
}

#[test]
fn updated_at_refreshes_without_change() {
    let mut t = task_at(T0);
    t.apply_mutation(&Mutation::SetProp(Prop::Blocked(None)), T0 + 50);
    assert_eq!(*t.get_updated_at(), T0 + 50);
    assert_eq!(*t.get_created_at(), T0);
}

#[test]
fn description_and_dates_overwrite_and_clear() {
    let mut t = task_at(T0);
    let ms = vec![
        Mutation::SetProp(Prop::Description("first".to_string())),
        Mutation::SetProp(Prop::Description("second".to_string())),
        Mutation::SetProp(Prop::Due(Some(T0 + DAY))),
        Mutation::SetProp(Prop::Wait(Some(T0 + 5))),
        Mutation::SetProp(Prop::Snooze(Some(T0 + 6))),
        Mutation::SetProp(Prop::Snooze(None)),
    ];
    t.apply_mutations(&ms, T0 + 9);
    assert_eq!(t.get_description().as_deref(), Some("second"));
    assert_eq!(*t.get_due(), Some(T0 + DAY));
    assert_eq!(*t.get_wait(), Some(T0 + 5));
    assert_eq!(*t.get_snooze(), None);
    assert_eq!(*t.get_updated_at(), T0 + 9);
}

#[test]
fn done_without_rule_sets_done() {
    let mut t = task_at(T0);
    t.apply_mutation(&Mutation::SetProp(Prop::Done(T0 + 7)), T0 + 8);
    assert_eq!(*t.get_done(), Some(T0 + 7));
    assert_eq!(*t.get_updated_at(), T0 + 8);
}

#[test]
fn done_with_rule_reschedules() {
    let mut t = task_at(T0);
    let ms = vec![
        Mutation::SetProp(Prop::Recur(Some(Recur::Week(2)))),
        Mutation::SetProp(Prop::Due(Some(T0))),
        Mutation::SetProp(Prop::Wait(Some(T0 - DAY))),
        Mutation::SetProp(Prop::Done(T0 + 1)),
    ];
    t.apply_mutations(&ms, T0 + 1);
    assert_eq!(*t.get_done(), None);
    assert_eq!(*t.get_due(), Some(T0 + 14 * DAY));
    assert_eq!(*t.get_wait(), Some(T0 + 13 * DAY));
}

#[test]
fn done_with_rule_leaves_unset_dates_unset() {
    let mut t = task_at(T0);
    t.apply_mutation(&Mutation::SetProp(Prop::Recur(Some(Recur::Day(1)))), T0);
    t.apply_mutation(&Mutation::SetProp(Prop::Done(T0)), T0);
    assert_eq!(*t.get_done(), None);
    assert_eq!(*t.get_due(), None);
    assert_eq!(*t.get_wait(), None);
}

#[test]
fn cleared_rule_lets_done_stick() {
    let mut t = task_at(T0);
    let ms = vec![
        Mutation::SetProp(Prop::Recur(Some(Recur::Day(1)))),
        Mutation::SetProp(Prop::Recur(None)),
        Mutation::SetProp(Prop::Done(T0 + 3)),
    ];
    t.apply_mutations(&ms, T0 + 3);
    assert_eq!(*t.get_done(), Some(T0 + 3));
}

#[test]
fn reschedule_holds_at_largest_time() {
    let mut t = task_at(T0);
    t.apply_mutation(&Mutation::SetProp(Prop::Recur(Some(Recur::Year(1)))), T0);
    t.apply_mutation(&Mutation::SetProp(Prop::Due(Some(i64::MAX - 10))), T0);
    t.apply_mutation(&Mutation::SetProp(Prop::Done(T0)), T0);
    assert_eq!(*t.get_due(), Some(i64::MAX));
}

#[test]
fn recurrence_offsets() {
    assert_eq!(Recur::Day(3).offset_seconds(), 3 * DAY);
    assert_eq!(Recur::Week(1).offset_seconds(), 7 * DAY);
    assert_eq!(Recur::Month(2).offset_seconds(), 60 * DAY);
    assert_eq!(Recur::Year(1).offset_seconds(), 365 * DAY);
}

#[test]
fn overdue_and_soon_due() {
    let mut t = task_at(T0);
    assert!(!t.is_overdue(T0));
    assert!(!t.is_soon_due(T0));
    t.apply_mutation(&Mutation::SetProp(Prop::Due(Some(T0 - 1))), T0);
    assert!(t.is_overdue(T0));
    assert!(t.is_soon_due(T0));
    t.apply_mutation(&Mutation::SetProp(Prop::Due(Some(T0 + 3 * DAY - 1))), T0);
    assert!(!t.is_overdue(T0));
    assert!(t.is_soon_due(T0));
    t.apply_mutation(&Mutation::SetProp(Prop::Due(Some(T0 + 3 * DAY))), T0);
    assert!(!t.is_soon_due(T0));
    assert!(t.is_soon_due(i64::MAX));
}
