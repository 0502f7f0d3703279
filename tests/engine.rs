use hypertask::{CortexEngine, Id, Mutation, Prop, Query, Sign, Tag, Task};

const T0: i64 = 1_600_000_000;

fn tagged(id: &str, name: &str) -> Task {
    let mut t = Task::generate(T0, Id::new(id));
    t.apply_mutation(&Mutation::SetTag(Tag::new(Sign::Plus, name)), T0);
    t
}

fn inputs() -> Vec<Result<Task, String>> {
    vec![Ok(tagged("aaaa", "x")), Ok(tagged("bbbb", "y")), Ok(tagged("cccc", "x"))]
}

fn ids(ts: &[Task]) -> Vec<String> {
    ts.iter().map(|t| t.get_id().as_str().to_string()).collect()
}

#[test]
fn read_keeps_matches_in_order() {
    let verb = CortexEngine::Read(vec![Query::Tag(Tag::new(Sign::Plus, "x"))]);
    let out = verb.run(inputs(), T0, Id::new("zzzz")).unwrap();
    assert_eq!(ids(&out), vec!["aaaa", "cccc"]);
}

#[test]
fn read_with_no_queries_is_empty() {
    let out = CortexEngine::Read(vec![]).run(inputs(), T0, Id::new("zzzz")).unwrap();
    assert!(out.is_empty());
}

#[test]
fn read_fails_at_first_bad_record() {
    let mut input = inputs();
    input.insert(1, Err("broken".to_string()));
    input.push(Err("later".to_string()));
    let verb = CortexEngine::Read(vec![Query::Tag(Tag::new(Sign::Plus, "x"))]);
    assert_eq!(verb.run(input, T0, Id::new("zzzz")).unwrap_err(), "broken");
}

#[test]
fn update_applies_to_matches_only() {
    let verb = CortexEngine::Update(
        vec![Query::Id(Id::new("bbbb"))],
        vec![Mutation::SetProp(Prop::Description("edited".to_string()))],
    );
    let out = verb.run(inputs(), T0 + 60, Id::new("zzzz")).unwrap();
    assert_eq!(ids(&out), vec!["bbbb"]);
    assert_eq!(out[0].get_description().as_deref(), Some("edited"));
    assert_eq!(*out[0].get_updated_at(), T0 + 60);
}

#[test]
fn update_fails_on_bad_record() {
    let mut input = inputs();
    input.push(Err("bad".to_string()));
    let verb = CortexEngine::Update(vec![Query::Id(Id::new("bbbb"))], vec![]);
    assert_eq!(verb.run(input, T0, Id::new("zzzz")).unwrap_err(), "bad");
}

#[test]
fn delete_returns_matches() {
    let verb = CortexEngine::Delete(vec![Query::Tag(Tag::new(Sign::Minus, "x"))]);
    let out = verb.run(inputs(), T0, Id::new("zzzz")).unwrap();
    assert_eq!(ids(&out), vec!["bbbb"]);
}

#[test]
fn create_ignores_stored_records() {
    let mut input = inputs();
    input.push(Err("bad".to_string()));
    let verb = CortexEngine::Create(vec![Mutation::SetTag(Tag::new(Sign::Plus, "new"))]);
    let out = verb.run(input, T0, Id::new("dddd")).unwrap();
    assert_eq!(ids(&out), vec!["dddd"]);
    assert!(out[0].has_tag(&"new".to_string()));
}
