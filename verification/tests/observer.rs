use pharia_kernel::observer::{
    compute_diff, skill_commands, Diff, ObserverState, Skill, SkillCommand, SkillPath,
};

fn skill(name: &str, tag: Option<&str>) -> Skill {
    Skill {
        name: name.to_owned(),
        tag: tag.map(|s| s.to_owned()),
    }
}

fn with_name(name: &str) -> Skill {
    skill(name, None)
}

#[test]
fn diff_is_computed() {
    let incoming = vec![with_name("new_skill"), with_name("existing_skill")];
    let existing = vec![with_name("existing_skill"), with_name("old_skill")];

    let diff = compute_diff(&existing, &incoming);

    assert_eq!(diff.added, vec![with_name("new_skill")]);
    assert_eq!(diff.removed, vec![with_name("old_skill")]);
}

#[test]
fn diff_is_computed_over_versions() {
    let existing = skill("existing_skill", Some("v1"));
    let incoming = skill("existing_skill", Some("v2"));

    let diff = compute_diff(&vec![existing.clone()], &vec![incoming.clone()]);

    assert_eq!(diff.added, vec![incoming]);
    assert_eq!(diff.removed, vec![existing]);
}

#[test]
fn unchanged_skills_give_an_empty_diff() {
    let skills = vec![with_name("a"), skill("b", Some("v1"))];

    let diff = compute_diff(&skills, &skills);

    assert!(diff.added.is_empty());
    assert!(diff.removed.is_empty());
}

#[test]
fn duplicates_are_reported_once() {
    let existing = vec![with_name("old"), with_name("old")];
    let incoming = vec![with_name("new"), with_name("new")];

    let diff = compute_diff(&existing, &incoming);

    assert_eq!(diff.added, vec![with_name("new")]);
    assert_eq!(diff.removed, vec![with_name("old")]);
}

#[test]
fn observer_reports_changes_per_namespace() {
    let mut state = ObserverState::new();

    let first = state.record("team", vec![with_name("a"), with_name("b")]);
    assert_eq!(first.added, vec![with_name("a"), with_name("b")]);
    assert!(first.removed.is_empty());

    let other = state.record("other", vec![with_name("a")]);
    assert_eq!(other.added, vec![with_name("a")]);

    let second = state.record("team", vec![with_name("b"), with_name("c")]);
    assert_eq!(second.added, vec![with_name("c")]);
    assert_eq!(second.removed, vec![with_name("a")]);

    let third = state.record("team", vec![with_name("b"), with_name("c")]);
    assert!(third.added.is_empty());
    assert!(third.removed.is_empty());
}

#[test]
fn executor_is_told_additions_before_removals() {
    let diff = Diff {
        added: vec![skill("new", Some("v2"))],
        removed: vec![with_name("old")],
    };
    assert_eq!(
        skill_commands("team", diff),
        vec![
            SkillCommand::Add {
                path: SkillPath::new("team", "new"),
                tag: Some("v2".to_owned())
            },
            SkillCommand::Remove {
                path: SkillPath::new("team", "old"),
                tag: None
            },
        ]
    );
}

#[test]
fn failed_loads_change_nothing() {
    let mut state = ObserverState::new();
    let first = state.load("team", Ok(vec![with_name("a")]));
    assert_eq!(
        first,
        vec![SkillCommand::Add {
            path: SkillPath::new("team", "a"),
            tag: None
        }]
    );
    assert!(state.load("team", Err("offline".to_owned())).is_empty());
    let again = state.load("team", Ok(vec![with_name("a")]));
    assert!(again.is_empty());
    let gone = state.load("team", Ok(vec![]));
    assert_eq!(
        gone,
        vec![SkillCommand::Remove {
            path: SkillPath::new("team", "a"),
            tag: None
        }]
    );
}
