use crane::components::component::link_children;
use crane::components::component::make_root_component;
use crane::components::component::visit_route;
use crane::components::component::Attr;
use crane::components::component::Component;
use crane::components::component::ComponentArena;
use crane::components::component::ComponentType;
use crane::components::component::RawComponent;
use crane::components::component::VisitRoute;
use crane::components::component::Walk;
use crane::components::git_dependency::GitDependency;
use crane::errors::Error;

fn raw(name: &str, type_: Attr<String>, url: Attr<String>) -> RawComponent {
    RawComponent {
        name: name.to_string(),
        type_,
        paths: Attr::Missing,
        url,
        commit: Attr::Missing,
        branch: Attr::Missing,
        deps_file: Attr::Missing,
    }
}

fn solution_component(name: &str, url: &str) -> Component {
    Component::from_attrs(raw(
        name,
        Attr::Value("solution".to_string()),
        Attr::Value(url.to_string()),
    ))
    .unwrap()
}

#[test]
fn test_from_attrs_solution() {
    let c = solution_component("sub1", "https://host/sub1.git");
    assert!(matches!(c.type_, ComponentType::Solution));
    assert_eq!(c.name, "sub1");
    assert_eq!(c.target_dir, "sub1");
    assert!(c.parent_id.is_none());
    assert!(c.children.is_empty());
    assert_eq!(c.dep.url, "https://host/sub1.git");
}

#[test]
fn test_from_attrs_git() {
    let mut r = raw(
        "lib",
        Attr::Value("git".to_string()),
        Attr::Value("https://host/lib.git".to_string()),
    );
    r.branch = Attr::Value("main".to_string());
    r.deps_file = Attr::Value(".crane".to_string());
    let c = Component::from_attrs(r).unwrap();
    assert!(matches!(c.type_, ComponentType::GitDependency));
    assert_eq!(c.dep.branch.as_deref(), Some("main"));
    assert_eq!(c.dep.deps_file.as_deref(), Some(".crane"));
    assert!(c.dep.commit.is_none());
}

#[test]
fn test_from_attrs_type_missing() {
    let e = Component::from_attrs(raw("x", Attr::Missing, Attr::Missing)).unwrap_err();
    assert_eq!(e.message, "Could not find field \"type\"");
}

#[test]
fn test_from_attrs_type_wrong() {
    let e = Component::from_attrs(raw("x", Attr::WrongType, Attr::Missing)).unwrap_err();
    assert_eq!(e.message, "Invalid value type of field \"type\"");
}

#[test]
fn test_from_attrs_unknown_type() {
    let e = Component::from_attrs(raw(
        "x",
        Attr::Value("hg".to_string()),
        Attr::Missing,
    ))
    .unwrap_err();
    assert_eq!(e.message, "unknown component type: hg");
}

#[test]
fn test_from_attrs_url_missing() {
    let e = Component::from_attrs(raw("x", Attr::Value("git".to_string()), Attr::Missing))
        .unwrap_err();
    assert_eq!(e.message, "Required field url does not exist");
}

#[test]
fn test_from_attrs_url_wrong_type() {
    let e = Component::from_attrs(raw("x", Attr::Value("git".to_string()), Attr::WrongType))
        .unwrap_err();
    assert_eq!(e.message, "Invalid value type of field url");
}

#[test]
fn test_from_attrs_optional_field_wrong_type() {
    let mut r = raw(
        "x",
        Attr::Value("git".to_string()),
        Attr::Value("u".to_string()),
    );
    r.commit = Attr::WrongType;
    let e = Component::from_attrs(r).unwrap_err();
    assert_eq!(e.message, "Invalid value type of field commit");

    let mut r = raw(
        "x",
        Attr::Value("git".to_string()),
        Attr::Value("u".to_string()),
    );
    r.paths = Attr::WrongType;
    let e = Component::from_attrs(r).unwrap_err();
    assert_eq!(e.message, "Invalid value type of field paths");

    let mut r = raw(
        "x",
        Attr::Value("git".to_string()),
        Attr::Value("u".to_string()),
    );
    r.branch = Attr::WrongType;
    let e = Component::from_attrs(r).unwrap_err();
    assert_eq!(e.message, "Invalid value type of field branch");

    let mut r = raw(
        "x",
        Attr::Value("git".to_string()),
        Attr::Value("u".to_string()),
    );
    r.deps_file = Attr::WrongType;
    let e = Component::from_attrs(r).unwrap_err();
    assert_eq!(e.message, "Invalid value type of field deps_file");
}

#[test]
fn test_component_child_list_edits() {
    let mut c = solution_component("root", "u");
    c.add_child(3);
    c.add_child(5);
    let mut more = vec![7, 9];
    c.add_children(&mut more);
    assert!(more.is_empty());
    assert_eq!(c.children, vec![3, 5, 7, 9]);
    c.remove_child(5);
    assert_eq!(c.children, vec![3, 7, 9]);
}

#[test]
fn test_set_parent_id_records_parent() {
    let mut c = solution_component("sub", "u");
    c.set_parent_id(Some(0));
    assert_eq!(c.parent_id, Some(0));
}

#[test]
fn test_arena_add_get() {
    let mut arena = ComponentArena::new();
    assert_eq!(arena.len(), 0);
    let id0 = arena.add(solution_component("a", "u1"));
    let id1 = arena.add(solution_component("b", "u2"));
    assert_eq!(id0, 0);
    assert_eq!(id1, 1);
    assert_eq!(arena.get(0).unwrap().name, "a");
    assert_eq!(arena.get(1).unwrap().name, "b");
    assert!(arena.get(2).is_none());
}

#[test]
fn test_arena_get_mut() {
    let mut arena = ComponentArena::new();
    arena.add(solution_component("a", "u1"));
    arena.get_mut(0).add_child(7);
    assert_eq!(arena.get(0).unwrap().children, vec![7]);
}

#[test]
fn test_link_children_wires_both_sides() {
    let mut arena = ComponentArena::new();
    arena.add(solution_component("root", "u"));
    arena.add(solution_component("a", "ua"));
    arena.add(solution_component("b", "ub"));
    link_children(&mut arena, 0, &vec![1, 2]);
    assert_eq!(arena.get(0).unwrap().children, vec![1, 2]);
    assert_eq!(arena.get(1).unwrap().parent_id, Some(0));
    assert_eq!(arena.get(2).unwrap().parent_id, Some(0));
    assert!(arena.get(0).unwrap().parent_id.is_none());
}

#[test]
fn test_visit_route() {
    let mut arena = ComponentArena::new();
    arena.add(solution_component("root", "u"));
    let mut git = solution_component("dep", "u");
    git.type_ = ComponentType::GitDependency;
    arena.add(git);
    let mut unk = solution_component("odd", "u");
    unk.type_ = ComponentType::Unkonwn;
    arena.add(unk);
    assert!(matches!(visit_route(&arena, 0), Ok(VisitRoute::SolutionVisit)));
    assert!(matches!(visit_route(&arena, 1), Ok(VisitRoute::GitVisit)));
    assert_eq!(
        visit_route(&arena, 2).unwrap_err().message,
        "unknown component type"
    );
    assert_eq!(
        visit_route(&arena, 9).unwrap_err().message,
        "unknown component id"
    );
}

#[test]
fn test_make_root_component() {
    let c = make_root_component(
        "/work/proj",
        "https://host/proj.git".to_string(),
        Some("main".to_string()),
        None,
        Some(".crane".to_string()),
        false,
    );
    assert_eq!(c.name, "(main)");
    assert!(matches!(c.type_, ComponentType::Solution));
    assert_eq!(c.target_dir, "/work/proj");
    assert!(c.dep.deps_file.is_none());
    let c = make_root_component(
        "/work/proj",
        "https://host/proj.git".to_string(),
        None,
        Some("abc".to_string()),
        Some(".crane".to_string()),
        true,
    );
    assert_eq!(c.dep.deps_file.as_deref(), Some(".crane"));
    assert_eq!(c.dep.commit.as_deref(), Some("abc"));
}

#[test]
fn test_solution_default() {
    let s = crane::components::solution::Solution::default();
    assert_eq!(s.name, "");
    assert_eq!(s.src, "");
    assert!(s.deps_file.is_none());
}

#[test]
fn test_git_dependency_default() {
    let d = GitDependency::default();
    assert_eq!(d.url, "");
    assert!(d.paths.is_none());
    assert!(d.commit.is_none());
    assert!(d.branch.is_none());
    assert!(d.deps_file.is_none());
}

#[test]
fn test_walk_fifo_order() {
    let mut walk = Walk::new(vec![0]);
    assert_eq!(walk.take_next(), Some(0));
    walk.complete_ok(&vec![1, 2]);
    assert_eq!(walk.take_next(), Some(1));
    walk.complete_ok(&vec![3]);
    assert_eq!(walk.take_next(), Some(2));
    walk.complete_ok(&vec![]);
    assert_eq!(walk.take_next(), Some(3));
    walk.complete_ok(&vec![]);
    assert!(walk.is_done());
    assert_eq!(walk.take_next(), None);
    assert_eq!(walk.into_result().unwrap(), vec![0, 1, 2, 3]);
}

#[test]
fn test_walk_first_failure_wins() {
    let mut walk = Walk::new(vec![0, 1]);
    walk.take_next();
    walk.complete_err("sub1", Error::new("remote unreachable".to_string()));
    walk.take_next();
    walk.complete_err("sub2", Error::new("another".to_string()));
    let e = walk.into_result().unwrap_err();
    assert_eq!(e.message, "component sub1: remote unreachable");
}

// Scenario: a root that declares no nested configuration expands to nothing —
// one node in the arena, one visit, no children.
#[test]
fn test_walk_root_without_nested_config() {
    let mut arena = ComponentArena::new();
    let root = make_root_component(
        "/work/proj",
        "https://host/proj.git".to_string(),
        Some("main".to_string()),
        None,
        Some(".crane".to_string()),
        false,
    );
    let root_id = arena.add(root);
    let mut walk = Walk::new(vec![root_id]);
    let mut visited = Vec::new();
    while let Some(id) = walk.take_next() {
        visited.push(id);
        // no nested config: the visit links no children
        walk.complete_ok(&vec![]);
    }
    assert_eq!(visited, vec![0]);
    assert_eq!(arena.len(), 1);
    assert!(arena.get(0).unwrap().children.is_empty());
    assert_eq!(walk.into_result().unwrap(), vec![0]);
}

// Scenario: the root declares two children and each child one further child —
// five nodes, wired root -> {a, b}, a -> {a1}, b -> {b1}.
#[test]
fn test_walk_two_levels_of_children() {
    let mut arena = ComponentArena::new();
    let root_id = arena.add(solution_component("root", "https://host/root.git"));
    let mut walk = Walk::new(vec![root_id]);

    let id = walk.take_next().unwrap();
    assert_eq!(id, root_id);
    let a = arena.add(solution_component("a", "https://host/a.git"));
    let b = arena.add(solution_component("b", "https://host/b.git"));
    link_children(&mut arena, root_id, &vec![a, b]);
    walk.complete_ok(&vec![a, b]);

    let id = walk.take_next().unwrap();
    assert_eq!(id, a);
    let a1 = arena.add(solution_component("a1", "https://host/a1.git"));
    link_children(&mut arena, a, &vec![a1]);
    walk.complete_ok(&vec![a1]);

    let id = walk.take_next().unwrap();
    assert_eq!(id, b);
    let b1 = arena.add(solution_component("b1", "https://host/b1.git"));
    link_children(&mut arena, b, &vec![b1]);
    walk.complete_ok(&vec![b1]);

    assert_eq!(walk.take_next(), Some(a1));
    walk.complete_ok(&vec![]);
    assert_eq!(walk.take_next(), Some(b1));
    walk.complete_ok(&vec![]);
    assert!(walk.is_done());

    assert_eq!(arena.len(), 5);
    assert_eq!(arena.get(root_id).unwrap().children, vec![a, b]);
    assert_eq!(arena.get(a).unwrap().children, vec![a1]);
    assert_eq!(arena.get(b).unwrap().children, vec![b1]);
    assert!(arena.get(root_id).unwrap().parent_id.is_none());
    assert_eq!(arena.get(a).unwrap().parent_id, Some(root_id));
    assert_eq!(arena.get(b).unwrap().parent_id, Some(root_id));
    assert_eq!(arena.get(a1).unwrap().parent_id, Some(a));
    assert_eq!(arena.get(b1).unwrap().parent_id, Some(b));
    assert!(walk.into_result().is_ok());
}

// Scenario: one child's fetch fails — the whole walk reports an error naming
// the failing component, while the already-completed sibling stays in place.
#[test]
fn test_walk_child_failure_keeps_siblings() {
    let mut arena = ComponentArena::new();
    let root_id = arena.add(solution_component("root", "https://host/root.git"));
    let mut walk = Walk::new(vec![root_id]);

    walk.take_next();
    let a = arena.add(solution_component("a", "https://host/a.git"));
    let b = arena.add(solution_component("b", "https://bad-host/b.git"));
    link_children(&mut arena, root_id, &vec![a, b]);
    walk.complete_ok(&vec![a, b]);

    assert_eq!(walk.take_next(), Some(a));
    walk.complete_ok(&vec![]);

    assert_eq!(walk.take_next(), Some(b));
    walk.complete_err("b", Error::new("remote unreachable".to_string()));
    assert!(walk.is_done());

    // sibling results are not rolled back
    assert_eq!(arena.len(), 3);
    assert_eq!(arena.get(a).unwrap().parent_id, Some(root_id));
    let e = walk.into_result().unwrap_err();
    assert_eq!(e.message, "component b: remote unreachable");
    assert!(e.message.contains("b"));
}
