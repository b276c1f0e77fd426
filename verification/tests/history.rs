use vcsq_lib::repo::{first_ancestor_ref_name, AncestorRef, HistoryRef};

fn point(id: &str, name: Option<&str>) -> HistoryRef {
    HistoryRef { id: id.to_string(), name: name.map(|n| n.to_string()), dirty: false }
}

fn ancestor(id: &str, name: &str, distance: u64) -> Option<AncestorRef> {
    Some(AncestorRef { id: id.to_string(), name: name.to_string(), distance })
}

#[test]
fn first_ancestor_is_the_parent_if_it_is_named() {
    let ancestors = vec![point("p1", Some("v2")), point("p2", Some("v1"))];
    assert_eq!(first_ancestor_ref_name(&ancestors, None), ancestor("p1", "v2", 1));
    assert_eq!(first_ancestor_ref_name(&ancestors, Some(1)), ancestor("p1", "v2", 1));
}

#[test]
fn first_ancestor_is_the_nearest_that_is_named() {
    let ancestors = vec![
        point("p1", None),
        point("p2", None),
        point("p3", Some("release")),
        point("p4", Some("older")),
    ];
    assert_eq!(first_ancestor_ref_name(&ancestors, None), ancestor("p3", "release", 3));
    assert_eq!(first_ancestor_ref_name(&ancestors, Some(3)), ancestor("p3", "release", 3));
    assert_eq!(first_ancestor_ref_name(&ancestors, Some(100)), ancestor("p3", "release", 3));
    assert_eq!(first_ancestor_ref_name(&ancestors, Some(u64::MAX)), ancestor("p3", "release", 3));
}

#[test]
fn first_ancestor_is_not_looked_for_beyond_the_limit() {
    let ancestors = vec![point("p1", None), point("p2", None), point("p3", Some("release"))];
    assert_eq!(first_ancestor_ref_name(&ancestors, Some(2)), None);
    assert_eq!(first_ancestor_ref_name(&ancestors, Some(1)), None);
    assert_eq!(first_ancestor_ref_name(&ancestors, Some(0)), None);
}

#[test]
fn first_ancestor_may_not_exist() {
    assert_eq!(first_ancestor_ref_name(&vec![], None), None);
    assert_eq!(first_ancestor_ref_name(&vec![], Some(5)), None);
    let unnamed = vec![point("p1", None), point("p2", None)];
    assert_eq!(first_ancestor_ref_name(&unnamed, None), None);
    assert_eq!(first_ancestor_ref_name(&unnamed, Some(5)), None);
}

#[test]
fn first_ancestor_keeps_an_empty_name() {
    let ancestors = vec![point("p1", Some(""))];
    assert_eq!(first_ancestor_ref_name(&ancestors, None), ancestor("p1", "", 1));
}
