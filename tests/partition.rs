use clap_cargo::workspace::{PackageGraph, PackageNode, Packages, Resolution, Workspace};

fn node(name: &str, dir: &str) -> PackageNode {
    PackageNode {
        id: format!("{} 0.1.0 (path+file:///fixtures/{})", name, dir),
        name: name.to_owned(),
    }
}

fn graph(nodes: Vec<PackageNode>, root: Option<usize>) -> PackageGraph {
    let workspace_members = nodes.iter().map(|n| n.id.clone()).collect();
    let root = root.map(|i| nodes[i].id.clone());
    PackageGraph {
        packages: nodes,
        workspace_members,
        resolve: Some(Resolution { root }),
    }
}

/// A single package that is its own root.
fn simple() -> PackageGraph {
    graph(vec![node("simple", "simple")], Some(0))
}

/// A root package with two more members, read from the root manifest.
fn mixed_ws_root_graph() -> PackageGraph {
    graph(
        vec![node("mixed_ws", "mixed_ws"), node("a", "mixed_ws/a"), node("c", "mixed_ws/c")],
        Some(0),
    )
}

/// The same workspace, read from the manifest of member `c`.
fn mixed_ws_leaf_graph() -> PackageGraph {
    graph(
        vec![node("mixed_ws", "mixed_ws"), node("a", "mixed_ws/a"), node("c", "mixed_ws/c")],
        Some(2),
    )
}

/// A virtual workspace of three members, read from its root manifest.
fn pure_ws_root_graph() -> PackageGraph {
    graph(
        vec![node("a", "pure_ws/a"), node("b", "pure_ws/b"), node("c", "pure_ws/c")],
        None,
    )
}

/// The same workspace, read from the manifest of member `c`.
fn pure_ws_leaf_graph() -> PackageGraph {
    graph(
        vec![node("a", "pure_ws/a"), node("b", "pure_ws/b"), node("c", "pure_ws/c")],
        Some(2),
    )
}

fn all() -> Workspace {
    Workspace {
        all: true,
        ..Default::default()
    }
}

fn package_a() -> Workspace {
    Workspace {
        package: vec!["a".to_owned()],
        ..Default::default()
    }
}

fn strings(v: &[&str]) -> Vec<String> {
    v.iter().map(|s| s.to_string()).collect()
}

#[test]
fn workspace_single_crate() {
    let workspace = Workspace {
        ..Default::default()
    };
    let (included, excluded) = workspace.partition_packages(&simple());
    assert_eq!(included.len(), 1);
    assert_eq!(excluded.len(), 0);
}

#[test]
fn workspace_mixed_ws_root() {
    let workspace = Workspace {
        ..Default::default()
    };
    let (included, excluded) = workspace.partition_packages(&mixed_ws_root_graph());
    assert_eq!(included.len(), 1);
    assert_eq!(excluded.len(), 2);
}

#[test]
fn workspace_mixed_ws_leaf() {
    let workspace = Workspace {
        ..Default::default()
    };
    let (included, excluded) = workspace.partition_packages(&mixed_ws_leaf_graph());
    assert_eq!(included.len(), 1);
    assert_eq!(excluded.len(), 2);
}

#[test]
fn workspace_pure_ws_root() {
    let workspace = Workspace {
        ..Default::default()
    };
    let (included, excluded) = workspace.partition_packages(&pure_ws_root_graph());
    assert_eq!(included.len(), 3);
    assert_eq!(excluded.len(), 0);
}

#[test]
fn workspace_pure_ws_leaf() {
    let workspace = Workspace {
        ..Default::default()
    };
    let (included, excluded) = workspace.partition_packages(&pure_ws_leaf_graph());
    assert_eq!(included.len(), 1);
    assert_eq!(excluded.len(), 2);
}

#[test]
fn partition_all_single_crate() {
    let (included, excluded) = all().partition_packages(&simple());
    assert_eq!(included.len(), 1);
    assert_eq!(excluded.len(), 0);
}

#[test]
fn partition_all_mixed_ws_root() {
    let (included, excluded) = all().partition_packages(&mixed_ws_root_graph());
    assert_eq!(included.len(), 3);
    assert_eq!(excluded.len(), 0);
}

#[test]
fn partition_all_mixed_ws_leaf() {
    let (included, excluded) = all().partition_packages(&mixed_ws_leaf_graph());
    assert_eq!(included.len(), 3);
    assert_eq!(excluded.len(), 0);
}

#[test]
fn partition_all_pure_ws_root() {
    let (included, excluded) = all().partition_packages(&pure_ws_root_graph());
    assert_eq!(included.len(), 3);
    assert_eq!(excluded.len(), 0);
}

#[test]
fn partition_all_pure_ws_leaf() {
    let (included, excluded) = all().partition_packages(&pure_ws_leaf_graph());
    assert_eq!(included.len(), 3);
    assert_eq!(excluded.len(), 0);
}

#[test]
fn partition_package_single_crate() {
    let workspace = Workspace {
        package: vec!["simple".to_owned()],
        ..Default::default()
    };
    let (included, excluded) = workspace.partition_packages(&simple());
    assert_eq!(included.len(), 1);
    assert_eq!(excluded.len(), 0);
}

#[test]
fn partition_package_mixed_ws_root() {
    let (included, excluded) = package_a().partition_packages(&mixed_ws_root_graph());
    assert_eq!(included.len(), 1);
    assert_eq!(excluded.len(), 2);
}

#[test]
fn partition_package_mixed_ws_leaf() {
    let (included, excluded) = package_a().partition_packages(&mixed_ws_leaf_graph());
    assert_eq!(included.len(), 1);
    assert_eq!(excluded.len(), 2);
}

#[test]
fn partition_package_pure_ws_root() {
    let (included, excluded) = package_a().partition_packages(&pure_ws_root_graph());
    assert_eq!(included.len(), 1);
    assert_eq!(excluded.len(), 2);
}

#[test]
fn partition_package_pure_ws_leaf() {
    let (included, excluded) = package_a().partition_packages(&pure_ws_leaf_graph());
    assert_eq!(included.len(), 1);
    assert_eq!(excluded.len(), 2);
}

/// Root R with members A and B.
fn rab() -> PackageGraph {
    graph(vec![node("R", "r"), node("A", "r/a"), node("B", "r/b")], Some(0))
}

#[test]
fn explicit_package_selects_only_it() {
    let ws = Workspace {
        package: strings(&["A"]),
        ..Default::default()
    };
    assert_eq!(ws.partition_packages(&rab()), (vec![1], vec![0, 2]));
}

#[test]
fn workspace_with_exclude_opts_out() {
    let ws = Workspace {
        workspace: true,
        exclude: strings(&["A"]),
        ..Default::default()
    };
    assert_eq!(ws.partition_packages(&rab()), (vec![0, 2], vec![1]));
}

#[test]
fn no_flags_select_root() {
    let ws = Workspace::default();
    assert_eq!(ws.partition_packages(&rab()), (vec![0], vec![1, 2]));
}

#[test]
fn all_and_workspace_agree() {
    let by_all = Workspace {
        all: true,
        exclude: strings(&["B"]),
        ..Default::default()
    };
    let by_workspace = Workspace {
        workspace: true,
        exclude: strings(&["B"]),
        ..Default::default()
    };
    let g = rab();
    assert_eq!(by_all.partition_packages(&g), by_workspace.partition_packages(&g));
    assert_eq!(by_all.partition_packages(&g), (vec![0, 1], vec![2]));
}

#[test]
fn partition_twice_is_same() {
    let ws = Workspace {
        package: strings(&["A", "B"]),
        exclude: strings(&["B"]),
        ..Default::default()
    };
    let g = rab();
    let first = ws.partition_packages(&g);
    let second = ws.partition_packages(&g);
    assert_eq!(first, second);
    assert_eq!(first, (vec![1], vec![0, 2]));
}

#[test]
fn dependencies_are_on_neither_side() {
    let mut g = rab();
    g.packages.push(node("dep", "registry/dep"));
    let (included, excluded) = Workspace::default().partition_packages(&g);
    assert_eq!(included, vec![0]);
    assert_eq!(excluded, vec![1, 2]);
    let (included, excluded) = all().partition_packages(&g);
    assert_eq!(included, vec![0, 1, 2]);
    assert!(excluded.is_empty());
    let ws = Workspace {
        package: strings(&["dep"]),
        ..Default::default()
    };
    assert_eq!(ws.partition_packages(&g), (vec![], vec![0, 1, 2]));
}

#[test]
fn unknown_names_are_ignored() {
    let ws = Workspace {
        package: strings(&["A", "nope"]),
        exclude: strings(&["missing"]),
        ..Default::default()
    };
    assert_eq!(ws.partition_packages(&rab()), (vec![1], vec![0, 2]));
}

#[test]
fn exclude_alone_opts_out() {
    let ws = Workspace {
        exclude: strings(&["R"]),
        ..Default::default()
    };
    assert_eq!(ws.partition_packages(&rab()), (vec![1, 2], vec![0]));
}

#[test]
fn exclude_trims_explicit() {
    let ws = Workspace {
        package: strings(&["R", "A"]),
        exclude: strings(&["A"]),
        ..Default::default()
    };
    assert_eq!(ws.partition_packages(&rab()), (vec![0], vec![1, 2]));
}

#[test]
fn empty_graph_partitions_to_nothing() {
    let g = PackageGraph {
        packages: vec![],
        workspace_members: vec![],
        resolve: Some(Resolution { root: None }),
    };
    assert_eq!(Workspace::default().partition_packages(&g), (vec![], vec![]));
}

#[test]
fn from_flags_table() {
    let none: Vec<String> = vec![];
    let some = strings(&["x"]);
    assert!(matches!(Packages::from_flags(false, &none, &none), Packages::Default));
    assert!(matches!(Packages::from_flags(false, &none, &some), Packages::Packages(p) if p == &some[..]));
    assert!(matches!(Packages::from_flags(false, &some, &none), Packages::OptOut(e) if e == &some[..]));
    assert!(matches!(Packages::from_flags(false, &some, &some), Packages::Packages(_)));
    assert!(matches!(Packages::from_flags(true, &none, &none), Packages::All));
    assert!(matches!(Packages::from_flags(true, &none, &some), Packages::All));
    assert!(matches!(Packages::from_flags(true, &some, &none), Packages::OptOut(_)));
    assert!(matches!(Packages::from_flags(true, &some, &some), Packages::OptOut(_)));
}
