use oflike_gen::root::{resolve_root, AncestorProbe};

fn probe(addons: bool, core: bool, native: bool) -> AncestorProbe {
    AncestorProbe { has_addons_dir: addons, has_core_child: core, has_native_child: native }
}

#[test]
fn picks_the_nearest_qualifying_ancestor() {
    // Index 0 is the starting directory; both 1 and 3 qualify: 1 wins.
    let probes = vec![
        probe(false, false, false),
        probe(true, true, false),
        probe(false, false, false),
        probe(true, false, true),
    ];
    assert_eq!(resolve_root(&probes), Some(1));
}

#[test]
fn the_start_directory_itself_can_be_the_root() {
    let probes = vec![probe(true, false, true), probe(true, true, true)];
    assert_eq!(resolve_root(&probes), Some(0));
}

#[test]
fn an_addons_dir_without_the_marker_children_does_not_qualify() {
    let probes = vec![probe(true, false, false), probe(true, true, false)];
    assert_eq!(resolve_root(&probes), Some(1));
}

#[test]
fn no_qualifying_ancestor_means_no_root() {
    let probes = vec![probe(false, false, false), probe(true, false, false)];
    assert_eq!(resolve_root(&probes), None);
    assert_eq!(resolve_root(&Vec::new()), None);
}
