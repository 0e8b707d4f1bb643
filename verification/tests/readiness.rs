use calc_sim::palette::{CurrentMeshColor, MeshColor, OpIndex};
use calc_sim::readiness::{handle_asset_events, LoadEvent};
use calc_sim::scene::{LoadId, Node, Painted, SceneRoot, Selector};

fn waiting(scene: LoadId) -> SceneRoot {
    SceneRoot {
        scene,
        loaded: false,
        node: Node {
            index: 1,
            base_color: None,
            children: vec![
                Node { index: 64, base_color: Some(MeshColor::Black), children: vec![] },
                Node { index: 65, base_color: Some(MeshColor::Black), children: vec![] },
            ],
        },
    }
}

#[test]
fn added_event_marks_the_waiting_root() {
    let mut roots = vec![waiting(LoadId::Index(7))];
    handle_asset_events(&vec![LoadEvent::Added { id: LoadId::Index(7) }], &mut roots);
    assert!(roots[0].loaded);
}

#[test]
fn event_of_another_load_is_ignored() {
    let mut roots = vec![waiting(LoadId::Index(7))];
    handle_asset_events(&vec![LoadEvent::Added { id: LoadId::Index(8) }], &mut roots);
    assert!(!roots[0].loaded);
}

#[test]
fn index_and_uuid_identities_are_distinct() {
    let mut roots = vec![waiting(LoadId::Index(7)), waiting(LoadId::Uuid(7))];
    handle_asset_events(&vec![LoadEvent::Added { id: LoadId::Uuid(7) }], &mut roots);
    assert!(!roots[0].loaded);
    assert!(roots[1].loaded);
}

#[test]
fn only_added_events_open_the_gate() {
    let id = LoadId::Index(7);
    let mut roots = vec![waiting(id)];
    handle_asset_events(
        &vec![
            LoadEvent::Modified { id },
            LoadEvent::Removed { id },
            LoadEvent::Unused { id },
            LoadEvent::LoadedWithDependencies { id },
        ],
        &mut roots,
    );
    assert!(!roots[0].loaded);
}

#[test]
fn no_events_change_nothing() {
    let mut roots = vec![waiting(LoadId::Index(7))];
    handle_asset_events(&vec![], &mut roots);
    assert_eq!(roots, vec![waiting(LoadId::Index(7))]);
}

#[test]
fn every_root_waiting_for_the_load_is_marked() {
    let mut roots =
        vec![waiting(LoadId::Index(7)), waiting(LoadId::Index(8)), waiting(LoadId::Index(7))];
    handle_asset_events(&vec![LoadEvent::Added { id: LoadId::Index(7) }], &mut roots);
    assert!(roots[0].loaded);
    assert!(!roots[1].loaded);
    assert!(roots[2].loaded);
}

#[test]
fn several_events_in_one_frame_are_all_seen() {
    let mut roots =
        vec![waiting(LoadId::Index(7)), waiting(LoadId::Index(8)), waiting(LoadId::Index(9))];
    handle_asset_events(
        &vec![
            LoadEvent::Added { id: LoadId::Index(9) },
            LoadEvent::Removed { id: LoadId::Index(8) },
            LoadEvent::Added { id: LoadId::Index(7) },
        ],
        &mut roots,
    );
    assert!(roots[0].loaded);
    assert!(!roots[1].loaded);
    assert!(roots[2].loaded);
}

#[test]
fn ready_root_stays_ready() {
    let mut roots = vec![waiting(LoadId::Index(7))];
    handle_asset_events(&vec![LoadEvent::Added { id: LoadId::Index(7) }], &mut roots);
    handle_asset_events(&vec![LoadEvent::Removed { id: LoadId::Index(7) }], &mut roots);
    handle_asset_events(&vec![], &mut roots);
    assert!(roots[0].loaded);
}

#[test]
fn repeated_event_changes_nothing_more() {
    let event = vec![LoadEvent::Added { id: LoadId::Index(7) }];
    let mut once = vec![waiting(LoadId::Index(7))];
    handle_asset_events(&event, &mut once);
    let mut twice = vec![waiting(LoadId::Index(7))];
    handle_asset_events(&event, &mut twice);
    handle_asset_events(&event, &mut twice);
    assert_eq!(once, twice);
}

#[test]
fn gate_leaves_the_tree_alone() {
    let mut roots = vec![waiting(LoadId::Index(7))];
    handle_asset_events(&vec![LoadEvent::Added { id: LoadId::Index(7) }], &mut roots);
    assert_eq!(roots[0].node, waiting(LoadId::Index(7)).node);
    assert_eq!(roots[0].scene, LoadId::Index(7));
}

#[test]
fn pass_before_the_event_is_a_no_op_and_after_it_paints() {
    let mut roots = vec![waiting(LoadId::Index(7))];
    let mut op = OpIndex::new();
    op.advance();

    let early =
        CurrentMeshColor::update_gltf_material_color(&mut roots, Selector::HasMaterial, &op);
    assert_eq!(early, Painted { color: MeshColor::White, nodes: vec![] });
    assert_eq!(roots, vec![waiting(LoadId::Index(7))]);

    handle_asset_events(&vec![LoadEvent::Added { id: LoadId::Index(7) }], &mut roots);

    let late =
        CurrentMeshColor::update_gltf_material_color(&mut roots, Selector::HasMaterial, &op);
    assert_eq!(late, Painted { color: MeshColor::White, nodes: vec![64, 65] });
    assert_eq!(roots[0].node.children[0].base_color, Some(MeshColor::White));
    assert_eq!(roots[0].node.children[1].base_color, Some(MeshColor::White));
}
