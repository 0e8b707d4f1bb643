use calc_sim::cycle::{cycle_albedo, Cycle, CYCLE_PERIOD_NANOS};
use calc_sim::palette::{MeshColor, OpIndex};
use calc_sim::scene::{LoadId, Node, Painted, SceneRoot, Selector};

fn cube(loaded: bool) -> Vec<SceneRoot> {
    vec![SceneRoot {
        scene: LoadId::Uuid(0xC0FFEE),
        loaded,
        node: Node {
            index: 1,
            base_color: None,
            children: vec![Node {
                index: 2,
                base_color: Some(MeshColor::Black),
                children: vec![Node {
                    index: 3,
                    base_color: Some(MeshColor::Black),
                    children: vec![],
                }],
            }],
        },
    }]
}

fn turn(
    delta_nanos: u64,
    cycle: &mut Cycle,
    roots: &mut Vec<SceneRoot>,
    op: &mut OpIndex,
) -> Option<Painted> {
    cycle_albedo(delta_nanos, cycle, roots, Selector::HasMaterial, op)
}

#[test]
fn cycle_period_is_a_quarter_second() {
    assert_eq!(CYCLE_PERIOD_NANOS, 250_000_000);
}

#[test]
fn cycle_waits_for_the_interval() {
    let mut cycle = Cycle::new();
    let mut roots = cube(true);
    let mut op = OpIndex::new();
    assert_eq!(turn(CYCLE_PERIOD_NANOS - 1, &mut cycle, &mut roots, &mut op), None);
    assert_eq!(op.index(), 0);
    assert_eq!(roots, cube(true));
}

#[test]
fn cycle_advances_and_then_paints_the_new_color() {
    let mut cycle = Cycle::new();
    let mut roots = cube(true);
    let mut op = OpIndex::new();
    let painted = turn(CYCLE_PERIOD_NANOS, &mut cycle, &mut roots, &mut op);
    assert_eq!(painted, Some(Painted { color: MeshColor::White, nodes: vec![2, 3] }));
    assert_eq!(op.index(), 1);
    assert_eq!(roots[0].node.children[0].base_color, Some(MeshColor::White));
    assert_eq!(roots[0].node.children[0].children[0].base_color, Some(MeshColor::White));
}

#[test]
fn cycle_runs_on_without_a_start() {
    let mut cycle = Cycle::new();
    let mut roots = cube(true);
    let mut op = OpIndex::new();
    let mut seen = Vec::new();
    for _ in 0..13 {
        let painted = turn(CYCLE_PERIOD_NANOS, &mut cycle, &mut roots, &mut op);
        seen.push(painted.map(|pass| pass.color));
    }
    let lap = [
        MeshColor::White,
        MeshColor::Red,
        MeshColor::Green,
        MeshColor::Blue,
        MeshColor::Black,
        MeshColor::Black,
    ];
    let expected: Vec<Option<MeshColor>> = (0..13).map(|k: usize| Some(lap[k % 6])).collect();
    assert_eq!(seen, expected);
    assert_eq!(op.index(), 1);
}

#[test]
fn cycle_carries_the_remainder_into_the_next_interval() {
    let mut cycle = Cycle::new();
    let mut roots = cube(true);
    let mut op = OpIndex::new();
    // 300 ms: one interval and 50 ms over.
    assert!(turn(300_000_000, &mut cycle, &mut roots, &mut op).is_some());
    // 199 999 999 ns more: one short of the next interval.
    assert_eq!(turn(199_999_999, &mut cycle, &mut roots, &mut op), None);
    assert!(turn(1, &mut cycle, &mut roots, &mut op).is_some());
    assert_eq!(op.index(), 2);
}

#[test]
fn cycle_paints_once_for_a_frame_of_many_intervals() {
    let mut cycle = Cycle::new();
    let mut roots = cube(true);
    let mut op = OpIndex::new();
    // Ten and a half intervals in one frame: one advance, and the half
    // interval is kept.
    assert!(turn(10 * CYCLE_PERIOD_NANOS + 125_000_000, &mut cycle, &mut roots, &mut op).is_some());
    assert_eq!(op.index(), 1);
    assert_eq!(turn(124_999_999, &mut cycle, &mut roots, &mut op), None);
    assert!(turn(1, &mut cycle, &mut roots, &mut op).is_some());
    assert_eq!(op.index(), 2);
}

#[test]
fn cycle_takes_the_longest_frame() {
    let mut cycle = Cycle::new();
    let mut roots = cube(true);
    let mut op = OpIndex::new();
    assert!(turn(u64::MAX, &mut cycle, &mut roots, &mut op).is_some());
    assert!(turn(u64::MAX, &mut cycle, &mut roots, &mut op).is_some());
    assert_eq!(op.index(), 2);
}

#[test]
fn cycle_before_the_scene_is_loaded_advances_but_paints_nothing() {
    let mut cycle = Cycle::new();
    let mut roots = cube(false);
    let mut op = OpIndex::new();
    let painted = turn(CYCLE_PERIOD_NANOS, &mut cycle, &mut roots, &mut op);
    assert_eq!(painted, Some(Painted { color: MeshColor::White, nodes: vec![] }));
    assert_eq!(op.index(), 1);
    assert_eq!(roots, cube(false));
}
