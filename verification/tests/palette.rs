use calc_sim::palette::{CurrentMeshColor, MeshColor, OpIndex};

const PALETTE: [MeshColor; 5] = [
    MeshColor::Black,
    MeshColor::White,
    MeshColor::Red,
    MeshColor::Green,
    MeshColor::Blue,
];

#[test]
fn variant_count_is_the_palette_length() {
    assert_eq!(MeshColor::VARIANT_COUNT, 5);
    assert_eq!(MeshColor::VARIANT_COUNT as usize, PALETTE.len());
}

#[test]
fn from_index_gives_each_palette_entry() {
    assert_eq!(CurrentMeshColor::from_index(0), Some(MeshColor::Black));
    assert_eq!(CurrentMeshColor::from_index(1), Some(MeshColor::White));
    assert_eq!(CurrentMeshColor::from_index(2), Some(MeshColor::Red));
    assert_eq!(CurrentMeshColor::from_index(3), Some(MeshColor::Green));
    assert_eq!(CurrentMeshColor::from_index(4), Some(MeshColor::Blue));
}

#[test]
fn from_index_beyond_the_palette_is_none() {
    assert_eq!(CurrentMeshColor::from_index(5), None);
    assert_eq!(CurrentMeshColor::from_index(6), None);
    assert_eq!(CurrentMeshColor::from_index(u32::MAX), None);
}

#[test]
fn new_index_starts_at_zero_and_shows_black() {
    let op = OpIndex::new();
    assert_eq!(op.index(), 0);
    assert_eq!(CurrentMeshColor::update_current_mesh_color(&op), MeshColor::Black);
}

#[test]
fn advance_moves_one_entry_on() {
    let mut op = OpIndex::new();
    op.advance();
    assert_eq!(op.index(), 1);
    op.advance();
    assert_eq!(op.index(), 2);
}

#[test]
fn current_after_i_advances_is_the_ith_entry() {
    for i in 0..PALETTE.len() {
        let mut op = OpIndex::new();
        for _ in 0..i {
            op.advance();
        }
        assert_eq!(op.index() as usize, i);
        assert_eq!(CurrentMeshColor::update_current_mesh_color(&op), PALETTE[i]);
    }
}

#[test]
fn index_past_the_last_entry_shows_black_for_one_frame() {
    let mut op = OpIndex::new();
    for _ in 0..5 {
        op.advance();
    }
    assert_eq!(op.index(), 5);
    assert_eq!(CurrentMeshColor::from_index(op.index()), None);
    assert_eq!(CurrentMeshColor::update_current_mesh_color(&op), MeshColor::Black);
}

#[test]
fn full_cycle_returns_to_zero_with_one_fallback_frame() {
    let mut op = OpIndex::new();
    let mut beyond = Vec::new();
    for count in 0..=5u32 {
        if CurrentMeshColor::from_index(op.index()).is_none() {
            beyond.push(count);
        }
        op.advance();
    }
    assert_eq!(op.index(), 0);
    assert_eq!(beyond, vec![5]);
}

#[test]
fn second_cycle_repeats_the_first() {
    let mut op = OpIndex::new();
    let mut first = Vec::new();
    for _ in 0..6 {
        first.push(CurrentMeshColor::update_current_mesh_color(&op));
        op.advance();
    }
    let mut second = Vec::new();
    for _ in 0..6 {
        second.push(CurrentMeshColor::update_current_mesh_color(&op));
        op.advance();
    }
    assert_eq!(
        first,
        vec![
            MeshColor::Black,
            MeshColor::White,
            MeshColor::Red,
            MeshColor::Green,
            MeshColor::Blue,
            MeshColor::Black,
        ]
    );
    assert_eq!(first, second);
}

#[test]
fn copied_index_advances_on_its_own() {
    let mut op = OpIndex::new();
    op.advance();
    let kept = op;
    op.advance();
    assert_eq!(kept.index(), 1);
    assert_eq!(op.index(), 2);
}
