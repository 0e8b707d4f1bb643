//! The fixed palette and the cyclic index into it.

use vstd::prelude::*;

verus! {

/// The named colours a mesh can be given.
#[derive(Clone, Copy, Debug, PartialEq, Eq, Structural)]
pub enum MeshColor {
    Black,
    White,
    Red,
    Green,
    Blue,
}

impl MeshColor {
    /// Number of colours in the palette. The cyclic index also takes this
    /// value itself, for one frame, before it wraps.
    pub const VARIANT_COUNT: u32 = 5;
}

/// The palette in order.
pub open spec fn palette() -> Seq<MeshColor> {
    seq![MeshColor::Black, MeshColor::White, MeshColor::Red, MeshColor::Green, MeshColor::Blue]
}

/// The palette entry at `index`, where there is one.
pub open spec fn palette_entry(index: nat) -> Option<MeshColor> {
    if index < palette().len() {
        Some(palette()[index as int])
    } else {
        None
    }
}

/// The colour shown for `index`: its palette entry, and black where the
/// index lies beyond the palette.
pub open spec fn shown_color(index: nat) -> MeshColor {
    match palette_entry(index) {
        Some(color) => color,
        None => MeshColor::Black,
    }
}

/// The index that follows `index`: one more, and zero once the index has
/// reached the palette's length.
pub open spec fn advanced(index: nat) -> nat {
    if index >= palette().len() {
        0
    } else {
        index + 1
    }
}

/// The index after `steps` advances from `index`.
pub open spec fn advanced_by(index: nat, steps: nat) -> nat
    decreases steps,
{
    if steps == 0 {
        index
    } else {
        advanced(advanced_by(index, (steps - 1) as nat))
    }
}

/// Counting up from zero, the index after `steps` advances is `steps`
/// itself for as long as that lies within the palette or one past it, and
/// the colour shown for it within the palette is the palette's entry.
pub proof fn lemma_advances_walk_the_palette(steps: nat)
    requires
        steps <= palette().len(),
    ensures
        advanced_by(0, steps) == steps,
        steps < palette().len() ==> shown_color(advanced_by(0, steps)) == palette()[steps as int],
    decreases steps,
{
    if steps > 0 {
        lemma_advances_walk_the_palette((steps - 1) as nat);
    }
}

/// One advance more than the palette has colours brings the index back to
/// zero. On the way the index lies beyond the palette exactly once, after
/// as many advances as the palette has colours, and black is shown there.
pub proof fn lemma_full_cycle()
    ensures
        advanced_by(0, palette().len() + 1) == 0,
        forall|steps: nat|
            steps <= palette().len() ==> (palette_entry(#[trigger] advanced_by(0, steps)) is None
                <==> steps == palette().len()),
        shown_color(advanced_by(0, palette().len())) == MeshColor::Black,
{
    assert forall|steps: nat| steps <= palette().len() implies (palette_entry(
        #[trigger] advanced_by(0, steps),
    ) is None <==> steps == palette().len()) by {
        lemma_advances_walk_the_palette(steps);
    }
    lemma_advances_walk_the_palette(palette().len());
}

/// Advancing `first` times and `more` times after that is advancing
/// `first + more` times.
pub proof fn lemma_advances_add_up(index: nat, first: nat, more: nat)
    ensures
        advanced_by(advanced_by(index, first), more) == advanced_by(index, first + more),
    decreases more,
{
    if more > 0 {
        lemma_advances_add_up(index, first, (more - 1) as nat);
    }
}

/// The cycle closes from every index it passes through, not only from
/// zero: one advance more than the palette has colours leads back to where
/// it began.
pub proof fn lemma_cycle_closes(index: nat)
    requires
        index <= palette().len(),
    ensures
        advanced_by(index, palette().len() + 1) == index,
{
    let lap = palette().len() + 1;
    lemma_advances_walk_the_palette(index);
    lemma_full_cycle();
    lemma_advances_add_up(0, index, lap);
    lemma_advances_add_up(0, lap, index);
}

/// The cyclic index into the palette. It runs over `0..=VARIANT_COUNT`.
#[derive(Clone, Copy, Debug)]
pub struct OpIndex {
    index: u32,
}

impl View for OpIndex {
    type V = nat;

    closed spec fn view(&self) -> nat {
        self.index as nat
    }
}

impl OpIndex {
    /// The index lies within the palette or one past its end.
    #[verifier::type_invariant]
    spec fn in_range(self) -> bool {
        self.index <= MeshColor::VARIANT_COUNT
    }

    /// An index at the first palette entry.
    pub fn new() -> (op: Self)
        ensures
            op@ == 0,
    {
        let index: u32 = 0;
        OpIndex { index }
    }

    /// The index as a number. It never lies further than one past the end
    /// of the palette.
    pub fn index(&self) -> (index: u32)
        ensures
            index == self@,
            index <= MeshColor::VARIANT_COUNT,
    {
        proof {
            use_type_invariant(self);
        }
        self.index
    }

    /// Moves to the next index. From the value one past the last palette
    /// entry the index goes back to zero.
    pub fn advance(&mut self)
        ensures
            final(self)@ == advanced(old(self)@),
            final(self)@ <= palette().len(),
    {
        proof {
            use_type_invariant(&*self);
        }
        if self.index == MeshColor::VARIANT_COUNT {
            self.index = 0;
        } else {
            self.index += 1;
        }
    }
}

/// The colour lookups of the cycle.
pub struct CurrentMeshColor;

impl CurrentMeshColor {
    /// The palette entry at `index`; `None` beyond the palette.
    pub fn from_index(index: u32) -> (color: Option<MeshColor>)
        ensures
            color == palette_entry(index as nat),
    {
        match index {
            0 => Some(MeshColor::Black),
            1 => Some(MeshColor::White),
            2 => Some(MeshColor::Red),
            3 => Some(MeshColor::Green),
            4 => Some(MeshColor::Blue),
            _ => None,
        }
    }

    /// The colour under the cyclic index, black where the index is beyond
    /// the palette.
    pub fn update_current_mesh_color(op: &OpIndex) -> (color: MeshColor)
        ensures
            color == shown_color(op@),
    {
        if let Some(call) = CurrentMeshColor::from_index(op.index) {
            call
        } else {
            MeshColor::Black
        }
    }
}

} // verus!
