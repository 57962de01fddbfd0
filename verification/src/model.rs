//! What a solver reports of one step: the technique, and the cells, areas
//! and values it concerns.

use vstd::prelude::*;

verus! {

/// A solving technique, or a bookkeeping record that a solver puts between
/// techniques.
#[derive(Clone, Copy, Debug, PartialEq, Eq, Structural)]
pub enum Rule {
    NakedSingle,
    HiddenSingle,
    Thermo,
    Kropki,
    /// The bare list of candidates: a bookkeeping record, never narrated.
    Candidates,
    ThermoCandidates,
    KillerCandidates,
    ArrowCandidates,
    RenbanCandidates,
    PalindromeValues,
    PalindromeCandidates,
    ArrowAdvancedCandidates,
    Killer45,
    KropkiChainCandidates,
    KropkiAdvancedCandidates,
    TopBottomCandidates,
    LockedCandidatesPairs,
    NakedPairs,
    HiddenPairs,
    CommonPeerElimination,
    CommonPeerEliminationKropki,
    CommonPeerEliminationArrow,
    LockedCandidatesTriples,
    NakedTriples,
    HiddenTriples,
    XWing,
    XYWing,
    Swordfish,
    TurbotFish,
    EmptyRectangles,
    AdhocNakedSet,
    PhistomefelRing,
    NishioForcingChains,
}

/// One position of the grid, counted from zero.
#[derive(Clone, Copy, Debug, PartialEq, Eq, Structural)]
pub struct Cell {
    pub row: usize,
    pub col: usize,
}

/// A group of cells.
#[derive(Clone, Copy, Debug, PartialEq, Eq, Structural)]
pub enum Area {
    /// A row, by its index from zero.
    Row(usize),
    /// A column, by its index from zero.
    Column(usize),
    /// A box, by its index from zero.
    Region(usize),
    /// Any other group (a cage, a thermometer, a diagonal, the whole grid):
    /// it has no name in prose.
    Unnamed,
}

/// One deduction of a solver.
#[derive(Clone, Debug)]
pub struct SolutionStep {
    pub rule: Rule,
    /// The cells the technique rests on, in the solver's order.
    pub cells: Vec<Cell>,
    /// The candidate values involved, in no particular order.
    pub values: Vec<u32>,
    /// The areas the technique looks at, in the solver's order.
    pub areas: Vec<Area>,
    /// The cells that lose candidates, in the solver's order.
    pub affected_cells: Vec<Cell>,
}

/// A step as a mathematical value.
pub ghost struct StepView {
    pub rule: Rule,
    pub cells: Seq<Cell>,
    pub values: Seq<u32>,
    pub areas: Seq<Area>,
    pub affected_cells: Seq<Cell>,
}

impl View for SolutionStep {
    type V = StepView;

    open spec fn view(&self) -> StepView {
        StepView {
            rule: self.rule,
            cells: self.cells@,
            values: self.values@,
            areas: self.areas@,
            affected_cells: self.affected_cells@,
        }
    }
}

impl Rule {
    /// Whether a step of this rule is told at all: every rule but the bare
    /// candidate list.
    pub open spec fn is_relevant(self) -> bool {
        self != Rule::Candidates
    }

    /// Whether the technique has a name, a link and a wording.
    pub open spec fn is_narrated(self) -> bool {
        match self {
            Rule::NakedSingle
            | Rule::HiddenSingle
            | Rule::LockedCandidatesPairs
            | Rule::NakedPairs
            | Rule::HiddenPairs
            | Rule::CommonPeerElimination
            | Rule::LockedCandidatesTriples
            | Rule::NakedTriples
            | Rule::HiddenTriples
            | Rule::XWing
            | Rule::XYWing
            | Rule::TurbotFish => true,
            _ => false,
        }
    }

    /// Tells whether the technique has a name, a link and a wording.
    pub fn has_narration(self) -> (yes: bool)
        ensures
            yes == self.is_narrated(),
    {
        match self {
            Rule::NakedSingle
            | Rule::HiddenSingle
            | Rule::LockedCandidatesPairs
            | Rule::NakedPairs
            | Rule::HiddenPairs
            | Rule::CommonPeerElimination
            | Rule::LockedCandidatesTriples
            | Rule::NakedTriples
            | Rule::HiddenTriples
            | Rule::XWing
            | Rule::XYWing
            | Rule::TurbotFish => true,
            _ => false,
        }
    }
}

impl Cell {
    /// Whether the cell's one-based row and column fit the machine's word.
    pub open spec fn is_nameable(self) -> bool {
        self.row < usize::MAX && self.col < usize::MAX
    }

    /// Tells whether the cell can be named.
    pub fn can_name(self) -> (yes: bool)
        ensures
            yes == self.is_nameable(),
    {
        self.row < usize::MAX && self.col < usize::MAX
    }
}

impl Area {
    /// Whether the area has a name in prose, and its one-based index fits
    /// the machine's word.
    pub open spec fn is_nameable(self) -> bool {
        match self {
            Area::Row(index) | Area::Column(index) | Area::Region(index) => index < usize::MAX,
            Area::Unnamed => false,
        }
    }

    /// Tells whether the area can be named.
    pub fn can_name(self) -> (yes: bool)
        ensures
            yes == self.is_nameable(),
    {
        match self {
            Area::Row(index) | Area::Column(index) | Area::Region(index) => index < usize::MAX,
            Area::Unnamed => false,
        }
    }
}

} // verus!
