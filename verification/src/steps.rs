//! The account itself: a name and a link for each technique, a wording for
//! each step, and the text for a whole list of steps.

use vstd::prelude::*;
use vstd::pervasive::unreached;
use crate::decimal::{decimal, decimal_text};
use crate::listing::{
    all_nameable, can_name_all, cells_listing, cells_text, values_listing, values_text,
};
use crate::model::{Area, Rule, SolutionStep, StepView};
use crate::names::{area_label, area_name, cell_label, cell_name};

verus! {

/// The name under which a technique is known to solvers.
pub open spec fn display_name(rule: Rule) -> Seq<char>
    recommends
        rule.is_narrated(),
{
    match rule {
        Rule::NakedSingle => "Naked Single"@,
        Rule::HiddenSingle => "Hidden Single"@,
        Rule::LockedCandidatesPairs => "Locked Candidate Pair"@,
        Rule::NakedPairs => "Naked Pair"@,
        Rule::HiddenPairs => "Hidden Pair"@,
        Rule::CommonPeerElimination => "Common Peer Elimination"@,
        Rule::LockedCandidatesTriples => "Locked Candidate Triple"@,
        Rule::NakedTriples => "Naked Triple"@,
        Rule::HiddenTriples => "Hidden Triple"@,
        Rule::XWing => "X-Wing"@,
        Rule::XYWing => "XY-Wing"@,
        Rule::TurbotFish => "Turbot Fish"@,
        _ => Seq::empty(),
    }
}

/// Where a technique is explained.
pub open spec fn reference_url(rule: Rule) -> Seq<char>
    recommends
        rule.is_narrated(),
{
    match rule {
        Rule::NakedSingle => "https://hodoku.sourceforge.net/en/tech_singles.php#n1"@,
        Rule::HiddenSingle => "https://hodoku.sourceforge.net/en/tech_singles.php#h1"@,
        Rule::LockedCandidatesPairs => "https://hodoku.sourceforge.net/en/tech_intersections.php"@,
        Rule::NakedPairs => "https://hodoku.sourceforge.net/en/tech_naked.php#n2"@,
        Rule::HiddenPairs => "https://hodoku.sourceforge.net/en/tech_hidden.php#h2"@,
        Rule::CommonPeerElimination => "https://lisudoku.xyz/learn#CommonPeerElimination"@,
        Rule::LockedCandidatesTriples => "https://hodoku.sourceforge.net/en/tech_intersections.php"@,
        Rule::NakedTriples => "https://hodoku.sourceforge.net/en/tech_naked.php#n3"@,
        Rule::HiddenTriples => "https://hodoku.sourceforge.net/en/tech_hidden.php#h3"@,
        Rule::XWing => "https://hodoku.sourceforge.net/en/tech_fishb.php#bf2"@,
        Rule::XYWing => "https://hodoku.sourceforge.net/en/tech_wings.php#xy"@,
        Rule::TurbotFish => "https://hodoku.sourceforge.net/en/tech_sdp.php#tf"@,
        _ => Seq::empty(),
    }
}

/// Gives the name under which a technique is known to solvers.
pub fn rule_display(rule: Rule) -> (name: String)
    requires
        rule.is_narrated(),
    ensures
        name@ == display_name(rule),
{
    let name = match rule {
        Rule::NakedSingle => "Naked Single",
        Rule::HiddenSingle => "Hidden Single",
        Rule::LockedCandidatesPairs => "Locked Candidate Pair",
        Rule::NakedPairs => "Naked Pair",
        Rule::HiddenPairs => "Hidden Pair",
        Rule::CommonPeerElimination => "Common Peer Elimination",
        Rule::LockedCandidatesTriples => "Locked Candidate Triple",
        Rule::NakedTriples => "Naked Triple",
        Rule::HiddenTriples => "Hidden Triple",
        Rule::XWing => "X-Wing",
        Rule::XYWing => "XY-Wing",
        Rule::TurbotFish => "Turbot Fish",
        _ => unreached(),
    };
    String::from_str(name)
}

/// Gives the address of a page that explains a technique.
pub fn rule_url(rule: Rule) -> (url: String)
    requires
        rule.is_narrated(),
    ensures
        url@ == reference_url(rule),
{
    let url = match rule {
        Rule::NakedSingle => "https://hodoku.sourceforge.net/en/tech_singles.php#n1",
        Rule::HiddenSingle => "https://hodoku.sourceforge.net/en/tech_singles.php#h1",
        Rule::LockedCandidatesPairs => "https://hodoku.sourceforge.net/en/tech_intersections.php",
        Rule::NakedPairs => "https://hodoku.sourceforge.net/en/tech_naked.php#n2",
        Rule::HiddenPairs => "https://hodoku.sourceforge.net/en/tech_hidden.php#h2",
        Rule::CommonPeerElimination => "https://lisudoku.xyz/learn#CommonPeerElimination",
        Rule::LockedCandidatesTriples => "https://hodoku.sourceforge.net/en/tech_intersections.php",
        Rule::NakedTriples => "https://hodoku.sourceforge.net/en/tech_naked.php#n3",
        Rule::HiddenTriples => "https://hodoku.sourceforge.net/en/tech_hidden.php#h3",
        Rule::XWing => "https://hodoku.sourceforge.net/en/tech_fishb.php#bf2",
        Rule::XYWing => "https://hodoku.sourceforge.net/en/tech_wings.php#xy",
        Rule::TurbotFish => "https://hodoku.sourceforge.net/en/tech_sdp.php#tf",
        _ => unreached(),
    };
    String::from_str(url)
}

/// The words that place a step in its area, or nothing where the solver
/// named no area.
pub open spec fn area_clause(areas: Seq<Area>) -> Seq<char> {
    if areas.len() == 0 {
        Seq::empty()
    } else {
        " in "@ + area_name(areas[0])
    }
}

impl StepView {
    /// Whether the step can be put into words: its technique has a wording,
    /// and the step holds every cell, area and value that the wording names,
    /// each of them nameable.
    pub open spec fn is_narratable(self) -> bool {
        match self.rule {
            Rule::HiddenSingle => {
                &&& self.values.len() >= 1
                &&& self.areas.len() >= 1
                &&& self.areas[0].is_nameable()
                &&& self.cells.len() >= 1
                &&& self.cells[0].is_nameable()
            },
            Rule::NakedSingle => {
                &&& self.values.len() >= 1
                &&& self.cells.len() >= 1
                &&& self.cells[0].is_nameable()
            },
            Rule::HiddenPairs | Rule::HiddenTriples => {
                &&& self.areas.len() >= 1
                &&& self.areas[0].is_nameable()
            },
            Rule::XWing => {
                &&& all_nameable(self.cells)
                &&& all_nameable(self.affected_cells)
                &&& self.areas.len() >= 4
                &&& self.areas[0].is_nameable()
                &&& self.areas[1].is_nameable()
                &&& self.areas[2].is_nameable()
                &&& self.areas[3].is_nameable()
            },
            Rule::XYWing => {
                &&& self.values.len() >= 3
                &&& self.cells.len() >= 3
                &&& self.cells[0].is_nameable()
                &&& self.cells[1].is_nameable()
                &&& self.cells[2].is_nameable()
                &&& all_nameable(self.affected_cells)
            },
            Rule::CommonPeerElimination => {
                &&& all_nameable(self.cells)
                &&& all_nameable(self.affected_cells)
                &&& self.areas.len() >= 1
                &&& self.areas[0].is_nameable()
            },
            Rule::TurbotFish => {
                &&& self.cells.len() >= 4
                &&& self.cells[0].is_nameable()
                &&& self.cells[1].is_nameable()
                &&& self.cells[2].is_nameable()
                &&& self.cells[3].is_nameable()
                &&& all_nameable(self.affected_cells)
            },
            Rule::LockedCandidatesPairs
            | Rule::LockedCandidatesTriples
            | Rule::NakedPairs
            | Rule::NakedTriples => {
                &&& self.areas.len() >= 1 ==> self.areas[0].is_nameable()
                &&& all_nameable(self.affected_cells)
            },
            _ => false,
        }
    }
}

impl SolutionStep {
    /// Tells whether the step can be put into words.
    pub fn can_narrate(&self) -> (yes: bool)
        ensures
            yes == self@.is_narratable(),
    {
        match self.rule {
            Rule::HiddenSingle => {
                self.values.len() >= 1 && self.areas.len() >= 1 && self.areas[0].can_name()
                    && self.cells.len() >= 1 && self.cells[0].can_name()
            },
            Rule::NakedSingle => {
                self.values.len() >= 1 && self.cells.len() >= 1 && self.cells[0].can_name()
            },
            Rule::HiddenPairs | Rule::HiddenTriples => {
                self.areas.len() >= 1 && self.areas[0].can_name()
            },
            Rule::XWing => {
                can_name_all(&self.cells) && can_name_all(&self.affected_cells)
                    && self.areas.len() >= 4 && self.areas[0].can_name()
                    && self.areas[1].can_name() && self.areas[2].can_name()
                    && self.areas[3].can_name()
            },
            Rule::XYWing => {
                self.values.len() >= 3 && self.cells.len() >= 3 && self.cells[0].can_name()
                    && self.cells[1].can_name() && self.cells[2].can_name() && can_name_all(
                    &self.affected_cells,
                )
            },
            Rule::CommonPeerElimination => {
                can_name_all(&self.cells) && can_name_all(&self.affected_cells)
                    && self.areas.len() >= 1 && self.areas[0].can_name()
            },
            Rule::TurbotFish => {
                self.cells.len() >= 4 && self.cells[0].can_name() && self.cells[1].can_name()
                    && self.cells[2].can_name() && self.cells[3].can_name() && can_name_all(
                    &self.affected_cells,
                )
            },
            Rule::LockedCandidatesPairs
            | Rule::LockedCandidatesTriples
            | Rule::NakedPairs
            | Rule::NakedTriples => {
                (self.areas.len() == 0 || self.areas[0].can_name()) && can_name_all(
                    &self.affected_cells,
                )
            },
            _ => false,
        }
    }
}

/// What a step did, in the wording of its technique. Values are listed in
/// ascending order, cells and areas in the solver's order.
pub open spec fn details(step: StepView) -> Seq<char>
    recommends
        step.is_narratable(),
{
    let values = values_listing(step.values);
    let cells = cells_listing(step.cells);
    let affected = cells_listing(step.affected_cells);
    match step.rule {
        Rule::HiddenSingle => decimal(step.values[0] as nat) + " in "@ + area_name(step.areas[0])
            + " on cell "@ + cell_name(step.cells[0]),
        Rule::NakedSingle => decimal(step.values[0] as nat) + " on cell "@ + cell_name(
            step.cells[0],
        ),
        Rule::HiddenPairs | Rule::HiddenTriples => "of "@ + values + " in "@ + area_name(
            step.areas[0],
        ),
        Rule::XWing => " on cells "@ + cells + " ("@ + area_name(step.areas[0]) + " and "@
            + area_name(step.areas[1]) + ") to remove "@ + values + " from "@ + affected + " ("@
            + area_name(step.areas[2]) + " and "@ + area_name(step.areas[3]) + ")"@,
        Rule::XYWing => "of "@ + values + " with pivot at "@ + cell_name(step.cells[0])
            + " and pincers at "@ + cell_name(step.cells[1]) + " and "@ + cell_name(step.cells[2])
            + " which removes "@ + decimal(step.values[2] as nat) + " from "@ + affected,
        Rule::CommonPeerElimination => " to remove value "@ + values + " from "@ + affected
            + " because it would eliminate it as candidate from "@ + area_name(step.areas[0])
            + " (cells "@ + cells + ")"@,
        Rule::TurbotFish => " on strong links "@ + cell_name(step.cells[0]) + "-"@ + cell_name(
            step.cells[1],
        ) + " and "@ + cell_name(step.cells[2]) + "-"@ + cell_name(step.cells[3]) + ". Because "@
            + cell_name(step.cells[0]) + " and "@ + cell_name(step.cells[2])
            + " see each other, at least one of "@ + cell_name(step.cells[1]) + " and "@
            + cell_name(step.cells[3]) + " will be "@ + values + ", so remove "@ + values
            + " from cells "@ + affected,
        Rule::LockedCandidatesPairs
        | Rule::LockedCandidatesTriples
        | Rule::NakedPairs
        | Rule::NakedTriples => "of "@ + values + area_clause(step.areas) + " to remove "@ + values
            + " from "@ + affected,
        _ => Seq::empty(),
    }
}

/// Puts into words what a step did.
pub fn step_details(step: &SolutionStep) -> (text: String)
    requires
        step@.is_narratable(),
    ensures
        text@ == details(step@),
{
    match step.rule {
        Rule::HiddenSingle => {
            let mut text = decimal_text(step.values[0]);
            text.append(" in ");
            text.append(area_label(step.areas[0]).as_str());
            text.append(" on cell ");
            text.append(cell_label(step.cells[0]).as_str());
            text
        },
        Rule::NakedSingle => {
            let mut text = decimal_text(step.values[0]);
            text.append(" on cell ");
            text.append(cell_label(step.cells[0]).as_str());
            text
        },
        Rule::HiddenPairs | Rule::HiddenTriples => {
            let mut text = String::from_str("of ");
            text.append(values_text(&step.values).as_str());
            text.append(" in ");
            text.append(area_label(step.areas[0]).as_str());
            text
        },
        Rule::XWing => {
            let values = values_text(&step.values);
            let mut text = String::from_str(" on cells ");
            text.append(cells_text(&step.cells).as_str());
            text.append(" (");
            text.append(area_label(step.areas[0]).as_str());
            text.append(" and ");
            text.append(area_label(step.areas[1]).as_str());
            text.append(") to remove ");
            text.append(values.as_str());
            text.append(" from ");
            text.append(cells_text(&step.affected_cells).as_str());
            text.append(" (");
            text.append(area_label(step.areas[2]).as_str());
            text.append(" and ");
            text.append(area_label(step.areas[3]).as_str());
            text.append(")");
            text
        },
        Rule::XYWing => {
            let mut text = String::from_str("of ");
            text.append(values_text(&step.values).as_str());
            text.append(" with pivot at ");
            text.append(cell_label(step.cells[0]).as_str());
            text.append(" and pincers at ");
            text.append(cell_label(step.cells[1]).as_str());
            text.append(" and ");
            text.append(cell_label(step.cells[2]).as_str());
            text.append(" which removes ");
            text.append(decimal_text(step.values[2]).as_str());
            text.append(" from ");
            text.append(cells_text(&step.affected_cells).as_str());
            text
        },
        Rule::CommonPeerElimination => {
            let mut text = String::from_str(" to remove value ");
            text.append(values_text(&step.values).as_str());
            text.append(" from ");
            text.append(cells_text(&step.affected_cells).as_str());
            text.append(" because it would eliminate it as candidate from ");
            text.append(area_label(step.areas[0]).as_str());
            text.append(" (cells ");
            text.append(cells_text(&step.cells).as_str());
            text.append(")");
            text
        },
        Rule::TurbotFish => {
            let values = values_text(&step.values);
            let first = cell_label(step.cells[0]);
            let second = cell_label(step.cells[1]);
            let third = cell_label(step.cells[2]);
            let fourth = cell_label(step.cells[3]);
            let mut text = String::from_str(" on strong links ");
            text.append(first.as_str());
            text.append("-");
            text.append(second.as_str());
            text.append(" and ");
            text.append(third.as_str());
            text.append("-");
            text.append(fourth.as_str());
            text.append(". Because ");
            text.append(first.as_str());
            text.append(" and ");
            text.append(third.as_str());
            text.append(" see each other, at least one of ");
            text.append(second.as_str());
            text.append(" and ");
            text.append(fourth.as_str());
            text.append(" will be ");
            text.append(values.as_str());
            text.append(", so remove ");
            text.append(values.as_str());
            text.append(" from cells ");
            text.append(cells_text(&step.affected_cells).as_str());
            text
        },
        Rule::LockedCandidatesPairs
        | Rule::LockedCandidatesTriples
        | Rule::NakedPairs
        | Rule::NakedTriples => {
            let values = values_text(&step.values);
            let mut text = String::from_str("of ");
            text.append(values.as_str());
            if step.areas.len() > 0 {
                text.append(" in ");
                text.append(area_label(step.areas[0]).as_str());
                assert(text@ =~= "of "@ + values@ + area_clause(step@.areas));
            } else {
                assert(text@ =~= "of "@ + values@ + area_clause(step@.areas));
            }
            text.append(" to remove ");
            text.append(values.as_str());
            text.append(" from ");
            text.append(cells_text(&step.affected_cells).as_str());
            text
        },
        _ => unreached(),
    }
}

/// A step in one phrase: the technique's name as a link to its explanation,
/// a space, and what the step did.
pub open spec fn description(step: StepView) -> Seq<char>
    recommends
        step.is_narratable(),
{
    "["@ + display_name(step.rule) + "]("@ + reference_url(step.rule) + ") "@ + details(step)
}

/// Describes a step in one phrase, its technique linked to an explanation.
pub fn step_description(step: &SolutionStep) -> (text: String)
    requires
        step@.is_narratable(),
    ensures
        text@ == description(step@),
{
    let mut text = String::from_str("[");
    text.append(rule_display(step.rule).as_str());
    text.append("](");
    text.append(rule_url(step.rule).as_str());
    text.append(") ");
    text.append(step_details(step).as_str());
    text
}

/// The steps as mathematical values, in their order.
pub open spec fn views(steps: Seq<SolutionStep>) -> Seq<StepView> {
    steps.map_values(|step: SolutionStep| step@)
}

/// The steps worth telling, in their order: all but the bare candidate
/// lists.
pub open spec fn relevant(steps: Seq<StepView>) -> Seq<StepView> {
    steps.filter(|step: StepView| step.rule.is_relevant())
}

/// Whether every step worth telling can be put into words.
pub open spec fn all_narratable(steps: Seq<StepView>) -> bool {
    forall|i: int|
        0 <= i < steps.len() && (#[trigger] steps[i]).rule.is_relevant()
            ==> steps[i].is_narratable()
}

/// Tells whether every step worth telling can be put into words, which is
/// what an account of the list asks for.
pub fn can_narrate_all(steps: &Vec<SolutionStep>) -> (yes: bool)
    ensures
        yes == all_narratable(views(steps@)),
{
    let mut done: usize = 0;
    while done < steps.len()
        invariant
            done <= steps.len(),
            forall|i: int|
                0 <= i < done && (#[trigger] views(steps@)[i]).rule.is_relevant() ==> views(
                    steps@,
                )[i].is_narratable(),
        decreases steps.len() - done,
    {
        assert(views(steps@)[done as int] == steps@[done as int]@);
        if steps[done].rule != Rule::Candidates && !steps[done].can_narrate() {
            return false;
        }
        done += 1;
    }
    true
}

/// The account of a single step: one sentence, closed by a hard line break
/// and an empty line.
pub open spec fn single_step_text(step: StepView) -> Seq<char> {
    "There is a "@ + description(step) + "  \n\n"@
}

/// The opening of an account of several steps: a heading with a caveat in
/// small print, and a reminder to keep full pencilmarks.
pub open spec fn heading() -> Seq<char> {
    "Steps to make progress "@
        + "^\\(I ^ignored ^any ^existing ^pencilmarks, ^the ^helpful ^steps ^are ^likely ^at ^the ^end ^of ^the ^list)  \n"@
        + "* Make sure to write in full [pencilmarks](https://www.sudopedia.org/wiki/Pencilmark)  \n"@
}

/// The opening words of a bullet: the last one of a list is marked as the
/// step to act on.
pub open spec fn bullet_opening(last: bool) -> Seq<char> {
    if last {
        "* "@ + "Finally, there is a "@
    } else {
        "* "@
    }
}

/// One item of the list: the bullet's opening, the step's description, and
/// a hard line break.
pub open spec fn bullet(step: StepView, last: bool) -> Seq<char> {
    bullet_opening(last) + description(step) + "  \n"@
}

/// The items of the list for the given steps, in their order: one for each
/// step, the last of them marked.
pub open spec fn bullet_lines(steps: Seq<StepView>) -> Seq<Seq<char>> {
    Seq::new(steps.len(), |i: int| bullet(steps[i], i + 1 == steps.len()))
}

/// The account of a list of steps. A single step worth telling gets one
/// sentence. Any other number, none included, gets the heading, one bullet
/// for each step worth telling, and an empty line.
pub open spec fn steps_text(steps: Seq<StepView>) -> Seq<char> {
    let told = relevant(steps);
    if told.len() == 1 {
        single_step_text(told[0])
    } else {
        heading() + bullet_lines(told).flatten() + "\n"@
    }
}

/// Writes the account of a list of steps.
pub fn compute_steps_text(steps: Vec<SolutionStep>) -> (text: String)
    requires
        all_narratable(views(steps@)),
    ensures
        text@ == steps_text(views(steps@)),
{
    let ghost all = views(steps@);
    let mut told: Vec<&SolutionStep> = Vec::new();
    let mut at: usize = 0;
    proof {
        assert(all.take(0) =~= Seq::<StepView>::empty());
        assert(relevant(Seq::<StepView>::empty()) =~= Seq::<StepView>::empty()) by {
            reveal(Seq::filter);
        }
        assert(told@.map_values(|step: &SolutionStep| step@) =~= Seq::<StepView>::empty());
    }
    while at < steps.len()
        invariant
            at <= steps.len(),
            all == views(steps@),
            all_narratable(all),
            told@.map_values(|step: &SolutionStep| step@) == relevant(all.take(at as int)),
            forall|k: int| 0 <= k < told@.len() ==> (#[trigger] told@[k])@.is_narratable(),
        decreases steps.len() - at,
    {
        let ghost before = told@.map_values(|step: &SolutionStep| step@);
        let step = &steps[at];
        proof {
            assert(all[at as int] == step@);
            all.lemma_take_succ_push(at as int);
            all.take(at as int).lemma_filter_push(
                step@,
                |step: StepView| step.rule.is_relevant(),
            );
        }
        if step.rule != Rule::Candidates {
            told.push(step);
            assert(told@.map_values(|step: &SolutionStep| step@) =~= before.push(step@));
        }
        at += 1;
    }
    let ghost told_views = told@.map_values(|step: &SolutionStep| step@);
    proof {
        assert(all.take(at as int) =~= all);
        assert(told_views == relevant(all));
    }
    if told.len() == 1 {
        let mut text = String::from_str("There is a ");
        text.append(step_description(told[0]).as_str());
        text.append("  \n\n");
        assert(told_views[0] == told@[0]@);
        return text;
    }
    let mut text = String::from_str("Steps to make progress ");
    text.append(
        "^\\(I ^ignored ^any ^existing ^pencilmarks, ^the ^helpful ^steps ^are ^likely ^at ^the ^end ^of ^the ^list)  \n",
    );
    text.append(
        "* Make sure to write in full [pencilmarks](https://www.sudopedia.org/wiki/Pencilmark)  \n",
    );
    let ghost lines = bullet_lines(told_views);
    assert(text@ =~= heading() + lines.take(0).flatten());
    let mut index: usize = 0;
    while index < told.len()
        invariant
            index <= told.len(),
            told_views == told@.map_values(|step: &SolutionStep| step@),
            forall|k: int| 0 <= k < told@.len() ==> (#[trigger] told@[k])@.is_narratable(),
            lines == bullet_lines(told_views),
            text@ == heading() + lines.take(index as int).flatten(),
        decreases told.len() - index,
    {
        let ghost before = text@;
        text.append("* ");
        if index == told.len() - 1 {
            text.append("Finally, there is a ");
        }
        text.append(step_description(told[index]).as_str());
        text.append("  \n");
        proof {
            assert(told_views[index as int] == told@[index as int]@);
            assert(text@ =~= before + lines[index as int]);
            lines.lemma_take_succ_push(index as int);
            lines.take(index as int).lemma_flatten_push(lines[index as int]);
            assert(text@ =~= heading() + lines.take(index + 1).flatten());
        }
        index += 1;
    }
    proof {
        assert(lines.take(index as int) =~= lines);
    }
    text.append("\n");
    text
}

} // verus!
