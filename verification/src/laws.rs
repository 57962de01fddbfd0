//! What holds of every account, whatever the steps.

use vstd::prelude::*;
use crate::decimal::decimal;
use crate::listing::{
    ascending, cells_listing, lemma_ascending_ignores_order, listing, values_listing,
};
use crate::model::{Area, Cell, Rule, SolutionStep, StepView};
use crate::names::{area_name, cell_name};
use crate::steps::{
    area_clause, bullet_lines, description, details, display_name, heading, reference_url,
    relevant, single_step_text, steps_text,
};

verus! {

/// Whether a text is free of asterisks, the character that opens a bullet.
#[verifier::opaque]
pub open spec fn star_free(text: Seq<char>) -> bool {
    forall|i: int| 0 <= i < text.len() ==> text[i] != '*'
}

/// Two texts without an asterisk have none when set one after the other.
pub broadcast proof fn lemma_star_free_concat(first: Seq<char>, second: Seq<char>)
    requires
        star_free(first),
        star_free(second),
    ensures
        #[trigger] star_free(first + second),
{
    reveal(star_free);
}

/// A number in decimal notation holds digits only, and at least one.
pub proof fn lemma_decimal_digits(n: nat)
    ensures
        decimal(n).len() >= 1,
        forall|i: int| 0 <= i < decimal(n).len() ==> '0' <= #[trigger] decimal(n)[i] <= '9',
        star_free(decimal(n)),
    decreases n,
{
    reveal(star_free);
    if n >= 10 {
        lemma_decimal_digits(n / 10);
    }
}

/// A list of items without an asterisk has none either.
pub proof fn lemma_listing_star_free(items: Seq<Seq<char>>)
    requires
        forall|i: int| 0 <= i < items.len() ==> star_free(#[trigger] items[i]),
    ensures
        star_free(listing(items)),
    decreases items.len(),
{
    broadcast use lemma_star_free_concat;

    if items.len() >= 2 {
        assert(star_free(", "@)) by {
            reveal(star_free);
            reveal_strlit(", ");
        }
        lemma_listing_star_free(items.drop_last());
    } else if items.len() == 0 {
        reveal(star_free);
    }
}

/// No cell's name holds an asterisk.
pub proof fn lemma_cell_name_star_free(cell: Cell)
    ensures
        star_free(cell_name(cell)),
{
    broadcast use lemma_star_free_concat;

    assert(star_free("R"@) && star_free("C"@)) by {
        reveal(star_free);
        reveal_strlit("R");
        reveal_strlit("C");
    }
    lemma_decimal_digits((cell.row + 1) as nat);
    lemma_decimal_digits((cell.col + 1) as nat);
}

/// No area's name holds an asterisk.
pub proof fn lemma_area_name_star_free(area: Area)
    ensures
        star_free(area_name(area)),
{
    broadcast use lemma_star_free_concat;

    assert(star_free("row "@) && star_free("column "@) && star_free("box "@) && star_free(
        Seq::<char>::empty(),
    )) by {
        reveal(star_free);
        reveal_strlit("row ");
        reveal_strlit("column ");
        reveal_strlit("box ");
    }
    match area {
        Area::Row(index) | Area::Column(index) | Area::Region(index) => {
            lemma_decimal_digits((index + 1) as nat);
        },
        Area::Unnamed => {},
    }
}

/// No list of cells holds an asterisk.
pub proof fn lemma_cells_listing_star_free(cells: Seq<Cell>)
    ensures
        star_free(cells_listing(cells)),
{
    let names = cells.map_values(|cell: Cell| cell_name(cell));
    assert forall|i: int| 0 <= i < names.len() implies star_free(#[trigger] names[i]) by {
        lemma_cell_name_star_free(cells[i]);
    }
    lemma_listing_star_free(names);
}

/// No list of values holds an asterisk.
pub proof fn lemma_values_listing_star_free(values: Seq<u32>)
    ensures
        star_free(values_listing(values)),
{
    let sorted = ascending(values);
    let items = sorted.map_values(|value: u32| decimal(value as nat));
    assert forall|i: int| 0 <= i < items.len() implies star_free(#[trigger] items[i]) by {
        lemma_decimal_digits(sorted[i] as nat);
    }
    lemma_listing_star_free(items);
}

/// No technique's name and no link holds an asterisk.
pub proof fn lemma_rule_star_free(rule: Rule)
    ensures
        star_free(display_name(rule)),
        star_free(reference_url(rule)),
{
    reveal(star_free);
    reveal_strlit("Naked Single");
    reveal_strlit("Hidden Single");
    reveal_strlit("Locked Candidate Pair");
    reveal_strlit("Naked Pair");
    reveal_strlit("Hidden Pair");
    reveal_strlit("Common Peer Elimination");
    reveal_strlit("Locked Candidate Triple");
    reveal_strlit("Naked Triple");
    reveal_strlit("Hidden Triple");
    reveal_strlit("X-Wing");
    reveal_strlit("XY-Wing");
    reveal_strlit("Turbot Fish");
    reveal_strlit("https://hodoku.sourceforge.net/en/tech_singles.php#n1");
    reveal_strlit("https://hodoku.sourceforge.net/en/tech_singles.php#h1");
    reveal_strlit("https://hodoku.sourceforge.net/en/tech_intersections.php");
    reveal_strlit("https://hodoku.sourceforge.net/en/tech_naked.php#n2");
    reveal_strlit("https://hodoku.sourceforge.net/en/tech_hidden.php#h2");
    reveal_strlit("https://lisudoku.xyz/learn#CommonPeerElimination");
    reveal_strlit("https://hodoku.sourceforge.net/en/tech_naked.php#n3");
    reveal_strlit("https://hodoku.sourceforge.net/en/tech_hidden.php#h3");
    reveal_strlit("https://hodoku.sourceforge.net/en/tech_fishb.php#bf2");
    reveal_strlit("https://hodoku.sourceforge.net/en/tech_wings.php#xy");
    reveal_strlit("https://hodoku.sourceforge.net/en/tech_sdp.php#tf");
}

/// None of the fixed words of a wording holds an asterisk.
proof fn lemma_fixed_words_star_free()
    ensures
        star_free(Seq::<char>::empty()),
        star_free(" in "@),
        star_free(" on cell "@),
        star_free("of "@),
        star_free(" on cells "@),
        star_free(" ("@),
        star_free(" and "@),
        star_free(") to remove "@),
        star_free(" from "@),
        star_free(")"@),
        star_free(" with pivot at "@),
        star_free(" and pincers at "@),
        star_free(" which removes "@),
        star_free(" to remove value "@),
        star_free(" because it would eliminate it as candidate from "@),
        star_free(" (cells "@),
        star_free(" on strong links "@),
        star_free("-"@),
        star_free(". Because "@),
        star_free(" see each other, at least one of "@),
        star_free(" will be "@),
        star_free(", so remove "@),
        star_free(" from cells "@),
        star_free(" to remove "@),
        star_free("["@),
        star_free("]("@),
        star_free(") "@),
        star_free("There is a "@),
        star_free("  \n\n"@),
{
    reveal(star_free);
    reveal_strlit(" in ");
    reveal_strlit(" on cell ");
    reveal_strlit("of ");
    reveal_strlit(" on cells ");
    reveal_strlit(" (");
    reveal_strlit(" and ");
    reveal_strlit(") to remove ");
    reveal_strlit(" from ");
    reveal_strlit(")");
    reveal_strlit(" with pivot at ");
    reveal_strlit(" and pincers at ");
    reveal_strlit(" which removes ");
    reveal_strlit(" to remove value ");
    reveal_strlit(" because it would eliminate it as candidate from ");
    reveal_strlit(" (cells ");
    reveal_strlit(" on strong links ");
    reveal_strlit("-");
    reveal_strlit(". Because ");
    reveal_strlit(" see each other, at least one of ");
    reveal_strlit(" will be ");
    reveal_strlit(", so remove ");
    reveal_strlit(" from cells ");
    reveal_strlit(" to remove ");
    reveal_strlit("[");
    reveal_strlit("](");
    reveal_strlit(") ");
    reveal_strlit("There is a ");
    reveal_strlit("  \n\n");
}

/// No wording of a step holds an asterisk.
pub proof fn lemma_details_star_free(step: StepView)
    ensures
        star_free(details(step)),
{
    broadcast use lemma_star_free_concat;

    lemma_fixed_words_star_free();
    lemma_values_listing_star_free(step.values);
    lemma_cells_listing_star_free(step.cells);
    lemma_cells_listing_star_free(step.affected_cells);
    assert forall|cell: Cell| star_free(#[trigger] cell_name(cell)) by {
        lemma_cell_name_star_free(cell);
    }
    assert forall|area: Area| star_free(#[trigger] area_name(area)) by {
        lemma_area_name_star_free(area);
    }
    assert forall|n: nat| star_free(#[trigger] decimal(n)) by {
        lemma_decimal_digits(n);
    }
    assert(star_free(area_clause(step.areas)));
}

/// No description of a step holds an asterisk.
pub proof fn lemma_description_star_free(step: StepView)
    ensures
        star_free(description(step)),
{
    broadcast use lemma_star_free_concat;

    lemma_rule_star_free(step.rule);
    lemma_details_star_free(step);
    lemma_fixed_words_star_free();
}

/// Where exactly one step is worth telling, the account is one sentence: it
/// begins with `There is a ` and holds no asterisk, so no bullet.
pub proof fn lemma_single_step_is_one_sentence(steps: Seq<StepView>)
    requires
        relevant(steps).len() == 1,
    ensures
        steps_text(steps) == single_step_text(relevant(steps)[0]),
        "There is a "@.is_prefix_of(steps_text(steps)),
        star_free(steps_text(steps)),
{
    broadcast use lemma_star_free_concat;

    lemma_description_star_free(relevant(steps)[0]);
    lemma_fixed_words_star_free();
}

/// Where two or more steps are worth telling, the account is the heading,
/// then exactly one bullet for each of those steps, in the solver's order,
/// then an empty line. Every bullet opens with the marker; after it, the
/// last one begins with `Finally, there is a `, and each of the others goes
/// straight on to its step's description.
pub proof fn lemma_many_steps_are_bulleted(steps: Seq<StepView>)
    requires
        relevant(steps).len() >= 2,
    ensures
        steps_text(steps) == heading() + bullet_lines(relevant(steps)).flatten() + "\n"@,
        bullet_lines(relevant(steps)).len() == relevant(steps).len(),
        forall|i: int|
            0 <= i < relevant(steps).len() - 1 ==> #[trigger] bullet_lines(relevant(steps))[i]
                == "* "@ + description(relevant(steps)[i]) + "  \n"@,
        bullet_lines(relevant(steps)).last() == "* "@ + "Finally, there is a "@ + description(
            relevant(steps).last(),
        ) + "  \n"@,
        "Finally, there is a "@.is_prefix_of(
            bullet_lines(relevant(steps)).last().skip("* "@.len() as int),
        ),
{
    let told = relevant(steps);
    let last = bullet_lines(told).last();
    let rest = "Finally, there is a "@ + description(told.last()) + "  \n"@;
    assert(last =~= "* "@ + rest);
    assert(last.skip("* "@.len() as int) =~= rest);
}

/// Where no step is worth telling, because the list is empty or holds bare
/// candidate lists only, the account is the heading and an empty line, with
/// no bullet for any step.
pub proof fn lemma_nothing_to_tell(steps: Seq<StepView>)
    requires
        forall|i: int| 0 <= i < steps.len() ==> (#[trigger] steps[i]).rule == Rule::Candidates,
    ensures
        relevant(steps).len() == 0,
        bullet_lines(relevant(steps)).len() == 0,
        steps_text(steps) == heading() + "\n"@,
{
    let worth = |step: StepView| step.rule.is_relevant();
    assert(steps.all(|step: StepView| !worth(step)));
    steps.lemma_all_neg_filter_empty(worth);
    assert(bullet_lines(relevant(steps)).flatten() =~= Seq::<char>::empty());
    assert(heading() + Seq::<char>::empty() =~= heading());
}

/// Whether a technique's wording names a value by its place among the
/// values given, beside or instead of listing them all.
pub open spec fn names_value_by_place(rule: Rule) -> bool {
    rule == Rule::HiddenSingle || rule == Rule::NakedSingle || rule == Rule::XYWing
}

/// The order in which a solver gives the values of a step does not show in
/// the step's wording, unless the technique names a value by its place: two
/// steps alike but for the order of their values are worded alike.
pub proof fn lemma_wording_ignores_value_order(first: StepView, second: StepView)
    requires
        first.rule == second.rule,
        first.cells == second.cells,
        first.areas == second.areas,
        first.affected_cells == second.affected_cells,
        first.values.to_multiset() == second.values.to_multiset(),
        !names_value_by_place(first.rule),
    ensures
        details(first) == details(second),
        description(first) == description(second),
{
    lemma_ascending_ignores_order(first.values, second.values);
}

/// A step has one description. Two tellings of the same step, or of two
/// steps that hold the same technique, cells, areas and values, return the
/// same text.
pub proof fn lemma_same_step_same_text(
    first: SolutionStep,
    second: SolutionStep,
    first_text: String,
    second_text: String,
)
    requires
        first@ == second@,
        first_text@ == description(first@),
        second_text@ == description(second@),
    ensures
        first_text@ == second_text@,
{
}

} // verus!
