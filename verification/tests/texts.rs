use lisudoku_steps::decimal::decimal_text;
use lisudoku_steps::listing::{can_name_all, cells_text, join_listing, sorted_values, values_text};
use lisudoku_steps::model::{Area, Cell, Rule, SolutionStep};
use lisudoku_steps::steps::{
    can_narrate_all, compute_steps_text, rule_display, rule_url, step_description, step_details,
};

const HEADING: &str = "Steps to make progress ^\\(I ^ignored ^any ^existing ^pencilmarks, ^the ^helpful ^steps ^are ^likely ^at ^the ^end ^of ^the ^list)  \n* Make sure to write in full [pencilmarks](https://www.sudopedia.org/wiki/Pencilmark)  \n";

fn cell(row: usize, col: usize) -> Cell {
    Cell { row, col }
}

fn step(
    rule: Rule,
    cells: Vec<Cell>,
    values: Vec<u32>,
    areas: Vec<Area>,
    affected_cells: Vec<Cell>,
) -> SolutionStep {
    SolutionStep { rule, cells, values, areas, affected_cells }
}

fn naked_single() -> SolutionStep {
    step(Rule::NakedSingle, vec![cell(2, 4)], vec![7], vec![], vec![])
}

fn hidden_single() -> SolutionStep {
    step(Rule::HiddenSingle, vec![cell(0, 8)], vec![4], vec![Area::Region(2)], vec![])
}

fn naked_pair() -> SolutionStep {
    step(
        Rule::NakedPairs,
        vec![cell(0, 0), cell(0, 1)],
        vec![9, 2],
        vec![Area::Row(0)],
        vec![cell(0, 5), cell(0, 7)],
    )
}

fn candidates() -> SolutionStep {
    step(Rule::Candidates, vec![], vec![], vec![Area::Unnamed], vec![])
}

#[test]
fn decimal_text_of_zero_is_one_digit() {
    assert_eq!(decimal_text(0), "0");
}

#[test]
fn decimal_text_of_small_and_large_numbers() {
    assert_eq!(decimal_text(7), "7");
    assert_eq!(decimal_text(10), "10");
    assert_eq!(decimal_text(109), "109");
    assert_eq!(decimal_text(4294967295), "4294967295");
}

#[test]
fn decimal_text_agrees_with_the_standard_rendering() {
    for n in [0u32, 1, 9, 10, 11, 99, 100, 101, 12345, 1000000, u32::MAX - 1, u32::MAX] {
        assert_eq!(decimal_text(n), n.to_string());
    }
}

#[test]
fn sorted_values_puts_values_in_ascending_order() {
    assert_eq!(sorted_values(&vec![5, 1, 9, 3]), vec![1, 3, 5, 9]);
    assert_eq!(sorted_values(&vec![]), Vec::<u32>::new());
    assert_eq!(sorted_values(&vec![4]), vec![4]);
}

#[test]
fn sorted_values_keeps_repeated_values() {
    assert_eq!(sorted_values(&vec![3, 1, 3, 2, 1]), vec![1, 1, 2, 3, 3]);
}

#[test]
fn sorted_values_leaves_its_input_alone() {
    let values = vec![3, 2, 1];
    let sorted = sorted_values(&values);
    assert_eq!(values, vec![3, 2, 1]);
    assert_eq!(sorted, vec![1, 2, 3]);
}

#[test]
fn join_listing_separates_with_comma_and_space() {
    let items = vec![String::from("a"), String::from("bc"), String::from("d")];
    assert_eq!(join_listing(&items), "a, bc, d");
}

#[test]
fn join_listing_of_none_and_of_one() {
    assert_eq!(join_listing(&vec![]), "");
    assert_eq!(join_listing(&vec![String::from("only")]), "only");
}

#[test]
fn values_text_lists_in_ascending_order() {
    assert_eq!(values_text(&vec![8, 2, 5]), "2, 5, 8");
    assert_eq!(values_text(&vec![12, 3]), "3, 12");
    assert_eq!(values_text(&vec![]), "");
}

#[test]
fn values_text_is_the_same_for_any_order_given() {
    assert_eq!(values_text(&vec![1, 2, 3]), values_text(&vec![3, 1, 2]));
    assert_eq!(values_text(&vec![3, 2, 1]), "1, 2, 3");
}

#[test]
fn cells_text_names_cells_from_one_in_the_order_given() {
    assert_eq!(cells_text(&vec![cell(2, 4)]), "R3C5");
    assert_eq!(cells_text(&vec![cell(8, 0), cell(0, 8), cell(4, 4)]), "R9C1, R1C9, R5C5");
    assert_eq!(cells_text(&vec![]), "");
}

#[test]
fn cells_text_writes_what_the_solver_writes() {
    let theirs = lisudoku_solver::types::CellPosition::new(11, 0).to_string();
    assert_eq!(cells_text(&vec![cell(11, 0)]), theirs);
    assert_eq!(theirs, "R12C1");
}

#[test]
fn can_name_all_refuses_the_top_of_the_range() {
    assert!(can_name_all(&vec![cell(0, 0), cell(8, 8)]));
    assert!(can_name_all(&vec![]));
    assert!(!can_name_all(&vec![cell(0, 0), cell(usize::MAX, 0)]));
    assert!(!can_name_all(&vec![cell(0, usize::MAX)]));
    assert!(cell(usize::MAX - 1, usize::MAX - 1).can_name());
}

#[test]
fn areas_can_be_named_when_they_are_rows_columns_or_boxes() {
    assert!(Area::Row(0).can_name());
    assert!(Area::Column(8).can_name());
    assert!(Area::Region(usize::MAX - 1).can_name());
    assert!(!Area::Region(usize::MAX).can_name());
    assert!(!Area::Unnamed.can_name());
}

#[test]
fn rule_display_gives_each_name() {
    assert_eq!(rule_display(Rule::NakedSingle), "Naked Single");
    assert_eq!(rule_display(Rule::HiddenSingle), "Hidden Single");
    assert_eq!(rule_display(Rule::LockedCandidatesPairs), "Locked Candidate Pair");
    assert_eq!(rule_display(Rule::NakedPairs), "Naked Pair");
    assert_eq!(rule_display(Rule::HiddenPairs), "Hidden Pair");
    assert_eq!(rule_display(Rule::CommonPeerElimination), "Common Peer Elimination");
    assert_eq!(rule_display(Rule::LockedCandidatesTriples), "Locked Candidate Triple");
    assert_eq!(rule_display(Rule::NakedTriples), "Naked Triple");
    assert_eq!(rule_display(Rule::HiddenTriples), "Hidden Triple");
    assert_eq!(rule_display(Rule::XWing), "X-Wing");
    assert_eq!(rule_display(Rule::XYWing), "XY-Wing");
    assert_eq!(rule_display(Rule::TurbotFish), "Turbot Fish");
}

#[test]
fn rule_url_gives_each_link() {
    assert_eq!(rule_url(Rule::NakedSingle), "https://hodoku.sourceforge.net/en/tech_singles.php#n1");
    assert_eq!(rule_url(Rule::HiddenSingle), "https://hodoku.sourceforge.net/en/tech_singles.php#h1");
    assert_eq!(
        rule_url(Rule::LockedCandidatesPairs),
        "https://hodoku.sourceforge.net/en/tech_intersections.php"
    );
    assert_eq!(rule_url(Rule::NakedPairs), "https://hodoku.sourceforge.net/en/tech_naked.php#n2");
    assert_eq!(rule_url(Rule::HiddenPairs), "https://hodoku.sourceforge.net/en/tech_hidden.php#h2");
    assert_eq!(
        rule_url(Rule::CommonPeerElimination),
        "https://lisudoku.xyz/learn#CommonPeerElimination"
    );
    assert_eq!(
        rule_url(Rule::LockedCandidatesTriples),
        "https://hodoku.sourceforge.net/en/tech_intersections.php"
    );
    assert_eq!(rule_url(Rule::NakedTriples), "https://hodoku.sourceforge.net/en/tech_naked.php#n3");
    assert_eq!(rule_url(Rule::HiddenTriples), "https://hodoku.sourceforge.net/en/tech_hidden.php#h3");
    assert_eq!(rule_url(Rule::XWing), "https://hodoku.sourceforge.net/en/tech_fishb.php#bf2");
    assert_eq!(rule_url(Rule::XYWing), "https://hodoku.sourceforge.net/en/tech_wings.php#xy");
    assert_eq!(rule_url(Rule::TurbotFish), "https://hodoku.sourceforge.net/en/tech_sdp.php#tf");
}

#[test]
fn narrated_rules_are_the_twelve_with_a_wording() {
    let narrated = [
        Rule::NakedSingle,
        Rule::HiddenSingle,
        Rule::LockedCandidatesPairs,
        Rule::NakedPairs,
        Rule::HiddenPairs,
        Rule::CommonPeerElimination,
        Rule::LockedCandidatesTriples,
        Rule::NakedTriples,
        Rule::HiddenTriples,
        Rule::XWing,
        Rule::XYWing,
        Rule::TurbotFish,
    ];
    for rule in narrated {
        assert!(rule.has_narration());
    }
    let others = [
        Rule::Candidates,
        Rule::Thermo,
        Rule::ThermoCandidates,
        Rule::KillerCandidates,
        Rule::Killer45,
        Rule::Kropki,
        Rule::KropkiChainCandidates,
        Rule::TopBottomCandidates,
        Rule::CommonPeerEliminationKropki,
        Rule::Swordfish,
        Rule::NishioForcingChains,
    ];
    for rule in others {
        assert!(!rule.has_narration());
    }
}

#[test]
fn details_of_a_hidden_single() {
    assert_eq!(step_details(&hidden_single()), "4 in box 3 on cell R1C9");
}

#[test]
fn details_of_a_naked_single() {
    assert_eq!(step_details(&naked_single()), "7 on cell R3C5");
}

#[test]
fn details_of_a_single_name_the_first_value_given() {
    let single = step(Rule::NakedSingle, vec![cell(0, 0), cell(5, 5)], vec![9, 1], vec![], vec![]);
    assert_eq!(step_details(&single), "9 on cell R1C1");
}

#[test]
fn details_of_hidden_pairs_and_triples() {
    let pair = step(Rule::HiddenPairs, vec![], vec![6, 2], vec![Area::Column(3)], vec![]);
    assert_eq!(step_details(&pair), "of 2, 6 in column 4");
    let triple = step(Rule::HiddenTriples, vec![], vec![9, 1, 5], vec![Area::Row(8)], vec![]);
    assert_eq!(step_details(&triple), "of 1, 5, 9 in row 9");
}

#[test]
fn details_of_an_x_wing() {
    let wing = step(
        Rule::XWing,
        vec![cell(0, 1), cell(0, 6), cell(4, 1), cell(4, 6)],
        vec![3],
        vec![Area::Row(0), Area::Row(4), Area::Column(1), Area::Column(6)],
        vec![cell(2, 1), cell(7, 6)],
    );
    assert_eq!(
        step_details(&wing),
        " on cells R1C2, R1C7, R5C2, R5C7 (row 1 and row 5) to remove 3 from R3C2, R8C7 (column 2 and column 7)"
    );
}

#[test]
fn details_of_an_xy_wing_name_the_third_value_given() {
    let wing = step(
        Rule::XYWing,
        vec![cell(1, 1), cell(1, 5), cell(2, 2)],
        vec![8, 5, 6],
        vec![],
        vec![cell(2, 5), cell(2, 3)],
    );
    assert_eq!(
        step_details(&wing),
        "of 5, 6, 8 with pivot at R2C2 and pincers at R2C6 and R3C3 which removes 6 from R3C6, R3C4"
    );
}

#[test]
fn details_of_a_common_peer_elimination() {
    let elimination = step(
        Rule::CommonPeerElimination,
        vec![cell(3, 0), cell(3, 1)],
        vec![2],
        vec![Area::Region(3)],
        vec![cell(3, 7)],
    );
    assert_eq!(
        step_details(&elimination),
        " to remove value 2 from R4C8 because it would eliminate it as candidate from box 4 (cells R4C1, R4C2)"
    );
}

#[test]
fn details_of_a_turbot_fish() {
    let fish = step(
        Rule::TurbotFish,
        vec![cell(0, 0), cell(0, 5), cell(3, 0), cell(3, 7)],
        vec![4],
        vec![],
        vec![cell(0, 7), cell(3, 5)],
    );
    assert_eq!(
        step_details(&fish),
        " on strong links R1C1-R1C6 and R4C1-R4C8. Because R1C1 and R4C1 see each other, at least one of R1C6 and R4C8 will be 4, so remove 4 from cells R1C8, R4C6"
    );
}

#[test]
fn details_of_locked_candidates_and_naked_sets_with_an_area() {
    assert_eq!(step_details(&naked_pair()), "of 2, 9 in row 1 to remove 2, 9 from R1C6, R1C8");
    let locked = step(
        Rule::LockedCandidatesTriples,
        vec![],
        vec![5],
        vec![Area::Region(8)],
        vec![cell(8, 0)],
    );
    assert_eq!(step_details(&locked), "of 5 in box 9 to remove 5 from R9C1");
    let triple = step(
        Rule::NakedTriples,
        vec![],
        vec![7, 3, 1],
        vec![Area::Column(0)],
        vec![cell(4, 0)],
    );
    assert_eq!(step_details(&triple), "of 1, 3, 7 in column 1 to remove 1, 3, 7 from R5C1");
}

#[test]
fn details_leave_the_area_out_where_none_is_given() {
    let locked = step(Rule::LockedCandidatesPairs, vec![], vec![8], vec![], vec![cell(1, 2)]);
    assert_eq!(step_details(&locked), "of 8 to remove 8 from R2C3");
}

#[test]
fn details_name_areas_as_the_solver_does() {
    let row = lisudoku_solver::types::Area::Row(6).to_string();
    let pair = step(Rule::HiddenPairs, vec![], vec![1, 2], vec![Area::Row(6)], vec![]);
    assert_eq!(step_details(&pair), format!("of 1, 2 in {}", row));
    assert_eq!(row, "row 7");
}

#[test]
fn description_links_the_name_and_adds_the_details() {
    assert_eq!(
        step_description(&naked_single()),
        "[Naked Single](https://hodoku.sourceforge.net/en/tech_singles.php#n1) 7 on cell R3C5"
    );
    assert_eq!(
        step_description(&naked_pair()),
        "[Naked Pair](https://hodoku.sourceforge.net/en/tech_naked.php#n2) of 2, 9 in row 1 to remove 2, 9 from R1C6, R1C8"
    );
}

#[test]
fn description_of_the_same_step_is_the_same_twice() {
    let one = naked_pair();
    let other = naked_pair();
    assert_eq!(step_description(&one), step_description(&one));
    assert_eq!(step_description(&one), step_description(&other));
}

#[test]
fn a_single_naked_single_is_told_in_one_sentence() {
    assert_eq!(
        compute_steps_text(vec![naked_single()]),
        "There is a [Naked Single](https://hodoku.sourceforge.net/en/tech_singles.php#n1) 7 on cell R3C5  \n\n"
    );
}

#[test]
fn one_relevant_step_among_candidate_lists_is_told_in_one_sentence() {
    let text = compute_steps_text(vec![candidates(), hidden_single(), candidates()]);
    assert!(text.starts_with("There is a "));
    assert!(!text.contains('*'));
    assert_eq!(
        text,
        "There is a [Hidden Single](https://hodoku.sourceforge.net/en/tech_singles.php#h1) 4 in box 3 on cell R1C9  \n\n"
    );
}

#[test]
fn hidden_single_then_naked_pair_gives_two_bullets() {
    let text = compute_steps_text(vec![hidden_single(), naked_pair()]);
    let expected = format!(
        "{}{}{}\n",
        HEADING,
        "* [Hidden Single](https://hodoku.sourceforge.net/en/tech_singles.php#h1) 4 in box 3 on cell R1C9  \n",
        "* Finally, there is a [Naked Pair](https://hodoku.sourceforge.net/en/tech_naked.php#n2) of 2, 9 in row 1 to remove 2, 9 from R1C6, R1C8  \n"
    );
    assert_eq!(text, expected);
    let bullets: Vec<&str> = text.lines().skip(2).filter(|line| line.starts_with("* ")).collect();
    assert_eq!(bullets.len(), 2);
    assert!(bullets[0].starts_with("* [Hidden Single]"));
    assert!(bullets[1].starts_with("* Finally, there is a [Naked Pair]"));
}

#[test]
fn several_steps_are_bulleted_in_order_without_the_candidate_lists() {
    let text = compute_steps_text(vec![
        naked_single(),
        candidates(),
        hidden_single(),
        candidates(),
        naked_pair(),
    ]);
    let expected = format!(
        "{}{}{}{}\n",
        HEADING,
        "* [Naked Single](https://hodoku.sourceforge.net/en/tech_singles.php#n1) 7 on cell R3C5  \n",
        "* [Hidden Single](https://hodoku.sourceforge.net/en/tech_singles.php#h1) 4 in box 3 on cell R1C9  \n",
        "* Finally, there is a [Naked Pair](https://hodoku.sourceforge.net/en/tech_naked.php#n2) of 2, 9 in row 1 to remove 2, 9 from R1C6, R1C8  \n"
    );
    assert_eq!(text, expected);
}

#[test]
fn only_candidate_lists_give_the_heading_and_no_bullet_for_a_step() {
    let text = compute_steps_text(vec![candidates(), candidates()]);
    assert_eq!(text, format!("{}\n", HEADING));
}

#[test]
fn no_steps_give_the_heading_and_no_bullet_for_a_step() {
    assert_eq!(compute_steps_text(vec![]), format!("{}\n", HEADING));
}

#[test]
fn the_same_steps_give_the_same_text_twice() {
    let steps = vec![hidden_single(), naked_pair()];
    assert_eq!(compute_steps_text(steps.clone()), compute_steps_text(steps));
}

#[test]
fn values_given_in_another_order_give_the_same_text() {
    let mut other = naked_pair();
    other.values = vec![2, 9];
    assert_eq!(step_details(&naked_pair()), step_details(&other));
    assert_eq!(
        compute_steps_text(vec![hidden_single(), naked_pair()]),
        compute_steps_text(vec![hidden_single(), other])
    );
}

#[test]
fn a_candidate_list_cannot_be_narrated_by_itself() {
    assert!(!candidates().can_narrate());
    assert!(!Rule::Candidates.has_narration());
}

#[test]
fn a_technique_without_a_wording_cannot_be_narrated() {
    for rule in [Rule::Swordfish, Rule::Thermo, Rule::Killer45, Rule::Kropki, Rule::EmptyRectangles] {
        let full = step(
            rule,
            vec![cell(0, 0), cell(0, 1), cell(0, 2), cell(0, 3)],
            vec![1, 2, 3],
            vec![Area::Row(0), Area::Row(1), Area::Row(2), Area::Row(3)],
            vec![cell(1, 1)],
        );
        assert!(!full.can_narrate());
        assert!(!can_narrate_all(&vec![naked_single(), full]));
    }
}

#[test]
fn a_step_short_of_what_its_wording_names_cannot_be_narrated() {
    assert!(naked_single().can_narrate());
    assert!(!step(Rule::NakedSingle, vec![cell(0, 0)], vec![], vec![], vec![]).can_narrate());
    assert!(!step(Rule::NakedSingle, vec![], vec![1], vec![], vec![]).can_narrate());
    assert!(!step(Rule::HiddenSingle, vec![cell(0, 0)], vec![1], vec![], vec![]).can_narrate());
    assert!(!step(Rule::HiddenPairs, vec![], vec![1, 2], vec![], vec![]).can_narrate());
    assert!(step(Rule::HiddenPairs, vec![], vec![], vec![Area::Row(1)], vec![]).can_narrate());
    let three_areas = vec![Area::Row(0), Area::Row(1), Area::Column(0)];
    assert!(!step(Rule::XWing, vec![], vec![1], three_areas, vec![]).can_narrate());
    let two_values = step(
        Rule::XYWing,
        vec![cell(0, 0), cell(0, 1), cell(1, 0)],
        vec![1, 2],
        vec![],
        vec![],
    );
    assert!(!two_values.can_narrate());
    let three_cells = step(
        Rule::TurbotFish,
        vec![cell(0, 0), cell(0, 1), cell(1, 0)],
        vec![1],
        vec![],
        vec![],
    );
    assert!(!three_cells.can_narrate());
    assert!(!step(Rule::CommonPeerElimination, vec![], vec![1], vec![], vec![]).can_narrate());
    assert!(step(Rule::NakedPairs, vec![], vec![], vec![], vec![]).can_narrate());
}

#[test]
fn a_step_with_something_unnameable_in_its_wording_cannot_be_narrated() {
    let unnamed = step(Rule::HiddenSingle, vec![cell(0, 0)], vec![1], vec![Area::Unnamed], vec![]);
    assert!(!unnamed.can_narrate());
    let far = step(Rule::NakedSingle, vec![cell(usize::MAX, 0)], vec![1], vec![], vec![]);
    assert!(!far.can_narrate());
    let far_affected =
        step(Rule::NakedPairs, vec![], vec![1, 2], vec![], vec![cell(0, usize::MAX)]);
    assert!(!far_affected.can_narrate());
    let unnamed_pair = step(Rule::NakedPairs, vec![], vec![1, 2], vec![Area::Unnamed], vec![]);
    assert!(!unnamed_pair.can_narrate());
}

#[test]
fn what_the_wording_does_not_name_may_be_anything() {
    let single = step(
        Rule::NakedSingle,
        vec![cell(2, 4), cell(usize::MAX, 0)],
        vec![7],
        vec![Area::Unnamed],
        vec![cell(0, usize::MAX)],
    );
    assert!(single.can_narrate());
    assert_eq!(step_details(&single), "7 on cell R3C5");
}

#[test]
fn a_list_can_be_narrated_when_each_relevant_step_can() {
    assert!(can_narrate_all(&vec![]));
    assert!(can_narrate_all(&vec![candidates()]));
    assert!(can_narrate_all(&vec![candidates(), naked_single(), naked_pair()]));
    let short = step(Rule::NakedSingle, vec![], vec![], vec![], vec![]);
    assert!(!can_narrate_all(&vec![naked_single(), short]));
}
