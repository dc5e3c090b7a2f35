use cow::diagnostics::{
    held_roles, level_of, mention_role, plan_fix, rank_roles, scan_line, scan_report, standing, FixKind,
    FixOptions, FixPlan, RankRole, Standing, Tally,
};
use cow::models::db_models::Rank;

fn rank(name: &str, role_id: Option<u64>, min_level: i32) -> Rank {
    Rank { name: name.to_string(), role_id, min_level }
}

fn roles() -> Vec<RankRole> {
    vec![
        RankRole { role_id: 10, min_level: 1 },
        RankRole { role_id: 20, min_level: 5 },
        RankRole { role_id: 30, min_level: 10 },
    ]
}

const ALL: FixOptions = FixOptions { multiple: true, remove: true, demote: true };
const NONE: FixOptions = FixOptions { multiple: false, remove: false, demote: false };

#[test]
fn ranks_without_a_role_are_no_rank_roles() {
    let ranks = vec![rank("a", Some(10), 1), rank("b", None, 3), rank("c", Some(30), 10)];
    assert_eq!(
        rank_roles(&ranks),
        vec![RankRole { role_id: 10, min_level: 1 }, RankRole { role_id: 30, min_level: 10 }]
    );
    assert_eq!(rank_roles(&Vec::new()), Vec::new());
}

#[test]
fn levels_of_roles() {
    assert_eq!(level_of(&roles(), 10), Some(1));
    assert_eq!(level_of(&roles(), 30), Some(10));
    assert_eq!(level_of(&roles(), 99), None);
    // The last listing counts.
    let mut twice = roles();
    twice.push(RankRole { role_id: 10, min_level: 7 });
    assert_eq!(level_of(&twice, 10), Some(7));
}

#[test]
fn held_roles_are_rank_roles_of_the_member() {
    assert_eq!(held_roles(&roles(), &vec![99, 30, 10, 98]), vec![10, 30]);
    assert_eq!(held_roles(&roles(), &vec![99]), Vec::<u64>::new());
    assert_eq!(held_roles(&roles(), &Vec::new()), Vec::<u64>::new());
    assert_eq!(held_roles(&Vec::new(), &vec![10]), Vec::<u64>::new());
    // A role that is listed twice or held twice is held once.
    let mut twice = roles();
    twice.push(RankRole { role_id: 10, min_level: 7 });
    assert_eq!(held_roles(&twice, &vec![10, 10, 20]), vec![10, 20]);
}

#[test]
fn standings() {
    assert_eq!(standing(Some(10), &vec![10]), Standing::Consistent);
    assert_eq!(standing(None, &vec![]), Standing::Consistent);
    assert_eq!(standing(Some(10), &vec![]), Standing::Missing);
    assert_eq!(standing(Some(10), &vec![20]), Standing::Misplaced { existing: 20 });
    assert_eq!(standing(Some(10), &vec![10, 20]), Standing::Crowded);
    assert_eq!(standing(Some(10), &vec![20, 30]), Standing::Crowded);
    assert_eq!(standing(None, &vec![20]), Standing::Excess);
    assert_eq!(standing(None, &vec![20, 30]), Standing::Excess);
}

#[test]
fn options_are_heard_in_any_case() {
    let mut options = FixOptions::new();
    assert_eq!(options, NONE);
    options.note("Multiple");
    assert_eq!(options, FixOptions { multiple: true, remove: false, demote: false });
    options.note("--DEMOTE!");
    assert_eq!(options, FixOptions { multiple: true, remove: false, demote: true });
    options.note("nothing");
    assert_eq!(options, FixOptions { multiple: true, remove: false, demote: true });
    options.note("removedemote");
    assert_eq!(options, ALL);
    let mut options = FixOptions::new();
    options.note_lowercase("REMOVE");
    assert_eq!(options, NONE);
    options.note_lowercase("remove");
    assert_eq!(options, FixOptions { multiple: false, remove: true, demote: false });
}

#[test]
fn consistent_members_need_no_fix() {
    assert_eq!(plan_fix(Some(10), &vec![10], &vec![10], &roles(), ALL), None);
    assert_eq!(plan_fix(None, &vec![], &vec![99], &roles(), ALL), None);
}

#[test]
fn a_missing_role_is_given() {
    assert_eq!(
        plan_fix(Some(20), &vec![], &vec![99], &roles(), NONE),
        Some(FixPlan { remove: vec![], add: Some(20), kind: FixKind::Trivial })
    );
}

#[test]
fn a_lower_role_is_replaced_and_a_higher_only_on_demand() {
    assert_eq!(
        plan_fix(Some(30), &vec![10], &vec![10], &roles(), NONE),
        Some(FixPlan { remove: vec![10], add: Some(30), kind: FixKind::Trivial })
    );
    assert_eq!(plan_fix(Some(10), &vec![30], &vec![30], &roles(), NONE), None);
    assert_eq!(
        plan_fix(Some(10), &vec![30], &vec![30], &roles(), FixOptions { demote: true, ..NONE }),
        Some(FixPlan { remove: vec![30], add: Some(10), kind: FixKind::Demote })
    );
    // A role without a level is left alone.
    assert_eq!(plan_fix(Some(99), &vec![30], &vec![30], &roles(), ALL), None);
}

#[test]
fn several_roles_are_sorted_out_on_demand() {
    assert_eq!(plan_fix(Some(20), &vec![10, 20, 30], &vec![10, 20, 30], &roles(), NONE), None);
    assert_eq!(
        plan_fix(Some(20), &vec![10, 20, 30], &vec![10, 20, 30], &roles(), FixOptions { multiple: true, ..NONE }),
        Some(FixPlan { remove: vec![10, 30], add: None, kind: FixKind::Multiple })
    );
    assert_eq!(
        plan_fix(Some(20), &vec![10, 30], &vec![10, 30, 99], &roles(), ALL),
        Some(FixPlan { remove: vec![10, 30], add: Some(20), kind: FixKind::Multiple })
    );
}

#[test]
fn excess_roles_are_taken_on_demand() {
    assert_eq!(plan_fix(None, &vec![10, 30], &vec![10, 30], &roles(), NONE), None);
    assert_eq!(
        plan_fix(None, &vec![10, 30], &vec![10, 30], &roles(), FixOptions { remove: true, ..NONE }),
        Some(FixPlan { remove: vec![10, 30], add: None, kind: FixKind::Remove })
    );
}

#[test]
fn the_tally_counts() {
    let mut tally = Tally::new();
    tally.count_member(Standing::Consistent);
    tally.count_member(Standing::Missing);
    tally.count_member(Standing::Excess);
    assert_eq!(tally.total, 3);
    assert_eq!(tally.total_error, 2);
    let give = FixPlan { remove: vec![], add: Some(20), kind: FixKind::Trivial };
    tally.record(&give, 0, false);
    tally.record(&give, 0, true);
    assert_eq!((tally.count_trivial, tally.count_error), (1, 1));
    let demote = FixPlan { remove: vec![30], add: Some(10), kind: FixKind::Demote };
    tally.record(&demote, 1, false);
    assert_eq!((tally.count_demote, tally.count_error), (1, 2));
    tally.record(&demote, 0, true);
    assert_eq!((tally.count_demote, tally.count_error), (1, 3));
    let sort = FixPlan { remove: vec![10, 30], add: Some(20), kind: FixKind::Multiple };
    tally.record(&sort, 2, true);
    assert_eq!((tally.count_multiple, tally.count_error), (1, 6));
    let take = FixPlan { remove: vec![10, 20, 30], add: None, kind: FixKind::Remove };
    tally.record(&take, 1, false);
    assert_eq!((tally.count_remove, tally.count_error), (2, 7));
    assert_eq!(
        tally,
        Tally {
            total: 3,
            total_error: 2,
            count_trivial: 1,
            count_multiple: 1,
            count_remove: 2,
            count_demote: 1,
            count_error: 7
        }
    );
    assert_eq!(
        tally.summary(),
        "Processed 3 members in the database with 2 errors found:\n\
         - Trivial fixes: 1\n\
         - Fixes for multiple roles: 1\n\
         - Members with their roles fully revoked: 2\n\
         - Members demoted: 1\n\
         - Errors adding/removing roles: 7"
    );
}

#[test]
fn the_tally_stops_at_the_top() {
    let mut tally = Tally::new();
    tally.total = u64::MAX;
    tally.count_error = u64::MAX - 1;
    tally.count_member(Standing::Missing);
    assert_eq!(tally.total, u64::MAX);
    assert_eq!(tally.total_error, 1);
    tally.record(&FixPlan { remove: vec![1, 2, 3], add: None, kind: FixKind::Remove }, 3, false);
    assert_eq!(tally.count_error, u64::MAX);
    assert_eq!(tally.count_remove, 0);
}

#[test]
fn scan_lines() {
    assert_eq!(mention_role(7), "<@&7>");
    assert_eq!(scan_line(1, Some(10), &vec![10]), None);
    assert_eq!(scan_line(1, None, &vec![]), None);
    assert_eq!(scan_line(1, Some(10), &vec![]), Some("<@1> should have <@&10> but doesn't\n".to_string()));
    assert_eq!(
        scan_line(1, Some(10), &vec![20]),
        Some("<@1> should have <@&10> but has:  <@&20> \n".to_string())
    );
    assert_eq!(
        scan_line(1, Some(10), &vec![10, 20]),
        Some("<@1> should have <@&10> but has:  <@&10>  <@&20> \n".to_string())
    );
    assert_eq!(scan_line(5, None, &vec![20, 30]), Some("<@5> has excess roles:  <@&20>  <@&30> \n".to_string()));
}

#[test]
fn scan_reports() {
    assert_eq!(
        scan_report(&Vec::new()),
        "There were no discrepancies between our database and the server members."
    );
    assert_eq!(scan_report(&vec!["a\n".to_string(), "b\n".to_string()]), "a\nb\n");
}
