//! Holding the rank roles of the members against the ranking.
//!
//! The ranking knows which rank role each member should have, if any. The
//! roles that a member really has may differ: the role may be missing,
//! another rank role may stand in its place, several may have piled up, or
//! a member without a rank may have some. A scan names the differences; a
//! fix mends the plain ones at once and the others where it is told to.

use vstd::prelude::*;
use crate::models::db_models::Rank;
use crate::text::{contains, decimal, lowercase, occurs_in, to_lowercase, u64_to_string};

verus! {

/// A rank role and the level it comes with.
#[derive(PartialEq, Eq, Structural, Clone, Copy, Debug)]
pub struct RankRole {
    pub role_id: u64,
    pub min_level: i32,
}

/// The rank roles among `ranks`: those ranks that have a role, in their
/// order.
pub open spec fn roles_of(ranks: Seq<Rank>) -> Seq<RankRole>
    decreases ranks.len(),
{
    if ranks.len() == 0 {
        Seq::empty()
    } else {
        let before = roles_of(ranks.drop_last());
        match ranks.last().role_id {
            Some(role_id) => before.push(RankRole { role_id, min_level: ranks.last().min_level }),
            None => before,
        }
    }
}

/// The level of the rank role `role_id`; where it is listed more than once,
/// the last listing counts.
pub open spec fn level_in(roles: Seq<RankRole>, role_id: u64) -> Option<i32>
    decreases roles.len(),
{
    if roles.len() == 0 {
        None
    } else if roles.last().role_id == role_id {
        Some(roles.last().min_level)
    } else {
        level_in(roles.drop_last(), role_id)
    }
}

/// The rank roles that a member with the roles `member` has: each once, in
/// the order of the ranking.
pub open spec fn held(roles: Seq<RankRole>, member: Seq<u64>) -> Seq<u64>
    decreases roles.len(),
{
    if roles.len() == 0 {
        Seq::empty()
    } else {
        let before = held(roles.drop_last(), member);
        let role_id = roles.last().role_id;
        if member.contains(role_id) && !before.contains(role_id) {
            before.push(role_id)
        } else {
            before
        }
    }
}

/// What is held is held once, is a rank role and is a role of the member,
/// and every rank role of the member is held.
pub proof fn lemma_held(roles: Seq<RankRole>, member: Seq<u64>)
    ensures
        held(roles, member).no_duplicates(),
        forall|id: u64|
            held(roles, member).contains(id) <==> member.contains(id) && level_in(roles, id) is Some,
    decreases roles.len(),
{
    if roles.len() > 0 {
        let front = roles.drop_last();
        lemma_held(front, member);
        let before = held(front, member);
        let last = roles.last().role_id;
        let after = held(roles, member);
        assert forall|id: u64| after.contains(id) <==> member.contains(id) && level_in(roles, id) is Some by {
            if member.contains(last) && !before.contains(last) {
                assert(after == before.push(last));
                if after.contains(id) {
                    let i = choose|i: int| 0 <= i < after.len() && after[i] == id;
                    if i < before.len() {
                        assert(before[i] == id);
                    }
                }
                if before.contains(id) {
                    let i = choose|i: int| 0 <= i < before.len() && before[i] == id;
                    assert(after[i] == id);
                }
                assert(after[before.len() as int] == last);
            }
        }
    }
}

/// How the roles of a member stand against the ranking.
#[derive(PartialEq, Eq, Structural, Clone, Copy, Debug)]
pub enum Standing {
    /// The member has the rank role that is expected and no other, or expects
    /// none and has none.
    Consistent,
    /// The member has no rank role but should have one.
    Missing,
    /// The member has one rank role, and it is not the one expected.
    Misplaced { existing: u64 },
    /// The member has several rank roles.
    Crowded,
    /// The member has rank roles but should have none.
    Excess,
}

/// How a member that should have the rank role `expected` stands with the
/// rank roles `held`.
pub open spec fn standing_of(expected: Option<u64>, held: Seq<u64>) -> Standing {
    match expected {
        Some(expected) => if held.len() == 0 {
            Standing::Missing
        } else if held.len() == 1 {
            if held[0] == expected {
                Standing::Consistent
            } else {
                Standing::Misplaced { existing: held[0] }
            }
        } else {
            Standing::Crowded
        },
        None => if held.len() == 0 {
            Standing::Consistent
        } else {
            Standing::Excess
        },
    }
}

/// Which of the harder fixes are wanted.
#[derive(PartialEq, Eq, Structural, Clone, Copy, Debug)]
pub struct FixOptions {
    /// Sort out members with several rank roles.
    pub multiple: bool,
    /// Take the rank roles from members that should have none.
    pub remove: bool,
    /// Give a member a lower rank role in place of a higher one.
    pub demote: bool,
}

/// What a fix is counted as.
#[derive(PartialEq, Eq, Structural, Clone, Copy, Debug)]
pub enum FixKind {
    /// A missing role is given, or a lower one replaced by a higher.
    Trivial,
    /// Several roles are brought down to the one expected.
    Multiple,
    /// All rank roles are taken away.
    Remove,
    /// A higher role is replaced by a lower.
    Demote,
}

/// What to do about one member: the roles to take, then the role to give.
#[derive(PartialEq, Eq, Debug)]
pub struct FixPlan {
    pub remove: Vec<u64>,
    pub add: Option<u64>,
    pub kind: FixKind,
}

/// A plan as a mathematical value.
pub struct FixPlanView {
    pub remove: Seq<u64>,
    pub add: Option<u64>,
    pub kind: FixKind,
}

impl View for FixPlan {
    type V = FixPlanView;

    open spec fn view(&self) -> FixPlanView {
        FixPlanView { remove: self.remove@, add: self.add, kind: self.kind }
    }
}

/// `held` without `role_id`.
pub open spec fn others(held: Seq<u64>, role_id: u64) -> Seq<u64> {
    held.filter(|id: u64| id != role_id)
}

/// What a fix does about a member that should have `expected`, has the rank
/// roles `held` and all in all the roles `member`. A missing role is given.
/// One role in the wrong place is replaced where the expected one is higher,
/// or where demoting is wanted; without a level for either nothing is done.
/// Several roles are sorted out, and rank roles without a rank taken away,
/// only where that is wanted.
pub open spec fn plan_of(
    expected: Option<u64>,
    held: Seq<u64>,
    member: Seq<u64>,
    roles: Seq<RankRole>,
    options: FixOptions,
) -> Option<FixPlanView> {
    match standing_of(expected, held) {
        Standing::Consistent => None,
        Standing::Missing => Some(FixPlanView { remove: Seq::empty(), add: expected, kind: FixKind::Trivial }),
        Standing::Misplaced { existing } => match (level_in(roles, existing), level_in(roles, expected->Some_0)) {
            (Some(has), Some(wants)) => if has < wants {
                Some(FixPlanView { remove: seq![existing], add: expected, kind: FixKind::Trivial })
            } else if options.demote {
                Some(FixPlanView { remove: seq![existing], add: expected, kind: FixKind::Demote })
            } else {
                None
            },
            _ => None,
        },
        Standing::Crowded => if options.multiple {
            Some(
                FixPlanView {
                    remove: others(held, expected->Some_0),
                    add: if member.contains(expected->Some_0) {
                        None
                    } else {
                        expected
                    },
                    kind: FixKind::Multiple,
                },
            )
        } else {
            None
        },
        Standing::Excess => if options.remove {
            Some(FixPlanView { remove: held, add: None, kind: FixKind::Remove })
        } else {
            None
        },
    }
}

/// What a scan and a fix come to in numbers.
#[derive(PartialEq, Eq, Structural, Clone, Copy, Debug)]
pub struct Tally {
    /// Members looked at.
    pub total: u64,
    /// Members whose roles differ from the ranking.
    pub total_error: u64,
    pub count_trivial: u64,
    pub count_multiple: u64,
    /// Roles taken from members that should have none.
    pub count_remove: u64,
    pub count_demote: u64,
    /// Roles that could not be given or taken.
    pub count_error: u64,
}

/// `a + b`, but no more than a `u64` holds.
pub open spec fn capped_sum(a: u64, b: int) -> u64 {
    if a + b > u64::MAX {
        u64::MAX
    } else {
        (a + b) as u64
    }
}

/// The tally after a plan was carried out, where `failed_removals` of its
/// removals and, if `add_failed`, its addition did not work. Every failure
/// counts as an error. A trivial fix or a demotion counts where the role
/// could be given; a sorting out counts in any case; of a removal each role
/// taken counts.
pub open spec fn recorded(tally: Tally, plan: FixPlanView, failed_removals: u64, add_failed: bool) -> Tally {
    let errors = capped_sum(
        tally.count_error,
        failed_removals + (if add_failed {
            1int
        } else {
            0int
        }),
    );
    let one = if add_failed {
        0int
    } else {
        1int
    };
    match plan.kind {
        FixKind::Trivial => Tally { count_error: errors, count_trivial: capped_sum(tally.count_trivial, one), ..tally },
        FixKind::Demote => Tally { count_error: errors, count_demote: capped_sum(tally.count_demote, one), ..tally },
        FixKind::Multiple => Tally { count_error: errors, count_multiple: capped_sum(tally.count_multiple, 1), ..tally },
        FixKind::Remove => Tally {
            count_error: errors,
            count_remove: capped_sum(tally.count_remove, plan.remove.len() - failed_removals),
            ..tally
        },
    }
}

/// The mention of a role.
pub open spec fn role_mention(role_id: u64) -> Seq<char> {
    "<@&"@ + decimal(role_id as nat) + ">"@
}

/// The mentions of `held`, each with a blank before and behind it.
pub open spec fn role_mentions(held: Seq<u64>) -> Seq<char>
    decreases held.len(),
{
    if held.len() == 0 {
        Seq::empty()
    } else {
        role_mentions(held.drop_last()) + " "@ + role_mention(held.last()) + " "@
    }
}

/// What a scan says of a member whose roles differ from the ranking.
pub open spec fn scan_text(user: u64, expected: Option<u64>, held: Seq<u64>) -> Seq<char> {
    match expected {
        Some(expected) => "<@"@ + decimal(user as nat) + "> should have "@ + role_mention(expected) + (if held.len()
            == 0 {
            " but doesn't"@
        } else {
            " but has: "@ + role_mentions(held)
        }) + "\n"@,
        None => "<@"@ + decimal(user as nat) + "> has excess roles: "@ + role_mentions(held) + "\n"@,
    }
}

/// What a fix says in the end.
pub open spec fn summary_text(tally: Tally) -> Seq<char> {
    "Processed "@ + decimal(tally.total as nat) + " members in the database with "@ + decimal(
        tally.total_error as nat,
    ) + " errors found:\n- Trivial fixes: "@ + decimal(tally.count_trivial as nat)
        + "\n- Fixes for multiple roles: "@ + decimal(tally.count_multiple as nat)
        + "\n- Members with their roles fully revoked: "@ + decimal(tally.count_remove as nat)
        + "\n- Members demoted: "@ + decimal(tally.count_demote as nat) + "\n- Errors adding/removing roles: "@
        + decimal(tally.count_error as nat)
}

/// The rank roles among `ranks`.
pub fn rank_roles(ranks: &Vec<Rank>) -> (roles: Vec<RankRole>)
    ensures
        roles@ == roles_of(ranks@),
{
    let mut roles: Vec<RankRole> = Vec::new();
    let mut i: usize = 0;
    assert(ranks@.take(0) =~= Seq::<Rank>::empty());
    while i < ranks.len()
        invariant
            i <= ranks@.len(),
            roles@ == roles_of(ranks@.take(i as int)),
        decreases ranks@.len() - i,
    {
        assert(ranks@.take(i + 1).drop_last() =~= ranks@.take(i as int));
        match ranks[i].role_id {
            Some(role_id) => {
                roles.push(RankRole { role_id, min_level: ranks[i].min_level });
            },
            None => {},
        }
        i += 1;
    }
    assert(ranks@.take(ranks@.len() as int) =~= ranks@);
    roles
}

/// The level of a rank role.
pub fn level_of(roles: &Vec<RankRole>, role_id: u64) -> (level: Option<i32>)
    ensures
        level == level_in(roles@, role_id),
{
    let mut i = roles.len();
    assert(roles@.take(i as int) =~= roles@);
    while i > 0
        invariant
            i <= roles@.len(),
            level_in(roles@, role_id) == level_in(roles@.take(i as int), role_id),
        decreases i,
    {
        proof {
            assert(roles@.take(i as int).drop_last() =~= roles@.take(i - 1));
        }
        i -= 1;
        if roles[i].role_id == role_id {
            return Some(roles[i].min_level);
        }
    }
    None
}

/// Whether `id` is among `ids`.
fn includes(ids: &Vec<u64>, id: u64) -> (yes: bool)
    ensures
        yes == ids@.contains(id),
{
    let mut i: usize = 0;
    while i < ids.len()
        invariant
            i <= ids@.len(),
            forall|k: int| 0 <= k < i ==> ids@[k] != id,
        decreases ids@.len() - i,
    {
        if ids[i] == id {
            return true;
        }
        i += 1;
    }
    false
}

/// The rank roles that a member with the roles `member` has.
pub fn held_roles(roles: &Vec<RankRole>, member: &Vec<u64>) -> (found: Vec<u64>)
    ensures
        found@ == held(roles@, member@),
{
    let mut found: Vec<u64> = Vec::new();
    let mut i: usize = 0;
    assert(roles@.take(0) =~= Seq::<RankRole>::empty());
    while i < roles.len()
        invariant
            i <= roles@.len(),
            found@ == held(roles@.take(i as int), member@),
        decreases roles@.len() - i,
    {
        assert(roles@.take(i + 1).drop_last() =~= roles@.take(i as int));
        let role_id = roles[i].role_id;
        if includes(member, role_id) && !includes(&found, role_id) {
            found.push(role_id);
        }
        i += 1;
    }
    assert(roles@.take(roles@.len() as int) =~= roles@);
    found
}

/// Says how a member that should have `expected` stands with the rank
/// roles `held`.
pub fn standing(expected: Option<u64>, held: &Vec<u64>) -> (standing: Standing)
    ensures
        standing == standing_of(expected, held@),
{
    match expected {
        Some(expected) => {
            if held.len() == 0 {
                Standing::Missing
            } else if held.len() == 1 {
                if held[0] == expected {
                    Standing::Consistent
                } else {
                    Standing::Misplaced { existing: held[0] }
                }
            } else {
                Standing::Crowded
            }
        },
        None => {
            if held.len() == 0 {
                Standing::Consistent
            } else {
                Standing::Excess
            }
        },
    }
}

impl FixOptions {
    /// None of the harder fixes.
    pub fn new() -> (options: FixOptions)
        ensures
            options == (FixOptions { multiple: false, remove: false, demote: false }),
    {
        FixOptions { multiple: false, remove: false, demote: false }
    }

    /// Takes note of a word in lowercase: a fix is wanted once its name
    /// stands in some word.
    pub fn note_lowercase(&mut self, lower: &str)
        ensures
            final(self).multiple == (old(self).multiple || occurs_in("multiple"@, lower@)),
            final(self).remove == (old(self).remove || occurs_in("remove"@, lower@)),
            final(self).demote == (old(self).demote || occurs_in("demote"@, lower@)),
    {
        self.multiple = self.multiple || contains(lower, "multiple");
        self.remove = self.remove || contains(lower, "remove");
        self.demote = self.demote || contains(lower, "demote");
    }

    /// Takes note of a word, whatever its case.
    pub fn note(&mut self, word: &str)
        ensures
            final(self).multiple == (old(self).multiple || occurs_in("multiple"@, lowercase(word@))),
            final(self).remove == (old(self).remove || occurs_in("remove"@, lowercase(word@))),
            final(self).demote == (old(self).demote || occurs_in("demote"@, lowercase(word@))),
    {
        let lower = to_lowercase(word);
        self.note_lowercase(lower.as_str());
    }
}

/// Plans the fix for one member; `None` where nothing is to be done.
pub fn plan_fix(
    expected: Option<u64>,
    held: &Vec<u64>,
    member: &Vec<u64>,
    roles: &Vec<RankRole>,
    options: FixOptions,
) -> (plan: Option<FixPlan>)
    ensures
        match plan_of(expected, held@, member@, roles@, options) {
            Some(view) => plan is Some && plan->Some_0@ == view,
            None => plan is None,
        },
{
    match standing(expected, held) {
        Standing::Consistent => None,
        Standing::Missing => {
            let plan = FixPlan { remove: Vec::new(), add: expected, kind: FixKind::Trivial };
            assert(plan@.remove =~= Seq::<u64>::empty());
            Some(plan)
        },
        Standing::Misplaced { existing } => {
            let wanted = match expected {
                Some(wanted) => wanted,
                None => existing,
            };
            match (level_of(roles, existing), level_of(roles, wanted)) {
                (Some(has), Some(wants)) => {
                    if has < wants || options.demote {
                        let mut remove: Vec<u64> = Vec::new();
                        remove.push(existing);
                        assert(remove@ =~= seq![existing]);
                        Some(
                            FixPlan {
                                remove,
                                add: expected,
                                kind: if has < wants {
                                    FixKind::Trivial
                                } else {
                                    FixKind::Demote
                                },
                            },
                        )
                    } else {
                        None
                    }
                },
                _ => None,
            }
        },
        Standing::Crowded => {
            if options.multiple {
                let wanted = match expected {
                    Some(wanted) => wanted,
                    None => 0,
                };
                let mut remove: Vec<u64> = Vec::new();
                let mut i: usize = 0;
                assert(others(held@.take(0), wanted) =~= Seq::<u64>::empty());
                while i < held.len()
                    invariant
                        i <= held@.len(),
                        remove@ == others(held@.take(i as int), wanted),
                    decreases held@.len() - i,
                {
                    proof {
                        assert(held@.take(i + 1).drop_last() =~= held@.take(i as int));
                        reveal(Seq::filter);
                    }
                    if held[i] != wanted {
                        remove.push(held[i]);
                    }
                    i += 1;
                }
                assert(held@.take(held@.len() as int) =~= held@);
                let plan = FixPlan {
                    remove,
                    add: if includes(member, wanted) {
                        None
                    } else {
                        expected
                    },
                    kind: FixKind::Multiple,
                };
                assert(plan@.remove =~= others(held@, wanted));
                Some(plan)
            } else {
                None
            }
        },
        Standing::Excess => {
            if options.remove {
                let plan = FixPlan { remove: held.clone(), add: None, kind: FixKind::Remove };
                assert(plan@.remove =~= held@);
                Some(plan)
            } else {
                None
            }
        },
    }
}

impl Tally {
    /// Nothing counted yet.
    pub fn new() -> (tally: Tally)
        ensures
            tally == (Tally {
                total: 0,
                total_error: 0,
                count_trivial: 0,
                count_multiple: 0,
                count_remove: 0,
                count_demote: 0,
                count_error: 0,
            }),
    {
        Tally {
            total: 0,
            total_error: 0,
            count_trivial: 0,
            count_multiple: 0,
            count_remove: 0,
            count_demote: 0,
            count_error: 0,
        }
    }

    /// Counts a member that was looked at, and its discrepancy if it has one.
    pub fn count_member(&mut self, standing: Standing)
        ensures
            *final(self) == (Tally {
                total: capped_sum(old(self).total, 1),
                total_error: if standing == Standing::Consistent {
                    old(self).total_error
                } else {
                    capped_sum(old(self).total_error, 1)
                },
                ..*old(self)
            }),
    {
        self.total = self.total.saturating_add(1);
        if standing != Standing::Consistent {
            self.total_error = self.total_error.saturating_add(1);
        }
    }

    /// Counts what came of a plan: `failed_removals` of its removals did not
    /// work, nor did its addition if `add_failed`.
    pub fn record(&mut self, plan: &FixPlan, failed_removals: u64, add_failed: bool)
        requires
            failed_removals <= plan.remove@.len(),
        ensures
            *final(self) == recorded(*old(self), plan@, failed_removals, add_failed),
    {
        let added: u64 = if add_failed {
            0
        } else {
            1
        };
        self.count_error = self.count_error.saturating_add(failed_removals);
        if add_failed {
            self.count_error = self.count_error.saturating_add(1);
        }
        match plan.kind {
            FixKind::Trivial => {
                self.count_trivial = self.count_trivial.saturating_add(added);
            },
            FixKind::Demote => {
                self.count_demote = self.count_demote.saturating_add(added);
            },
            FixKind::Multiple => {
                self.count_multiple = self.count_multiple.saturating_add(1);
            },
            FixKind::Remove => {
                let taken = plan.remove.len() as u64 - failed_removals;
                self.count_remove = self.count_remove.saturating_add(taken);
            },
        }
    }

    /// What a fix says in the end.
    pub fn summary(&self) -> (text: String)
        ensures
            text@ == summary_text(*self),
    {
        let mut text = String::from_str("Processed ");
        let n = u64_to_string(self.total);
        text.append(n.as_str());
        text.append(" members in the database with ");
        let n = u64_to_string(self.total_error);
        text.append(n.as_str());
        text.append(" errors found:\n- Trivial fixes: ");
        let n = u64_to_string(self.count_trivial);
        text.append(n.as_str());
        text.append("\n- Fixes for multiple roles: ");
        let n = u64_to_string(self.count_multiple);
        text.append(n.as_str());
        text.append("\n- Members with their roles fully revoked: ");
        let n = u64_to_string(self.count_remove);
        text.append(n.as_str());
        text.append("\n- Members demoted: ");
        let n = u64_to_string(self.count_demote);
        text.append(n.as_str());
        text.append("\n- Errors adding/removing roles: ");
        let n = u64_to_string(self.count_error);
        text.append(n.as_str());
        assert(text@ =~= summary_text(*self));
        text
    }
}

/// The mention of a role.
pub fn mention_role(role_id: u64) -> (text: String)
    ensures
        text@ == role_mention(role_id),
{
    let mut text = String::from_str("<@&");
    let id = u64_to_string(role_id);
    text.append(id.as_str());
    text.append(">");
    text
}

/// What a scan says of a member, or `None` where its roles are as the
/// ranking has them.
pub fn scan_line(user: u64, expected: Option<u64>, held: &Vec<u64>) -> (line: Option<String>)
    ensures
        match line {
            Some(line) => standing_of(expected, held@) != Standing::Consistent && line@ == scan_text(
                user,
                expected,
                held@,
            ),
            None => standing_of(expected, held@) == Standing::Consistent,
        },
{
    match standing(expected, held) {
        Standing::Consistent => {
            return None;
        },
        _ => {},
    }
    let mut mentions = String::new();
    let mut i: usize = 0;
    assert(held@.take(0) =~= Seq::<u64>::empty());
    while i < held.len()
        invariant
            i <= held@.len(),
            mentions@ == role_mentions(held@.take(i as int)),
        decreases held@.len() - i,
    {
        assert(held@.take(i + 1).drop_last() =~= held@.take(i as int));
        mentions.append(" ");
        let mention = mention_role(held[i]);
        mentions.append(mention.as_str());
        mentions.append(" ");
        i += 1;
    }
    assert(held@.take(held@.len() as int) =~= held@);
    let mut line = String::from_str("<@");
    let id = u64_to_string(user);
    line.append(id.as_str());
    match expected {
        Some(expected) => {
            line.append("> should have ");
            let mention = mention_role(expected);
            line.append(mention.as_str());
            if held.len() == 0 {
                line.append(" but doesn't");
            } else {
                line.append(" but has: ");
                line.append(mentions.as_str());
            }
        },
        None => {
            line.append("> has excess roles: ");
            line.append(mentions.as_str());
        },
    }
    line.append("\n");
    assert(line@ =~= scan_text(user, expected, held@));
    Some(line)
}

/// What a scan reports: all its lines, or a word that there is nothing to
/// report.
pub fn scan_report(lines: &Vec<String>) -> (report: String)
    ensures
        report@ == (if crate::text::joined(crate::text::views(lines@), Seq::empty()).len() == 0 {
            "There were no discrepancies between our database and the server members."@
        } else {
            crate::text::joined(crate::text::views(lines@), Seq::empty())
        }),
{
    let all = crate::text::join(lines, "");
    proof {
        reveal_strlit("");
        assert(""@ =~= Seq::<char>::empty());
    }
    if all.as_str().is_empty() {
        String::from_str("There were no discrepancies between our database and the server members.")
    } else {
        all
    }
}

} // verus!
