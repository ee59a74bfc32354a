//! The normalized contribution calendar and the evaluator that decides
//! whether a qualifying contribution occurred on a target date.

use vstd::prelude::*;

verus! {

/// One calendar day as reported by the activity provider: its date and a
/// non-negative contribution count.
pub struct ContributionDay {
    pub date: String,
    pub count: u32,
}

/// One week of the calendar: an ordered run of days.
pub struct Week {
    pub days: Vec<ContributionDay>,
}

/// The whole calendar: an ordered sequence of weeks, chronological as the
/// provider returned them.
pub struct ContributionCalendar {
    pub weeks: Vec<Week>,
}

/// The answer of one evaluation cycle: the date that was asked about and
/// whether a qualifying contribution occurred on it.
pub struct EvaluationResult {
    pub date: String,
    pub contributed: bool,
}

/// A day qualifies for a target date when its date equals the target and its
/// count is strictly positive.
pub open spec fn day_hit(d: ContributionDay, target: Seq<char>) -> bool {
    d.date@ == target && d.count > 0
}

/// Some day of this week qualifies for the target date.
pub open spec fn week_contributed(w: Week, target: Seq<char>) -> bool {
    exists|j: int| 0 <= j < w.days@.len() && day_hit(#[trigger] w.days@[j], target)
}

/// Some day of the calendar qualifies for the target date.
pub open spec fn cal_contributed(c: ContributionCalendar, target: Seq<char>) -> bool {
    exists|i: int| 0 <= i < c.weeks@.len() && week_contributed(#[trigger] c.weeks@[i], target)
}

/// Some day of this week has exactly the target date, whatever its count.
pub open spec fn week_has_date(w: Week, target: Seq<char>) -> bool {
    exists|j: int| 0 <= j < w.days@.len() && (#[trigger] w.days@[j]).date@ == target
}

/// Some day of the calendar has exactly the target date, whatever its count.
pub open spec fn cal_has_date(c: ContributionCalendar, target: Seq<char>) -> bool {
    exists|i: int| 0 <= i < c.weeks@.len() && week_has_date(#[trigger] c.weeks@[i], target)
}

/// No two days anywhere in the calendar share a date: the provider's
/// invariant on the structure it returns.
pub open spec fn cal_dates_unique(c: ContributionCalendar) -> bool {
    forall|i1: int, j1: int, i2: int, j2: int|
        0 <= i1 < c.weeks@.len() && 0 <= j1 < c.weeks@[i1].days@.len() && 0 <= i2
            < c.weeks@.len() && 0 <= j2 < c.weeks@[i2].days@.len() && (#[trigger] c.weeks@[i1].days@[j1]).date@
            == (#[trigger] c.weeks@[i2].days@[j2]).date@ ==> i1 == i2 && j1 == j2
}

/// Scan the calendar for the target date and report whether a qualifying
/// contribution occurred on it.
///
/// A day whose date is absent from the calendar yields `contributed ==
/// false`: absence is not an error, the provider may not have backfilled the
/// date yet. An empty calendar therefore always yields `false`.
pub fn evaluate(cal: &ContributionCalendar, target: &String) -> (r: EvaluationResult)
    ensures
        r.date@ == target@,
        r.contributed == cal_contributed(*cal, target@),
{
    let mut found = false;
    let mut i: usize = 0;
    while i < cal.weeks.len()
        invariant
            0 <= i <= cal.weeks@.len(),
            found == exists|w: int|
                0 <= w < i && week_contributed(#[trigger] cal.weeks@[w], target@),
        decreases cal.weeks@.len() - i,
    {
        let week = &cal.weeks[i];
        let mut j: usize = 0;
        while j < week.days.len()
            invariant
                0 <= j <= week.days@.len(),
                *week == cal.weeks@[i as int],
                0 <= i < cal.weeks@.len(),
                found == ((exists|w: int|
                    0 <= w < i && week_contributed(#[trigger] cal.weeks@[w], target@)) || (
                exists|d: int| 0 <= d < j && day_hit(#[trigger] week.days@[d], target@))),
            decreases week.days@.len() - j,
        {
            let day = &week.days[j];
            if day.date == *target {
                if day.count > 0 {
                    found = true;
                    assert(day_hit(week.days@[j as int], target@));
                }
            }
            j = j + 1;
        }
        proof {
            if found {
                if exists|d: int| 0 <= d < j && day_hit(#[trigger] week.days@[d], target@) {
                    let d = choose|d: int|
                        0 <= d < j && day_hit(#[trigger] week.days@[d], target@);
                    assert(day_hit(cal.weeks@[i as int].days@[d], target@));
                    assert(week_contributed(cal.weeks@[i as int], target@));
                } else {
                    let w = choose|w: int|
                        0 <= w < i && week_contributed(#[trigger] cal.weeks@[w], target@);
                    assert(0 <= w < i + 1 && week_contributed(cal.weeks@[w], target@));
                }
            } else {
                assert forall|w: int| 0 <= w < i + 1 implies !week_contributed(
                    #[trigger] cal.weeks@[w],
                    target@,
                ) by {
                    if w == i {
                        if week_contributed(cal.weeks@[i as int], target@) {
                            let d = choose|d: int|
                                0 <= d < cal.weeks@[i as int].days@.len() && day_hit(
                                    #[trigger] cal.weeks@[i as int].days@[d],
                                    target@,
                                );
                            assert(day_hit(week.days@[d], target@));
                        }
                    }
                }
            }
        }
        i = i + 1;
    }
    EvaluationResult { date: target.clone(), contributed: found }
}

/// If no day of the calendar carries the target date, evaluation reports no
/// contribution.
pub proof fn lemma_no_match_not_contributed(c: ContributionCalendar, target: Seq<char>)
    requires
        !cal_has_date(c, target),
    ensures
        !cal_contributed(c, target),
{
    if cal_contributed(c, target) {
        let i = choose|i: int| 0 <= i < c.weeks@.len() && week_contributed(
            #[trigger] c.weeks@[i],
            target,
        );
        let j = choose|j: int| 0 <= j < c.weeks@[i].days@.len() && day_hit(
            #[trigger] c.weeks@[i].days@[j],
            target,
        );
        assert(c.weeks@[i].days@[j].date@ == target);
        assert(week_has_date(c.weeks@[i], target));
        assert(cal_has_date(c, target));
    }
}

/// In a calendar with unique dates, the one day that carries the target date
/// decides the evaluation: contributed exactly when its count is positive.
pub proof fn lemma_match_decides(c: ContributionCalendar, target: Seq<char>, i: int, j: int)
    requires
        cal_dates_unique(c),
        0 <= i < c.weeks@.len(),
        0 <= j < c.weeks@[i].days@.len(),
        c.weeks@[i].days@[j].date@ == target,
    ensures
        cal_contributed(c, target) == (c.weeks@[i].days@[j].count > 0),
{
    if c.weeks@[i].days@[j].count > 0 {
        assert(day_hit(c.weeks@[i].days@[j], target));
        assert(week_contributed(c.weeks@[i], target));
    }
    if cal_contributed(c, target) {
        let i2 = choose|i2: int| 0 <= i2 < c.weeks@.len() && week_contributed(
            #[trigger] c.weeks@[i2],
            target,
        );
        let j2 = choose|j2: int| 0 <= j2 < c.weeks@[i2].days@.len() && day_hit(
            #[trigger] c.weeks@[i2].days@[j2],
            target,
        );
        assert(c.weeks@[i2].days@[j2].date@ == c.weeks@[i].days@[j].date@);
        assert(i2 == i && j2 == j);
    }
}

} // verus!
