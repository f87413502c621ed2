//! Weekly insights: what the language model is asked, and when it is asked.

use vstd::prelude::*;
use crate::text::{decimal_digits, decimal_i64, decimal_int, decimal_u128, decimal_u64};

verus! {

/// An insight into a user's habits.
#[derive(Debug)]
pub struct InsightResponse {
    pub summary: String,
    pub wins: Vec<String>,
    pub improvements: Vec<String>,
    pub mood_correlation: Option<String>,
    pub streak_analysis: String,
    pub tip_of_the_week: String,
    /// Whether the text came from the language model or from the fallback rules.
    pub source: String,
}

/// Days that an insight looks back.
pub const INSIGHT_DAYS: i32 = 30;

/// The line that describes one habit to the language model.
pub open spec fn habit_line_of(name: Seq<char>, streak: int, completions: nat, target: int) -> Seq<char> {
    "- "@ + name + " (streak: "@ + decimal_int(streak) + ", completions last 30d: "@ + decimal_digits(
        completions,
    ) + ", target/day: "@ + decimal_int(target) + ")"@
}

/// Writes the line that describes one habit to the language model.
pub fn habit_line(name: &str, current_streak: i32, completions: u64, target_per_day: i32) -> (line: String)
    ensures
        line@ == habit_line_of(
            name@,
            current_streak as int,
            completions as nat,
            target_per_day as int,
        ),
{
    let line = "- ".to_owned().concat(name).concat(" (streak: ").concat(
        decimal_i64(current_streak as i64).as_str(),
    ).concat(", completions last 30d: ").concat(decimal_u64(completions).as_str()).concat(
        ", target/day: ",
    ).concat(decimal_i64(target_per_day as i64).as_str()).concat(")");
    assert(line@ =~= habit_line_of(
        name@,
        current_streak as int,
        completions as nat,
        target_per_day as int,
    ));
    line
}

/// The lines of a list, each but the last followed by a line break.
pub open spec fn joined(lines: Seq<Seq<char>>) -> Seq<char>
    decreases lines.len(),
{
    if lines.len() == 0 {
        Seq::empty()
    } else if lines.len() == 1 {
        lines[0]
    } else {
        joined(lines.drop_last()) + seq!['\n'] + lines.last()
    }
}

/// The texts of a list of strings.
pub open spec fn texts(strings: Seq<String>) -> Seq<Seq<char>> {
    Seq::new(strings.len(), |i: int| strings[i]@)
}

/// Joins lines with line breaks.
pub fn join_lines(lines: &Vec<String>) -> (text: String)
    ensures
        text@ == joined(texts(lines@)),
{
    let mut text = String::new();
    let mut i: usize = 0;
    proof {
        reveal_strlit("\n");
        assert(texts(lines@).take(0) =~= Seq::<Seq<char>>::empty());
    }
    while i < lines.len()
        invariant
            i <= lines@.len(),
            "\n"@ == seq!['\n'],
            text@ == joined(texts(lines@).take(i as int)),
        decreases lines@.len() - i,
    {
        proof {
            let upto = texts(lines@).take(i as int + 1);
            assert(upto.drop_last() =~= texts(lines@).take(i as int));
            assert(upto.last() == lines@[i as int]@);
        }
        if i > 0 {
            text.append("\n");
        }
        text.append(lines[i].as_str());
        proof {
            let upto = texts(lines@).take(i as int + 1);
            if i == 0 {
                assert(text@ =~= upto[0]);
            } else {
                assert(text@ =~= joined(upto.drop_last()) + seq!['\n'] + upto.last());
            }
        }
        i += 1;
    }
    assert(texts(lines@).take(i as int) =~= texts(lines@));
    text
}

/// What comes before the list of habits in the question put to the model.
pub open spec fn prompt_head() -> Seq<char> {
    "You are a habit coaching AI. Analyze this user's habit data from the last 30 days and provide actionable insights.\n\nHabits:\n"@
}

/// What stands between the list of habits and the number of completions.
pub open spec fn prompt_middle() -> Seq<char> {
    "\n\nTotal completions in period: "@
}

/// The schema that the model is asked to answer in.
pub open spec fn prompt_tail() -> Seq<char> {
    "\n\nProvide a JSON response with this exact schema:\n{\n  \"summary\": \"2-3 sentence progress summary\",\n  \"wins\": [\"specific win 1\", \"specific win 2\"],\n  \"improvements\": [\"actionable suggestion 1\", \"actionable suggestion 2\", \"actionable suggestion 3\"],\n  \"mood_correlation\": \"correlation insight or null\",\n  \"streak_analysis\": \"pattern analysis\",\n  \"tip_of_the_week\": \"one specific tip\"\n}"@
}

/// The question put to the language model: the habits line by line, the
/// number of completions in the period, and the schema of the answer.
pub fn build_prompt(habit_lines: &Vec<String>, total_completions: u64) -> (prompt: String)
    ensures
        prompt@ == prompt_head() + joined(texts(habit_lines@)) + prompt_middle() + decimal_digits(
            total_completions as nat,
        ) + prompt_tail(),
{
    let prompt =
        "You are a habit coaching AI. Analyze this user's habit data from the last 30 days and provide actionable insights.\n\nHabits:\n".to_owned().concat(
        join_lines(habit_lines).as_str(),
    ).concat("\n\nTotal completions in period: ").concat(decimal_u64(total_completions).as_str()).concat(
        "\n\nProvide a JSON response with this exact schema:\n{\n  \"summary\": \"2-3 sentence progress summary\",\n  \"wins\": [\"specific win 1\", \"specific win 2\"],\n  \"improvements\": [\"actionable suggestion 1\", \"actionable suggestion 2\", \"actionable suggestion 3\"],\n  \"mood_correlation\": \"correlation insight or null\",\n  \"streak_analysis\": \"pattern analysis\",\n  \"tip_of_the_week\": \"one specific tip\"\n}",
    );
    assert(prompt@ =~= prompt_head() + joined(texts(habit_lines@)) + prompt_middle() + decimal_digits(
        total_completions as nat,
    ) + prompt_tail());
    prompt
}

/// Where an insight comes from.
#[derive(Debug, Clone, Copy, PartialEq, Eq, Structural)]
pub enum InsightSource {
    /// Ask the language model, and fall back where it does not answer.
    Model,
    /// Use the fallback rules without asking.
    Fallback,
}

/// Decides where an insight comes from: a demo session that has used up its
/// calls gets the fallback; everyone else, the model. `claimed` tells
/// whether the store granted the demo one more call.
pub fn insight_source(is_demo: bool, claimed: bool) -> (source: InsightSource)
    ensures
        source == (if is_demo && !claimed {
            InsightSource::Fallback
        } else {
            InsightSource::Model
        }),
{
    if is_demo && !claimed {
        InsightSource::Fallback
    } else {
        InsightSource::Model
    }
}

/// What the fallback says of streaks, by the longest streak that is running.
pub open spec fn streak_analysis_of(max_streak: int) -> Seq<char> {
    if max_streak > 7 {
        "Your longest active streak is "@ + decimal_int(max_streak)
            + " days. Streaks above 7 days indicate strong habit formation."@
    } else if max_streak > 0 {
        "Your longest active streak is "@ + decimal_int(max_streak) + " days. Focus on not breaking the chain."@
    } else {
        "No active streaks. Complete a habit today to start building momentum."@
    }
}

/// Writes what the fallback says of streaks.
pub fn streak_analysis(max_streak: i32) -> (text: String)
    ensures
        text@ == streak_analysis_of(max_streak as int),
{
    if max_streak > 7 {
        "Your longest active streak is ".to_owned().concat(decimal_i64(max_streak as i64).as_str()).concat(
            " days. Streaks above 7 days indicate strong habit formation.",
        )
    } else if max_streak > 0 {
        "Your longest active streak is ".to_owned().concat(decimal_i64(max_streak as i64).as_str()).concat(
            " days. Focus on not breaking the chain.",
        )
    } else {
        "No active streaks. Complete a habit today to start building momentum.".to_owned()
    }
}

/// The insight for a user who keeps no habit yet.
pub fn insight_without_habits() -> (insight: InsightResponse)
    ensures
        insight.summary@ == "You haven't created any habits yet. Start by adding a habit to track!"@,
        insight.wins@.len() == 0,
        insight.improvements@.len() == 1,
        insight.improvements@[0]@ == "Create your first habit to get started"@,
        insight.mood_correlation is None,
        insight.streak_analysis@ == "No data available yet."@,
        insight.tip_of_the_week@
            == "Start small — one habit, done consistently, beats five habits done sporadically."@,
        insight.source@ == "fallback"@,
{
    let mut improvements: Vec<String> = Vec::new();
    improvements.push("Create your first habit to get started".to_owned());
    InsightResponse {
        summary: "You haven't created any habits yet. Start by adding a habit to track!".to_owned(),
        wins: Vec::new(),
        improvements,
        mood_correlation: None,
        streak_analysis: "No data available yet.".to_owned(),
        tip_of_the_week: "Start small — one habit, done consistently, beats five habits done sporadically.".to_owned(),
        source: "fallback".to_owned(),
    }
}

// ---------------------------------------------------------------------------
// The fallback
// ---------------------------------------------------------------------------

/// Completions in thirty days above which a habit counts as kept more than
/// half of the time, and below which as kept less than half of it.
pub const HALF_OF_THE_DAYS: u64 = 15;

/// The share of thirty days that `count` days are, in percent, rounded to
/// the nearest whole number. No such share lies halfway between two.
pub open spec fn month_percent_of(count: nat) -> nat {
    (20 * count + 3) / 6
}

/// The share of thirty days in percent.
pub fn month_percent(count: u64) -> (percent: u128)
    ensures
        percent == month_percent_of(count as nat),
{
    (20 * (count as u128) + 3) / 6
}

/// The rounded share differs from the exact one, `10 * count / 3`, by a
/// third at most.
pub proof fn lemma_month_percent_is_nearest(count: nat)
    ensures
        3 * month_percent_of(count) - 1 <= 10 * count <= 3 * month_percent_of(count) + 1,
{
}

/// The first place among the first `n` that holds the largest count.
pub open spec fn first_largest(counts: Seq<u64>, n: int) -> int
    decreases n,
{
    if n <= 1 {
        0
    } else {
        let before = first_largest(counts, n - 1);
        if counts[n - 1] > counts[before] {
            n - 1
        } else {
            before
        }
    }
}

/// The last place among the first `n` that holds the smallest count.
pub open spec fn last_smallest(counts: Seq<u64>, n: int) -> int
    decreases n,
{
    if n <= 1 {
        0
    } else {
        let before = last_smallest(counts, n - 1);
        if counts[n - 1] <= counts[before] {
            n - 1
        } else {
            before
        }
    }
}

/// Where the strongest and the weakest habit stand: no count is larger than
/// the strongest and none before it is as large; no count is smaller than
/// the weakest and none after it is as small.
pub proof fn lemma_strongest_and_weakest(counts: Seq<u64>, n: int)
    requires
        1 <= n <= counts.len(),
    ensures
        0 <= first_largest(counts, n) < n,
        0 <= last_smallest(counts, n) < n,
        forall|k: int| 0 <= k < n ==> #[trigger] counts[k] <= counts[first_largest(counts, n)],
        forall|k: int| 0 <= k < first_largest(counts, n) ==> #[trigger] counts[k] < counts[first_largest(counts, n)],
        forall|k: int| 0 <= k < n ==> #[trigger] counts[k] >= counts[last_smallest(counts, n)],
        forall|k: int| last_smallest(counts, n) < k < n ==> #[trigger] counts[k] > counts[last_smallest(counts, n)],
    decreases n,
{
    if n > 1 {
        lemma_strongest_and_weakest(counts, n - 1);
    }
}

/// The habit that was completed most often, the first of them where several
/// were, and the one completed least often, the last of them.
pub fn strongest_and_weakest(counts: &Vec<u64>) -> (places: (usize, usize))
    requires
        counts@.len() > 0,
    ensures
        places.0 == first_largest(counts@, counts@.len() as int),
        places.1 == last_smallest(counts@, counts@.len() as int),
        places.0 < counts@.len(),
        places.1 < counts@.len(),
{
    let mut strongest: usize = 0;
    let mut weakest: usize = 0;
    let mut i: usize = 1;
    while i < counts.len()
        invariant
            1 <= i <= counts@.len(),
            strongest == first_largest(counts@, i as int),
            weakest == last_smallest(counts@, i as int),
            strongest < i,
            weakest < i,
        decreases counts@.len() - i,
    {
        if counts[i] > counts[strongest] {
            strongest = i;
        }
        if counts[i] <= counts[weakest] {
            weakest = i;
        }
        i += 1;
    }
    (strongest, weakest)
}

/// The last place among the first `n` that holds the longest streak.
pub open spec fn longest_running(streaks: Seq<i32>, n: int) -> int
    decreases n,
{
    if n <= 1 {
        0
    } else {
        let before = longest_running(streaks, n - 1);
        if streaks[n - 1] >= streaks[before] {
            n - 1
        } else {
            before
        }
    }
}

/// The habit with the longest running streak, the last of them where
/// several have the same.
pub fn longest_running_streak(streaks: &Vec<i32>) -> (place: usize)
    requires
        streaks@.len() > 0,
    ensures
        place == longest_running(streaks@, streaks@.len() as int),
        place < streaks@.len(),
{
    let mut place: usize = 0;
    let mut i: usize = 1;
    while i < streaks.len()
        invariant
            1 <= i <= streaks@.len(),
            place == longest_running(streaks@, i as int),
            place < i,
        decreases streaks@.len() - i,
    {
        if streaks[i] >= streaks[place] {
            place = i;
        }
        i += 1;
    }
    place
}

/// What the fallback praises: the strongest habit where it was kept more
/// than half of the time, and the longest streak where one is running.
pub open spec fn wins_of(
    strongest: Seq<char>,
    strongest_count: nat,
    max_streak: int,
    streak_habit: Seq<char>,
) -> Seq<Seq<char>> {
    let kept = if strongest_count > HALF_OF_THE_DAYS {
        seq![
            strongest + " completed "@ + decimal_digits(month_percent_of(strongest_count))
                + "% of the time — great consistency!"@,
        ]
    } else {
        Seq::empty()
    };
    let running = if max_streak > 0 {
        seq![decimal_int(max_streak) + "-day streak on "@ + streak_habit + " — keep it going!"@]
    } else {
        Seq::empty()
    };
    kept + running
}

/// Writes what the fallback praises.
pub fn fallback_wins(
    strongest: &str,
    strongest_count: u64,
    max_streak: i32,
    streak_habit: &str,
) -> (wins: Vec<String>)
    ensures
        texts(wins@) == wins_of(strongest@, strongest_count as nat, max_streak as int, streak_habit@),
{
    let mut wins: Vec<String> = Vec::new();
    if strongest_count > HALF_OF_THE_DAYS {
        let line = strongest.to_owned().concat(" completed ").concat(
            decimal_u128(month_percent(strongest_count)).as_str(),
        ).concat("% of the time — great consistency!");
        wins.push(line);
    }
    if max_streak > 0 {
        let line = decimal_i64(max_streak as i64).concat("-day streak on ").concat(streak_habit).concat(
            " — keep it going!",
        );
        wins.push(line);
    }
    assert(texts(wins@) =~= wins_of(strongest@, strongest_count as nat, max_streak as int, streak_habit@));
    wins
}

/// What the fallback suggests: a reminder for the weakest habit where it was
/// kept less than half of the time, and two suggestions for everyone.
pub open spec fn improvements_of(weakest: Seq<char>, weakest_count: nat) -> Seq<Seq<char>> {
    let reminder = if weakest_count < HALF_OF_THE_DAYS {
        seq![
            "Try setting a reminder for "@ + weakest + " to improve your "@ + decimal_digits(
                month_percent_of(weakest_count),
            ) + "% rate."@,
        ]
    } else {
        Seq::empty()
    };
    reminder + seq![
        "Consider pairing a difficult habit with one you enjoy."@,
        "Track at the same time each day to build automaticity."@,
    ]
}

/// Writes what the fallback suggests.
pub fn fallback_improvements(weakest: &str, weakest_count: u64) -> (improvements: Vec<String>)
    ensures
        texts(improvements@) == improvements_of(weakest@, weakest_count as nat),
{
    let mut improvements: Vec<String> = Vec::new();
    if weakest_count < HALF_OF_THE_DAYS {
        let line = "Try setting a reminder for ".to_owned().concat(weakest).concat(" to improve your ").concat(
            decimal_u128(month_percent(weakest_count)).as_str(),
        ).concat("% rate.");
        improvements.push(line);
    }
    improvements.push("Consider pairing a difficult habit with one you enjoy.".to_owned());
    improvements.push("Track at the same time each day to build automaticity.".to_owned());
    assert(texts(improvements@) =~= improvements_of(weakest@, weakest_count as nat));
    improvements
}

} // verus!
