//! The comfort index served by the `get_comfort_index` tool: one score
//! (0-100) per forecast day, computed from the day's temperature,
//! precipitation and wind, with a level and a recommendation.
//!
//! Measurements come in tenths of their unit (tenths of a degree Celsius,
//! of a millimetre, of a km/h), and penalties in tenths of a point. A day
//! loses 3 points per degree that its mean temperature lies away from 20 °C,
//! 5 points per millimetre of precipitation and 1 point per km/h by which
//! its strongest wind exceeds 20 km/h; a measurement that is missing costs
//! nothing.

use vstd::prelude::*;

verus! {

/// The weather of one forecast day, in tenths of each unit; `None` where the
/// forecast has no value.
#[derive(Debug, Clone, Copy)]
pub struct DayWeather {
    pub temperature_max_tenths: Option<i32>,
    pub temperature_min_tenths: Option<i32>,
    pub precipitation_tenths: Option<u32>,
    pub wind_max_tenths: Option<u32>,
}

/// The comfort of one day: its score, level and recommendation.
#[derive(Debug, Clone, Copy)]
pub struct ComfortDay {
    pub score: u8,
    pub level: &'static str,
    pub recommendation: &'static str,
}

/// The temperature penalty, in tenths of a point: 3 points per degree
/// between the day's mean temperature and 20 °C, when both extremes are
/// known.
pub open spec fn temperature_penalty(d: DayWeather) -> int {
    match (d.temperature_max_tenths, d.temperature_min_tenths) {
        (Some(hi), Some(lo)) => {
            let off: int = hi + lo - 400;
            3 * (if off < 0 { -off } else { off }) / 2
        },
        _ => 0,
    }
}

/// The precipitation penalty, in tenths of a point: 5 points per millimetre.
pub open spec fn precipitation_penalty(d: DayWeather) -> int {
    match d.precipitation_tenths {
        Some(p) => 5 * p,
        None => 0,
    }
}

/// The wind penalty, in tenths of a point: 1 point per km/h above 20 km/h.
pub open spec fn wind_penalty(d: DayWeather) -> int {
    match d.wind_max_tenths {
        Some(w) => if w > 200 { w - 200 } else { 0 },
        None => 0,
    }
}

/// The whole penalty of a day, in tenths of a point.
pub open spec fn day_penalty(d: DayWeather) -> int {
    temperature_penalty(d) + precipitation_penalty(d) + wind_penalty(d)
}

/// The comfort score of a day: 100 less the whole points of its penalty,
/// and 0 once the penalty reaches 100 points.
pub open spec fn comfort_score(d: DayWeather) -> int {
    if day_penalty(d) >= 1000 {
        0
    } else {
        100 - day_penalty(d) / 10
    }
}

/// The comfort level of a score: `excellent` from 75, `good` from 70,
/// `fair` from 50, `poor` below.
pub open spec fn comfort_level_of(score: u8) -> Seq<char> {
    if score >= 75 {
        "excellent"@
    } else if score >= 70 {
        "good"@
    } else if score >= 50 {
        "fair"@
    } else {
        "poor"@
    }
}

/// The recommendation that goes with the level of a score.
pub open spec fn recommendation_of(score: u8) -> Seq<char> {
    if score >= 75 {
        "Excellent for outdoor activities"@
    } else if score >= 70 {
        "Good for outdoor activities"@
    } else if score >= 50 {
        "Fair for outdoor activities, bring layers"@
    } else {
        "Poor conditions for outdoor activities"@
    }
}

/// The comfort level of a score.
pub fn comfort_level(score: u8) -> (s: &'static str)
    ensures
        s@ == comfort_level_of(score),
{
    if score >= 75 {
        "excellent"
    } else if score >= 70 {
        "good"
    } else if score >= 50 {
        "fair"
    } else {
        "poor"
    }
}

/// The recommendation for a score.
pub fn comfort_recommendation(score: u8) -> (s: &'static str)
    ensures
        s@ == recommendation_of(score),
{
    if score >= 75 {
        "Excellent for outdoor activities"
    } else if score >= 70 {
        "Good for outdoor activities"
    } else if score >= 50 {
        "Fair for outdoor activities, bring layers"
    } else {
        "Poor conditions for outdoor activities"
    }
}

/// The penalty of a day, in tenths of a point.
pub fn penalty_tenths(d: &DayWeather) -> (p: u64)
    ensures
        p == day_penalty(*d),
{
    let t: u64 = match (d.temperature_max_tenths, d.temperature_min_tenths) {
        (Some(hi), Some(lo)) => {
            let off: i64 = hi as i64 + lo as i64 - 400;
            let abs: u64 = if off < 0 { (-off) as u64 } else { off as u64 };
            3 * abs / 2
        },
        _ => 0,
    };
    let p: u64 = match d.precipitation_tenths {
        Some(p) => 5 * (p as u64),
        None => 0,
    };
    let w: u64 = match d.wind_max_tenths {
        Some(w) => if w > 200 { (w - 200) as u64 } else { 0 },
        None => 0,
    };
    t + p + w
}

/// The comfort score of a day (0-100).
pub fn day_score(d: &DayWeather) -> (s: u8)
    ensures
        s == comfort_score(*d),
{
    let p = penalty_tenths(d);
    if p >= 1000 {
        0
    } else {
        (100 - p / 10) as u8
    }
}

/// The comfort of one day.
pub fn comfort_day(d: &DayWeather) -> (c: ComfortDay)
    ensures
        c.score == comfort_score(*d),
        c.level@ == comfort_level_of(c.score),
        c.recommendation@ == recommendation_of(c.score),
{
    let score = day_score(d);
    ComfortDay {
        score,
        level: comfort_level(score),
        recommendation: comfort_recommendation(score),
    }
}

/// The comfort of each forecast day, in the order of the days.
pub fn comfort_days(days: &Vec<DayWeather>) -> (out: Vec<ComfortDay>)
    ensures
        out@.len() == days@.len(),
        forall|i: int|
            0 <= i < days@.len() ==> {
                &&& (#[trigger] out@[i]).score == comfort_score(days@[i])
                &&& out@[i].level@ == comfort_level_of(out@[i].score)
                &&& out@[i].recommendation@ == recommendation_of(out@[i].score)
            },
{
    let mut out: Vec<ComfortDay> = Vec::new();
    let mut i: usize = 0;
    while i < days.len()
        invariant
            i <= days@.len(),
            out@.len() == i,
            forall|j: int|
                0 <= j < i ==> {
                    &&& (#[trigger] out@[j]).score == comfort_score(days@[j])
                    &&& out@[j].level@ == comfort_level_of(out@[j].score)
                    &&& out@[j].recommendation@ == recommendation_of(out@[j].score)
                },
        decreases days@.len() - i,
    {
        out.push(comfort_day(&days[i]));
        i = i + 1;
    }
    out
}

/// Every comfort score lies between 0 and 100, and a day with a mean
/// temperature of 20 °C, no precipitation and no wind above 20 km/h scores
/// 100.
pub proof fn lemma_comfort_score_range(d: DayWeather)
    ensures
        0 <= comfort_score(d) <= 100,
        day_penalty(d) == 0 ==> comfort_score(d) == 100,
{
}

/// A day never scores higher than a day with the same weather but less
/// precipitation.
pub proof fn lemma_more_rain_never_more_comfortable(d: DayWeather, wetter: u32)
    requires
        d.precipitation_tenths matches Some(p) ==> p <= wetter,
    ensures
        comfort_score((DayWeather { precipitation_tenths: Some(wetter), ..d })) <= comfort_score(d),
{
    let w = DayWeather { precipitation_tenths: Some(wetter), ..d };
    assert(day_penalty(w) >= day_penalty(d));
    assert(day_penalty(w) / 10 >= day_penalty(d) / 10) by (nonlinear_arith)
        requires
            day_penalty(w) >= day_penalty(d),
            day_penalty(d) >= 0,
    ;
}

/// The activity the outlook is for: the requested one, `outdoor` by default.
pub fn activity_or_default(activity: Option<String>) -> (a: String)
    ensures
        activity matches Some(x) ==> a == x,
        activity is None ==> a@ == "outdoor"@,
{
    match activity {
        Some(x) => x,
        None => String::from_str("outdoor"),
    }
}

/// The level and the recommendation of a score always agree, and follow
/// the score bands: 75 and above is excellent, 70 to 74 good, 50 to 69
/// fair, below 50 poor, each with its own recommendation.
pub proof fn lemma_recommendation_agrees_with_level(score: u8)
    ensures
        comfort_level_of(score) == "excellent"@ <==> recommendation_of(score)
            == "Excellent for outdoor activities"@,
        comfort_level_of(score) == "good"@ <==> recommendation_of(score)
            == "Good for outdoor activities"@,
        comfort_level_of(score) == "fair"@ <==> recommendation_of(score)
            == "Fair for outdoor activities, bring layers"@,
        comfort_level_of(score) == "poor"@ <==> recommendation_of(score)
            == "Poor conditions for outdoor activities"@,
        score >= 75 ==> comfort_level_of(score) == "excellent"@,
        70 <= score < 75 ==> comfort_level_of(score) == "good"@,
        50 <= score < 70 ==> comfort_level_of(score) == "fair"@,
        score < 50 ==> comfort_level_of(score) == "poor"@,
{
    reveal_strlit("excellent");
    reveal_strlit("good");
    reveal_strlit("fair");
    reveal_strlit("poor");
    reveal_strlit("Excellent for outdoor activities");
    reveal_strlit("Good for outdoor activities");
    reveal_strlit("Fair for outdoor activities, bring layers");
    reveal_strlit("Poor conditions for outdoor activities");
    assert("excellent"@[0] == 'e' && "good"@[0] == 'g' && "fair"@[0] == 'f' && "poor"@[0] == 'p');
    assert("Excellent for outdoor activities"@[0] == 'E');
    assert("Good for outdoor activities"@[0] == 'G');
    assert("Fair for outdoor activities, bring layers"@[0] == 'F');
    assert("Poor conditions for outdoor activities"@[0] == 'P');
}

} // verus!
