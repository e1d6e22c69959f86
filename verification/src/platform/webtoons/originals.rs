//! Release schedules of `Original` webtoons, as the Originals page and homepages show them.
use crate::stdx::text::{chars_of, eq_str, trim, trim_chars};
use crate::platform::webtoons::webtoon::{is_card_webtoon, webtoons_on_page, card_webtoon, Webtoon};
use crate::stdx::error::Assumption;
use crate::stdx::html::{css_valid, selected};
use vstd::prelude::*;

verus! {

/// A day of the week on which a webtoon releases.
#[derive(Debug, Clone, Copy, PartialEq, Eq, Structural, PartialOrd, Ord, Hash)]
pub enum Weekday {
    /// Released on Sunday
    Sunday,
    /// Released on Monday
    Monday,
    /// Released on Tuesday
    Tuesday,
    /// Released on Wednesday
    Wednesday,
    /// Released on Thursday
    Thursday,
    /// Released on Friday
    Friday,
    /// Released on Saturday
    Saturday,
}

/// The release schedule for an `Original` webtoon.
///
/// A webtoon can release on one or more days of the week, daily, or be completed.
#[derive(Debug, Clone, PartialEq, Eq, PartialOrd, Ord)]
pub enum Schedule {
    /// Released on a single day of the week.
    Weekday(Weekday),
    /// Released on multiple days of the week.
    Weekdays(Vec<Weekday>),
    /// Released daily.
    Daily,
    /// The webtoon has completed its run.
    Completed,
}

/// Why a string was not a schedule or weekday; holds the string.
#[derive(Debug)]
pub struct ParseScheduleError(pub String);

/// The weekday an (already trimmed) text names, long or short form.
pub open spec fn weekday_of(t: Seq<char>) -> Option<Weekday> {
    if t == "MONDAY"@ || t == "MON"@ {
        Some(Weekday::Monday)
    } else if t == "TUESDAY"@ || t == "TUE"@ {
        Some(Weekday::Tuesday)
    } else if t == "WEDNESDAY"@ || t == "WED"@ {
        Some(Weekday::Wednesday)
    } else if t == "THURSDAY"@ || t == "THU"@ {
        Some(Weekday::Thursday)
    } else if t == "FRIDAY"@ || t == "FRI"@ {
        Some(Weekday::Friday)
    } else if t == "SATURDAY"@ || t == "SAT"@ {
        Some(Weekday::Saturday)
    } else if t == "SUNDAY"@ || t == "SUN"@ {
        Some(Weekday::Sunday)
    } else {
        None
    }
}

/// The full name `webtoons.com` writes for a weekday, e.g. `MONDAY`.
pub open spec fn weekday_name(w: Weekday) -> Seq<char> {
    match w {
        Weekday::Sunday => "SUNDAY"@,
        Weekday::Monday => "MONDAY"@,
        Weekday::Tuesday => "TUESDAY"@,
        Weekday::Wednesday => "WEDNESDAY"@,
        Weekday::Thursday => "THURSDAY"@,
        Weekday::Friday => "FRIDAY"@,
        Weekday::Saturday => "SATURDAY"@,
    }
}

/// A text names a weekday exactly when it is that day's full name or the name's first three
/// letters: `THURSDAY` and `THU` name Thursday, and no other text does.
pub proof fn lemma_weekday_names(t: Seq<char>, w: Weekday)
    ensures
        (weekday_of(t) == Some(w)) == (t == weekday_name(w) || t == weekday_name(w).take(3)),
{
    // Each name is told apart by its length and its first and last characters.
    reveal_strlit("SUNDAY");
    assert("SUNDAY"@.len() == 6 && "SUNDAY"@[0] == 'S' && "SUNDAY"@[5] == 'Y');
    reveal_strlit("SUN");
    assert("SUN"@.len() == 3 && "SUN"@[0] == 'S' && "SUN"@[2] == 'N');
    reveal_strlit("MONDAY");
    assert("MONDAY"@.len() == 6 && "MONDAY"@[0] == 'M' && "MONDAY"@[5] == 'Y');
    reveal_strlit("MON");
    assert("MON"@.len() == 3 && "MON"@[0] == 'M' && "MON"@[2] == 'N');
    reveal_strlit("TUESDAY");
    assert("TUESDAY"@.len() == 7 && "TUESDAY"@[0] == 'T' && "TUESDAY"@[6] == 'Y');
    reveal_strlit("TUE");
    assert("TUE"@.len() == 3 && "TUE"@[0] == 'T' && "TUE"@[2] == 'E');
    reveal_strlit("WEDNESDAY");
    assert("WEDNESDAY"@.len() == 9 && "WEDNESDAY"@[0] == 'W' && "WEDNESDAY"@[8] == 'Y');
    reveal_strlit("WED");
    assert("WED"@.len() == 3 && "WED"@[0] == 'W' && "WED"@[2] == 'D');
    reveal_strlit("THURSDAY");
    assert("THURSDAY"@.len() == 8 && "THURSDAY"@[0] == 'T' && "THURSDAY"@[7] == 'Y');
    reveal_strlit("THU");
    assert("THU"@.len() == 3 && "THU"@[0] == 'T' && "THU"@[2] == 'U');
    reveal_strlit("FRIDAY");
    assert("FRIDAY"@.len() == 6 && "FRIDAY"@[0] == 'F' && "FRIDAY"@[5] == 'Y');
    reveal_strlit("FRI");
    assert("FRI"@.len() == 3 && "FRI"@[0] == 'F' && "FRI"@[2] == 'I');
    reveal_strlit("SATURDAY");
    assert("SATURDAY"@.len() == 8 && "SATURDAY"@[0] == 'S' && "SATURDAY"@[7] == 'Y');
    reveal_strlit("SAT");
    assert("SAT"@.len() == 3 && "SAT"@[0] == 'S' && "SAT"@[2] == 'T');
    assert("SUNDAY"@.take(3) =~= "SUN"@);
    assert("MONDAY"@.take(3) =~= "MON"@);
    assert("TUESDAY"@.take(3) =~= "TUE"@);
    assert("WEDNESDAY"@.take(3) =~= "WED"@);
    assert("THURSDAY"@.take(3) =~= "THU"@);
    assert("FRIDAY"@.take(3) =~= "FRI"@);
    assert("SATURDAY"@.take(3) =~= "SAT"@);
}

/// The shape of the schedule a text names, ignoring surrounding whitespace: daily,
/// completed, or a single weekday.
pub enum ScheduleKind {
    /// `DAILY` or `EVERYDAY`.
    Daily,
    /// `COMPLETED`.
    Completed,
    /// One weekday.
    Weekday(Weekday),
}

/// The schedule a single text names, ignoring surrounding whitespace.
pub open spec fn schedule_of(s: Seq<char>) -> Option<ScheduleKind> {
    let t = trim(s);
    if t == "DAILY"@ || t == "EVERYDAY"@ {
        Some(ScheduleKind::Daily)
    } else if t == "COMPLETED"@ {
        Some(ScheduleKind::Completed)
    } else {
        match weekday_of(t) {
            Some(w) => Some(ScheduleKind::Weekday(w)),
            None => None,
        }
    }
}

/// `true` if `sched` is the schedule that `kind` describes.
pub open spec fn schedule_is(sched: Schedule, kind: ScheduleKind) -> bool {
    match kind {
        ScheduleKind::Daily => sched is Daily,
        ScheduleKind::Completed => sched is Completed,
        ScheduleKind::Weekday(w) => sched == Schedule::Weekday(w),
    }
}

/// Whether release texts name a schedule: one text naming a schedule, or several texts
/// that each name a weekday.
pub open spec fn releases_ok(parts: Seq<Seq<char>>) -> bool {
    if parts.len() == 1 {
        schedule_of(parts[0]) is Some
    } else {
        parts.len() > 1 && forall|i: int| 0 <= i < parts.len() ==> #[trigger] weekday_of(trim(parts[i])) is Some
    }
}

/// Whether `sched` is the schedule release texts name.
pub open spec fn schedule_from(parts: Seq<Seq<char>>, sched: Schedule) -> bool {
    if parts.len() == 1 {
        schedule_of(parts[0]) matches Some(k) && schedule_is(sched, k)
    } else {
        sched matches Schedule::Weekdays(days) && days@.len() == parts.len()
            && forall|i: int| 0 <= i < parts.len() ==> Some(#[trigger] days@[i]) == weekday_of(trim(parts[i]))
    }
}

fn weekday_from_trimmed(t: &[char]) -> (r: Option<Weekday>)
    ensures
        r == weekday_of(t@),
{
    if eq_str(t, "MONDAY") || eq_str(t, "MON") {
        Some(Weekday::Monday)
    } else if eq_str(t, "TUESDAY") || eq_str(t, "TUE") {
        Some(Weekday::Tuesday)
    } else if eq_str(t, "WEDNESDAY") || eq_str(t, "WED") {
        Some(Weekday::Wednesday)
    } else if eq_str(t, "THURSDAY") || eq_str(t, "THU") {
        Some(Weekday::Thursday)
    } else if eq_str(t, "FRIDAY") || eq_str(t, "FRI") {
        Some(Weekday::Friday)
    } else if eq_str(t, "SATURDAY") || eq_str(t, "SAT") {
        Some(Weekday::Saturday)
    } else if eq_str(t, "SUNDAY") || eq_str(t, "SUN") {
        Some(Weekday::Sunday)
    } else {
        None
    }
}

impl Weekday {
    /// Parses a weekday, long (`MONDAY`) or short (`MON`), ignoring surrounding whitespace.
    pub fn from_str(s: &str) -> (r: Result<Weekday, ParseScheduleError>)
        ensures
            match weekday_of(trim(s@)) {
                Some(w) => r == Ok::<Weekday, ParseScheduleError>(w),
                None => r matches Err(ParseScheduleError(e)) && e@ == s@,
            },
    {
        let cs = chars_of(s);
        let t = trim_chars(&cs);
        match weekday_from_trimmed(&t) {
            Some(w) => Ok(w),
            None => Err(ParseScheduleError(s.to_owned())),
        }
    }
}

impl Schedule {
    /// Parses `DAILY`/`EVERYDAY`, `COMPLETED`, or a weekday, ignoring surrounding whitespace.
    pub fn from_str(s: &str) -> (r: Result<Schedule, ParseScheduleError>)
        ensures
            match schedule_of(s@) {
                Some(k) => r matches Ok(sched) && schedule_is(sched, k),
                None => r matches Err(ParseScheduleError(e)) && e@ == s@,
            },
    {
        let cs = chars_of(s);
        let t = trim_chars(&cs);
        if eq_str(&t, "DAILY") || eq_str(&t, "EVERYDAY") {
            Ok(Schedule::Daily)
        } else if eq_str(&t, "COMPLETED") {
            Ok(Schedule::Completed)
        } else {
            match weekday_from_trimmed(&t) {
                Some(w) => Ok(Schedule::Weekday(w)),
                None => Err(ParseScheduleError(s.to_owned())),
            }
        }
    }

    /// The schedule of a webtoon that releases as the texts in `releases` say: one text is
    /// read as a schedule, several as the weekdays it releases on, in order.
    ///
    /// `releases` must not be empty.
    pub fn try_from(releases: Vec<&str>) -> (r: Result<Schedule, ParseScheduleError>)
        requires
            releases.len() > 0,
        ensures
            releases.len() == 1 ==> match schedule_of(releases@[0]@) {
                Some(k) => r matches Ok(sched) && schedule_is(sched, k),
                None => r matches Err(ParseScheduleError(e)) && e@ == releases@[0]@,
            },
            releases.len() > 1 && (forall|i: int|
                0 <= i < releases.len() ==> #[trigger] weekday_of(trim(releases@[i]@)) is Some)
                ==> (r matches Ok(Schedule::Weekdays(days)) && days@.len() == releases.len()
                && forall|i: int|
                0 <= i < releases.len() ==> Some(#[trigger] days@[i]) == weekday_of(
                    trim(releases@[i]@),
                )),
            releases.len() > 1 && !(forall|i: int|
                0 <= i < releases.len() ==> #[trigger] weekday_of(trim(releases@[i]@)) is Some)
                ==> (r matches Err(ParseScheduleError(e)) && exists|k: int|
                0 <= k < releases.len() && weekday_of(trim(releases@[k]@)) is None && e@
                    == releases@[k]@ && forall|j: int|
                    0 <= j < k ==> #[trigger] weekday_of(trim(releases@[j]@)) is Some),
    {
        if releases.len() == 1 {
            return Schedule::from_str(releases[0]);
        }
        let mut days: Vec<Weekday> = Vec::new();
        let mut i: usize = 0;
        while i < releases.len()
            invariant
                releases.len() > 1,
                i <= releases.len(),
                days@.len() == i,
                forall|j: int|
                    0 <= j < i ==> #[trigger] weekday_of(trim(releases@[j]@)) is Some && Some(
                        days@[j],
                    ) == weekday_of(trim(releases@[j]@)),
            decreases releases.len() - i,
        {
            match Weekday::from_str(releases[i]) {
                Ok(w) => days.push(w),
                Err(e) => {
                    assert(weekday_of(trim(releases@[i as int]@)) is None);
                    return Err(e);
                },
            }
            i += 1;
        }
        Ok(Schedule::Weekdays(days))
    }
}

/// The pages of the Originals list, one per release day and one for completed webtoons.
pub fn release_days() -> (days: Vec<&'static str>)
    ensures
        days@.len() == 8,
        days@[0]@ == "monday"@ && days@[1]@ == "tuesday"@ && days@[2]@ == "wednesday"@
            && days@[3]@ == "thursday"@ && days@[4]@ == "friday"@ && days@[5]@ == "saturday"@
            && days@[6]@ == "sunday"@ && days@[7]@ == "complete"@,
{
    vec!["monday", "tuesday", "wednesday", "thursday", "friday", "saturday", "sunday", "complete"]
}

/// The address of the Originals list page for `day`.
pub fn originals_url(day: &str) -> (url: String)
    ensures
        url@ == "https://www.webtoons.com/en/originals/"@ + day@,
{
    let mut url = "https://www.webtoons.com/en/originals/".to_owned();
    url.append(day);
    url
}

/// The webtoons a page of the Originals list shows, from its `ul.webtoon_list>li>a` cards.
pub fn webtoons_on_originals_page(html: &str) -> (r: Result<Vec<Webtoon>, Assumption>)
    ensures
        ({
            let cards = selected(html@, "ul.webtoon_list>li>a"@);
            &&& (css_valid("ul.webtoon_list>li>a"@) && forall|i: int| 0 <= i < cards.len() ==> #[trigger] card_webtoon(cards[i]) is Some) <==> r is Ok
            &&& r matches Ok(v) ==> v@.len() == cards.len() && forall|i: int| 0 <= i < v@.len() ==> is_card_webtoon(cards[i], #[trigger] v@[i])
        }),
{
    webtoons_on_page(html, "ul.webtoon_list>li>a")
}

} // verus!
