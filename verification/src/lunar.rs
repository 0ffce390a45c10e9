//! The Chinese lunisolar calendar, for the repeat rules that are counted in it.
//!
//! The calendar is read off the sky by three rules:
//!
//! 1. A month begins on the civil day the new moon falls on, in China Standard
//!    Time, which makes months 29 or 30 days long in no fixed pattern.
//! 2. The month containing the December solstice is the eleventh month. The run
//!    of months from one such month to the next is a *sui*, and holds 12 months
//!    in an ordinary year and 13 in a leap one.
//! 3. In a sui of 13, the leap month is the first one containing no major solar
//!    term (the sun passing a multiple of 30° of longitude). It takes the number
//!    of the month before it and is marked as the leap.
//!
//! The sky itself — the day of each new moon and solstice, and the sector of
//! the sun's longitude on each new moon's day — is tabulated in
//! [`crate::sky`]; everything here applies the three rules to it.
//!
//! The range is [`FIRST_YEAR`] to [`LAST_YEAR`]: 1929 is when China began
//! keeping the standard time the calendar is reckoned in. Outside it the answer
//! is `None` rather than a guess.

use vstd::prelude::*;

use crate::civil::{
    civil_from_days, days_from_civil, in_range, is_valid_date, lemma_civil_of_days,
    spec_civil_from_days, spec_days_from_civil, CivilDate, DAY_LIMIT, YEAR_LIMIT,
};
use crate::sky::{
    moon_day_table, moon_days, moon_sector_table, moon_sectors, solstice_days, solstice_table,
    FIRST_SOLSTICE_YEAR,
};

verus! {

/// The first lunar year this module answers for.
pub const FIRST_YEAR: i64 = 1929;

/// The last lunar year this module answers for.
pub const LAST_YEAR: i64 = 2100;

/// A date on the lunar calendar.
#[derive(Clone, Copy, Debug, PartialEq, Eq, Structural)]
pub struct LunarDate {
    pub year: i64,
    /// 1 to 12. A leap month carries the number of the month it follows and is
    /// told apart by `leap`.
    pub month: u32,
    pub leap: bool,
    /// 1 to 29 or 30, depending on the month.
    pub day: u32,
}

/// One month of the lunar calendar, and where it sits on the civil one.
#[derive(Clone, Copy, Debug, PartialEq, Eq, Structural)]
pub struct LunarMonth {
    pub year: i64,
    pub month: u32,
    pub leap: bool,
    /// Days since 1970-01-01 of the first day of the month.
    pub start: i64,
    /// 29 or 30.
    pub length: u32,
}

/// Whether a lunar year is one this module answers for.
pub open spec fn covers(year: int) -> bool {
    FIRST_YEAR <= year <= LAST_YEAR
}

pub fn covers_year(year: i64) -> (r: bool)
    ensures
        r == covers(year as int),
{
    FIRST_YEAR <= year && year <= LAST_YEAR
}

/// The civil day of the tabulated new moon at index `i`.
pub open spec fn moon(i: int) -> int {
    moon_days()[i] as int
}

/// The index of the tabulated new moon on or before `day` whose successor
/// falls after it, searched from index `from` on.
pub open spec fn moon_on_or_before(day: int, from: int) -> Option<int>
    decreases moon_days().len() - from,
{
    if from < 0 || from + 1 >= moon_days().len() {
        None
    } else if moon(from) <= day < moon(from + 1) {
        Some(from)
    } else {
        moon_on_or_before(day, from + 1)
    }
}

proof fn lemma_moon_on_or_before_bounds(day: int, from: int)
    requires
        moon_on_or_before(day, from) is Some,
    ensures
        from <= moon_on_or_before(day, from)->0,
        0 <= moon_on_or_before(day, from)->0,
        moon_on_or_before(day, from)->0 + 1 < moon_days().len(),
        moon(moon_on_or_before(day, from)->0) <= day < moon(moon_on_or_before(day, from)->0 + 1),
    decreases moon_days().len() - from,
{
    if !(from < 0 || from + 1 >= moon_days().len()) && !(moon(from) <= day < moon(from + 1)) {
        lemma_moon_on_or_before_bounds(day, from + 1);
    }
}

/// The first month of a 13-month sui, from index `from` on, whose new moon and
/// the next one begin their days in the same sector of the sun: the first month
/// holding no major solar term.
pub open spec fn first_without_term(first: int, from: int) -> Option<int>
    decreases 13 - from,
{
    if from >= 13 {
        None
    } else if moon_sectors()[first + from] == moon_sectors()[first + from + 1] {
        Some(from)
    } else {
        first_without_term(first, from + 1)
    }
}

/// Month `i` of the sui beginning in `start_year` whose first new moon is at
/// table index `first` and whose leap month, if any, is at `leap`.
///
/// The months are numbered 11, 12, 1, 2, … in order; a leap month repeats the
/// number of the month before it, and the lunar year turns between the twelfth
/// month and the first.
pub open spec fn month_at(start_year: int, first: int, leap: Option<int>, i: int) -> LunarMonth {
    let n = match leap {
        Some(l) => if i >= l {
            i - 1
        } else {
            i
        },
        None => i,
    };
    LunarMonth {
        year: (if n < 2 {
            start_year
        } else {
            start_year + 1
        }) as i64,
        month: (if n < 2 {
            11 + n
        } else {
            n - 1
        }) as u32,
        leap: leap == Some(i),
        start: moon_days()[first + i],
        length: (moon(first + i + 1) - moon(first + i)) as u32,
    }
}

/// The months of the sui that begins with the eleventh month of `start_year`,
/// or `None` outside the tabulated years or where the sky does not make a sui
/// of 12 or 13 months of 29 or 30 days with a leap month where one is due.
pub open spec fn spec_sui(start_year: int) -> Option<Seq<LunarMonth>> {
    if !(FIRST_YEAR - 1 <= start_year <= LAST_YEAR) || start_year + 1 - FIRST_SOLSTICE_YEAR
        >= solstice_days().len() {
        None
    } else {
        let opening = solstice_days()[start_year - FIRST_SOLSTICE_YEAR] as int;
        let closing = solstice_days()[start_year + 1 - FIRST_SOLSTICE_YEAR] as int;
        match (moon_on_or_before(opening, 0), moon_on_or_before(closing, 0)) {
            (Some(first), Some(last)) => {
                let count = last - first;
                let leap = if count == 13 {
                    first_without_term(first, 1)
                } else {
                    None
                };
                if (count != 12 && count != 13) || (count == 13 && leap is None) {
                    None
                } else if exists|i: int|
                    0 <= i < count && !(29 <= #[trigger] moon(first + i + 1) - moon(first + i) <= 30) {
                    None
                } else {
                    Some(Seq::new(count as nat, |i: int| month_at(start_year, first, leap, i)))
                }
            },
            _ => None,
        }
    }
}

/// The tabulated sky the calendar is read off.
pub struct Sky {
    moon_days: Vec<i64>,
    moon_sectors: Vec<u8>,
    solstices: Vec<i64>,
}

impl Sky {
    #[verifier::type_invariant]
    spec fn tabulated(self) -> bool {
        &&& self.moon_days@ == moon_days()
        &&& self.moon_sectors@ == moon_sectors()
        &&& self.solstices@ == solstice_days()
    }

    /// The new moons the sky holds, as day numbers, oldest first.
    pub closed spec fn new_moon_days(&self) -> Seq<i64> {
        self.moon_days@
    }

    /// The sector of the day each new moon falls in, one per new moon.
    pub closed spec fn new_moon_sectors(&self) -> Seq<u8> {
        self.moon_sectors@
    }

    /// The winter solstices the sky holds, as day numbers, oldest first.
    pub closed spec fn solstices(&self) -> Seq<i64> {
        self.solstices@
    }

    /// The sky the calendar is read off, loaded from its tables.
    pub fn new() -> (sky: Sky)
        ensures
            sky.new_moon_days() == moon_days(),
            sky.new_moon_sectors() == moon_sectors(),
            sky.solstices() == solstice_days(),
    {
        Sky { moon_days: moon_day_table(), moon_sectors: moon_sector_table(), solstices: solstice_table() }
    }

    /// The index of the new moon on or before `day` whose successor falls after
    /// it.
    fn new_moon_on_or_before(&self, day: i64) -> (found: Option<usize>)
        ensures
            match found {
                Some(i) => moon_on_or_before(day as int, 0) == Some(i as int) && i + 1 < moon_days().len(),
                None => moon_on_or_before(day as int, 0) is None,
            },
    {
        proof {
            use_type_invariant(self);
        }
        let n = self.moon_days.len();
        if n == 0 {
            return None;
        }
        let mut i: usize = 0;
        while i < n - 1
            invariant
                self.moon_days@ == moon_days(),
                n == moon_days().len(),
                n > 0,
                0 <= i <= self.moon_days@.len(),
                moon_on_or_before(day as int, 0) == moon_on_or_before(day as int, i as int),
            decreases self.moon_days@.len() - i,
        {
            if self.moon_days[i] <= day && day < self.moon_days[i + 1] {
                proof {
                    lemma_moon_on_or_before_bounds(day as int, 0);
                }
                return Some(i);
            }
            i = i + 1;
        }
        None
    }

    /// The leap month of the 13-month sui whose first new moon is at `first`.
    fn leap_month(&self, first: usize) -> (leap: Option<usize>)
        requires
            first + 13 < moon_days().len(),
        ensures
            match leap {
                Some(l) => first_without_term(first as int, 1) == Some(l as int) && 1 <= l < 13,
                None => first_without_term(first as int, 1) is None,
            },
    {
        proof {
            use_type_invariant(self);
            crate::sky::lemma_table_lengths();
        }
        let mut j: usize = 1;
        while j < 13
            invariant
                self.moon_sectors@ == moon_sectors(),
                moon_sectors().len() == moon_days().len(),
                moon_days().len() == crate::sky::MOON_COUNT,
                first + 13 < moon_days().len(),
                1 <= j <= 13,
                first_without_term(first as int, 1) == first_without_term(first as int, j as int),
            decreases 13 - j,
        {
            if self.moon_sectors[first + j] == self.moon_sectors[first + j + 1] {
                return Some(j);
            }
            j = j + 1;
        }
        None
    }

    /// The months of the sui that begins with the eleventh month of
    /// `start_year`, numbered and marked.
    pub fn sui(&self, start_year: i64) -> (months: Option<Vec<LunarMonth>>)
        ensures
            match months {
                Some(v) => spec_sui(start_year as int) == Some(v@),
                None => spec_sui(start_year as int) is None,
            },
    {
        proof {
            use_type_invariant(self);
            crate::sky::lemma_table_lengths();
        }
        if !(FIRST_YEAR - 1 <= start_year && start_year <= LAST_YEAR) {
            return None;
        }
        let opening_at = (start_year - FIRST_SOLSTICE_YEAR) as usize;
        if opening_at + 1 >= self.solstices.len() {
            return None;
        }
        let first = match self.new_moon_on_or_before(self.solstices[opening_at]) {
            Some(first) => first,
            None => return None,
        };
        let last = match self.new_moon_on_or_before(self.solstices[opening_at + 1]) {
            Some(last) => last,
            None => return None,
        };
        if last < first || (last - first != 12 && last - first != 13) {
            return None;
        }
        let count = last - first;
        // A leap month is due in a sui of 13: the first after the eleventh
        // month that holds no major solar term.
        let leap = if count == 13 {
            match self.leap_month(first) {
                Some(l) => Some(l),
                None => return None,
            }
        } else {
            None
        };
        let ghost spec_leap = match leap {
            Some(l) => Some(l as int),
            None => None::<int>,
        };
        assert(spec_leap == (if count == 13 { first_without_term(first as int, 1) } else { None }));
        let mut months: Vec<LunarMonth> = Vec::new();
        let mut i: usize = 0;
        while i < count
            invariant
                self.moon_days@ == moon_days(),
                last < self.moon_days@.len(),
                start_year + 1 - FIRST_SOLSTICE_YEAR < solstice_days().len(),
                moon_on_or_before(solstice_days()[start_year - FIRST_SOLSTICE_YEAR] as int, 0) == Some(first as int),
                moon_on_or_before(solstice_days()[start_year + 1 - FIRST_SOLSTICE_YEAR] as int, 0) == Some(last as int),
                count == last - first,
                count == 12 || count == 13,
                FIRST_YEAR - 1 <= start_year <= LAST_YEAR,
                0 <= i <= count,
                spec_leap == match leap {
                    Some(l) => Some(l as int),
                    None => None::<int>,
                },
                match leap {
                    Some(l) => 1 <= l < 13,
                    None => true,
                },
                forall|j: int| 0 <= j < i ==> 29 <= #[trigger] moon(first + j + 1) - moon(first + j) <= 30,
                months@ == Seq::new(i as nat, |j: int| month_at(start_year as int, first as int, spec_leap, j)),
            decreases count - i,
        {
            let start = self.moon_days[first + i];
            let next = self.moon_days[first + i + 1];
            let gap = next as i128 - start as i128;
            if !(29 <= gap && gap <= 30) {
                proof {
                    assert(!(29 <= moon(first + i + 1) - moon(first + i) <= 30));
                }
                return None;
            }
            let n = match leap {
                Some(l) => if i >= l {
                    i - 1
                } else {
                    i
                },
                None => i,
            };
            let month = LunarMonth {
                year: if n < 2 {
                    start_year
                } else {
                    start_year + 1
                },
                month: if n < 2 {
                    11 + n as u32
                } else {
                    n as u32 - 1
                },
                leap: leap == Some(i),
                start,
                length: gap as u32,
            };
            proof {
                assert(month == month_at(start_year as int, first as int, spec_leap, i as int));
            }
            months.push(month);
            proof {
                assert(months@ =~= Seq::new((i + 1) as nat, |j: int| month_at(start_year as int, first as int, spec_leap, j)));
            }
            i = i + 1;
        }
        Some(months)
    }
}


/// The first of the months, from index `from` on, that holds civil day `day`.
pub open spec fn month_holding(months: Seq<LunarMonth>, day: int, from: int) -> Option<int>
    decreases months.len() - from,
{
    if from < 0 || from >= months.len() {
        None
    } else if months[from].start <= day < months[from].start + months[from].length {
        Some(from)
    } else {
        month_holding(months, day, from + 1)
    }
}

proof fn lemma_month_holding(months: Seq<LunarMonth>, day: int, from: int)
    requires
        month_holding(months, day, from) is Some,
    ensures
        0 <= month_holding(months, day, from)->0 < months.len(),
        months[month_holding(months, day, from)->0].start <= day < months[month_holding(
            months,
            day,
            from,
        )->0].start + months[month_holding(months, day, from)->0].length,
    decreases months.len() - from,
{
    if !(from < 0 || from >= months.len()) && !(months[from].start <= day < months[from].start
        + months[from].length) {
        lemma_month_holding(months, day, from + 1);
    }
}

/// The first of the months, from index `from` on, with the given number.
pub open spec fn month_named(months: Seq<LunarMonth>, year: int, month: int, leap: bool, from: int) -> Option<int>
    decreases months.len() - from,
{
    if from < 0 || from >= months.len() {
        None
    } else if months[from].year == year && months[from].month == month && months[from].leap == leap {
        Some(from)
    } else {
        month_named(months, year, month, leap, from + 1)
    }
}

/// The year whose sui holds a numbered month: months 11 and 12 belong to the
/// one that began in their own year, every other month to the one that began
/// the year before.
pub open spec fn holding_year(year: int, month: int) -> int {
    if month >= 11 {
        year
    } else {
        year - 1
    }
}

/// The sui holding a numbered month of a supported year.
pub open spec fn spec_sui_holding(year: int, month: int) -> Option<Seq<LunarMonth>> {
    if !covers(year) {
        None
    } else {
        spec_sui(holding_year(year, month))
    }
}

/// The lunar date a civil date falls on, or `None` outside the supported
/// years.
///
/// A sui beginning in December of year Y runs to December of Y+1, so a civil
/// date is in the one that began this December or in the one that began last.
pub open spec fn spec_from_civil(date: CivilDate) -> Option<LunarDate> {
    match spec_sui(date.year as int) {
        None => None,
        Some(this_year) => {
            let day = spec_days_from_civil(date);
            let months = if day < this_year[0].start {
                spec_sui(date.year - 1)
            } else {
                Some(this_year)
            };
            match months {
                None => None,
                Some(ms) => match month_holding(ms, day, 0) {
                    None => None,
                    Some(i) => if covers(ms[i].year as int) {
                        Some(
                            LunarDate {
                                year: ms[i].year,
                                month: ms[i].month,
                                leap: ms[i].leap,
                                day: (day - ms[i].start + 1) as u32,
                            },
                        )
                    } else {
                        None
                    },
                },
            }
        },
    }
}

/// The month of a lunar year, or `None` when that year does not have it.
pub open spec fn spec_month_of_year(year: int, month: int, leap: bool) -> Option<LunarMonth> {
    match spec_sui_holding(year, month) {
        None => None,
        Some(ms) => match month_named(ms, year, month, leap, 0) {
            None => None,
            Some(i) => Some(ms[i]),
        },
    }
}

/// The month `remaining` months on from month `index` of the sui of
/// `start_year`, walking into the following suis as needed.
pub open spec fn walk_months(start_year: int, index: int, remaining: int) -> Option<LunarMonth>
    decreases remaining,
{
    match spec_sui(start_year) {
        None => None,
        Some(ms) => if index < 0 || index >= ms.len() || remaining < 0 {
            None
        } else if remaining <= ms.len() - index - 1 {
            if covers(ms[index + remaining].year as int) {
                Some(ms[index + remaining])
            } else {
                None
            }
        } else {
            walk_months(start_year + 1, 0, remaining - (ms.len() - index))
        },
    }
}

/// The month `steps` lunar months after the one `from` falls in; leap months
/// are counted.
pub open spec fn spec_month_after(from: LunarDate, steps: int) -> Option<LunarMonth> {
    match spec_sui_holding(from.year as int, from.month as int) {
        None => None,
        Some(ms) => match month_named(ms, from.year as int, from.month as int, from.leap, 0) {
            None => None,
            Some(i) => walk_months(holding_year(from.year as int, from.month as int), i, steps),
        },
    }
}

/// The civil date of a day of a lunar month, or `None` when the month is too
/// short for it.
pub open spec fn spec_day_in(month: LunarMonth, day: int) -> Option<CivilDate> {
    if 1 <= day <= month.length {
        Some(spec_civil_from_days(month.start + day - 1))
    } else {
        None
    }
}

/// Whether a month's days all have day numbers the civil arithmetic answers
/// for.
pub open spec fn month_in_range(month: LunarMonth) -> bool {
    -DAY_LIMIT <= month.start && month.start + month.length <= DAY_LIMIT
}

/// The civil date of a day of a lunar month, or `None` when the month is too
/// short for it — the thirtieth of a 29-day month.
pub fn day_in(month: &LunarMonth, day: u32) -> (date: Option<CivilDate>)
    requires
        month_in_range(*month),
    ensures
        date == spec_day_in(*month, day as int),
{
    if day >= 1 && day <= month.length {
        Some(civil_from_days(month.start + day as i64 - 1))
    } else {
        None
    }
}

/// The index of the first month holding `day`.
fn find_holding(months: &Vec<LunarMonth>, day: i64) -> (found: Option<usize>)
    ensures
        match found {
            Some(i) => month_holding(months@, day as int, 0) == Some(i as int) && i < months@.len(),
            None => month_holding(months@, day as int, 0) is None,
        },
{
    let mut i: usize = 0;
    while i < months.len()
        invariant
            0 <= i <= months@.len(),
            month_holding(months@, day as int, 0) == month_holding(months@, day as int, i as int),
        decreases months@.len() - i,
    {
        let start = months[i].start as i128;
        let end = start + months[i].length as i128;
        if start <= day as i128 && (day as i128) < end {
            return Some(i);
        }
        i = i + 1;
    }
    None
}

/// The index of the first month with the given number.
fn find_named(months: &Vec<LunarMonth>, year: i64, month: u32, leap: bool) -> (found: Option<usize>)
    ensures
        match found {
            Some(i) => month_named(months@, year as int, month as int, leap, 0) == Some(i as int)
                && i < months@.len(),
            None => month_named(months@, year as int, month as int, leap, 0) is None,
        },
{
    let mut i: usize = 0;
    while i < months.len()
        invariant
            0 <= i <= months@.len(),
            month_named(months@, year as int, month as int, leap, 0) == month_named(
                months@,
                year as int,
                month as int,
                leap,
                i as int,
            ),
        decreases months@.len() - i,
    {
        if months[i].year == year && months[i].month == month && months[i].leap == leap {
            return Some(i);
        }
        i = i + 1;
    }
    None
}

impl Sky {
    /// The sui holding a numbered month of a supported year.
    fn sui_holding(&self, year: i64, month: u32) -> (months: Option<Vec<LunarMonth>>)
        ensures
            match months {
                Some(v) => spec_sui_holding(year as int, month as int) == Some(v@),
                None => spec_sui_holding(year as int, month as int) is None,
            },
    {
        if !covers_year(year) {
            return None;
        }
        self.sui(if month >= 11 {
            year
        } else {
            year - 1
        })
    }

    /// The lunar date a civil date falls on, or `None` outside the supported
    /// years.
    pub fn from_civil(&self, date: CivilDate) -> (lunar: Option<LunarDate>)
        requires
            in_range(date),
        ensures
            lunar == spec_from_civil(date),
    {
        let this_year = match self.sui(date.year) {
            Some(months) => months,
            None => return None,
        };
        let day = days_from_civil(date);
        let months = if day < this_year[0].start {
            match self.sui(date.year - 1) {
                Some(months) => months,
                None => return None,
            }
        } else {
            this_year
        };
        let i = match find_holding(&months, day) {
            Some(i) => i,
            None => return None,
        };
        let month = months[i];
        proof {
            lemma_month_holding(months@, day as int, 0);
        }
        if !covers_year(month.year) {
            return None;
        }
        Some(LunarDate { year: month.year, month: month.month, leap: month.leap, day: (day - month.start + 1) as u32 })
    }

    /// The month of a lunar year, or `None` when that year does not have it —
    /// the ordinary case for a leap month.
    pub fn month_of_year(&self, year: i64, month: u32, leap: bool) -> (found: Option<LunarMonth>)
        ensures
            found == spec_month_of_year(year as int, month as int, leap),
    {
        let months = match self.sui_holding(year, month) {
            Some(months) => months,
            None => return None,
        };
        match find_named(&months, year, month, leap) {
            Some(i) => Some(months[i]),
            None => None,
        }
    }

    /// The month `steps` lunar months after the one `from` falls in. Leap
    /// months are counted; `None` means the walk left the supported years.
    pub fn month_after(&self, from: LunarDate, steps: i64) -> (found: Option<LunarMonth>)
        requires
            steps >= 0,
        ensures
            found == spec_month_after(from, steps as int),
    {
        let mut months = match self.sui_holding(from.year, from.month) {
            Some(months) => months,
            None => return None,
        };
        let mut index = match find_named(&months, from.year, from.month, from.leap) {
            Some(i) => i,
            None => return None,
        };
        let mut start_year: i64 = if from.month >= 11 {
            from.year
        } else {
            from.year - 1
        };
        let mut remaining: i64 = steps;
        loop
            invariant
                spec_sui(start_year as int) == Some(months@),
                0 <= index < months@.len(),
                0 <= remaining <= steps,
                FIRST_YEAR - 1 <= start_year <= LAST_YEAR,
                spec_month_after(from, steps as int) == walk_months(start_year as int, index as int, remaining as int),
            decreases remaining,
        {
            let room = (months.len() - index - 1) as i64;
            if remaining <= room {
                let month = months[index + remaining as usize];
                if covers_year(month.year) {
                    return Some(month);
                }
                return None;
            }
            let ghost before = (start_year, index, remaining);
            remaining = remaining - (room + 1);
            start_year = start_year + 1;
            proof {
                assert(walk_months(before.0 as int, before.1 as int, before.2 as int) == walk_months(
                    start_year as int,
                    0,
                    remaining as int,
                ));
            }
            months = match self.sui(start_year) {
                Some(months) => months,
                None => return None,
            };
            index = 0;
        }
    }
}


proof fn lemma_first_without_term_range(first: int, from: int)
    requires
        first_without_term(first, from) is Some,
    ensures
        from <= first_without_term(first, from)->0 < 13,
    decreases 13 - from,
{
    if from < 13 && moon_sectors()[first + from] != moon_sectors()[first + from + 1] {
        lemma_first_without_term_range(first, from + 1);
    }
}

proof fn lemma_month_named_finds(months: Seq<LunarMonth>, year: int, month: int, leap: bool, from: int, i: int)
    requires
        0 <= from <= i < months.len(),
        months[i].year == year && months[i].month == month && months[i].leap == leap,
        forall|j: int|
            from <= j < i ==> !((#[trigger] months[j]).year == year && months[j].month == month
                && months[j].leap == leap),
    ensures
        month_named(months, year, month, leap, from) == Some(i),
    decreases i - from,
{
    if from < i {
        lemma_month_named_finds(months, year, month, leap, from + 1, i);
    }
}

/// Months of one sui are told apart by their number and leap mark, and the
/// number says which sui holds them.
proof fn lemma_sui_numbering(start_year: int, i: int)
    requires
        spec_sui(start_year) is Some,
        0 <= i < spec_sui(start_year)->0.len(),
    ensures
        holding_year(
            spec_sui(start_year)->0[i].year as int,
            spec_sui(start_year)->0[i].month as int,
        ) == start_year,
        forall|j: int|
            0 <= j < i ==> !((#[trigger] spec_sui(start_year)->0[j]).year == spec_sui(
                start_year,
            )->0[i].year && spec_sui(start_year)->0[j].month == spec_sui(start_year)->0[i].month
                && spec_sui(start_year)->0[j].leap == spec_sui(start_year)->0[i].leap),
{
    let opening = solstice_days()[start_year - FIRST_SOLSTICE_YEAR] as int;
    let closing = solstice_days()[start_year + 1 - FIRST_SOLSTICE_YEAR] as int;
    let first = moon_on_or_before(opening, 0)->0;
    let last = moon_on_or_before(closing, 0)->0;
    let count = last - first;
    let leap = if count == 13 {
        first_without_term(first, 1)
    } else {
        None
    };
    if leap is Some {
        lemma_first_without_term_range(first, 1);
    }
    let ms = spec_sui(start_year)->0;
    assert(ms == Seq::new(count as nat, |k: int| month_at(start_year, first, leap, k)));
    assert(ms[i] == month_at(start_year, first, leap, i));
    assert forall|j: int|
        0 <= j < i implies !((#[trigger] ms[j]).year == ms[i].year && ms[j].month == ms[i].month
        && ms[j].leap == ms[i].leap) by {
        assert(ms[j] == month_at(start_year, first, leap, j));
    }
}

/// The number of the `n`-th month of a sui that is not a leap month: 11, 12,
/// then 1 to 10.
pub open spec fn sui_month_number(n: int) -> int {
    if n < 2 {
        11 + n
    } else {
        n - 1
    }
}

/// Whether `months` hold together as one sui: 12 or 13 months of 29 or 30
/// days, each starting where the one before ended; a leap month exactly when
/// there are 13, never the first, repeating the number of the month before
/// it; and the other months numbered 11, 12, 1, …, 10 in turn.
pub open spec fn sui_holds_together(months: Seq<LunarMonth>) -> bool {
    &&& months.len() == 12 || months.len() == 13
    &&& forall|i: int| 0 <= i < months.len() ==> 29 <= (#[trigger] months[i]).length <= 30
    &&& forall|i: int|
        0 <= i < months.len() - 1 ==> (#[trigger] months[i + 1]).start == months[i].start + months[i].length
    &&& months.len() == 12 ==> forall|i: int|
        0 <= i < 12 ==> !(#[trigger] months[i]).leap && months[i].month == sui_month_number(i)
    &&& months.len() == 13 ==> exists|leap: int|
        {
            &&& 1 <= leap < 13
            &&& (#[trigger] months[leap]).leap
            &&& months[leap].month == months[leap - 1].month
            &&& forall|i: int|
                0 <= i < 13 && i != leap ==> !(#[trigger] months[i]).leap && months[i].month
                    == sui_month_number(if i < leap { i } else { i - 1 })
        }
}

/// Every sui the calendar answers with holds together, and ends where the
/// next sui begins: the last month of one runs up to the first day of the
/// other's first month.
pub proof fn lemma_a_sui_holds_together(start_year: int)
    ensures
        spec_sui(start_year) matches Some(months) ==> sui_holds_together(months),
        spec_sui(start_year) matches Some(months) ==> spec_sui(start_year + 1) matches Some(next)
            ==> months.last().start + months.last().length == next[0].start,
{
    if spec_sui(start_year) is Some {
        let opening = solstice_days()[start_year - FIRST_SOLSTICE_YEAR] as int;
        let closing = solstice_days()[start_year + 1 - FIRST_SOLSTICE_YEAR] as int;
        let first = moon_on_or_before(opening, 0)->0;
        let last = moon_on_or_before(closing, 0)->0;
        lemma_moon_on_or_before_bounds(opening, 0);
        lemma_moon_on_or_before_bounds(closing, 0);
        let count = last - first;
        let leap = if count == 13 {
            first_without_term(first, 1)
        } else {
            None
        };
        if leap is Some {
            lemma_first_without_term_range(first, 1);
        }
        let ms = spec_sui(start_year)->0;
        assert(ms == Seq::new(count as nat, |k: int| month_at(start_year, first, leap, k)));
        assert forall|i: int| 0 <= i < ms.len() implies 29 <= (#[trigger] ms[i]).length <= 30 by {
            assert(29 <= moon(first + i + 1) - moon(first + i) <= 30);
        }
        assert forall|i: int| 0 <= i < ms.len() - 1 implies (#[trigger] ms[i + 1]).start == ms[i].start
            + ms[i].length by {
            assert(29 <= moon(first + i + 1) - moon(first + i) <= 30);
        }
        if count == 13 {
            let l = leap->0;
            assert(ms[l].leap);
            assert forall|i: int|
                0 <= i < 13 && i != l implies !(#[trigger] ms[i]).leap && ms[i].month == sui_month_number(
                if i < l {
                    i
                } else {
                    i - 1
                },
            ) by {}
        }
        assert(ms.last() == ms[count - 1]);
        assert(29 <= moon(first + count) - moon(first + count - 1) <= 30);
        if spec_sui(start_year + 1) is Some {
            let next_opening = solstice_days()[start_year + 1 - FIRST_SOLSTICE_YEAR] as int;
            assert(next_opening == closing);
            let next = spec_sui(start_year + 1)->0;
            let next_first = moon_on_or_before(next_opening, 0)->0;
            assert(next_first == last);
            assert(next[0].start == moon_days()[last]);
        }
    }
}

/// A lunar date read off a civil one names that civil day back: its month is
/// found again by its number, and its day of that month is the civil date.
pub proof fn lemma_lunar_round_trip(date: CivilDate)
    requires
        is_valid_date(date),
        -YEAR_LIMIT <= date.year <= YEAR_LIMIT,
        spec_from_civil(date) is Some,
    ensures
        ({
            let lunar = spec_from_civil(date)->0;
            &&& spec_month_of_year(lunar.year as int, lunar.month as int, lunar.leap) matches Some(
                month,
            )
            &&& spec_day_in(month, lunar.day as int) == Some(date)
        }),
{
    let day = spec_days_from_civil(date);
    let this_year = spec_sui(date.year as int)->0;
    let sui_year = if day < this_year[0].start {
        date.year - 1
    } else {
        date.year as int
    };
    let ms = spec_sui(sui_year)->0;
    let i = month_holding(ms, day, 0)->0;
    lemma_month_holding(ms, day, 0);
    lemma_sui_numbering(sui_year, i);
    let month = ms[i];
    lemma_month_named_finds(ms, month.year as int, month.month as int, month.leap, 0, i);
    lemma_civil_of_days(date);
    let lunar = spec_from_civil(date)->0;
    assert(spec_month_of_year(lunar.year as int, lunar.month as int, lunar.leap) == Some(month));
    assert(month.start + lunar.day - 1 == day);
}


/// A lunar date read off a civil one is in a year the calendar answers for.
pub proof fn lemma_from_civil_covers(date: CivilDate)
    requires
        spec_from_civil(date) is Some,
    ensures
        covers(spec_from_civil(date)->0.year as int),
{
}
} // verus!
