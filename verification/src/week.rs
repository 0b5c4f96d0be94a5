//! A week of temperature readings, one slot per day.

use vstd::prelude::*;

verus! {

/// The seven days of the week, Monday first.
#[derive(Clone, Copy, Debug, PartialEq, Eq, Structural)]
pub enum Weekday {
    Monday,
    Tuesday,
    Wednesday,
    Thursday,
    Friday,
    Saturday,
    Sunday,
}

impl Weekday {
    /// The slot of the day, counting from Monday as 0.
    pub open spec fn index(self) -> int {
        match self {
            Weekday::Monday => 0,
            Weekday::Tuesday => 1,
            Weekday::Wednesday => 2,
            Weekday::Thursday => 3,
            Weekday::Friday => 4,
            Weekday::Saturday => 5,
            Weekday::Sunday => 6,
        }
    }

    /// The slot of the day as an array index.
    fn slot(self) -> (i: usize)
        ensures
            i == self.index(),
            i < 7,
    {
        match self {
            Weekday::Monday => 0,
            Weekday::Tuesday => 1,
            Weekday::Wednesday => 2,
            Weekday::Thursday => 3,
            Weekday::Friday => 4,
            Weekday::Saturday => 5,
            Weekday::Sunday => 6,
        }
    }
}

/// The temperature recorded for each day of one week, where one was recorded.
pub struct WeekTemperatures {
    temperatures: [Option<i32>; 7],
}

impl View for WeekTemperatures {
    type V = Seq<Option<i32>>;

    /// The seven readings, Monday first; `None` where nothing was recorded.
    closed spec fn view(&self) -> Seq<Option<i32>> {
        self.temperatures@
    }
}

impl WeekTemperatures {
    /// A week with no reading at all.
    pub fn new() -> (week: Self)
        ensures
            week@ == Seq::new(7, |i: int| None::<i32>),
    {
        let week = WeekTemperatures { temperatures: [None, None, None, None, None, None, None] };
        assert(week@ =~= Seq::new(7, |i: int| None::<i32>));
        week
    }

    /// The reading of `day`, if one was recorded.
    pub fn get_temperature(&self, day: Weekday) -> (reading: Option<i32>)
        ensures
            self@.len() == 7,
            reading == self@[day.index()],
    {
        self.temperatures[day.slot()]
    }

    /// Records `temperature` for `day`, replacing an earlier reading of that day.
    pub fn set_temperature(&mut self, day: Weekday, temperature: i32)
        ensures
            final(self)@ == old(self)@.update(day.index(), Some(temperature)),
    {
        self.temperatures[day.slot()] = Some(temperature);
    }
}

} // verus!
