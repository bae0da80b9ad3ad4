//! The train schedule: which table serves a request, and the next train
//! that a table holds for a station.
use crate::direction::Direction;
use crate::station::Station;
use crate::text::{
    chars_of, replace_all, replace_first, replaced, replaced_first, text_view,
};
use vstd::prelude::*;
use vstd::string::*;

verus! {

/// `String::pop` of std: takes the last character off the text and returns
/// it; an empty text stays as it is and gives `None`.
pub assume_specification[ String::pop ](s: &mut String) -> (r: Option<char>)
    ensures
        old(s)@.len() > 0 ==> r == Some(old(s)@.last()) && final(s)@ == old(s)@.drop_last(),
        old(s)@.len() == 0 ==> r is None && final(s)@ == old(s)@,
;

/// The next train at a station: which line it runs on and when it comes.
#[derive(Debug, Clone)]
pub struct NextArrivalResponse {
    pub station: Station,
    pub direction: Direction,
    pub line: String,
    pub time: String,
}

impl NextArrivalResponse {
    /// The answer as shown to a reader, one field to a line.
    pub open spec fn display_text(self) -> Seq<char> {
        "station: "@ + self.station.display_name() + "\ndirection: "@
            + self.direction.display_name() + "\nline: "@ + self.line@ + "\ntime: "@ + self.time@
    }

    /// The answer as shown to a reader, one field to a line.
    pub fn to_string(&self) -> (r: String)
        ensures
            r@ == self.display_text(),
    {
        let mut out = "station: ".to_owned();
        out.append(self.station.to_string().as_str());
        out.append("\ndirection: ");
        out.append(self.direction.to_string().as_str());
        out.append("\nline: ");
        out.append(self.line.as_str());
        out.append("\ntime: ");
        out.append(self.time.as_str());
        out
    }
}

/// One row of a timetable: for each station the time at which this train
/// stops there, if it does. A cell is a time such as `4:05`, then `A` or `P`
/// for the half of the day, then a letter for the line.
#[derive(Debug, Clone, Default)]
pub struct StationTimeSlice {
    pub lambert_t1: Option<String>,
    pub lambert_t2: Option<String>,
    pub north_hanley: Option<String>,
    pub umsl_north: Option<String>,
    pub umsl_south: Option<String>,
    pub rock_road: Option<String>,
    pub wellston: Option<String>,
    pub delmar_loop: Option<String>,
    pub shrewsbury: Option<String>,
    pub sunnen: Option<String>,
    pub maplewood_manchester: Option<String>,
    pub brentwood: Option<String>,
    pub richmond_heights: Option<String>,
    pub clayton: Option<String>,
    pub forsyth: Option<String>,
    pub u_city: Option<String>,
    pub skinker: Option<String>,
    pub forest_park: Option<String>,
    pub cwe: Option<String>,
    pub cortex: Option<String>,
    pub grand: Option<String>,
    pub union: Option<String>,
    pub civic_center: Option<String>,
    pub stadium: Option<String>,
    pub eight_pine: Option<String>,
    pub convention_center: Option<String>,
    pub lacledes_landing: Option<String>,
    pub east_riverfront: Option<String>,
    pub fifth_missouri: Option<String>,
    pub emerson_park: Option<String>,
    pub jjk: Option<String>,
    pub washington: Option<String>,
    pub fairview_heights: Option<String>,
    pub memorial_hospital: Option<String>,
    pub swansea: Option<String>,
    pub belleville: Option<String>,
    pub college: Option<String>,
    pub shiloh_scott: Option<String>,
}

impl StationTimeSlice {
    /// The cell of this row for `station`.
    pub open spec fn cell(self, station: Station) -> Option<String> {
        match station {
            Station::LambertT1 => self.lambert_t1,
            Station::LambertT2 => self.lambert_t2,
            Station::NorthHanley => self.north_hanley,
            Station::UMSLNorth => self.umsl_north,
            Station::UMSLSouth => self.umsl_south,
            Station::RockRoad => self.rock_road,
            Station::Wellston => self.wellston,
            Station::DelmarLoop => self.delmar_loop,
            Station::Shrewsbury => self.shrewsbury,
            Station::Sunnen => self.sunnen,
            Station::MaplewoodManchester => self.maplewood_manchester,
            Station::Brentwood => self.brentwood,
            Station::RichmondHeights => self.richmond_heights,
            Station::Clayton => self.clayton,
            Station::Forsyth => self.forsyth,
            Station::UCity => self.u_city,
            Station::Skinker => self.skinker,
            Station::ForestPark => self.forest_park,
            Station::CWE => self.cwe,
            Station::Cortex => self.cortex,
            Station::Grand => self.grand,
            Station::Union => self.union,
            Station::CivicCenter => self.civic_center,
            Station::Stadium => self.stadium,
            Station::EighthPine => self.eight_pine,
            Station::ConventionCenter => self.convention_center,
            Station::LacledesLanding => self.lacledes_landing,
            Station::EastRiverfront => self.east_riverfront,
            Station::FifthMissouri => self.fifth_missouri,
            Station::EmersonPark => self.emerson_park,
            Station::JJK => self.jjk,
            Station::Washington => self.washington,
            Station::FairviewHeights => self.fairview_heights,
            Station::MemorialHospital => self.memorial_hospital,
            Station::Swansea => self.swansea,
            Station::Belleville => self.belleville,
            Station::College => self.college,
            Station::ShilohScott => self.shiloh_scott,
        }
    }

    /// The cell of this row for `station`.
    pub fn time_at(&self, station: &Station) -> (r: &Option<String>)
        ensures
            *r == self.cell(*station),
    {
        match station {
            Station::LambertT1 => &self.lambert_t1,
            Station::LambertT2 => &self.lambert_t2,
            Station::NorthHanley => &self.north_hanley,
            Station::UMSLNorth => &self.umsl_north,
            Station::UMSLSouth => &self.umsl_south,
            Station::RockRoad => &self.rock_road,
            Station::Wellston => &self.wellston,
            Station::DelmarLoop => &self.delmar_loop,
            Station::Shrewsbury => &self.shrewsbury,
            Station::Sunnen => &self.sunnen,
            Station::MaplewoodManchester => &self.maplewood_manchester,
            Station::Brentwood => &self.brentwood,
            Station::RichmondHeights => &self.richmond_heights,
            Station::Clayton => &self.clayton,
            Station::Forsyth => &self.forsyth,
            Station::UCity => &self.u_city,
            Station::Skinker => &self.skinker,
            Station::ForestPark => &self.forest_park,
            Station::CWE => &self.cwe,
            Station::Cortex => &self.cortex,
            Station::Grand => &self.grand,
            Station::Union => &self.union,
            Station::CivicCenter => &self.civic_center,
            Station::Stadium => &self.stadium,
            Station::EighthPine => &self.eight_pine,
            Station::ConventionCenter => &self.convention_center,
            Station::LacledesLanding => &self.lacledes_landing,
            Station::EastRiverfront => &self.east_riverfront,
            Station::FifthMissouri => &self.fifth_missouri,
            Station::EmersonPark => &self.emerson_park,
            Station::JJK => &self.jjk,
            Station::Washington => &self.washington,
            Station::FairviewHeights => &self.fairview_heights,
            Station::MemorialHospital => &self.memorial_hospital,
            Station::Swansea => &self.swansea,
            Station::Belleville => &self.belleville,
            Station::College => &self.college,
            Station::ShilohScott => &self.shiloh_scott,
        }
    }
}

/// The day of the week.
#[derive(Clone, Copy, Debug, PartialEq, Eq, Structural)]
pub enum Weekday {
    Mon,
    Tue,
    Wed,
    Thu,
    Fri,
    Sat,
    Sun,
}

/// The four timetables, as text.
#[derive(Debug, Clone)]
pub struct Schedules {
    pub weekday_west: String,
    pub weekday_east: String,
    pub weekend_west: String,
    pub weekend_east: String,
}

impl Schedules {
    /// The address at which the timetable for a direction and a kind of day
    /// is published.
    pub open spec fn schedule_url(direction: Direction, day_type: Seq<char>) -> Seq<char> {
        "https://www.metrostlouis.org/wp-admin/admin-ajax.php?action=metro_build_metrolink_html_table&direction="@
            + direction.display_name() + "&day_type="@ + day_type
    }

    /// The address at which the timetable for a direction and a kind of day
    /// is published.
    pub fn generate_schudle(direction: Direction, day_type: &str) -> (r: String)
        ensures
            r@ == Self::schedule_url(direction, day_type@),
    {
        let mut url =
            "https://www.metrostlouis.org/wp-admin/admin-ajax.php?action=metro_build_metrolink_html_table&direction=".to_owned();
        url.append(direction.to_string().as_str());
        url.append("&day_type=");
        url.append(day_type);
        url
    }

    /// The timetable that serves a request: the weekend table for eastbound
    /// trains on a Saturday and for westbound trains on a Sunday, the weekday
    /// table of the direction otherwise.
    pub open spec fn table_for(self, weekday: Weekday, direction: Direction) -> String {
        match (weekday, direction) {
            (Weekday::Sat, Direction::East) => self.weekend_east,
            (Weekday::Sun, Direction::West) => self.weekend_west,
            (_, Direction::East) => self.weekday_east,
            (_, Direction::West) => self.weekday_west,
        }
    }

    /// A copy of the timetable that serves a request.
    pub fn choose_data_for_request(&self, weekday: Weekday, direction: &Direction) -> (r: String)
        ensures
            r == self.table_for(weekday, *direction),
    {
        match (weekday, direction) {
            (Weekday::Sat, Direction::East) => self.weekend_east.clone(),
            (Weekday::Sun, Direction::West) => self.weekend_west.clone(),
            (_, Direction::East) => self.weekday_east.clone(),
            (_, Direction::West) => self.weekday_west.clone(),
        }
    }
}

/// The name of the line that a cell's last letter stands for: `R` is the
/// red line, `B` the blue line, anything else no line.
pub open spec fn line_name(cell: Seq<char>) -> Seq<char> {
    if cell.len() > 0 && cell.last() == 'R' {
        "red"@
    } else if cell.len() > 0 && cell.last() == 'B' {
        "blue"@
    } else {
        ""@
    }
}

/// Splits a cell into its time, which is all but the last letter, and the
/// name of its line.
pub fn line_info(s: String) -> (r: (String, String))
    ensures
        r.0@ == (if s@.len() > 0 {
            s@.drop_last()
        } else {
            s@
        }),
        r.1@ == line_name(s@),
{
    let mut s = s;
    let line = match s.pop() {
        Some(c) => match c {
            'R' => "red",
            'B' => "blue",
            _ => "",
        },
        None => "",
    };
    (s, line.to_owned())
}

/// A time of day, by the clock of twenty-four hours.
#[derive(Clone, Copy, Debug, PartialEq, Eq, Structural)]
pub struct ClockTime {
    pub hour: u32,
    pub minute: u32,
}

/// Why a cell of a timetable is no time of day.
#[derive(Clone, Copy, Debug, PartialEq, Eq, Structural)]
pub enum ScheduleError {
    /// The hour is 24 or more, or the minute 60 or more.
    InvalidTime,
    /// No colon parts the hour from the minute.
    MissingMinute,
}

/// The number that a sequence of digits writes in base ten.
pub open spec fn number_value(s: Seq<char>) -> nat
    decreases s.len(),
{
    if s.len() == 0 {
        0
    } else {
        number_value(s.drop_last()) * 10 + (s.last() as u32 - 0x30) as nat
    }
}

/// Every character of `s` is an ASCII digit.
pub open spec fn all_digits(s: Seq<char>) -> bool {
    forall|k: int| 0 <= k < s.len() ==> '0' <= #[trigger] s[k] <= '9'
}

/// The number that `s` writes: an optional plus sign, then one or more
/// digits that stay within `u32`. Anything else writes no number.
pub open spec fn unsigned_of(s: Seq<char>) -> Option<u32> {
    let digits = if s.len() > 0 && s[0] == '+' {
        s.skip(1)
    } else {
        s
    };
    if digits.len() > 0 && all_digits(digits) && number_value(digits) <= u32::MAX {
        Some(number_value(digits) as u32)
    } else {
        None
    }
}

/// The number that `s` writes, or zero where it writes none.
pub open spec fn unsigned_or_zero(s: Seq<char>) -> u32 {
    match unsigned_of(s) {
        Some(n) => n,
        None => 0,
    }
}

/// The place of the first colon in `s` at or after `k`, or the length of
/// `s` where there is none.
pub open spec fn colon_from(s: Seq<char>, k: int) -> int
    decreases s.len() - k,
{
    if 0 <= k < s.len() && s[k] != ':' {
        colon_from(s, k + 1)
    } else {
        k
    }
}

/// The time in a cell without its last two letters.
pub open spec fn cell_body(cell: Seq<char>) -> Seq<char> {
    if cell.len() >= 2 {
        cell.take(cell.len() - 2)
    } else {
        Seq::empty()
    }
}

/// The cell's last letter but one says afternoon.
pub open spec fn cell_is_pm(cell: Seq<char>) -> bool {
    cell.len() >= 2 && cell[cell.len() - 2] == 'P'
}

/// The hour that a cell names, by the clock of twenty-four hours: the
/// number before the first colon, and in the afternoon its remainder by
/// twelve, plus twelve.
pub open spec fn cell_hour(cell: Seq<char>) -> int {
    let body = cell_body(cell);
    let hh = unsigned_or_zero(body.subrange(0, colon_from(body, 0)));
    if cell_is_pm(cell) {
        hh % 12 + 12
    } else {
        hh as int
    }
}

/// The minute that a cell names: the number between the first colon and
/// the second, or the end.
pub open spec fn cell_minute(cell: Seq<char>) -> int {
    let body = cell_body(cell);
    let c1 = colon_from(body, 0);
    unsigned_or_zero(body.subrange(c1 + 1, colon_from(body, c1 + 1))) as int
}

/// The time of day that a cell names.
pub open spec fn cell_time(cell: Seq<char>) -> Result<ClockTime, ScheduleError> {
    let body = cell_body(cell);
    if cell_hour(cell) >= 24 {
        Err(ScheduleError::InvalidTime)
    } else if colon_from(body, 0) >= body.len() {
        Err(ScheduleError::MissingMinute)
    } else if cell_minute(cell) >= 60 {
        Err(ScheduleError::InvalidTime)
    } else {
        Ok(ClockTime { hour: cell_hour(cell) as u32, minute: cell_minute(cell) as u32 })
    }
}

/// `now` is not past `then`.
pub open spec fn not_past(now: ClockTime, then: ClockTime) -> bool {
    now.hour < then.hour || (now.hour == then.hour && now.minute <= then.minute)
}

/// Whether the train of a cell is still to come at `now`.
pub open spec fn cell_is_later(now: ClockTime, cell: Seq<char>) -> Result<bool, ScheduleError> {
    match cell_time(cell) {
        Ok(then) => Ok(not_past(now, then)),
        Err(e) => Err(e),
    }
}

/// A sequence of digits writes no smaller a number when more digits follow.
proof fn lemma_number_value_grows(s: Seq<char>, more: Seq<char>)
    requires
        all_digits(more),
    ensures
        number_value(s) <= number_value(s + more),
    decreases more.len(),
{
    if more.len() == 0 {
        assert(s + more =~= s);
    } else {
        assert((s + more).drop_last() =~= s + more.drop_last());
        assert((s + more).last() == more[more.len() - 1]);
        lemma_number_value_grows(s, more.drop_last());
    }
}

/// Reads the number that the characters of `v` from `from` to `to` write.
fn parse_unsigned(v: &Vec<char>, from: usize, to: usize) -> (r: Option<u32>)
    requires
        from <= to <= v.len(),
    ensures
        r == unsigned_of(v@.subrange(from as int, to as int)),
{
    let ghost s = v@.subrange(from as int, to as int);
    let start: usize = if from < to && v[from] == '+' {
        from + 1
    } else {
        from
    };
    let ghost digits = v@.subrange(start as int, to as int);
    assert(digits =~= if s.len() > 0 && s[0] == '+' {
        s.skip(1)
    } else {
        s
    });
    if start == to {
        return None;
    }
    let mut k: usize = start;
    let mut acc: u64 = 0;
    assert(digits.take(0) =~= Seq::<char>::empty());
    while k < to
        invariant
            from <= start <= k <= to <= v.len(),
            start < to,
            s == v@.subrange(from as int, to as int),
            digits == v@.subrange(start as int, to as int),
            digits == (if s.len() > 0 && s[0] == '+' {
                s.skip(1)
            } else {
                s
            }),
            all_digits(digits.take(k - start)),
            acc == number_value(digits.take(k - start)),
            acc <= u32::MAX,
        decreases to - k,
    {
        let c = v[k];
        if c < '0' || c > '9' {
            assert(digits[k - start] == c);
            return None;
        }
        let d: u64 = (c as u32 - 0x30) as u64;
        proof {
            let sofar = digits.take(k - start);
            let next = digits.take(k - start + 1);
            assert(next.drop_last() =~= sofar);
            assert(next.last() == c);
            assert forall|j: int| 0 <= j < next.len() implies '0' <= #[trigger] next[j] <= '9' by {
                if j < sofar.len() {
                    assert(next[j] == sofar[j]);
                }
            }
        }
        acc = acc * 10 + d;
        if acc > 0xffff_ffff {
            proof {
                let next = digits.take(k - start + 1);
                let tail = digits.skip(k - start + 1);
                assert(digits =~= next + tail);
                if all_digits(digits) {
                    assert forall|j: int| 0 <= j < tail.len() implies '0' <= #[trigger] tail[j]
                        <= '9' by {
                        assert(tail[j] == digits[j + k - start + 1]);
                    }
                    lemma_number_value_grows(next, tail);
                }
            }
            return None;
        }
        k += 1;
    }
    assert(digits.take(to - start) =~= digits);
    Some(acc as u32)
}

/// The place of the first colon among the characters of `v` from `from`
/// to `end`, or `end`.
fn find_colon(v: &Vec<char>, from: usize, end: usize) -> (r: usize)
    requires
        from <= end <= v.len(),
    ensures
        r == colon_from(v@.take(end as int), from as int),
        from <= r <= end,
{
    let mut k: usize = from;
    while k < end && v[k] != ':'
        invariant
            from <= k <= end <= v.len(),
            colon_from(v@.take(end as int), from as int) == colon_from(v@.take(end as int), k as int),
        decreases end - k,
    {
        k += 1;
    }
    k
}

/// Reads the time of day that a cell names.
pub fn schedule_time(cell: &str) -> (r: Result<ClockTime, ScheduleError>)
    ensures
        r == cell_time(cell@),
{
    let v = chars_of(cell);
    let n = v.len();
    let end: usize = if n >= 2 {
        n - 2
    } else {
        0
    };
    let pm = n >= 2 && v[n - 2] == 'P';
    let ghost body = cell_body(cell@);
    assert(body =~= v@.take(end as int));
    let c1 = find_colon(&v, 0, end);
    assert(body.subrange(0, c1 as int) =~= v@.subrange(0, c1 as int));
    let hh = match parse_unsigned(&v, 0, c1) {
        Some(x) => x,
        None => 0,
    };
    let hour = if pm {
        hh % 12 + 12
    } else {
        hh
    };
    if hour >= 24 {
        return Err(ScheduleError::InvalidTime);
    }
    if c1 >= end {
        return Err(ScheduleError::MissingMinute);
    }
    let c2 = find_colon(&v, c1 + 1, end);
    assert(body.subrange(c1 + 1, c2 as int) =~= v@.subrange(c1 + 1, c2 as int));
    let minute = match parse_unsigned(&v, c1 + 1, c2) {
        Some(x) => x,
        None => 0,
    };
    if minute >= 60 {
        return Err(ScheduleError::InvalidTime);
    }
    Ok(ClockTime { hour, minute })
}

/// Whether the train of the cell `s` is still to come at `now`.
pub fn schedule_time_is_later_than_now(now: ClockTime, s: String) -> (r: Result<
    bool,
    ScheduleError,
>)
    ensures
        r == cell_is_later(now, s@),
{
    match schedule_time(s.as_str()) {
        Ok(then) => Ok(now.hour < then.hour || (now.hour == then.hour && now.minute <= then.minute)),
        Err(e) => Err(e),
    }
}

/// The first row at or after `from` whose train at `station` is still to
/// come at `now`. A row without a cell for the station is passed over. A cell
/// that is no time of day ends the search with its error.
pub open spec fn next_arrival_row(
    rows: Seq<StationTimeSlice>,
    station: Station,
    now: ClockTime,
    from: int,
) -> Result<Option<int>, ScheduleError>
    decreases rows.len() - from,
{
    if from < 0 || from >= rows.len() {
        Ok(None)
    } else {
        match rows[from].cell(station) {
            None => next_arrival_row(rows, station, now, from + 1),
            Some(cell) => match cell_is_later(now, cell@) {
                Err(e) => Err(e),
                Ok(true) => Ok(Some(from)),
                Ok(false) => next_arrival_row(rows, station, now, from + 1),
            },
        }
    }
}

/// The time and the line of the next train at `station`, taken from the
/// first row of the timetable whose train is still to come at `now`.
pub fn find_next_arrival(rows: &Vec<StationTimeSlice>, station: &Station, now: ClockTime) -> (r:
    Result<Option<(String, String)>, ScheduleError>)
    ensures
        match next_arrival_row(rows@, *station, now, 0) {
            Err(e) => r == Err::<Option<(String, String)>, ScheduleError>(e),
            Ok(None) => r == Ok::<Option<(String, String)>, ScheduleError>(None),
            Ok(Some(i)) => {
                let cell = rows@[i].cell(*station).unwrap()@;
                &&& r matches Ok(Some(found))
                &&& found.0@ == cell.drop_last()
                &&& found.1@ == line_name(cell)
            },
        },
{
    let mut i: usize = 0;
    while i < rows.len()
        invariant
            i <= rows.len(),
            next_arrival_row(rows@, *station, now, 0) == next_arrival_row(
                rows@,
                *station,
                now,
                i as int,
            ),
        decreases rows.len() - i,
    {
        match rows[i].time_at(station) {
            Some(cell) => {
                match schedule_time_is_later_than_now(now, cell.clone()) {
                    Err(e) => {
                        return Err(e);
                    },
                    Ok(true) => {
                        proof {
                            lemma_timed_cell_has_letters(cell@);
                        }
                        return Ok(Some(line_info(cell.clone())));
                    },
                    Ok(false) => {},
                }
            },
            None => {},
        }
        i += 1;
    }
    Ok(None)
}

/// A cell that names a time of day holds three characters or more.
pub proof fn lemma_timed_cell_has_letters(cell: Seq<char>)
    ensures
        cell_time(cell) is Ok ==> cell.len() >= 3,
{
}

/// What `Regex::replace_all` of the regex crate returns for the regular
/// expression that `Regex::new` compiles from `pattern`, or `None` where
/// `Regex::new` refuses the pattern.
pub uninterp spec fn regex_replaced(
    pattern: Seq<char>,
    text: Seq<char>,
    replacement: Seq<char>,
) -> Option<Seq<char>>;

/// `Regex::new` and, on the expression it returns, `Regex::replace_all` of
/// the regex crate: `text` with every match of `pattern` replaced by
/// `replacement`, in which `$` refers to capture groups. `None` where the
/// pattern does not compile. Nothing is proved of what a pattern matches:
/// the result only has a name.
#[verifier::external_body]
fn regex_replace_all(pattern: &str, text: &str, replacement: &str) -> (r: Option<String>)
    ensures
        text_view(r) == regex_replaced(pattern@, text@, replacement@),
{
    match regex::Regex::new(pattern) {
        Ok(re) => Some(re.replace_all(text, replacement).into_owned()),
        Err(_) => None,
    }
}

/// The page as it is served, with the wrapper around the table taken off
/// and the ends of rows and cells marked: a line feed ends a row, a comma a
/// cell.
pub open spec fn rows_marked(junk: Seq<char>) -> Seq<char> {
    let a = replaced(junk, "{\"type\":\"success\",\"html\":"@, ""@);
    let b = replaced(a, "}"@, ""@);
    let c = replaced(b, "<\\/thead>"@, "\n"@);
    let d = replaced(c, "<\\/tr>"@, "\n"@);
    let e = replaced(d, "<\\/td>"@, ","@);
    replaced(e, "<\\/th>"@, ","@)
}

/// The regular expression that matches a tag of the page.
pub open spec fn tag_pattern() -> Seq<char> {
    "<[\\w|\\s|\\d|=|\"|\\-|\\\\|/]*>"@
}

/// The table without its tags, made ready to be read as comma-separated
/// values: ` pm` and ` am` become `P` and `A`, hyphens, quotes and written-out
/// tabs and line feeds go, no row ends in a comma, and the first line feed
/// goes.
pub open spec fn rows_tidied(text: Seq<char>) -> Seq<char> {
    let a = replaced(text, " pm"@, "P"@);
    let b = replaced(a, " am"@, "A"@);
    let c = replaced(b, "-"@, ""@);
    let d = replaced(c, "\\t"@, ""@);
    let e = replaced(d, "\\n"@, ""@);
    let f = replaced(e, "\""@, ""@);
    let g = replaced(f, ",\n"@, "\n"@);
    replaced_first(g, "\n"@, ""@)
}

/// Takes the wrapper off a served page and marks the ends of its rows and
/// cells.
pub fn mark_rows(junk: &str) -> (r: String)
    ensures
        r@ == rows_marked(junk@),
{
    let a = replace_all(junk, "{\"type\":\"success\",\"html\":", "");
    let b = replace_all(a.as_str(), "}", "");
    let c = replace_all(b.as_str(), "<\\/thead>", "\n");
    let d = replace_all(c.as_str(), "<\\/tr>", "\n");
    let e = replace_all(d.as_str(), "<\\/td>", ",");
    replace_all(e.as_str(), "<\\/th>", ",")
}

/// Makes a table without tags ready to be read as comma-separated values.
pub fn tidy_rows(text: &str) -> (r: String)
    ensures
        r@ == rows_tidied(text@),
{
    let a = replace_all(text, " pm", "P");
    let b = replace_all(a.as_str(), " am", "A");
    let c = replace_all(b.as_str(), "-", "");
    let d = replace_all(c.as_str(), "\\t", "");
    let e = replace_all(d.as_str(), "\\n", "");
    let f = replace_all(e.as_str(), "\"", "");
    let g = replace_all(f.as_str(), ",\n", "\n");
    replace_first(g.as_str(), "\n", "")
}

impl Schedules {
    /// Turns a served page into comma-separated values: marks the rows, takes
    /// the tags out, tidies what is left. `None` where the regular expression
    /// for a tag does not compile.
    pub fn filter_content(junk: String) -> (r: Option<String>)
        ensures
            match regex_replaced(tag_pattern(), rows_marked(junk@), ""@) {
                Some(text) => text_view(r) == Some(rows_tidied(text)),
                None => r is None,
            },
    {
        let marked = mark_rows(junk.as_str());
        match regex_replace_all("<[\\w|\\s|\\d|=|\"|\\-|\\\\|/]*>", marked.as_str(), "") {
            Some(text) => Some(tidy_rows(text.as_str())),
            None => None,
        }
    }
}

} // verus!
