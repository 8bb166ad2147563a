use vstd::prelude::*;
use vstd::string::*;
use crate::identity::CurrentUser;
use crate::text::{ascii_chars, ascii_string};

verus! {

/// The battery state that a device reports with a position.
#[derive(Clone, Copy, Debug, Hash, PartialEq, Eq, Structural)]
pub enum BatteryState {
    /// Battery state unknown.
    Unknown,
    /// Battery is charging.
    Charging,
    /// Battery is full but plugged in.
    Full,
    /// Battery is unplugged.
    Unplugged,
}

impl Default for BatteryState {
    fn default() -> (r: BatteryState)
        ensures
            r == BatteryState::Unknown,
    {
        BatteryState::Unknown
    }
}

/// The answer to a device that posted positions: a status word and how many
/// positions were saved.
pub struct OverlandResponse {
    /// Status word.
    pub result: String,
    /// Number of positions saved.
    pub saved: i32,
}

/// The span of a single-date geodata query.
#[derive(Clone, Copy, Debug, PartialEq, Eq)]
pub enum TimePeriod {
    /// One day.
    Day,
    /// One week.
    Week,
    /// One month.
    Month,
}

impl Default for TimePeriod {
    fn default() -> (r: TimePeriod)
        ensures
            r == TimePeriod::Day,
    {
        TimePeriod::Day
    }
}

impl TimePeriod {
    /// How many days before the queried date the period starts.
    pub fn span_days(&self) -> (r: u64)
        ensures
            *self == TimePeriod::Day ==> r == 0,
            *self == TimePeriod::Week ==> r == 7,
            *self == TimePeriod::Month ==> r == 30,
    {
        match self {
            TimePeriod::Day => 0,
            TimePeriod::Week => 7,
            TimePeriod::Month => 30,
        }
    }
}

/// How a device was moving when it recorded a position.
#[derive(Clone, Copy, Debug, PartialEq, Eq)]
pub enum Motion {
    /// Driving.
    Driving,
    /// Standing still.
    Stationary,
    /// Walking.
    Walking,
    /// Running.
    Running,
    /// Cycling.
    Cycling,
}

/// The motion that a lower-case name stands for.
pub open spec fn motion_of(name: Seq<char>) -> Option<Motion> {
    if name == "driving"@ {
        Some(Motion::Driving)
    } else if name == "stationary"@ {
        Some(Motion::Stationary)
    } else if name == "walking"@ {
        Some(Motion::Walking)
    } else if name == "running"@ {
        Some(Motion::Running)
    } else if name == "cycling"@ {
        Some(Motion::Cycling)
    } else {
        None
    }
}

impl Motion {
    /// Reads a motion from its lower-case name; any other text names none.
    pub fn from_name(input: &str) -> (r: Option<Motion>)
        ensures
            r == motion_of(input@),
    {
        let s = input.to_owned();
        if s == "driving".to_owned() {
            Some(Motion::Driving)
        } else if s == "stationary".to_owned() {
            Some(Motion::Stationary)
        } else if s == "walking".to_owned() {
            Some(Motion::Walking)
        } else if s == "running".to_owned() {
            Some(Motion::Running)
        } else if s == "cycling".to_owned() {
            Some(Motion::Cycling)
        } else {
            None
        }
    }
}

/// The encoding asked for the result of a geodata query.
#[derive(Clone, Copy, Debug, PartialEq, Eq)]
pub enum ResultType {
    /// The compact internal encoding.
    Json,
    /// Standard GeoJSON.
    GeoJSON,
}

impl Default for ResultType {
    fn default() -> (r: ResultType)
        ensures
            r == ResultType::Json,
    {
        ResultType::Json
    }
}

/// A geodata query: an interval between two dates, or a span ending on one
/// date.
#[derive(Clone, Debug)]
pub enum GeoQuery {
    /// Positions between two dates.
    Interval {
        /// Start date, `[year]-[month]-[day]T[hour]:[minute]:[second] 00:00`.
        start: String,
        /// End date, in the same format.
        end: String,
        /// The encoding of the result.
        result_type: ResultType,
    },
    /// Positions over a span that ends with one date.
    Date {
        /// The date.
        date: String,
        /// The span.
        duration: TimePeriod,
    },
}

/// The wifi names of a table of distinct names, as text.
pub open spec fn names_view(table: Seq<String>) -> Seq<Seq<char>> {
    table.map_values(|w: String| w@)
}

/// The position of wifi name `value` in `table`, appending it first when the
/// table does not hold it; names keep the order in which they were first met.
pub fn intern_wifi(table: &mut Vec<String>, value: &str) -> (r: usize)
    ensures
        r < final(table)@.len(),
        names_view(final(table)@)[r as int] == value@,
        forall|j: int| 0 <= j < r ==> names_view(final(table)@)[j] != value@,
        names_view(old(table)@).contains(value@) ==> final(table)@ == old(table)@,
        !names_view(old(table)@).contains(value@) ==> names_view(final(table)@) == names_view(
            old(table)@,
        ).push(value@) && r == old(table)@.len(),
{
    let key = value.to_owned();
    let n = table.len();
    let mut i: usize = 0;
    while i < n
        invariant
            n == table@.len(),
            i <= n,
            key@ == value@,
            *table == *old(table),
            forall|j: int| 0 <= j < i ==> names_view(table@)[j] != value@,
        decreases n - i,
    {
        if table[i] == key {
            assert(names_view(table@)[i as int] == value@);
            return i;
        }
        i = i + 1;
    }
    assert(!names_view(old(table)@).contains(value@));
    table.push(key);
    assert(names_view(table@) =~= names_view(old(table)@).push(value@));
    n
}

/// The position of `value` in `table`, appending it first when the table
/// does not hold it; states keep the order in which they were first met.
pub fn intern_battery(table: &mut Vec<BatteryState>, value: BatteryState) -> (r: usize)
    ensures
        r < final(table)@.len(),
        final(table)@[r as int] == value,
        forall|j: int| 0 <= j < r ==> final(table)@[j] != value,
        old(table)@.contains(value) ==> final(table)@ == old(table)@,
        !old(table)@.contains(value) ==> final(table)@ == old(table)@.push(value) && r == old(table)@.len(),
{
    let n = table.len();
    let mut i: usize = 0;
    while i < n
        invariant
            n == table@.len(),
            i <= n,
            *table == *old(table),
            forall|j: int| 0 <= j < i ==> table@[j] != value,
        decreases n - i,
    {
        if table[i] == value {
            return i;
        }
        i = i + 1;
    }
    table.push(value);
    n
}

/// The ASCII decimal digits of `n`, most significant first.
pub open spec fn digit_bytes(n: nat) -> Seq<u8>
    decreases n,
{
    if n < 10 {
        seq![(48 + n) as u8]
    } else {
        digit_bytes(n / 10).push((48 + n % 10) as u8)
    }
}

/// The ASCII decimal text of `n`, with a leading `-` when it is negative.
pub open spec fn decimal_bytes(n: int) -> Seq<u8> {
    if n < 0 {
        seq![45u8] + digit_bytes((-n) as nat)
    } else {
        digit_bytes(n as nat)
    }
}

proof fn lemma_digit_bytes_ascii(n: nat)
    ensures
        forall|i: int| 0 <= i < digit_bytes(n).len() ==> #[trigger] digit_bytes(n)[i] < 128,
    decreases n,
{
    if n >= 10 {
        lemma_digit_bytes_ascii(n / 10);
        let d = (48 + n % 10) as u8;
        assert(d < 128);
        assert forall|i: int| 0 <= i < digit_bytes(n).len() implies #[trigger] digit_bytes(n)[i]
            < 128 by {
            if i < digit_bytes(n / 10).len() {
                assert(digit_bytes(n)[i] == digit_bytes(n / 10)[i]);
            }
        }
    } else {
        assert(((48 + n) as u8) < 128);
    }
}

fn push_digits(n: u64, out: &mut Vec<u8>)
    ensures
        final(out)@ == old(out)@ + digit_bytes(n as nat),
    decreases n,
{
    if n >= 10 {
        push_digits(n / 10, out);
    }
    let d = (48 + n % 10) as u8;
    out.push(d);
    assert(out@ =~= old(out)@ + digit_bytes(n as nat));
}

/// The decimal text of `n`.
pub fn decimal_string(n: i32) -> (r: String)
    ensures
        r@ == ascii_chars(decimal_bytes(n as int)),
{
    let mut bytes: Vec<u8> = Vec::new();
    let wide = n as i64;
    if wide < 0 {
        bytes.push(45u8);
        push_digits((-wide) as u64, &mut bytes);
    } else {
        push_digits(wide as u64, &mut bytes);
    }
    proof {
        if n < 0 {
            lemma_digit_bytes_ascii((-n) as nat);
            assert(bytes@ =~= decimal_bytes(n as int));
        } else {
            lemma_digit_bytes_ascii(n as nat);
            assert(bytes@ =~= decimal_bytes(n as int));
        }
        assert forall|i: int| 0 <= i < bytes@.len() implies bytes@[i] < 128 by {
            if n < 0 && i > 0 {
                assert(bytes@[i] == digit_bytes((-n) as nat)[i - 1]);
            }
        }
    }
    ascii_string(bytes)
}

/// The SQL condition that scopes a geodata query to the requesting user:
/// nothing for an administrator, who sees every row; else a condition on the
/// user's id, opening the `WHERE` clause when `first` and extending it
/// otherwise.
pub open spec fn filter_text(user: CurrentUser, first: bool) -> Seq<char> {
    if user.is_admin {
        Seq::empty()
    } else if first {
        "WHERE user_identifier="@ + ascii_chars(decimal_bytes(user.user_id as int))
    } else {
        "AND user_identifier="@ + ascii_chars(decimal_bytes(user.user_id as int))
    }
}

/// Builds the condition that scopes a geodata query to `current_user`.
pub fn filter_results(current_user: CurrentUser, first: bool) -> (r: String)
    ensures
        r@ == filter_text(current_user, first),
{
    if current_user.is_admin {
        String::new()
    } else {
        let mut r = if first {
            "WHERE user_identifier=".to_owned()
        } else {
            "AND user_identifier=".to_owned()
        };
        let id = decimal_string(current_user.user_id);
        r.append(id.as_str());
        r
    }
}

} // verus!
