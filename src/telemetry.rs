//! The typed side of the telemetry store: the query that asks for the latest
//! reading of one sensor, and the mapping of the store's answer to a single
//! reading or an error.

use vstd::prelude::*;
use vstd::string::*;
use crate::validator::SensorReading;

verus! {

/// Why the store gave no reading for a sensor.
#[derive(Debug, Clone, PartialEq, Eq)]
pub enum QueryError {
    /// The store could not be reached, or it refused the query.
    Connection(String),
    /// The store answered with something that is not a list of readings.
    Malformed(String),
    /// The answer holds no series: the sensor or its unit is unknown.
    NoSeries,
    /// The first series of the answer holds no reading.
    NoValues,
}

/// The decimal digit `d` as a character.
pub open spec fn digit_char(d: int) -> char {
    if d == 0 {
        '0'
    } else if d == 1 {
        '1'
    } else if d == 2 {
        '2'
    } else if d == 3 {
        '3'
    } else if d == 4 {
        '4'
    } else if d == 5 {
        '5'
    } else if d == 6 {
        '6'
    } else if d == 7 {
        '7'
    } else if d == 8 {
        '8'
    } else {
        '9'
    }
}

/// Decimal digits of a natural number, most significant first.
pub open spec fn decimal_digits(n: nat) -> Seq<char>
    decreases n,
{
    if n < 10 {
        seq![digit_char(n as int)]
    } else {
        decimal_digits(n / 10) + seq![digit_char((n % 10) as int)]
    }
}

/// Decimal text of an integer, with a leading `-` when it is negative.
pub open spec fn decimal(n: int) -> Seq<char> {
    if n < 0 {
        seq!['-'] + decimal_digits((-n) as nat)
    } else {
        decimal_digits(n as nat)
    }
}

/// The restriction of a query to readings newer than `window` seconds;
/// empty when the window is zero.
pub open spec fn window_clause(window: int) -> Seq<char> {
    if window == 0 {
        Seq::empty()
    } else {
        "AND time > now() - "@ + decimal(window) + "s"@
    }
}

/// The query for the most recent reading of `entity` in the series `unit`.
pub open spec fn query_for(entity: Seq<char>, unit: Seq<char>, window: int) -> Seq<char> {
    "SELECT time, value FROM \""@ + unit + "\" WHERE (entity_id = '"@ + entity + "' "@
        + window_clause(window) + ") ORDER BY time DESC LIMIT 1"@
}

fn digit_text(d: u64) -> (r: &'static str)
    requires
        d < 10,
    ensures
        r@ == seq![digit_char(d as int)],
{
    proof {
        reveal_strlit("0");
        reveal_strlit("1");
        reveal_strlit("2");
        reveal_strlit("3");
        reveal_strlit("4");
        reveal_strlit("5");
        reveal_strlit("6");
        reveal_strlit("7");
        reveal_strlit("8");
        reveal_strlit("9");
    }
    if d == 0 {
        "0"
    } else if d == 1 {
        "1"
    } else if d == 2 {
        "2"
    } else if d == 3 {
        "3"
    } else if d == 4 {
        "4"
    } else if d == 5 {
        "5"
    } else if d == 6 {
        "6"
    } else if d == 7 {
        "7"
    } else if d == 8 {
        "8"
    } else {
        "9"
    }
}

fn append_digits(s: &mut String, n: u64)
    ensures
        final(s)@ == old(s)@ + decimal_digits(n as nat),
    decreases n,
{
    if n >= 10 {
        append_digits(s, n / 10);
    }
    s.append(digit_text(n % 10));
    proof {
        if n < 10 {
            assert(n % 10 == n);
        }
    }
}

/// Appends the decimal text of `n` to `s`.
pub fn append_decimal(s: &mut String, n: i64)
    ensures
        final(s)@ == old(s)@ + decimal(n as int),
{
    if n < 0 {
        proof {
            reveal_strlit("-");
        }
        s.append("-");
        let magnitude: u64 = (0i128 - n as i128) as u64;
        append_digits(s, magnitude);
    } else {
        append_digits(s, n as u64);
    }
}

/// The query text for the most recent reading of `entity` in the series
/// `unit`, restricted to the last `window` seconds unless `window` is zero.
pub fn query_text(entity: &str, unit: &str, window: i64) -> (r: String)
    ensures
        r@ == query_for(entity@, unit@, window as int),
{
    let mut q = String::from_str("SELECT time, value FROM \"");
    q.append(unit);
    q.append("\" WHERE (entity_id = '");
    q.append(entity);
    q.append("' ");
    if window != 0 {
        q.append("AND time > now() - ");
        append_decimal(&mut q, window);
        q.append("s");
    }
    q.append(") ORDER BY time DESC LIMIT 1");
    assert(q@ == query_for(entity@, unit@, window as int));
    q
}

/// The reading that answers a query: the first reading of the first series
/// of the store's answer, or why there is none.
pub fn latest_reading<V>(series: Vec<Vec<SensorReading<V>>>) -> (r: Result<SensorReading<V>, QueryError>)
    ensures
        series@.len() == 0 ==> r == Err::<SensorReading<V>, QueryError>(QueryError::NoSeries),
        series@.len() > 0 && series@[0]@.len() == 0 ==> r == Err::<SensorReading<V>, QueryError>(
            QueryError::NoValues,
        ),
        series@.len() > 0 && series@[0]@.len() > 0 ==> r == Ok::<SensorReading<V>, QueryError>(
            series@[0]@[0],
        ),
{
    let mut series = series;
    if series.len() == 0 {
        return Err(QueryError::NoSeries);
    }
    let mut first = series.remove(0);
    if first.len() == 0 {
        return Err(QueryError::NoValues);
    }
    Ok(first.remove(0))
}

} // verus!
