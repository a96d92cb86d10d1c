//! What passes between the host and a q process: which q value a host value
//! becomes, and how dates are counted on either side.
//!
//! The host counts days from 1970-01-01; the calendar of the q client counts
//! them from the first day of the year 1.
use vstd::prelude::*;

verus! {

/// Where a q process listens, and who asks.
pub struct Q {
    pub host: String,
    pub port: u16,
    pub user: String,
    pub password: String,
    pub enable_tls: bool,
}

impl Q {
    /// The parameters of a connection that is not yet made.
    pub fn new(host: &str, port: u16, user: &str, password: &str, enable_tls: bool) -> (q: Q)
        ensures
            q.host@ == host@,
            q.port == port,
            q.user@ == user@,
            q.password@ == password@,
            q.enable_tls == enable_tls,
    {
        Q {
            host: host.to_owned(),
            port,
            user: user.to_owned(),
            password: password.to_owned(),
            enable_tls,
        }
    }
}

/// The day number of 1970-01-01, counted from the first day of the year 1.
pub const EPOCH_DAYS_FROM_CE: i32 = 719163;

/// The last day the host can show: 9999-12-31, in days from the epoch.
pub const MAX_HOST_DAYS: i64 = 2932532;

/// The first day the host can show: 0001-01-01, in days from the epoch.
pub const MIN_HOST_DAYS: i64 = -719162;

/// The day the host shows for the day number `days_from_ce`.
pub open spec fn spec_host_days(days_from_ce: int) -> int {
    let days = days_from_ce - EPOCH_DAYS_FROM_CE;
    if days > MAX_HOST_DAYS {
        MAX_HOST_DAYS as int
    } else if days < MIN_HOST_DAYS {
        MIN_HOST_DAYS as int
    } else {
        days
    }
}

/// Days from the epoch for a date given as its day number, kept within the
/// years 1 to 9999.
pub fn host_days(days_from_ce: i32) -> (days: i64)
    ensures
        days == spec_host_days(days_from_ce as int),
        MIN_HOST_DAYS <= days <= MAX_HOST_DAYS,
{
    let mut days: i64 = days_from_ce as i64 - 719163;
    if days > MAX_HOST_DAYS {
        days = MAX_HOST_DAYS;
    }
    if days < MIN_HOST_DAYS {
        days = MIN_HOST_DAYS;
    }
    days
}

/// The day number of a host date, or `None` where it does not fit.
pub fn days_from_ce(host_days: i32) -> (days: Option<i32>)
    ensures
        match days {
            Some(d) => d == host_days + EPOCH_DAYS_FROM_CE,
            None => host_days + EPOCH_DAYS_FROM_CE > i32::MAX,
        },
{
    if host_days > i32::MAX - EPOCH_DAYS_FROM_CE {
        None
    } else {
        Some(host_days + EPOCH_DAYS_FROM_CE)
    }
}

/// Within the years the host can show, a date that goes to the q side and
/// comes back is the same date.
pub proof fn lemma_date_round_trip(host: i32)
    requires
        MIN_HOST_DAYS <= host <= MAX_HOST_DAYS,
    ensures
        spec_host_days(host + EPOCH_DAYS_FROM_CE) == host,
{
}

/// What can be told of a host value without looking at its content.
#[derive(Clone, Copy, Debug, PartialEq, Eq, Structural)]
pub struct HostTraits {
    pub is_series: bool,
    pub is_data_frame: bool,
    /// A date-time, in either of the host's two forms.
    pub is_date_time: bool,
    pub is_difftime: bool,
    pub is_date: bool,
    pub is_raw: bool,
    pub is_na: bool,
    pub is_logical: bool,
    pub is_integer: bool,
    pub is_number: bool,
    pub is_string: bool,
    pub is_null: bool,
    pub is_list: bool,
    pub is_vector_atomic: bool,
}

/// The q value a host value becomes.
#[derive(Clone, Copy, Debug, PartialEq, Eq, Structural)]
pub enum QKind {
    Series,
    DataFrame,
    DateTime,
    Duration,
    Date,
    /// Bytes, sent as a string.
    String,
    /// The q null.
    Null,
    Bool,
    Int,
    Float,
    Symbol,
    /// A list, sent as a dictionary of its named entries.
    Dict,
}

/// Why a host value cannot be sent.
#[derive(Clone, Copy, Debug, PartialEq, Eq, Structural)]
pub enum QError {
    /// A plain vector of more than can be told apart: send a series instead.
    Vector,
    /// A list entry without a name.
    NullKey,
}

/// The q value for a host value with these traits. The first trait that
/// holds, in this order, decides.
pub open spec fn spec_classify(t: HostTraits) -> Result<QKind, QError> {
    if t.is_series {
        Ok(QKind::Series)
    } else if t.is_data_frame {
        Ok(QKind::DataFrame)
    } else if t.is_date_time {
        Ok(QKind::DateTime)
    } else if t.is_difftime {
        Ok(QKind::Duration)
    } else if t.is_date {
        Ok(QKind::Date)
    } else if t.is_raw {
        Ok(QKind::String)
    } else if t.is_na {
        Ok(QKind::Null)
    } else if t.is_logical {
        Ok(QKind::Bool)
    } else if t.is_integer {
        Ok(QKind::Int)
    } else if t.is_number {
        Ok(QKind::Float)
    } else if t.is_string {
        Ok(QKind::Symbol)
    } else if t.is_null {
        Ok(QKind::Null)
    } else if t.is_list || !t.is_vector_atomic {
        Ok(QKind::Dict)
    } else {
        Err(QError::Vector)
    }
}

/// Decides which q value a host value becomes.
pub fn classify(t: &HostTraits) -> (r: Result<QKind, QError>)
    ensures
        r == spec_classify(*t),
{
    if t.is_series {
        Ok(QKind::Series)
    } else if t.is_data_frame {
        Ok(QKind::DataFrame)
    } else if t.is_date_time {
        Ok(QKind::DateTime)
    } else if t.is_difftime {
        Ok(QKind::Duration)
    } else if t.is_date {
        Ok(QKind::Date)
    } else if t.is_raw {
        Ok(QKind::String)
    } else if t.is_na {
        Ok(QKind::Null)
    } else if t.is_logical {
        Ok(QKind::Bool)
    } else if t.is_integer {
        Ok(QKind::Int)
    } else if t.is_number {
        Ok(QKind::Float)
    } else if t.is_string {
        Ok(QKind::Symbol)
    } else if t.is_null {
        Ok(QKind::Null)
    } else if t.is_list || !t.is_vector_atomic {
        Ok(QKind::Dict)
    } else {
        Err(QError::Vector)
    }
}

/// Whether a list entry may become a dictionary entry: its name is neither
/// empty nor missing.
pub fn dict_key(is_empty: bool, is_na: bool) -> (r: Result<(), QError>)
    ensures
        (is_empty || is_na) ==> r == Err::<(), QError>(QError::NullKey),
        !(is_empty || is_na) ==> r == Ok::<(), QError>(()),
{
    if is_empty || is_na {
        Err(QError::NullKey)
    } else {
        Ok(())
    }
}

/// A value is refused only where it is a plain vector that is none of the
/// kinds above, and a missing value is the null whatever its type.
pub proof fn lemma_classify_facts(t: HostTraits)
    ensures
        spec_classify(t) is Err ==> t.is_vector_atomic && !t.is_list && !t.is_na,
        (t.is_na && !t.is_series && !t.is_data_frame && !t.is_date_time && !t.is_difftime
            && !t.is_date && !t.is_raw) ==> spec_classify(t) == Ok::<QKind, QError>(QKind::Null),
{
}

} // verus!
