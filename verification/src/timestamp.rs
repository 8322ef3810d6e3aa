//! Points in time as the database stores them (instant plus UTC offset), held
//! as plain numbers, and their textual rendering.
use vstd::prelude::*;

verus! {

/// What chrono renders for the instant `secs` seconds and `nanos`
/// nanoseconds after the Unix epoch, seen at a fixed offset of `offset_secs`
/// seconds east of UTC (`DateTime<FixedOffset>` through `Display`), or `None`
/// where chrono has no such date-time or offset.
pub uninterp spec fn rendered_timestamp(secs: i64, nanos: u32, offset_secs: i32) -> Option<
    Seq<char>,
>;

/// Builds the chrono value with `FixedOffset::east_opt` and
/// `DateTime::from_timestamp` and renders it with `to_string`. The contract
/// claims that the result is the named rendering, and, as `east_opt`'s source
/// shows, that an offset of a whole day or more either way has none.
#[verifier::external_body]
fn render_timestamp(secs: i64, nanos: u32, offset_secs: i32) -> (r: Option<String>)
    ensures
        match r {
            Some(s) => rendered_timestamp(secs, nanos, offset_secs) == Some(s@),
            None => rendered_timestamp(secs, nanos, offset_secs) is None,
        },
        !(-86400 < offset_secs < 86400) ==> r is None,
{
    let offset = chrono::FixedOffset::east_opt(offset_secs)?;
    let instant = chrono::DateTime::from_timestamp(secs, nanos)?;
    Some(instant.with_timezone(&offset).to_string())
}

/// A point in time with the UTC offset it was recorded at; the proofs also
/// keep track of whether it was read from the clock.
pub struct Timestamp {
    secs: i64,
    nanos: u32,
    offset_secs: i32,
    from_clock: Ghost<bool>,
}

impl Timestamp {
    #[verifier::type_invariant]
    spec fn wf(self) -> bool {
        rendered_timestamp(self.secs, self.nanos, self.offset_secs) is Some
    }

    /// Seconds since the Unix epoch.
    pub closed spec fn secs_spec(self) -> i64 {
        self.secs
    }

    /// Nanoseconds within the second.
    pub closed spec fn nanos_spec(self) -> u32 {
        self.nanos
    }

    /// Offset east of UTC, in seconds.
    pub closed spec fn offset_spec(self) -> i32 {
        self.offset_secs
    }

    /// Whether this timestamp is a reading of the clock (`now`), rather than
    /// one built from stored parts.
    pub closed spec fn is_clock_reading(self) -> bool {
        self.from_clock@
    }

    /// The text this timestamp renders to.
    pub open spec fn text(self) -> Seq<char> {
        rendered_timestamp(self.secs_spec(), self.nanos_spec(), self.offset_spec())->0
    }

    /// The timestamp with these parts, where chrono knows such a date-time.
    pub fn from_parts(secs: i64, nanos: u32, offset_secs: i32) -> (r: Option<Timestamp>)
        ensures
            r is Some <==> rendered_timestamp(secs, nanos, offset_secs) is Some,
            r matches Some(t) ==> t.secs_spec() == secs && t.nanos_spec() == nanos
                && t.offset_spec() == offset_secs && !t.is_clock_reading(),
    {
        match render_timestamp(secs, nanos, offset_secs) {
            Some(_) => Some(Timestamp { secs, nanos, offset_secs, from_clock: Ghost(false) }),
            None => None,
        }
    }

    pub fn secs(&self) -> (r: i64)
        ensures
            r == self.secs_spec(),
    {
        self.secs
    }

    pub fn nanos(&self) -> (r: u32)
        ensures
            r == self.nanos_spec(),
    {
        self.nanos
    }

    pub fn offset_secs(&self) -> (r: i32)
        ensures
            r == self.offset_spec(),
    {
        self.offset_secs
    }

    /// Renders the timestamp as `to_string` on the chrono value does.
    pub fn to_text(&self) -> (r: String)
        ensures
            rendered_timestamp(self.secs_spec(), self.nanos_spec(), self.offset_spec()) == Some(
                r@,
            ),
            r@ == self.text(),
    {
        proof {
            use_type_invariant(self);
        }
        match render_timestamp(self.secs, self.nanos, self.offset_secs) {
            Some(s) => s,
            None => {
                proof {
                    assert(false);
                }
                String::new()
            },
        }
    }
}

impl Timestamp {
    /// The current time in UTC, from `chrono::Utc::now`. Nothing is claimed of
    /// which instant comes back; the value's invariant (chrono renders it) is
    /// claimed because the instant is one chrono produced, and the value is
    /// marked as a clock reading.
    #[verifier::external_body]
    pub(crate) fn now() -> (r: Timestamp)
        ensures
            r.offset_spec() == 0,
            r.is_clock_reading(),
    {
        let t = chrono::Utc::now();
        Timestamp {
            secs: t.timestamp(),
            nanos: t.timestamp_subsec_nanos(),
            offset_secs: 0,
            from_clock: Ghost(true),
        }
    }
}

} // verus!
