//! The age of a file, split into hours, minutes and seconds.
use crate::text::{concat_strings, concat_all, decimal, owned, u64_to_decimal};
use vstd::prelude::*;

verus! {

/// How long ago a file was last modified: whole seconds and the nanoseconds
/// past them, as the file's modification time's `elapsed()` gives it.
#[derive(Clone, Copy, Debug, PartialEq, Eq, Structural)]
pub struct AgeDuration {
    pub secs: u64,
    pub nanos: u32,
}

impl AgeDuration {
    /// Sub-second nanoseconds stay below one second.
    pub open spec fn wf(self) -> bool {
        self.nanos < 1_000_000_000
    }

    /// The duration of exactly `secs` seconds.
    pub fn from_secs(secs: u64) -> (d: AgeDuration)
        ensures
            d.secs == secs,
            d.nanos == 0,
    {
        AgeDuration { secs, nanos: 0 }
    }

    /// Whether this duration is longer than `other`, comparing whole seconds
    /// first and nanoseconds second, as `Duration` orders.
    pub fn is_longer_than(&self, other: &AgeDuration) -> (b: bool)
        ensures
            b == (self.secs > other.secs || (self.secs == other.secs && self.nanos > other.nanos)),
    {
        self.secs > other.secs || (self.secs == other.secs && self.nanos > other.nanos)
    }
}

/// The age of a file: its duration and that duration's whole seconds split
/// into hours, minutes and seconds.
#[derive(Clone, Copy, Debug)]
pub struct FileAge {
    pub age_duration: AgeDuration,
    pub seconds: u64,
    pub hours: u64,
    pub minutes: u64,
}

/// Hours, minutes and seconds of `secs` whole seconds.
pub open spec fn split_hms(secs: nat) -> (nat, nat, nat) {
    (secs / 3600, secs % 3600 / 60, secs % 3600 % 60)
}

/// The text `"{hours}h {minutes}m {seconds}s"`.
pub open spec fn hms_text(hours: nat, minutes: nat, seconds: nat) -> Seq<char> {
    decimal(hours) + seq!['h', ' '] + decimal(minutes) + seq!['m', ' '] + decimal(seconds)
        + seq!['s']
}

impl FileAge {
    /// The age of a file whose modification time lies `age_duration` in the
    /// past.
    pub open spec fn from_elapsed_spec(age_duration: AgeDuration) -> FileAge {
        FileAge {
            age_duration,
            seconds: (age_duration.secs % 3600 % 60) as u64,
            hours: (age_duration.secs / 3600) as u64,
            minutes: (age_duration.secs % 3600 / 60) as u64,
        }
    }

    /// The hours, minutes and seconds are those of the duration's whole
    /// seconds.
    pub open spec fn wf(self) -> bool {
        &&& split_hms(self.age_duration.secs as nat) == (
            self.hours as nat,
            self.minutes as nat,
            self.seconds as nat,
        )
    }

    /// The age of a file whose modification time lies `age_duration` in the
    /// past.
    pub fn from_elapsed(age_duration: AgeDuration) -> (age: FileAge)
        ensures
            age == FileAge::from_elapsed_spec(age_duration),
            age.age_duration == age_duration,
            age.wf(),
            age.hours == age_duration.secs / 3600,
            age.minutes == age_duration.secs % 3600 / 60,
            age.seconds == age_duration.secs % 3600 % 60,
    {
        let age = age_duration.secs;
        let hours = age / 3600;
        let minutes = age % 3600 / 60;
        let seconds = age % 3600 % 60;
        FileAge { age_duration, seconds, hours, minutes }
    }

    /// The zero age that `FileAge::default()` gives.
    pub fn zero() -> (age: FileAge)
        ensures
            age.age_duration == (AgeDuration { secs: 0, nanos: 0 }),
            age.seconds == 0,
            age.hours == 0,
            age.minutes == 0,
            age.wf(),
    {
        FileAge { age_duration: AgeDuration { secs: 0, nanos: 0 }, seconds: 0, hours: 0, minutes: 0 }
    }

    /// Whether the file is older than `limit_secs` seconds.
    pub fn is_older_than(&self, limit_secs: u64) -> (b: bool)
        ensures
            b == (self.age_duration.secs > limit_secs || (self.age_duration.secs == limit_secs
                && self.age_duration.nanos > 0)),
    {
        self.age_duration.is_longer_than(&AgeDuration::from_secs(limit_secs))
    }

    /// The display form `"{hours}h {minutes}m {seconds}s"`.
    pub fn to_display_string(&self) -> (s: String)
        ensures
            s@ == hms_text(self.hours as nat, self.minutes as nat, self.seconds as nat),
    {
        let mut parts: Vec<String> = Vec::new();
        parts.push(u64_to_decimal(self.hours));
        parts.push(owned("h "));
        parts.push(u64_to_decimal(self.minutes));
        parts.push(owned("m "));
        parts.push(u64_to_decimal(self.seconds));
        parts.push(owned("s"));
        let s = concat_strings(&parts);
        proof {
            reveal_strlit("h ");
            reveal_strlit("m ");
            reveal_strlit("s");
            let views = parts@.map_values(|p: String| p@);
            assert(views.subrange(0, 5) == views.drop_last());
            assert(concat_all(views) =~= hms_text(
                self.hours as nat,
                self.minutes as nat,
                self.seconds as nat,
            )) by {
                reveal_with_fuel(concat_all, 7);
            }
        }
        s
    }
}

impl Default for FileAge {
    fn default() -> (age: FileAge)
        ensures
            age.age_duration == (AgeDuration { secs: 0, nanos: 0 }),
            age.seconds == 0,
            age.hours == 0,
            age.minutes == 0,
    {
        FileAge::zero()
    }
}

/// The hours, minutes and seconds put back together give the whole seconds,
/// and minutes and seconds each stay below sixty.
pub proof fn lemma_file_age_recombines(age: FileAge)
    requires
        age.wf(),
    ensures
        age.hours * 3600 + age.minutes * 60 + age.seconds == age.age_duration.secs,
        age.minutes < 60,
        age.seconds < 60,
{
    let s = age.age_duration.secs as int;
    assert(s == (s / 3600) * 3600 + s % 3600);
    assert(s % 3600 == (s % 3600 / 60) * 60 + s % 3600 % 60);
}

} // verus!
