//! Event ids: the time of creation combined with a running counter.

use vstd::prelude::*;

verus! {

/// The id made from `secs` seconds and `millis` milliseconds since the Unix
/// epoch and the counter value `counter`: the seconds (modulo 65535) fill the
/// top 16 bits, the milliseconds the next 16 bits and the counter the rest.
pub open spec fn compose_event_id(secs: u64, millis: u32, counter: u64) -> u64 {
    ((secs % 65535) << 48u64) | ((millis as u64) << 32u64) | counter
}

/// Computes [`compose_event_id`].
pub fn event_id_from_parts(secs: u64, millis: u32, counter: u64) -> (id: u64)
    ensures
        id == compose_event_id(secs, millis, counter),
{
    ((secs % 65535) << 48u64) | ((millis as u64) << 32u64) | counter
}

proof fn lemma_low_bits(a: u64, m: u64, c: u64)
    requires
        a < 65535,
        m < 1000,
        c < 0x1_0000_0000,
    ensures
        ((a << 48u64) | (m << 32u64) | c) & 0xFFFF_FFFFu64 == c,
{
    assert(((a << 48u64) | (m << 32u64) | c) & 0xFFFF_FFFFu64 == c) by (bit_vector)
        requires
            a < 65535,
            m < 1000,
            c < 0x1_0000_0000,
    ;
}

/// Two ids made from different counter values below 2^32 differ, whatever
/// times they were made at.
pub proof fn lemma_event_ids_distinct(
    secs1: u64,
    millis1: u32,
    counter1: u64,
    secs2: u64,
    millis2: u32,
    counter2: u64,
)
    requires
        millis1 < 1000,
        millis2 < 1000,
        counter1 < 0x1_0000_0000,
        counter2 < 0x1_0000_0000,
        counter1 != counter2,
    ensures
        compose_event_id(secs1, millis1, counter1) != compose_event_id(secs2, millis2, counter2),
{
    lemma_low_bits(secs1 % 65535, millis1 as u64, counter1);
    lemma_low_bits(secs2 % 65535, millis2 as u64, counter2);
}

/// The time elapsed since the Unix epoch as whole seconds and the
/// milliseconds of the current second (`SystemTime::elapsed` on
/// `UNIX_EPOCH`), or `None` when the system clock is before the epoch.
#[verifier::external_body]
fn time_since_epoch() -> (r: Option<(u64, u32)>)
    ensures
        r matches Some((secs, millis)) ==> millis < 1000,
{
    match std::time::UNIX_EPOCH.elapsed() {
        Ok(d) => Some((d.as_secs(), d.subsec_millis())),
        Err(_) => None,
    }
}

/// A source of event ids: each id combines the current time with a counter
/// that grows by one (wrapping) per id.
#[derive(Debug)]
pub struct EventIdGenerator {
    counter: u64,
}

impl EventIdGenerator {
    /// The counter value the next id is made with.
    pub closed spec fn spec_counter(&self) -> u64 {
        self.counter
    }

    /// A generator whose counter starts at zero.
    pub fn new() -> (g: EventIdGenerator)
        ensures
            g.spec_counter() == 0,
    {
        EventIdGenerator { counter: 0 }
    }

    /// The counter value the next id is made with.
    pub fn counter(&self) -> (c: u64)
        ensures
            c == self.spec_counter(),
    {
        self.counter
    }

    /// The id for the time `now` (whole seconds since the Unix epoch and the
    /// milliseconds of the current second, or `None` when the clock is before
    /// the epoch): the id made from that time and the counter, after which the
    /// counter grows by one (wrapping); `None`, with the counter unchanged,
    /// when there is no time.
    pub fn next_id_at(&mut self, now: Option<(u64, u32)>) -> (r: Option<u64>)
        ensures
            match now {
                Some((secs, millis)) => {
                    &&& r == Some(compose_event_id(secs, millis, old(self).spec_counter()))
                    &&& final(self).spec_counter() == old(self).spec_counter().wrapping_add(1)
                },
                None => r is None && final(self).spec_counter() == old(self).spec_counter(),
            },
    {
        match now {
            Some((secs, millis)) => {
                let id = event_id_from_parts(secs, millis, self.counter);
                self.counter = self.counter.wrapping_add(1);
                Some(id)
            },
            None => None,
        }
    }

    /// A new event id made from the current time and the counter, which then
    /// grows by one; `None`, with the counter unchanged, when the system clock
    /// is before the Unix epoch. Whether the clock is set is the clock's
    /// affair; what is made of each reading is [`Self::next_id_at`].
    pub fn next_id(&mut self) -> (r: Option<u64>)
        ensures
            match r {
                Some(id) => {
                    &&& exists|secs: u64, millis: u32|
                        millis < 1000 && id == compose_event_id(
                            secs,
                            millis,
                            old(self).spec_counter(),
                        )
                    &&& final(self).spec_counter() == old(self).spec_counter().wrapping_add(1)
                },
                None => final(self).spec_counter() == old(self).spec_counter(),
            },
    {
        let now = time_since_epoch();
        self.next_id_at(now)
    }
}

} // verus!
