//! Snowflake identifiers: 64-bit ids whose upper bits carry a timestamp.

use vstd::prelude::*;
use crate::decimal;

verus! {

/// Milliseconds between the unix epoch and the platform's epoch.
pub const DISCORD_EPOCH: i64 = 1420070400000;

/// A 64-bit id. The bits above bit 21 hold the creation time in
/// milliseconds since [`DISCORD_EPOCH`].
#[derive(Debug, Clone, Copy)]
pub struct Snowflake(i64);

impl View for Snowflake {
    type V = i64;

    closed spec fn view(&self) -> i64 {
        self.0
    }
}

/// The unix milliseconds encoded in a snowflake's upper bits.
pub open spec fn timestamp_millis_of(v: i64) -> int {
    (v >> 22) + DISCORD_EPOCH
}

impl Default for Snowflake {
    fn default() -> (r: Self)
        ensures
            r@ == 0,
    {
        Snowflake::zero()
    }
}

impl Snowflake {
    /// Wraps a raw id value.
    pub fn new(value: i64) -> (r: Self)
        ensures
            r@ == value,
    {
        Snowflake(value)
    }

    /// The raw id value.
    pub fn value(&self) -> (r: i64)
        ensures
            r == self@,
    {
        self.0
    }

    pub fn zero() -> (r: Self)
        ensures
            r@ == 0,
    {
        Snowflake(0)
    }

    /// The id's creation time in unix milliseconds.
    pub fn timestamp_millis(&self) -> (r: i64)
        ensures
            r as int == timestamp_millis_of(self@),
    {
        proof {
            let v = self@;
            assert(-0x200_0000_0000 <= (v >> 22) < 0x200_0000_0000) by (bit_vector);
        }
        let discord_ts = self.0 >> 22;
        discord_ts + DISCORD_EPOCH
    }

    /// Builds the id whose upper bits encode the given unix milliseconds.
    pub fn from_timestamp_millis(millis: i64) -> (r: Self)
        requires
            DISCORD_EPOCH - 0x200_0000_0000 <= millis < DISCORD_EPOCH + 0x200_0000_0000,
        ensures
            timestamp_millis_of(r@) == millis,
    {
        let discord_ts = millis - DISCORD_EPOCH;
        proof {
            let d = discord_ts as i64;
            assert(-0x200_0000_0000 <= d < 0x200_0000_0000 ==> ((d << 22) >> 22) == d)
                by (bit_vector);
        }
        Snowflake(discord_ts << 22)
    }

    /// The per-process increment held in the low 12 bits.
    pub fn increment(&self) -> (r: u16)
        ensures
            r as int == self@ & 0xFFF,
    {
        proof {
            let v = self@;
            assert(0 <= (v & 0xFFF) < 0x1000) by (bit_vector);
        }
        (self.0 & 0xFFF) as u16
    }

    /// The internal process id bits. The mask keeps bits 12 to 16 unshifted,
    /// so only an id with none of them set fits the byte-sized result.
    pub fn ipid(&self) -> (r: u8)
        requires
            self@ & 0x1F000 <= 255,
        ensures
            r as int == self@ & 0x1F000,
    {
        proof {
            let v = self@;
            assert(0 <= (v & 0x1F000)) by (bit_vector);
        }
        (self.0 & 0x1F000) as u8
    }

    /// The internal worker id bits. The mask keeps bits 17 to 21 unshifted,
    /// so only an id with none of them set fits the byte-sized result.
    pub fn iwid(&self) -> (r: u8)
        requires
            self@ & 0x3E0000 <= 255,
        ensures
            r as int == self@ & 0x3E0000,
    {
        proof {
            let v = self@;
            assert(0 <= (v & 0x3E0000)) by (bit_vector);
        }
        (self.0 & 0x3E0000) as u8
    }

    /// Parses a decimal id string, as `i64` accepts it.
    pub fn parse(s: &str) -> (r: Option<Snowflake>)
        ensures
            r is Some <==> decimal::is_i64_string(s@),
            r matches Some(f) ==> f@ as int == decimal::i64_string_value(s@),
    {
        match decimal::parse_i64(s) {
            Some(v) => Some(Snowflake(v)),
            None => None,
        }
    }

    /// The id in decimal, as it is written on the wire.
    pub fn decimal_string(&self) -> (r: String)
        ensures
            r@ == decimal::int_string(self@ as int),
    {
        decimal::i64_to_string(self.0)
    }
}

} // verus!
