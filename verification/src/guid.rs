//! Globally unique identifiers in the firmware's byte order.
use vstd::prelude::*;

verus! {

/// A 128-bit identifier, held as the sixteen bytes that the firmware
/// reads: the first three fields low byte first, the last eight bytes
/// as they are written. Two identifiers are the same when their bytes
/// are.
#[derive(Clone, Copy, Debug, PartialEq, Eq)]
pub struct Guid {
    bytes: [u8; 16],
}

/// A text that is no identifier.
#[derive(Clone, Copy, Debug, PartialEq, Eq, Structural)]
pub struct InvalidGuid;

/// What `nuuid::Uuid::parse_me` makes of a text: the sixteen bytes of
/// the identifier in mixed-endian order, or nothing where it refuses
/// the text.
pub uninterp spec fn uuid_parse_me(text: Seq<char>) -> Option<Seq<u8>>;

/// Calls `nuuid::Uuid::parse_me` and takes the bytes of what it gives
/// with `Uuid::to_bytes`. The contract claims that the outcome is a
/// function of the text alone: whether the text is an identifier, and
/// with which bytes. The parser returns an error for a text that it
/// does not take, and panics on none.
#[verifier::external_body]
fn parse_uuid_me(text: &str) -> (r: Option<[u8; 16]>)
    ensures
        match r {
            Some(bytes) => uuid_parse_me(text@) == Some(bytes@),
            None => uuid_parse_me(text@) is None,
        },
{
    match nuuid::Uuid::parse_me(text) {
        Ok(uuid) => Some(uuid.to_bytes()),
        Err(_) => None,
    }
}

/// The low byte of `x`, then the next, up to `n` bytes.
pub open spec fn le_bytes(x: int, n: nat) -> Seq<u8>
    decreases n,
{
    if n == 0 {
        Seq::empty()
    } else {
        seq![(x % 256) as u8] + le_bytes(x / 256, (n - 1) as nat)
    }
}

/// The sixteen bytes of the identifier with the given fields: the
/// first three low byte first, the fourth as it stands.
pub open spec fn mixed_endian(d1: u32, d2: u16, d3: u16, d4: Seq<u8>) -> Seq<u8> {
    le_bytes(d1 as int, 4) + le_bytes(d2 as int, 2) + le_bytes(d3 as int, 2) + d4
}

/// What comes of a parsed text: the identifier with those bytes, or
/// the error.
pub open spec fn guid_of_parsed(parsed: Option<Seq<u8>>) -> Result<Seq<u8>, InvalidGuid> {
    match parsed {
        Some(bytes) => Ok(bytes),
        None => Err(InvalidGuid),
    }
}

impl View for Guid {
    type V = Seq<u8>;

    closed spec fn view(&self) -> Seq<u8> {
        self.bytes@
    }
}

impl Guid {
    /// The identifier whose bytes are `bytes`.
    pub closed spec fn of_bytes(bytes: Seq<u8>) -> Guid {
        choose|g: Guid| g@ == bytes
    }

    /// The identifier with the given fields.
    pub open spec fn of_fields(d1: u32, d2: u16, d3: u16, d4: Seq<u8>) -> Guid {
        Guid::of_bytes(mixed_endian(d1, d2, d3, d4))
    }

    /// An identifier is what its bytes are: there is no other with
    /// the same bytes.
    pub proof fn lemma_by_bytes(self)
        ensures
            Guid::of_bytes(self@) == self,
            self@.len() == 16,
    {
        let other = Guid::of_bytes(self@);
        assert(other@ == self@);
        assert(other.bytes =~= self.bytes);
    }

    /// The identifier with these bytes.
    pub fn from_bytes(bytes: [u8; 16]) -> (r: Self)
        ensures
            r@ == bytes@,
            r == Guid::of_bytes(bytes@),
    {
        let r = Guid { bytes };
        proof {
            r.lemma_by_bytes();
        }
        r
    }

    /// The bytes of the identifier.
    pub fn to_bytes(&self) -> (r: [u8; 16])
        ensures
            r@ == self@,
            self@.len() == 16,
    {
        self.bytes
    }

    /// The identifier with the given fields.
    pub fn from_fields(d1: u32, d2: u16, d3: u16, d4: [u8; 8]) -> (r: Self)
        ensures
            r@ == mixed_endian(d1, d2, d3, d4@),
            r == Guid::of_fields(d1, d2, d3, d4@),
    {
        let bytes: [u8; 16] = [
            (d1 % 256) as u8,
            (d1 / 256 % 256) as u8,
            (d1 / 65536 % 256) as u8,
            (d1 / 16777216) as u8,
            (d2 % 256) as u8,
            (d2 / 256) as u8,
            (d3 % 256) as u8,
            (d3 / 256) as u8,
            d4[0],
            d4[1],
            d4[2],
            d4[3],
            d4[4],
            d4[5],
            d4[6],
            d4[7],
        ];
        proof {
            reveal_with_fuel(le_bytes, 5);
            assert(bytes@ =~= mixed_endian(d1, d2, d3, d4@));
            (Guid { bytes }).lemma_by_bytes();
        }
        Guid { bytes }
    }

    /// The three integer fields of the identifier, read low byte
    /// first, and its last eight bytes.
    pub fn fields(&self) -> (r: (u32, u16, u16, [u8; 8]))
        ensures
            mixed_endian(r.0, r.1, r.2, r.3@) == self@,
    {
        let b = &self.bytes;
        let d1: u32 = b[0] as u32 + 256 * (b[1] as u32) + 65536 * (b[2] as u32) + 16777216 * (
        b[3] as u32);
        let d2: u16 = b[4] as u16 + 256 * (b[5] as u16);
        let d3: u16 = b[6] as u16 + 256 * (b[7] as u16);
        let d4: [u8; 8] = [b[8], b[9], b[10], b[11], b[12], b[13], b[14], b[15]];
        proof {
            let (b0, b1, b2, b3) = (b@[0] as int, b@[1] as int, b@[2] as int, b@[3] as int);
            let x = d1 as int;
            assert(x == b0 + 256 * (b1 + 256 * (b2 + 256 * b3)));
            assert(x % 256 == b0 && x / 256 == b1 + 256 * (b2 + 256 * b3));
            assert(x / 256 % 256 == b1 && x / 256 / 256 == b2 + 256 * b3);
            assert(x / 256 / 256 % 256 == b2 && x / 256 / 256 / 256 == b3);
            assert(le_bytes(x, 4) =~= seq![b@[0], b@[1], b@[2], b@[3]]) by {
                reveal_with_fuel(le_bytes, 5);
            }
            assert(le_bytes(d2 as int, 2) =~= seq![b@[4], b@[5]]) by {
                reveal_with_fuel(le_bytes, 3);
            }
            assert(le_bytes(d3 as int, 2) =~= seq![b@[6], b@[7]]) by {
                reveal_with_fuel(le_bytes, 3);
            }
            assert(mixed_endian(d1, d2, d3, d4@) =~= self@);
        }
        (d1, d2, d3, d4)
    }

    /// Whether two identifiers have the same bytes.
    pub fn same_as(&self, other: &Guid) -> (r: bool)
        ensures
            r == (self@ == other@),
    {
        let mut i: usize = 0;
        while i < 16
            invariant
                i <= 16,
                forall|j: int| 0 <= j < i ==> self.bytes@[j] == other.bytes@[j],
            decreases 16 - i,
        {
            if self.bytes[i] != other.bytes[i] {
                return false;
            }
            i = i + 1;
        }
        assert(self.bytes@ =~= other.bytes@);
        true
    }

    /// The identifier that a parser found, or the error where it found
    /// none.
    pub fn from_parsed(parsed: Option<[u8; 16]>) -> (r: Result<Guid, InvalidGuid>)
        ensures
            match parsed {
                Some(bytes) => r is Ok && r->Ok_0@ == bytes@,
                None => r == Err::<Guid, _>(InvalidGuid),
            },
    {
        match parsed {
            Some(bytes) => Ok(Guid { bytes }),
            None => Err(InvalidGuid),
        }
    }

    /// Reads an identifier from its text, such as
    /// `09576E91-6D3F-11D2-8E39-00A0C969723B`: the first three groups
    /// are numbers, and each is stored low byte first.
    pub fn parse(text: &str) -> (r: Result<Guid, InvalidGuid>)
        ensures
            match guid_of_parsed(uuid_parse_me(text@)) {
                Ok(bytes) => r is Ok && r->Ok_0@ == bytes,
                Err(e) => r == Err::<Guid, _>(e),
            },
    {
        Guid::from_parsed(parse_uuid_me(text))
    }
}

/// Taking an identifier apart into its fields and putting them
/// together again gives the same bytes, whatever the fields are.
pub proof fn lemma_fields_round_trip(d1: u32, d2: u16, d3: u16, d4: Seq<u8>)
    requires
        d4.len() == 8,
    ensures
        mixed_endian(d1, d2, d3, d4).len() == 16,
        mixed_endian(d1, d2, d3, d4).subrange(8, 16) == d4,
        mixed_endian(d1, d2, d3, d4)[0] as int + 256 * (mixed_endian(d1, d2, d3, d4)[1] as int)
            + 65536 * (mixed_endian(d1, d2, d3, d4)[2] as int) + 16777216 * (mixed_endian(
            d1,
            d2,
            d3,
            d4,
        )[3] as int) == d1,
        mixed_endian(d1, d2, d3, d4)[4] as int + 256 * (mixed_endian(d1, d2, d3, d4)[5] as int)
            == d2,
        mixed_endian(d1, d2, d3, d4)[6] as int + 256 * (mixed_endian(d1, d2, d3, d4)[7] as int)
            == d3,
{
    reveal_with_fuel(le_bytes, 5);
    assert(mixed_endian(d1, d2, d3, d4).subrange(8, 16) =~= d4);
}

} // verus!
