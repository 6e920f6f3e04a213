//! Vectors whose length is written in one or two bytes.

use vstd::prelude::*;
use vstd::std_specs::convert::FromSpecImpl;

verus! {

/// Concise serialization schema for vectors where the length can be
/// represented by a type smaller than `u32`.
#[derive(Clone, Debug)]
pub struct SmallVec<T>(pub Vec<T>);

impl<T> View for SmallVec<T> {
    type V = Seq<T>;

    open spec fn view(&self) -> Seq<T> {
        self.0@
    }
}

impl<T> SmallVec<T> {
    pub fn len(&self) -> (r: usize)
        ensures
            r == self@.len(),
    {
        self.0.len()
    }

    pub fn is_empty(&self) -> (r: bool)
        ensures
            r == (self@.len() == 0),
    {
        self.0.len() == 0
    }
}

impl<T> Default for SmallVec<T> {
    fn default() -> (r: Self)
        ensures
            r@.len() == 0,
    {
        SmallVec(Vec::new())
    }
}

impl<T> From<SmallVec<T>> for Vec<T> {
    fn from(val: SmallVec<T>) -> (r: Self) {
        val.0
    }
}

impl<T> FromSpecImpl<SmallVec<T>> for Vec<T> {
    open spec fn obeys_from_spec() -> bool {
        true
    }

    open spec fn from_spec(val: SmallVec<T>) -> Self {
        val.0
    }
}

impl<T> From<Vec<T>> for SmallVec<T> {
    fn from(val: Vec<T>) -> (r: Self) {
        SmallVec(val)
    }
}

impl<T> FromSpecImpl<Vec<T>> for SmallVec<T> {
    open spec fn obeys_from_spec() -> bool {
        true
    }

    open spec fn from_spec(val: Vec<T>) -> Self {
        SmallVec(val)
    }
}

/// The capacity to reserve for a vector that announces `hint` elements of
/// `element_size` bytes: at most 4096 bytes, at least one element.
pub open spec fn cautious_spec(hint: u32, element_size: nat) -> int
    recommends
        element_size > 0,
{
    let within = 4096int / (element_size as int);
    let capacity = if (hint as int) < within { hint as int } else { within };
    if capacity < 1 { 1 } else { capacity }
}

/// The capacity to reserve before reading a vector of `hint` elements whose
/// length was announced by its sender.
pub fn cautious<T>(hint: u32) -> (r: usize)
    requires
        0 < vstd::layout::size_of::<T>() <= u32::MAX,
    ensures
        r == cautious_spec(hint, vstd::layout::size_of::<T>()),
{
    let el_size: u32 = core::mem::size_of::<T>() as u32;
    let within: u32 = 4096 / el_size;
    let capacity: u32 = if hint < within { hint } else { within };
    if capacity < 1 { 1 } else { capacity as usize }
}

/// The type that holds the length of a serialized vector.
#[derive(Clone, Copy, Debug, PartialEq, Eq, Structural)]
pub enum LengthPrefix {
    /// One byte.
    U8,
    /// Two bytes, the low byte first.
    U16,
}

/// What writing or reading a vector fails with.
#[derive(Clone, Copy, Debug, PartialEq, Eq, Structural)]
pub enum CodecError {
    /// The vector is too long for the type of its length.
    InvalidInput,
    /// The bytes end before the vector does.
    UnexpectedLengthOfInput,
}

impl LengthPrefix {
    /// The bytes of a length.
    pub open spec fn width(self) -> nat {
        match self {
            LengthPrefix::U8 => 1,
            LengthPrefix::U16 => 2,
        }
    }

    /// The largest length that fits.
    pub open spec fn max(self) -> nat {
        match self {
            LengthPrefix::U8 => 0xff,
            LengthPrefix::U16 => 0xffff,
        }
    }

    /// A length in bytes, the low byte first.
    pub open spec fn encode(self, len: nat) -> Seq<u8>
        recommends
            len <= self.max(),
    {
        match self {
            LengthPrefix::U8 => seq![len as u8],
            LengthPrefix::U16 => seq![(len % 256) as u8, (len / 256) as u8],
        }
    }

    /// The length that the first bytes hold.
    pub open spec fn decode(self, bytes: Seq<u8>) -> nat
        recommends
            bytes.len() >= self.width(),
    {
        match self {
            LengthPrefix::U8 => bytes[0] as nat,
            LengthPrefix::U16 => (bytes[0] + 256 * bytes[1]) as nat,
        }
    }
}

/// A vector of bytes as it is written: its length, then its bytes.
pub open spec fn serialized(prefix: LengthPrefix, items: Seq<u8>) -> Seq<u8> {
    prefix.encode(items.len()) + items
}

/// Writes a vector of bytes with its length in front.
pub fn serialize(items: &SmallVec<u8>, prefix: LengthPrefix) -> (r: Result<Vec<u8>, CodecError>)
    ensures
        match r {
            Ok(bytes) => items@.len() <= prefix.max() && bytes@ == serialized(prefix, items@),
            Err(e) => items@.len() > prefix.max() && e == CodecError::InvalidInput,
        },
{
    let len = items.len();
    let mut bytes: Vec<u8> = Vec::new();
    match prefix {
        LengthPrefix::U8 => {
            if len > 0xff {
                return Err(CodecError::InvalidInput);
            }
            // Write the length of the vector as u8.
            bytes.push(len as u8);
        },
        LengthPrefix::U16 => {
            if len > 0xffff {
                return Err(CodecError::InvalidInput);
            }
            // Write the length of the vector as u16.
            bytes.push((len % 256) as u8);
            bytes.push((len / 256) as u8);
        },
    }
    // Write the vector elements.
    let ghost head = bytes@;
    let mut i: usize = 0;
    while i < len
        invariant
            len == items@.len(),
            i <= len,
            bytes@ == head + items@.subrange(0, i as int),
        decreases len - i,
    {
        bytes.push(items.0[i]);
        i = i + 1;
        assert(bytes@ =~= head + items@.subrange(0, i as int));
    }
    assert(items@.subrange(0, len as int) =~= items@);
    Ok(bytes)
}

/// Reads a vector of bytes that was written with its length in front, and
/// says how many bytes it took.
pub fn deserialize(
    bytes: &[u8],
    prefix: LengthPrefix,
) -> (r: Result<(SmallVec<u8>, usize), CodecError>)
    ensures
        match r {
            Ok((items, used)) => {
                &&& bytes@.len() >= prefix.width()
                &&& items@.len() == prefix.decode(bytes@)
                &&& used == prefix.width() + items@.len()
                &&& used <= bytes@.len()
                &&& bytes@.subrange(0, used as int) == serialized(prefix, items@)
            },
            Err(e) => e == CodecError::UnexpectedLengthOfInput && (bytes@.len() < prefix.width()
                || bytes@.len() < prefix.width() + prefix.decode(bytes@)),
        },
{
    let (width, len): (usize, usize) = match prefix {
        LengthPrefix::U8 => {
            if bytes.len() < 1 {
                return Err(CodecError::UnexpectedLengthOfInput);
            }
            (1, bytes[0] as usize)
        },
        LengthPrefix::U16 => {
            if bytes.len() < 2 {
                return Err(CodecError::UnexpectedLengthOfInput);
            }
            (2, (bytes[0] as usize) + 256 * (bytes[1] as usize))
        },
    };
    if bytes.len() - width < len {
        return Err(CodecError::UnexpectedLengthOfInput);
    }
    let mut items: Vec<u8> = Vec::new();
    let mut i: usize = 0;
    while i < len
        invariant
            width + len <= bytes@.len() <= usize::MAX,
            i <= len,
            items@ == bytes@.subrange(width as int, width + i),
        decreases len - i,
    {
        items.push(bytes[width + i]);
        i = i + 1;
        assert(items@ =~= bytes@.subrange(width as int, width + i));
    }
    assert(bytes@.subrange(0, width + len) =~= serialized(prefix, items@));
    Ok((SmallVec(items), width + len))
}

/// What was written is read back: a vector that fits its length prefix
/// comes back from its bytes, whatever follows them.
pub proof fn law_serialized_vector_reads_back(prefix: LengthPrefix, items: Seq<u8>, rest: Seq<u8>)
    requires
        items.len() <= prefix.max(),
    ensures
        ({
            let bytes = serialized(prefix, items) + rest;
            &&& prefix.decode(bytes) == items.len()
            &&& bytes.subrange(prefix.width() as int, (prefix.width() + items.len()) as int)
                == items
        }),
{
    let bytes = serialized(prefix, items) + rest;
    assert(bytes.subrange(prefix.width() as int, (prefix.width() + items.len()) as int) =~= items);
}

} // verus!
