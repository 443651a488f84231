//! The bounds-checked raw view over one option's bytes, and the parsed
//! high-level representation.
use vstd::prelude::*;
use vstd::slice::{slice_subrange, slice_to_vec};

use crate::field;
use crate::Error;

verus! {

/// IPv6 Extension Header Option Type: the two reserved padding types, and an
/// open fallback for any other byte value.
#[derive(Clone, Copy, Debug, PartialEq, Eq, Structural)]
pub enum Type {
    /// 1 byte of padding.
    Pad1,
    /// Multiple bytes of padding.
    PadN,
    /// Any other option type.
    Unknown(u8),
}

impl Type {
    /// The option type encoded by a raw type byte: 0 is Pad1, 1 is PadN,
    /// anything else is Unknown.
    pub open spec fn spec_from_byte(value: u8) -> Type {
        if value == 0 {
            Type::Pad1
        } else if value == 1 {
            Type::PadN
        } else {
            Type::Unknown(value)
        }
    }

    /// Decode a raw type byte.
    pub fn from_byte(value: u8) -> (t: Type)
        ensures
            t == Type::spec_from_byte(value),
    {
        if value == 0 {
            Type::Pad1
        } else if value == 1 {
            Type::PadN
        } else {
            Type::Unknown(value)
        }
    }

    /// The raw byte that encodes this option type.
    pub open spec fn spec_to_byte(self) -> u8 {
        match self {
            Type::Pad1 => 0,
            Type::PadN => 1,
            Type::Unknown(id) => id,
        }
    }

    /// Encode this option type as its raw byte.
    pub fn to_byte(self) -> (value: u8)
        ensures
            value == self.spec_to_byte(),
    {
        match self {
            Type::Pad1 => 0,
            Type::PadN => 1,
            Type::Unknown(id) => id,
        }
    }
}

/// Relies on the mutable range index into a byte slice
/// (`IndexMut<Range<usize>>`): the returned slice is exactly the bytes
/// `[start, end)` of the buffer, writes through it land on those bytes and
/// nowhere else, and it cannot change length.
#[verifier::external_body]
fn subslice_mut(buffer: &mut Vec<u8>, start: usize, end: usize) -> (data: &mut [u8])
    requires
        start <= end,
        end <= old(buffer)@.len(),
    ensures
        data@ == old(buffer)@.subrange(start as int, end as int),
        final(data)@.len() == end - start,
        final(buffer)@ == old(buffer)@.subrange(0, start as int) + final(data)@ + old(
            buffer,
        )@.subrange(end as int, old(buffer)@.len() as int),
{
    &mut buffer[start..end]
}

/// A buffer holds a well-delimited option: it has the type byte, and, unless
/// the type is Pad1, the length byte and the whole data field that the length
/// byte declares.
pub open spec fn length_valid(b: Seq<u8>) -> bool {
    &&& b.len() >= 1
    &&& (b[0] == 0 || (b.len() >= 2 && 2 + b[1] <= b.len()))
}

/// A read/write wrapper around an IPv6 Extension Header Option.
#[derive(Debug, PartialEq)]
pub struct Ipv6Option {
    buffer: Vec<u8>,
}

impl View for Ipv6Option {
    type V = Seq<u8>;

    closed spec fn view(&self) -> Seq<u8> {
        self.buffer@
    }
}

impl Ipv6Option {
    /// Create a raw octet buffer with an IPv6 Extension Header Option
    /// structure. Never fails; accessors demand that the buffer is long
    /// enough, which [`Ipv6Option::check_len`] establishes.
    pub fn new(buffer: Vec<u8>) -> (opt: Ipv6Option)
        ensures
            opt@ == buffer@,
    {
        Ipv6Option { buffer }
    }

    /// Shorthand for a combination of [`Ipv6Option::new`] and
    /// [`Ipv6Option::check_len`].
    pub fn new_checked(buffer: Vec<u8>) -> (r: Result<Ipv6Option, Error>)
        ensures
            r is Ok <==> length_valid(buffer@),
            r is Ok ==> r->Ok_0@ == buffer@,
            r is Err ==> r->Err_0 == Error::Truncated,
    {
        let opt = Self::new(buffer);
        match opt.check_len() {
            Ok(()) => Ok(opt),
            Err(err) => Err(err),
        }
    }

    /// Ensure that no accessor method will panic if called: `Ok` exactly when
    /// the buffer holds the type byte and, for a type other than Pad1, the
    /// length byte and the whole data field it declares.
    ///
    /// The result of this check is invalidated by calling
    /// [`Ipv6Option::set_data_len`].
    pub fn check_len(&self) -> (r: Result<(), Error>)
        ensures
            r is Ok <==> length_valid(self@),
            r is Err ==> r->Err_0 == Error::Truncated,
    {
        let len = self.buffer.len();

        if len < field::LENGTH {
            return Err(Error::Truncated);
        }

        if self.option_type() == Type::Pad1 {
            return Ok(());
        }

        if len == field::LENGTH {
            return Err(Error::Truncated);
        }

        let df = field::DATA(self.buffer[field::LENGTH]);

        if len < df.end {
            return Err(Error::Truncated);
        }

        Ok(())
    }

    /// Consume the option, returning the underlying buffer.
    pub fn into_inner(self) -> (buffer: Vec<u8>)
        ensures
            buffer@ == self@,
    {
        self.buffer
    }

    /// Return the option type.
    pub fn option_type(&self) -> (t: Type)
        requires
            self@.len() >= 1,
        ensures
            t == Type::spec_from_byte(self@[0]),
    {
        Type::from_byte(self.buffer[field::TYPE])
    }

    /// Return the length of the data.
    ///
    /// The buffer must hold the length byte: meaningful only when the option
    /// type is not Pad1.
    pub fn data_len(&self) -> (n: u8)
        requires
            self@.len() >= 2,
        ensures
            n == self@[1],
    {
        self.buffer[field::LENGTH]
    }

    /// Return the option data: the `data_len`-byte field that follows the
    /// length byte.
    ///
    /// The buffer must hold the whole data field, as
    /// [`Ipv6Option::check_len`] establishes; meaningful only when the option
    /// type is not Pad1.
    pub fn data(&self) -> (data: &[u8])
        requires
            self@.len() >= 2,
            2 + self@[1] <= self@.len(),
        ensures
            data@ == self@.subrange(2, 2 + self@[1] as int),
    {
        let df = field::DATA(self.data_len());
        slice_subrange(self.buffer.as_slice(), df.start, df.end)
    }

    /// Return a mutable view of the option data: writes through it land on
    /// the `data_len`-byte field that follows the length byte, and nowhere
    /// else.
    ///
    /// The buffer must hold the whole data field, as
    /// [`Ipv6Option::check_len`] establishes; meaningful only when the option
    /// type is not Pad1.
    pub fn data_mut(&mut self) -> (data: &mut [u8])
        requires
            old(self)@.len() >= 2,
            2 + old(self)@[1] <= old(self)@.len(),
        ensures
            data@ == old(self)@.subrange(2, 2 + old(self)@[1] as int),
            final(data)@.len() == data@.len(),
            final(self)@ == old(self)@.subrange(0, 2) + final(data)@ + old(self)@.subrange(
                2 + old(self)@[1] as int,
                old(self)@.len() as int,
            ),
    {
        let df = field::DATA(self.data_len());
        subslice_mut(&mut self.buffer, df.start, df.end)
    }

    /// Set the option type.
    pub fn set_option_type(&mut self, value: Type)
        requires
            old(self)@.len() >= 1,
        ensures
            final(self)@ == old(self)@.update(0, value.spec_to_byte()),
    {
        self.buffer.set(field::TYPE, value.to_byte());
    }

    /// Set the option data length.
    ///
    /// The buffer must hold the length byte; meaningful only when the option
    /// type is not Pad1. Writing it invalidates an earlier
    /// [`Ipv6Option::check_len`].
    pub fn set_data_len(&mut self, value: u8)
        requires
            old(self)@.len() >= 2,
        ensures
            final(self)@ == old(self)@.update(1, value),
    {
        self.buffer.set(field::LENGTH, value);
    }
}

/// The mathematical value of a parsed option: what [`Repr`] holds, with the
/// data field abstracted to a byte sequence.
#[verifier::ext_equal]
pub enum SpecRepr {
    Pad1,
    PadN(u8),
    Unknown { type_: u8, length: u8, data: Seq<u8> },
}

impl SpecRepr {
    /// The number of bytes an emitted option occupies: one type byte for
    /// Pad1, else the two header bytes plus the declared data length.
    pub open spec fn buffer_len(self) -> int {
        match self {
            SpecRepr::Pad1 => 1,
            SpecRepr::PadN(length) => 2 + length,
            SpecRepr::Unknown { length, .. } => 2 + length,
        }
    }

    /// The representation invariants: an Unknown option carries a type byte
    /// that does not decode to a padding variant, and exactly as many data
    /// bytes as its length field declares.
    pub open spec fn wf(self) -> bool {
        match self {
            SpecRepr::Unknown { type_, length, data } => {
                &&& type_ != 0
                &&& type_ != 1
                &&& data.len() == length
            },
            _ => true,
        }
    }

    /// What `emit` may demand of the representation: for Unknown, at least
    /// `length` data bytes to copy from.
    pub open spec fn emittable(self) -> bool {
        match self {
            SpecRepr::Unknown { length, data, .. } => data.len() >= length,
            _ => true,
        }
    }
}

/// The representation read from a well-delimited option buffer.
pub open spec fn spec_parse(b: Seq<u8>) -> SpecRepr {
    if b[0] == 0 {
        SpecRepr::Pad1
    } else if b[0] == 1 {
        SpecRepr::PadN(b[1])
    } else {
        SpecRepr::Unknown { type_: b[0], length: b[1], data: b.subrange(2, 2 + b[1]) }
    }
}

/// The bytes that emitting representation `r` leaves in a buffer that held
/// `b`: Pad1 writes the type byte alone; PadN writes both header bytes and
/// zeroes its whole data field; Unknown writes both header bytes and copies
/// its data verbatim. Bytes past the emitted option keep their old value.
pub open spec fn spec_emit(r: SpecRepr, b: Seq<u8>) -> Seq<u8> {
    match r {
        SpecRepr::Pad1 => b.update(0, 0u8),
        SpecRepr::PadN(length) => Seq::new(
            b.len(),
            |i: int|
                if i == 0 {
                    1u8
                } else if i == 1 {
                    length
                } else if i < 2 + length {
                    0u8
                } else {
                    b[i]
                },
        ),
        SpecRepr::Unknown { type_, length, data } => Seq::new(
            b.len(),
            |i: int|
                if i == 0 {
                    type_
                } else if i == 1 {
                    length
                } else if i < 2 + length {
                    data[i - 2]
                } else {
                    b[i]
                },
        ),
    }
}

/// A high-level representation of an IPv6 Extension Header Option.
///
/// Owns no buffer: `parse` copies the data field of an Unknown option out of
/// the view it reads.
#[derive(Clone, Debug, PartialEq, Eq)]
pub enum Repr {
    Pad1,
    PadN(u8),
    Unknown { type_: u8, length: u8, data: Vec<u8> },
}

impl View for Repr {
    type V = SpecRepr;

    open spec fn view(&self) -> SpecRepr {
        match self {
            Repr::Pad1 => SpecRepr::Pad1,
            Repr::PadN(length) => SpecRepr::PadN(*length),
            Repr::Unknown { type_, length, data } => SpecRepr::Unknown {
                type_: *type_,
                length: *length,
                data: data@,
            },
        }
    }
}

impl Repr {
    /// Parse an IPv6 Extension Header Option and return a high-level
    /// representation.
    ///
    /// The view must already have passed [`Ipv6Option::check_len`]: parse
    /// performs no bounds re-check of its own, and always succeeds on a
    /// buffer that did.
    pub fn parse(opt: &Ipv6Option) -> (r: Result<Repr, Error>)
        requires
            length_valid(opt@),
        ensures
            r is Ok,
            r->Ok_0@ == spec_parse(opt@),
            r->Ok_0@.wf(),
    {
        match opt.option_type() {
            Type::Pad1 => Ok(Repr::Pad1),
            Type::PadN => Ok(Repr::PadN(opt.data_len())),
            Type::Unknown(type_) => Ok(
                Repr::Unknown {
                    type_,
                    length: opt.data_len(),
                    data: slice_to_vec(opt.data()),
                },
            ),
        }
    }

    /// Return the length of a buffer that holds the option this high-level
    /// representation emits.
    pub fn buffer_len(&self) -> (n: usize)
        ensures
            n == self@.buffer_len(),
    {
        match self {
            Repr::Pad1 => 1,
            Repr::PadN(length) => field::DATA(*length).end,
            Repr::Unknown { length, .. } => field::DATA(*length).end,
        }
    }

    /// Emit this high-level representation into an IPv6 Extension Header
    /// Option view over a buffer of at least [`Repr::buffer_len`] bytes.
    ///
    /// PadN never trusts pre-existing buffer contents: it actively zeroes its
    /// whole data field. Unknown copies exactly `length` bytes from its data,
    /// which must hold at least that many.
    pub fn emit(&self, opt: &mut Ipv6Option)
        requires
            self@.buffer_len() <= old(opt)@.len(),
            self@.emittable(),
        ensures
            final(opt)@ == spec_emit(self@, old(opt)@),
    {
        match self {
            Repr::Pad1 => {
                opt.set_option_type(Type::Pad1);
            },
            Repr::PadN(length) => {
                opt.set_option_type(Type::PadN);
                opt.set_data_len(*length);
                let end = field::DATA(*length).end;
                let mut i: usize = 2;
                while i < end
                    invariant
                        2 <= i <= end,
                        end == 2 + *length,
                        end <= opt@.len(),
                        opt@.len() == old(opt)@.len(),
                        opt@[0] == 1,
                        opt@[1] == *length,
                        forall|j: int| 2 <= j < i ==> opt@[j] == 0,
                        forall|j: int| i <= j < opt@.len() ==> opt@[j] == old(opt)@[j],
                    decreases end - i,
                {
                    opt.buffer.set(i, 0);
                    i += 1;
                }
                assert(opt@ =~= spec_emit(self@, old(opt)@));
            },
            Repr::Unknown { type_, length, data } => {
                opt.set_option_type(Type::Unknown(*type_));
                opt.set_data_len(*length);
                let n = *length as usize;
                let mut i: usize = 0;
                while i < n
                    invariant
                        i <= n,
                        n == *length,
                        n <= data@.len(),
                        2 + n <= opt@.len(),
                        opt@.len() == old(opt)@.len(),
                        opt@[0] == *type_,
                        opt@[1] == *length,
                        forall|j: int| 0 <= j < i ==> opt@[2 + j] == data@[j],
                        forall|j: int| 2 + i <= j < opt@.len() ==> opt@[j] == old(opt)@[j],
                    decreases n - i,
                {
                    opt.buffer.set(2 + i, data[i]);
                    i += 1;
                }
                assert(opt@ =~= spec_emit(self@, old(opt)@));
            },
        }
    }
}

/// An empty buffer is never a well-delimited option: [`Ipv6Option::check_len`]
/// rejects it as truncated.
pub proof fn lemma_check_len_empty(b: Seq<u8>)
    requires
        b.len() == 0,
    ensures
        !length_valid(b),
{
}

/// A buffer whose first byte decodes to Pad1 passes
/// [`Ipv6Option::check_len`] whatever its remaining length, a single byte
/// included.
pub proof fn lemma_check_len_pad1(b: Seq<u8>)
    requires
        b.len() >= 1,
        b[0] == 0,
    ensures
        length_valid(b),
{
}

/// A one-byte buffer whose type is not Pad1 misses its length byte:
/// [`Ipv6Option::check_len`] rejects it as truncated.
pub proof fn lemma_check_len_missing_length(b: Seq<u8>)
    requires
        b.len() == 1,
        b[0] != 0,
    ensures
        !length_valid(b),
{
}

/// A non-Pad1 buffer of at least two bytes passes
/// [`Ipv6Option::check_len`] exactly when it holds the whole data field that
/// its length byte declares.
pub proof fn lemma_check_len_data(b: Seq<u8>)
    requires
        b.len() >= 2,
        b[0] != 0,
    ensures
        length_valid(b) <==> b.len() >= 2 + b[1],
{
}

/// Round trip: emitting a well-formed representation into a buffer of exactly
/// [`Repr::buffer_len`] bytes yields a buffer that passes
/// [`Ipv6Option::check_len`] and parses back to the same representation.
pub proof fn lemma_emit_parse_round_trip(r: SpecRepr, b: Seq<u8>)
    requires
        r.wf(),
        b.len() == r.buffer_len(),
    ensures
        length_valid(spec_emit(r, b)),
        spec_parse(spec_emit(r, b)) == r,
{
    let e = spec_emit(r, b);
    match r {
        SpecRepr::Pad1 => {},
        SpecRepr::PadN(_) => {},
        SpecRepr::Unknown { data, .. } => {
            assert(e.subrange(2, 2 + e[1]) =~= data);
            assert(spec_parse(e) =~= r);
        },
    }
}

/// Idempotence: what emit writes depends on the representation alone.
/// Emitting one representation into two fresh buffers of exactly
/// [`Repr::buffer_len`] bytes yields identical bytes, whatever the buffers
/// held before.
pub proof fn lemma_emit_deterministic(r: SpecRepr, b1: Seq<u8>, b2: Seq<u8>)
    requires
        b1.len() == r.buffer_len(),
        b2.len() == r.buffer_len(),
    ensures
        spec_emit(r, b1) == spec_emit(r, b2),
{
    assert(spec_emit(r, b1) =~= spec_emit(r, b2));
}

} // verus!
