//! Network ids and endpoint addresses.
use crate::error::{AmsAddressError, MalformedFrame};
use crate::wire::{get_u16, put_u16, u16_at, u16_le};
use vstd::prelude::*;
use vstd::string::StrSliceExecFns;

verus! {

/// The 6-byte network id of an endpoint, written as a dotted sextet.
#[derive(Debug, Clone, Copy, PartialEq, Eq)]
pub struct AmsNetId {
    pub net_id: [u8; 6],
}

impl View for AmsNetId {
    type V = Seq<u8>;

    open spec fn view(&self) -> Seq<u8> {
        self.net_id@
    }
}

/// A logical endpoint: a network id and a port.
#[derive(Debug, Clone, Copy, PartialEq, Eq)]
pub struct AmsAddress {
    pub ams_net_id: AmsNetId,
    pub port: u16,
}

/// The meaning of an endpoint address: six id bytes and a port.
pub struct AmsAddressModel {
    pub net_id: Seq<u8>,
    pub port: u16,
}

impl View for AmsAddress {
    type V = AmsAddressModel;

    open spec fn view(&self) -> AmsAddressModel {
        AmsAddressModel { net_id: self.ams_net_id@, port: self.port }
    }
}

/// The eight bytes of an address: the id, then the port.
pub open spec fn encode_address(a: AmsAddressModel) -> Seq<u8> {
    a.net_id + u16_le(a.port)
}

/// The address stored at `b[i..i + 8]`.
pub open spec fn address_at(b: Seq<u8>, i: int) -> AmsAddressModel {
    AmsAddressModel { net_id: b.subrange(i, i + 6), port: u16_at(b, i + 6) }
}

/// Reading back the bytes of an address wherever they stand gives the address.
pub proof fn lemma_address_round_trip(b: Seq<u8>, i: int, a: AmsAddressModel)
    requires
        a.net_id.len() == 6,
        0 <= i,
        i + 8 <= b.len(),
        b.subrange(i, i + 8) == encode_address(a),
    ensures
        address_at(b, i) == a,
{
    assert(b.subrange(i, i + 6) =~= b.subrange(i, i + 8).subrange(0, 6));
    assert(encode_address(a).subrange(0, 6) =~= a.net_id);
    assert(b.subrange(i + 6, i + 8) =~= b.subrange(i, i + 8).subrange(6, 8));
    assert(encode_address(a).subrange(6, 8) =~= u16_le(a.port));
    crate::wire::lemma_u16_round_trip(b, i + 6, a.port);
}

/// The parts of `s` between dots, in order; text without a dot is one part.
pub open spec fn split_dots(s: Seq<char>) -> Seq<Seq<char>>
    decreases s.len(),
{
    if s.len() == 0 {
        seq![Seq::empty()]
    } else {
        let parts = split_dots(s.drop_last());
        if s.last() == '.' {
            parts.push(Seq::empty())
        } else {
            parts.update(parts.len() - 1, parts.last().push(s.last()))
        }
    }
}

/// The value of a string of decimal digits.
pub open spec fn decimal_value(d: Seq<char>) -> nat
    decreases d.len(),
{
    if d.len() == 0 {
        0
    } else {
        decimal_value(d.drop_last()) * 10 + ((d.last() as u32 - '0' as u32) as nat)
    }
}

pub open spec fn is_digit(c: char) -> bool {
    '0' <= c <= '9'
}

/// The digits of an octet: the text after an optional leading `+`.
pub open spec fn octet_digits(p: Seq<char>) -> Seq<char> {
    if p.len() > 0 && p[0] == '+' {
        p.drop_first()
    } else {
        p
    }
}

/// The number that `p` writes in decimal, as `u8::from_str` reads it: an
/// optional `+`, then one or more digits, with a value of at most 255.
pub open spec fn decimal_u8(p: Seq<char>) -> Option<u8> {
    let d = octet_digits(p);
    if d.len() >= 1 && (forall|k: int| 0 <= k < d.len() ==> is_digit(#[trigger] d[k]))
        && decimal_value(d) <= 255 {
        Some(decimal_value(d) as u8)
    } else {
        None
    }
}

/// The index of the first of the six parts that is not a decimal octet.
pub open spec fn first_bad_part(parts: Seq<Seq<char>>) -> int {
    choose|j: int|
        0 <= j < 6 && decimal_u8(parts[j]) is None && forall|k: int|
            0 <= k < j ==> decimal_u8(#[trigger] parts[k]) is Some
}

/// What parsing the dotted sextet `s` gives.
pub open spec fn parse_net_id(s: Seq<char>) -> Result<Seq<u8>, AmsAddressError> {
    let parts = split_dots(s);
    if parts.len() != 6 {
        Err(AmsAddressError::InvalidAddressLength { length: parts.len() as usize })
    } else if forall|j: int| 0 <= j < 6 ==> decimal_u8(#[trigger] parts[j]) is Some {
        Ok(Seq::new(6, |j: int| decimal_u8(parts[j])->Some_0))
    } else {
        Err(AmsAddressError::ParseError { index: first_bad_part(parts) as usize })
    }
}

proof fn lemma_decimal_value_grows(d: Seq<char>, n: int)
    requires
        0 <= n <= d.len(),
        forall|k: int| 0 <= k < d.len() ==> is_digit(#[trigger] d[k]),
    ensures
        decimal_value(d.subrange(0, n)) <= decimal_value(d),
    decreases d.len() - n,
{
    if n < d.len() {
        lemma_decimal_value_grows(d, n + 1);
        assert(d.subrange(0, n + 1).drop_last() =~= d.subrange(0, n));
    } else {
        assert(d.subrange(0, n) =~= d);
    }
}

/// Parses one part of a dotted sextet as `u8::from_str` does.
fn parse_octet(p: &Vec<char>) -> (r: Option<u8>)
    ensures
        r == decimal_u8(p@),
{
    let n = p.len();
    let start: usize = if n > 0 && p[0] == '+' {
        1
    } else {
        0
    };
    let ghost d = octet_digits(p@);
    assert(d =~= p@.subrange(start as int, n as int));
    if start >= n {
        return None;
    }
    let mut value: u32 = 0;
    let mut i: usize = start;
    while i < n
        invariant
            start <= i <= n,
            n == p@.len(),
            d == p@.subrange(start as int, n as int),
            d == octet_digits(p@),
            value <= 255,
            forall|k: int| 0 <= k < i - start ==> is_digit(#[trigger] d[k]),
            value == decimal_value(d.subrange(0, i - start)),
        decreases n - i,
    {
        let c = p[i];
        assert(d[i - start] == c);
        if !('0' <= c && c <= '9') {
            assert(!is_digit(d[i - start]));
            assert(!(forall|k: int| 0 <= k < d.len() ==> is_digit(#[trigger] d[k])));
            return None;
        }
        let next = value * 10 + (c as u32 - '0' as u32);
        assert(d.subrange(0, i + 1 - start).drop_last() =~= d.subrange(0, i - start));
        assert(d.subrange(0, i + 1 - start).last() == c);
        assert(decimal_value(d.subrange(0, i + 1 - start)) == next);
        if next > 255 {
            proof {
                if forall|k: int| 0 <= k < d.len() ==> is_digit(#[trigger] d[k]) {
                    lemma_decimal_value_grows(d, i + 1 - start);
                }
            }
            return None;
        }
        value = next;
        i = i + 1;
    }
    assert(d.subrange(0, n - start) =~= d);
    Some(value as u8)
}

/// The dot-separated parts of `s`.
fn split_parts(s: &str) -> (r: Vec<Vec<char>>)
    ensures
        r@.len() == split_dots(s@).len(),
        forall|j: int| 0 <= j < r@.len() ==> (#[trigger] r@[j])@ == split_dots(s@)[j],
{
    let n = s.unicode_len();
    let mut parts: Vec<Vec<char>> = Vec::new();
    parts.push(Vec::new());
    assert(s@.subrange(0, 0) =~= Seq::<char>::empty());
    let mut i: usize = 0;
    while i < n
        invariant
            i <= n,
            n == s@.len(),
            parts@.len() == split_dots(s@.subrange(0, i as int)).len(),
            parts@.len() >= 1,
            forall|j: int|
                0 <= j < parts@.len() ==> (#[trigger] parts@[j])@ == split_dots(
                    s@.subrange(0, i as int),
                )[j],
        decreases n - i,
    {
        let c = s.get_char(i);
        let ghost before = parts@;
        assert(s@.subrange(0, i + 1).drop_last() =~= s@.subrange(0, i as int));
        if c == '.' {
            parts.push(Vec::new());
        } else {
            let mut last = parts.pop().unwrap();
            last.push(c);
            parts.push(last);
            assert(forall|j: int|
                0 <= j < parts@.len() - 1 ==> #[trigger] parts@[j] == before[j]);
        }
        i = i + 1;
    }
    assert(s@.subrange(0, n as int) =~= s@);
    parts
}

impl AmsNetId {
    pub fn new(a: u8, b: u8, c: u8, d: u8, e: u8, f: u8) -> (r: AmsNetId)
        ensures
            r@ == seq![a, b, c, d, e, f],
    {
        let r = AmsNetId { net_id: [a, b, c, d, e, f] };
        assert(r@ =~= seq![a, b, c, d, e, f]);
        r
    }

    /// Parses a dotted sextet such as `192.168.1.1.1.1`.
    pub fn parse(net_id: &str) -> (r: Result<AmsNetId, AmsAddressError>)
        ensures
            match parse_net_id(net_id@) {
                Ok(bytes) => r matches Ok(id) && id@ == bytes,
                Err(e) => r == Err::<AmsNetId, AmsAddressError>(e),
            },
    {
        let parts = split_parts(net_id);
        if parts.len() != 6 {
            return Err(AmsAddressError::InvalidAddressLength { length: parts.len() });
        }
        let mut bytes: [u8; 6] = [0; 6];
        let mut j: usize = 0;
        while j < 6
            invariant
                j <= 6,
                parts@.len() == 6,
                split_dots(net_id@).len() == 6,
                forall|k: int| 0 <= k < 6 ==> (#[trigger] parts@[k])@ == split_dots(net_id@)[k],
                forall|k: int|
                    0 <= k < j ==> decimal_u8(#[trigger] split_dots(net_id@)[k]) == Some(
                        bytes@[k],
                    ),
            decreases 6 - j,
        {
            match parse_octet(&parts[j]) {
                Some(v) => {
                    bytes[j] = v;
                },
                None => {
                    let ghost parts_s = split_dots(net_id@);
                    assert(decimal_u8(parts_s[j as int]) is None);
                    assert(forall|k: int| 0 <= k < j ==> decimal_u8(#[trigger] parts_s[k]) is Some);
                    assert(first_bad_part(parts_s) == j) by {
                        let fb = first_bad_part(parts_s);
                        assert(0 <= fb < 6 && decimal_u8(parts_s[fb]) is None && forall|k: int|
                            0 <= k < fb ==> decimal_u8(#[trigger] parts_s[k]) is Some);
                    }
                    return Err(AmsAddressError::ParseError { index: j });
                },
            }
            j = j + 1;
        }
        let r = AmsNetId { net_id: bytes };
        assert(r@ =~= Seq::new(6, |k: int| decimal_u8(split_dots(net_id@)[k])->Some_0));
        Ok(r)
    }

    /// The six id bytes.
    pub fn net_id(&self) -> (r: [u8; 6])
        ensures
            r@ == self@,
    {
        self.net_id
    }

    /// The six id bytes.
    pub fn as_bytes(&self) -> (r: &[u8])
        ensures
            r@ == self@,
    {
        vstd::array::array_as_slice(&self.net_id)
    }

    /// Appends the six id bytes.
    pub fn write_to(&self, out: &mut Vec<u8>)
        ensures
            final(out)@ == old(out)@ + self@,
    {
        crate::wire::put_bytes(out, self.as_bytes());
    }

    /// The id stored at `b[pos..pos + 6]`.
    pub fn read_from(b: &[u8], pos: usize) -> (r: Result<AmsNetId, MalformedFrame>)
        ensures
            pos + 6 <= b@.len() <==> r is Ok,
            r matches Ok(id) ==> id@ == b@.subrange(pos as int, pos + 6),
    {
        if pos > b.len() || b.len() - pos < 6 {
            return Err(MalformedFrame);
        }
        let r = AmsNetId::new(b[pos], b[pos + 1], b[pos + 2], b[pos + 3], b[pos + 4], b[pos + 5]);
        assert(r@ =~= b@.subrange(pos as int, pos + 6));
        Ok(r)
    }
}

impl From<[u8; 6]> for AmsNetId {
    fn from(net_id: [u8; 6]) -> (r: AmsNetId)
        ensures
            r@ == net_id@,
    {
        AmsNetId { net_id }
    }
}

impl vstd::std_specs::convert::FromSpecImpl<[u8; 6]> for AmsNetId {
    open spec fn obeys_from_spec() -> bool {
        true
    }

    open spec fn from_spec(net_id: [u8; 6]) -> AmsNetId {
        AmsNetId { net_id }
    }
}

/// What `to_ams_id` gives for `text`: what `AmsNetId::parse` gives.
pub open spec fn to_ams_id_result(text: Seq<char>, r: Result<AmsNetId, AmsAddressError>) -> bool {
    match parse_net_id(text) {
        Ok(bytes) => r matches Ok(id) && id@ == bytes,
        Err(e) => r == Err::<AmsNetId, AmsAddressError>(e),
    }
}

/// Text that names a network id as a dotted sextet.
pub trait ToAmsId {
    /// The characters of the text.
    spec fn text(&self) -> Seq<char>;

    /// Parses the text as `AmsNetId::parse` does.
    fn to_ams_id(&self) -> (r: Result<AmsNetId, AmsAddressError>)
        ensures
            to_ams_id_result(self.text(), r),
    ;
}

impl ToAmsId for str {
    open spec fn text(&self) -> Seq<char> {
        self@
    }

    fn to_ams_id(&self) -> (r: Result<AmsNetId, AmsAddressError>) {
        AmsNetId::parse(self)
    }
}

impl ToAmsId for String {
    open spec fn text(&self) -> Seq<char> {
        self@
    }

    fn to_ams_id(&self) -> (r: Result<AmsNetId, AmsAddressError>) {
        AmsNetId::parse(self.as_str())
    }
}

impl AmsAddress {
    pub fn new(ams_net_id: AmsNetId, port: u16) -> (r: AmsAddress)
        ensures
            r.ams_net_id == ams_net_id,
            r.port == port,
    {
        AmsAddress { ams_net_id, port }
    }

    /// Appends the eight bytes of the address.
    pub fn write_to(&self, out: &mut Vec<u8>)
        ensures
            final(out)@ == old(out)@ + encode_address(self@),
    {
        let ghost start = out@;
        self.ams_net_id.write_to(out);
        put_u16(out, self.port);
        assert(out@ =~= start + encode_address(self@));
    }

    /// The address stored at `b[pos..pos + 8]`.
    pub fn read_from(b: &[u8], pos: usize) -> (r: Result<AmsAddress, MalformedFrame>)
        ensures
            pos + 8 <= b@.len() <==> r is Ok,
            r matches Ok(a) ==> a@ == address_at(b@, pos as int),
    {
        if pos > b.len() || b.len() - pos < 8 {
            return Err(MalformedFrame);
        }
        let ams_net_id = match AmsNetId::read_from(b, pos) {
            Ok(id) => id,
            Err(e) => return Err(e),
        };
        let port = get_u16(b, pos + 6);
        Ok(AmsAddress { ams_net_id, port })
    }
}

} // verus!
