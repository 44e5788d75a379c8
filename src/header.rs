//! Message framing: the AMS header and the transport header before it.
use crate::address::{address_at, encode_address, lemma_address_round_trip, AmsAddress, AmsAddressModel};
use crate::error::{AdsError, MalformedFrame};
use crate::request::{encode_request, Request};
use crate::response::{parse_response, Response};
use crate::types::{AdsCommandId, StateFlags};
use crate::wire::{
    get_bytes, get_u16, get_u32, lemma_u16_round_trip, lemma_u32_round_trip, put_bytes, put_u16,
    put_u32, u16_at, u16_le, u32_at, u32_le,
};
use vstd::prelude::*;

verus! {

/// Bytes of the fixed part of an AMS header.
pub const FIX_AMS_HEADER_LEN: u32 = 32;

/// Bytes of the transport header and the fixed AMS header together.
pub const AMS_TCP_PREFIX_LEN: usize = 38;

/// An AMS header with its payload.
#[derive(Debug, Clone, PartialEq, Eq)]
pub struct AmsHeader {
    pub ams_address_targed: AmsAddress,
    pub ams_address_source: AmsAddress,
    pub command_id: AdsCommandId,
    pub state_flags: StateFlags,
    pub length: u32,
    pub ads_error: AdsError,
    pub invoke_id: u32,
    pub data: Vec<u8>,
}

/// The transport header: two reserved bytes and the length of what follows.
#[derive(Debug, Clone, PartialEq, Eq)]
pub struct AmsTcpHeader {
    pub reserved: [u8; 2],
    pub length: u32,
    pub ams_header: AmsHeader,
}

pub struct AmsHeaderModel {
    pub target: AmsAddressModel,
    pub source: AmsAddressModel,
    pub command_id: AdsCommandId,
    pub state_flags: u16,
    pub length: u32,
    pub error_code: u32,
    pub invoke_id: u32,
    pub data: Seq<u8>,
}

pub struct AmsTcpHeaderModel {
    pub reserved: Seq<u8>,
    pub length: u32,
    pub header: AmsHeaderModel,
}

impl View for AmsHeader {
    type V = AmsHeaderModel;

    open spec fn view(&self) -> AmsHeaderModel {
        AmsHeaderModel {
            target: self.ams_address_targed@,
            source: self.ams_address_source@,
            command_id: self.command_id,
            state_flags: self.state_flags.value,
            length: self.length,
            error_code: self.ads_error.code(),
            invoke_id: self.invoke_id,
            data: self.data@,
        }
    }
}

impl View for AmsTcpHeader {
    type V = AmsTcpHeaderModel;

    open spec fn view(&self) -> AmsTcpHeaderModel {
        AmsTcpHeaderModel { reserved: self.reserved@, length: self.length, header: self.ams_header@ }
    }
}

impl AmsHeaderModel {
    /// Six-byte ids, and a declared payload length equal to the payload's.
    pub open spec fn wf(self) -> bool {
        &&& self.target.net_id.len() == 6
        &&& self.source.net_id.len() == 6
        &&& self.length == self.data.len()
    }
}

impl AmsTcpHeaderModel {
    /// Two reserved bytes, and a declared length of the fixed header plus
    /// the payload.
    pub open spec fn wf(self) -> bool {
        &&& self.reserved.len() == 2
        &&& self.header.wf()
        &&& self.length == 32 + self.header.data.len()
    }
}

pub open spec fn encode_header(h: AmsHeaderModel) -> Seq<u8> {
    encode_address(h.target) + encode_address(h.source) + u16_le(h.command_id.value()) + u16_le(
        h.state_flags,
    ) + u32_le(h.length) + u32_le(h.error_code) + u32_le(h.invoke_id) + h.data
}

pub open spec fn encode_frame(f: AmsTcpHeaderModel) -> Seq<u8> {
    f.reserved + u32_le(f.length) + encode_header(f.header)
}

/// The header at the start of `b`, with exactly its declared payload length.
pub open spec fn parse_header(b: Seq<u8>) -> Option<AmsHeaderModel> {
    if b.len() >= 32 && AdsCommandId::from_value(u16_at(b, 16)) is Some && 32 + u32_at(b, 20)
        <= b.len() {
        Some(
            AmsHeaderModel {
                target: address_at(b, 0),
                source: address_at(b, 8),
                command_id: AdsCommandId::from_value(u16_at(b, 16))->Some_0,
                state_flags: u16_at(b, 18),
                length: u32_at(b, 20),
                error_code: u32_at(b, 24),
                invoke_id: u32_at(b, 28),
                data: b.subrange(32, 32 + u32_at(b, 20)),
            },
        )
    } else {
        None
    }
}

/// The frame at the start of `b`: the header is read from the declared
/// length that follows the reserved bytes.
pub open spec fn parse_frame(b: Seq<u8>) -> Option<AmsTcpHeaderModel> {
    if b.len() >= 6 && 6 + u32_at(b, 2) <= b.len() {
        match parse_header(b.subrange(6, 6 + u32_at(b, 2))) {
            Some(h) => Some(
                AmsTcpHeaderModel { reserved: b.subrange(0, 2), length: u32_at(b, 2), header: h },
            ),
            None => None,
        }
    } else {
        None
    }
}

/// Decoding the encoding of a well-formed header gives it back.
pub proof fn lemma_header_round_trip(h: AmsHeaderModel)
    requires
        h.wf(),
    ensures
        parse_header(encode_header(h)) == Some(h),
{
    let b = encode_header(h);
    assert(b.subrange(0, 8) =~= encode_address(h.target));
    assert(b.subrange(8, 16) =~= encode_address(h.source));
    assert(b.subrange(16, 18) =~= u16_le(h.command_id.value()));
    assert(b.subrange(18, 20) =~= u16_le(h.state_flags));
    assert(b.subrange(20, 24) =~= u32_le(h.length));
    assert(b.subrange(24, 28) =~= u32_le(h.error_code));
    assert(b.subrange(28, 32) =~= u32_le(h.invoke_id));
    lemma_address_round_trip(b, 0, h.target);
    lemma_address_round_trip(b, 8, h.source);
    lemma_u16_round_trip(b, 16, h.command_id.value());
    lemma_u16_round_trip(b, 18, h.state_flags);
    lemma_u32_round_trip(b, 20, h.length);
    lemma_u32_round_trip(b, 24, h.error_code);
    lemma_u32_round_trip(b, 28, h.invoke_id);
    assert(b.subrange(32, 32 + h.length) =~= h.data);
}

/// Decoding the encoding of a well-formed frame gives it back.
pub proof fn lemma_frame_round_trip(f: AmsTcpHeaderModel)
    requires
        f.wf(),
    ensures
        parse_frame(encode_frame(f)) == Some(f),
{
    let b = encode_frame(f);
    assert(b.subrange(2, 6) =~= u32_le(f.length));
    lemma_u32_round_trip(b, 2, f.length);
    assert(b.subrange(6, 6 + f.length) =~= encode_header(f.header));
    lemma_header_round_trip(f.header);
    assert(b.subrange(0, 2) =~= f.reserved);
}

impl AmsHeader {
    /// A header that carries the payload of `request`.
    pub fn new(
        ams_address_targed: AmsAddress,
        ams_address_source: AmsAddress,
        state_flags: StateFlags,
        invoke_id: u32,
        request: Request,
    ) -> (r: Self)
        requires
            encode_request(request@).len() + 32 <= u32::MAX,
        ensures
            r.ams_address_targed == ams_address_targed,
            r.ams_address_source == ams_address_source,
            r.command_id == request@.command_id(),
            r.state_flags == state_flags,
            r.ads_error == AdsError::ErrNoError,
            r.invoke_id == invoke_id,
            r.data@ == encode_request(request@),
            r.length == r.data@.len(),
            r@.wf(),
    {
        let mut data: Vec<u8> = Vec::new();
        request.write_to(&mut data);
        assert(data@ =~= encode_request(request@));
        let length = data.len() as u32;
        AmsHeader {
            ams_address_targed,
            ams_address_source,
            command_id: request.command_id(),
            state_flags,
            length,
            ads_error: AdsError::ErrNoError,
            invoke_id,
            data,
        }
    }

    pub fn source_addr(&self) -> (r: AmsAddress)
        ensures
            r == self.ams_address_source,
    {
        self.ams_address_source
    }

    pub fn target_addr(&self) -> (r: AmsAddress)
        ensures
            r == self.ams_address_targed,
    {
        self.ams_address_targed
    }

    pub fn command_id(&self) -> (r: AdsCommandId)
        ensures
            r == self.command_id,
    {
        self.command_id
    }

    pub fn invoke_id(&self) -> (r: u32)
        ensures
            r == self.invoke_id,
    {
        self.invoke_id
    }

    pub fn ads_error(&self) -> (r: AdsError)
        ensures
            r == self.ads_error,
    {
        self.ads_error
    }

    /// The declared payload length.
    pub fn data_len(&self) -> (r: u32)
        ensures
            r == self.length,
    {
        self.length
    }

    /// The size of the header with its payload.
    pub fn header_len(&self) -> (r: u32)
        requires
            self.data@.len() + 32 <= u32::MAX,
        ensures
            r == self.data@.len() + 32,
    {
        self.data.len() as u32 + FIX_AMS_HEADER_LEN
    }

    /// Replaces the payload; the declared length is left as it is.
    pub fn update_data(&mut self, buf: Vec<u8>)
        ensures
            final(self).data@ == buf@,
            final(self).ams_address_targed == old(self).ams_address_targed,
            final(self).ams_address_source == old(self).ams_address_source,
            final(self).command_id == old(self).command_id,
            final(self).state_flags == old(self).state_flags,
            final(self).length == old(self).length,
            final(self).ads_error == old(self).ads_error,
            final(self).invoke_id == old(self).invoke_id,
    {
        self.data = buf;
    }

    /// Decodes the payload as the answer to the header's command.
    pub fn response(&self) -> (r: Result<Response, MalformedFrame>)
        ensures
            match parse_response(self.command_id, self.data@) {
                Some(m) => r matches Ok(v) && v@ == m,
                None => r is Err,
            },
            r matches Ok(v) ==> v.has_named_result(),
    {
        Response::read_from(self.command_id, self.data.as_slice())
    }

    pub fn write_to(&self, out: &mut Vec<u8>)
        ensures
            final(out)@ == old(out)@ + encode_header(self@),
    {
        let ghost start = out@;
        self.ams_address_targed.write_to(out);
        self.ams_address_source.write_to(out);
        put_u16(out, self.command_id.as_u16());
        put_u16(out, self.state_flags.value);
        put_u32(out, self.length);
        put_u32(out, self.ads_error.as_u32());
        put_u32(out, self.invoke_id);
        put_bytes(out, self.data.as_slice());
        assert(out@ =~= start + encode_header(self@));
    }

    /// The header at the start of `b`.
    pub fn read_from(b: &[u8]) -> (r: Result<Self, MalformedFrame>)
        ensures
            match parse_header(b@) {
                Some(m) => r matches Ok(v) && v@ == m,
                None => r is Err,
            },
            r matches Ok(v) ==> v.ads_error == AdsError::from_code(v.ads_error.code()),
    {
        let n = b.len();
        if n < 32 {
            return Err(MalformedFrame);
        }
        let ams_address_targed = match AmsAddress::read_from(b, 0) {
            Ok(a) => a,
            Err(e) => return Err(e),
        };
        let ams_address_source = match AmsAddress::read_from(b, 8) {
            Ok(a) => a,
            Err(e) => return Err(e),
        };
        let command_id = match AdsCommandId::from_u16(get_u16(b, 16)) {
            Some(c) => c,
            None => return Err(MalformedFrame),
        };
        let state_flags = StateFlags { value: get_u16(b, 18) };
        let length = get_u32(b, 20);
        if ((n - 32) as u64) < length as u64 {
            return Err(MalformedFrame);
        }
        let ads_error = AdsError::from_u32(get_u32(b, 24));
        let invoke_id = get_u32(b, 28);
        let data = get_bytes(b, 32, 32 + length as usize);
        Ok(
            AmsHeader {
                ams_address_targed,
                ams_address_source,
                command_id,
                state_flags,
                length,
                ads_error,
                invoke_id,
                data,
            },
        )
    }
}

impl From<AmsHeader> for AmsTcpHeader {
    /// Frames a header: zero reserved bytes and the header's size.
    fn from(ams_header: AmsHeader) -> (r: AmsTcpHeader)
        ensures
            r.reserved@ == seq![0u8, 0u8],
            ams_header.data@.len() + 32 <= u32::MAX ==> r.length == ams_header.data@.len() + 32,
            r.ams_header == ams_header,
    {
        let length = (#[verifier::truncate] (ams_header.data.len() as u32)).wrapping_add(FIX_AMS_HEADER_LEN);
        let reserved: [u8; 2] = [0, 0];
        assert(reserved@ =~= seq![0u8, 0u8]);
        AmsTcpHeader { reserved, length, ams_header }
    }
}

impl vstd::std_specs::convert::FromSpecImpl<AmsHeader> for AmsTcpHeader {
    open spec fn obeys_from_spec() -> bool {
        true
    }

    open spec fn from_spec(ams_header: AmsHeader) -> AmsTcpHeader {
        AmsTcpHeader {
            reserved: [0u8, 0u8],
            length: (ams_header.data@.len() as u32).wrapping_add(FIX_AMS_HEADER_LEN),
            ams_header,
        }
    }
}

impl AmsTcpHeader {
    pub fn command_id(&self) -> (r: AdsCommandId)
        ensures
            r == self.ams_header.command_id,
    {
        self.ams_header.command_id
    }

    pub fn invoke_id(&self) -> (r: u32)
        ensures
            r == self.ams_header.invoke_id,
    {
        self.ams_header.invoke_id
    }

    pub fn ads_error(&self) -> (r: AdsError)
        ensures
            r == self.ams_header.ads_error,
    {
        self.ams_header.ads_error
    }

    /// Decodes the payload as the answer to the header's command.
    pub fn response(&self) -> (r: Result<Response, MalformedFrame>)
        ensures
            match parse_response(self.ams_header.command_id, self.ams_header.data@) {
                Some(m) => r matches Ok(v) && v@ == m,
                None => r is Err,
            },
            r matches Ok(v) ==> v.has_named_result(),
    {
        self.ams_header.response()
    }

    /// The declared payload length of the AMS header.
    pub fn response_data_len(&self) -> (r: u32)
        ensures
            r == self.ams_header.length,
    {
        self.ams_header.length
    }

    /// Replaces the payload of the AMS header.
    pub fn update_response_data(&mut self, buf: Vec<u8>)
        ensures
            final(self).ams_header.data@ == buf@,
            final(self).ams_header.ams_address_targed == old(self).ams_header.ams_address_targed,
            final(self).ams_header.ams_address_source == old(self).ams_header.ams_address_source,
            final(self).ams_header.state_flags == old(self).ams_header.state_flags,
            final(self).ams_header.length == old(self).ams_header.length,
            final(self).ams_header.command_id == old(self).ams_header.command_id,
            final(self).ams_header.invoke_id == old(self).ams_header.invoke_id,
            final(self).ams_header.ads_error == old(self).ams_header.ads_error,
            final(self).length == old(self).length,
            final(self).reserved == old(self).reserved,
    {
        self.ams_header.update_data(buf);
    }

    pub fn write_to(&self, out: &mut Vec<u8>)
        ensures
            final(out)@ == old(out)@ + encode_frame(self@),
    {
        let ghost start = out@;
        put_bytes(out, vstd::array::array_as_slice(&self.reserved));
        put_u32(out, self.length);
        self.ams_header.write_to(out);
        assert(out@ =~= start + encode_frame(self@));
    }

    /// The length that a frame's first six bytes declare for the rest.
    pub fn declared_len(b: &[u8]) -> (r: Result<u32, MalformedFrame>)
        ensures
            b@.len() >= 6 <==> r is Ok,
            r matches Ok(l) ==> l == u32_at(b@, 2),
    {
        if b.len() < 6 {
            return Err(MalformedFrame);
        }
        Ok(get_u32(b, 2))
    }

    /// The frame at the start of `b`.
    pub fn read_from(b: &[u8]) -> (r: Result<Self, MalformedFrame>)
        ensures
            match parse_frame(b@) {
                Some(m) => r matches Ok(v) && v@ == m,
                None => r is Err,
            },
            r matches Ok(v) ==> v.ams_header.ads_error == AdsError::from_code(
                v.ams_header.ads_error.code(),
            ),
    {
        let n = b.len();
        if n < 6 {
            return Err(MalformedFrame);
        }
        let length = get_u32(b, 2);
        if ((n - 6) as u64) < length as u64 {
            return Err(MalformedFrame);
        }
        let body = get_bytes(b, 6, 6 + length as usize);
        let ams_header = match AmsHeader::read_from(body.as_slice()) {
            Ok(h) => h,
            Err(e) => return Err(e),
        };
        let reserved: [u8; 2] = [b[0], b[1]];
        assert(reserved@ =~= b@.subrange(0, 2));
        Ok(AmsTcpHeader { reserved, length, ams_header })
    }
}

} // verus!
