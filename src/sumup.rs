//! Batch ("sumup") requests: many sub-requests packed into one read-write
//! request, and the sub-results unpacked from its answer in the same order.
use crate::error::{AdsError, ClientError, MalformedFrame};
use crate::request::{ReadRequest, ReadWriteRequest, WriteRequest};
use crate::response::{ReadResponseModel, ReadWriteResponse};
use crate::types::{MAX_SUMUP_COMMANDS, SUMUP_READ_EX, SUMUP_READ_WRITE, SUMUP_WRITE};
use crate::wire::{get_bytes, get_u32, lemma_u32_round_trip, put_bytes, put_u32, u32_at, u32_le};
use vstd::prelude::*;

verus! {

/// The sub-results of a batch, in the order of its sub-requests.
#[derive(Debug, Clone, PartialEq, Eq)]
pub struct SumupReadWriteResponse {
    pub read_write_responses: Vec<ReadWriteResponse>,
}

impl View for SumupReadWriteResponse {
    type V = Seq<ReadResponseModel>;

    open spec fn view(&self) -> Seq<ReadResponseModel> {
        self.read_write_responses@.map_values(|r: ReadWriteResponse| r@)
    }
}

/// The result and length of every sub-result, in order.
pub open spec fn encode_sumup_heads(rs: Seq<ReadResponseModel>) -> Seq<u8>
    decreases rs.len(),
{
    if rs.len() == 0 {
        Seq::empty()
    } else {
        encode_sumup_heads(rs.drop_last()) + u32_le(rs.last().result) + u32_le(rs.last().length)
    }
}

/// The data of every sub-result, in order.
pub open spec fn encode_sumup_data(rs: Seq<ReadResponseModel>) -> Seq<u8>
    decreases rs.len(),
{
    if rs.len() == 0 {
        Seq::empty()
    } else {
        encode_sumup_data(rs.drop_last()) + rs.last().data
    }
}

/// A batch answer: all result and length pairs, then all data.
pub open spec fn encode_sumup(rs: Seq<ReadResponseModel>) -> Seq<u8> {
    encode_sumup_heads(rs) + encode_sumup_data(rs)
}

/// The first `i` of `n` sub-results of `b`, and where the data after them
/// starts: sub-result `k` has the result and length of pair `k`, and the next
/// `length` bytes of the data that follows the `n` pairs.
pub open spec fn parse_sumup_items(b: Seq<u8>, n: nat, i: nat) -> Option<
    (Seq<ReadResponseModel>, int),
>
    decreases i,
{
    if i == 0 {
        Some((Seq::empty(), 8 * n as int))
    } else {
        match parse_sumup_items(b, n, (i - 1) as nat) {
            None => None,
            Some((rs, p)) => {
                let k = i - 1;
                let length = u32_at(b, 8 * k + 4);
                if p + length <= b.len() {
                    Some(
                        (
                            rs.push(
                                ReadResponseModel {
                                    result: u32_at(b, 8 * k),
                                    length,
                                    data: b.subrange(p, p + length),
                                },
                            ),
                            p + length,
                        ),
                    )
                } else {
                    None
                }
            },
        }
    }
}

/// The `n` sub-results of a batch answer.
pub open spec fn parse_sumup(b: Seq<u8>, n: nat) -> Option<Seq<ReadResponseModel>> {
    if b.len() >= 8 * n {
        match parse_sumup_items(b, n, n) {
            Some((rs, _)) => Some(rs),
            None => None,
        }
    } else {
        None
    }
}

proof fn lemma_heads_len(rs: Seq<ReadResponseModel>)
    ensures
        encode_sumup_heads(rs).len() == 8 * rs.len(),
    decreases rs.len(),
{
    if rs.len() > 0 {
        lemma_heads_len(rs.drop_last());
    }
}

proof fn lemma_heads_at(rs: Seq<ReadResponseModel>, k: int)
    requires
        0 <= k < rs.len(),
    ensures
        encode_sumup_heads(rs).subrange(8 * k, 8 * k + 4) == u32_le(rs[k].result),
        encode_sumup_heads(rs).subrange(8 * k + 4, 8 * k + 8) == u32_le(rs[k].length),
    decreases rs.len(),
{
    let init = rs.drop_last();
    lemma_heads_len(init);
    let h = encode_sumup_heads(rs);
    let hi = encode_sumup_heads(init);
    if k < rs.len() - 1 {
        lemma_heads_at(init, k);
        assert(h.subrange(8 * k, 8 * k + 4) =~= hi.subrange(8 * k, 8 * k + 4));
        assert(h.subrange(8 * k + 4, 8 * k + 8) =~= hi.subrange(8 * k + 4, 8 * k + 8));
    } else {
        assert(h.subrange(8 * k, 8 * k + 4) =~= u32_le(rs[k].result));
        assert(h.subrange(8 * k + 4, 8 * k + 8) =~= u32_le(rs[k].length));
    }
}

proof fn lemma_parse_items(rs: Seq<ReadResponseModel>, i: int)
    requires
        0 <= i <= rs.len(),
        forall|k: int| 0 <= k < rs.len() ==> (#[trigger] rs[k]).wf(),
    ensures
        parse_sumup_items(encode_sumup(rs), rs.len(), i as nat) == Some(
            (rs.subrange(0, i), (8 * rs.len() + encode_sumup_data(rs.subrange(0, i)).len()) as int),
        ),
    decreases i,
{
    let b = encode_sumup(rs);
    let n = rs.len();
    lemma_heads_len(rs);
    if i == 0 {
        assert(rs.subrange(0, 0) =~= Seq::<ReadResponseModel>::empty());
    } else {
        let k = i - 1;
        lemma_parse_items(rs, k);
        lemma_heads_at(rs, k);
        let h = encode_sumup_heads(rs);
        assert(b.subrange(8 * k, 8 * k + 4) =~= h.subrange(8 * k, 8 * k + 4));
        assert(b.subrange(8 * k + 4, 8 * k + 8) =~= h.subrange(8 * k + 4, 8 * k + 8));
        lemma_u32_round_trip(b, 8 * k, rs[k].result);
        lemma_u32_round_trip(b, 8 * k + 4, rs[k].length);
        let pre = rs.subrange(0, k);
        let cur = rs.subrange(0, i);
        assert(cur.drop_last() =~= pre);
        let p: int = (8 * n + encode_sumup_data(pre).len()) as int;
        assert(rs[k].wf());
        lemma_data_prefix(rs, i);
        let d = encode_sumup_data(rs);
        assert(encode_sumup_data(cur) == encode_sumup_data(pre) + rs[k].data);
        assert(b.subrange(p, p + rs[k].length) =~= d.subrange(
            encode_sumup_data(pre).len() as int,
            encode_sumup_data(cur).len() as int,
        ));
        assert(d.subrange(0, encode_sumup_data(cur).len() as int).subrange(
            encode_sumup_data(pre).len() as int,
            encode_sumup_data(cur).len() as int,
        ) =~= rs[k].data);
        assert(d.subrange(encode_sumup_data(pre).len() as int, encode_sumup_data(cur).len() as int)
            =~= d.subrange(0, encode_sumup_data(cur).len() as int).subrange(
            encode_sumup_data(pre).len() as int,
            encode_sumup_data(cur).len() as int,
        ));
        assert(b.len() == 8 * n + d.len());
        assert(p + rs[k].length <= b.len());
        assert(b.subrange(p, p + rs[k].length) == rs[k].data);
        assert(pre.push(rs[k]) =~= cur);
        assert(parse_sumup_items(b, n, k as nat) == Some((pre, p)));
    }
}

proof fn lemma_data_prefix(rs: Seq<ReadResponseModel>, i: int)
    requires
        0 <= i <= rs.len(),
    ensures
        encode_sumup_data(rs.subrange(0, i)).len() <= encode_sumup_data(rs).len(),
        encode_sumup_data(rs).subrange(0, encode_sumup_data(rs.subrange(0, i)).len() as int)
            == encode_sumup_data(rs.subrange(0, i)),
    decreases rs.len() - i,
{
    if i < rs.len() {
        lemma_data_prefix(rs, i + 1);
        let a = encode_sumup_data(rs.subrange(0, i));
        let c = encode_sumup_data(rs.subrange(0, i + 1));
        assert(rs.subrange(0, i + 1).drop_last() =~= rs.subrange(0, i));
        assert(c == a + rs[i].data);
        let d = encode_sumup_data(rs);
        assert(d.subrange(0, a.len() as int) =~= d.subrange(0, c.len() as int).subrange(
            0,
            a.len() as int,
        ));
        assert(c.subrange(0, a.len() as int) =~= a);
    } else {
        assert(rs.subrange(0, i) =~= rs);
        assert(encode_sumup_data(rs).subrange(0, encode_sumup_data(rs).len() as int)
            =~= encode_sumup_data(rs));
    }
}

/// Decoding the answer that `n` well-formed sub-results encode to, as a
/// batch of `n`, gives the same sub-results in the same order.
pub proof fn lemma_sumup_round_trip(rs: Seq<ReadResponseModel>)
    requires
        forall|k: int| 0 <= k < rs.len() ==> (#[trigger] rs[k]).wf(),
    ensures
        parse_sumup(encode_sumup(rs), rs.len()) == Some(rs),
{
    lemma_heads_len(rs);
    lemma_parse_items(rs, rs.len() as int);
    assert(rs.subrange(0, rs.len() as int) =~= rs);
}

proof fn lemma_parse_items_stays_none(b: Seq<u8>, n: nat, k: nat, i: nat)
    requires
        k <= i,
        parse_sumup_items(b, n, k) is None,
    ensures
        parse_sumup_items(b, n, i) is None,
    decreases i,
{
    if k < i {
        lemma_parse_items_stays_none(b, n, k, (i - 1) as nat);
    }
}

impl SumupReadWriteResponse {
    pub fn new(read_write_responses: Vec<ReadWriteResponse>) -> (r: Self)
        ensures
            r.read_write_responses@ == read_write_responses@,
    {
        SumupReadWriteResponse { read_write_responses }
    }

    /// Appends all result and length pairs, then all data.
    pub fn write_to(&self, out: &mut Vec<u8>)
        ensures
            final(out)@ == old(out)@ + encode_sumup(self@),
    {
        let ghost start = out@;
        let ghost rs = self@;
        let n = self.read_write_responses.len();
        let mut i: usize = 0;
        while i < n
            invariant
                n == self.read_write_responses@.len(),
                rs == self@,
                i <= n,
                out@ == start + encode_sumup_heads(rs.subrange(0, i as int)),
            decreases n - i,
        {
            let r = &self.read_write_responses[i];
            put_u32(out, r.result.as_u32());
            put_u32(out, r.length);
            assert(rs.subrange(0, i + 1).drop_last() =~= rs.subrange(0, i as int));
            assert(out@ =~= start + encode_sumup_heads(rs.subrange(0, i + 1)));
            i = i + 1;
        }
        assert(rs.subrange(0, n as int) =~= rs);
        let ghost mid = out@;
        let mut j: usize = 0;
        while j < n
            invariant
                n == self.read_write_responses@.len(),
                rs == self@,
                j <= n,
                out@ == mid + encode_sumup_data(rs.subrange(0, j as int)),
            decreases n - j,
        {
            put_bytes(out, self.read_write_responses[j].data.as_slice());
            assert(rs.subrange(0, j + 1).drop_last() =~= rs.subrange(0, j as int));
            assert(out@ =~= mid + encode_sumup_data(rs.subrange(0, j + 1)));
            j = j + 1;
        }
        assert(rs.subrange(0, n as int) =~= rs);
        assert(out@ =~= start + encode_sumup(rs));
    }

    /// The `expected_count` sub-results of a batch answer, in order.
    pub fn read_from(b: &[u8], expected_count: usize) -> (r: Result<Self, MalformedFrame>)
        ensures
            match parse_sumup(b@, expected_count as nat) {
                Some(rs) => r matches Ok(v) && v@ == rs,
                None => r is Err,
            },
            r matches Ok(v) ==> v@.len() == expected_count && forall|k: int|
                0 <= k < expected_count ==> (#[trigger] v.read_write_responses@[k]).result
                    == AdsError::from_code(v.read_write_responses@[k].result.code()),
    {
        let total = b.len();
        if total / 8 < expected_count {
            return Err(MalformedFrame);
        }
        let mut pos: usize = 8 * expected_count;
        let mut responses: Vec<ReadWriteResponse> = Vec::new();
        let mut i: usize = 0;
        while i < expected_count
            invariant
                total == b@.len(),
                8 * expected_count <= total,
                i <= expected_count,
                pos <= total,
                responses@.len() == i,
                forall|k: int|
                    0 <= k < i ==> (#[trigger] responses@[k]).result == AdsError::from_code(
                        responses@[k].result.code(),
                    ),
                parse_sumup_items(b@, expected_count as nat, i as nat) == Some(
                    (responses@.map_values(|r: ReadWriteResponse| r@), pos as int),
                ),
            decreases expected_count - i,
        {
            let result = get_u32(b, 8 * i);
            let length = get_u32(b, 8 * i + 4);
            if ((total - pos) as u64) < length as u64 {
                proof {
                    lemma_parse_items_stays_none(
                        b@,
                        expected_count as nat,
                        (i + 1) as nat,
                        expected_count as nat,
                    );
                }
                return Err(MalformedFrame);
            }
            let end = pos + length as usize;
            let data = get_bytes(b, pos, end);
            let ghost before = responses@;
            responses.push(ReadWriteResponse { result: AdsError::from_u32(result), length, data });
            assert(responses@.map_values(|r: ReadWriteResponse| r@) =~= before.map_values(
                |r: ReadWriteResponse| r@,
            ).push(ReadResponseModel { result, length, data: b@.subrange(pos as int, end as int) }));
            pos = end;
            i = i + 1;
        }
        Ok(SumupReadWriteResponse { read_write_responses: responses })
    }
}

/// The result codes of a batch of writes: one 4-byte code per sub-request.
pub fn read_sumup_write_results(b: &[u8], expected_count: usize) -> (r: Result<
    Vec<AdsError>,
    MalformedFrame,
>)
    ensures
        b@.len() >= 4 * expected_count <==> r is Ok,
        r matches Ok(v) ==> v@.len() == expected_count && forall|k: int|
            0 <= k < expected_count ==> (#[trigger] v@[k]) == AdsError::from_code(u32_at(b@, 4 * k)),
{
    let total = b.len();
    if total / 4 < expected_count {
        return Err(MalformedFrame);
    }
    let mut codes: Vec<AdsError> = Vec::new();
    let mut i: usize = 0;
    while i < expected_count
        invariant
            total == b@.len(),
            4 * expected_count <= b@.len(),
            i <= expected_count,
            codes@.len() == i,
            forall|k: int| 0 <= k < i ==> (#[trigger] codes@[k]) == AdsError::from_code(u32_at(b@, 4 * k)),
        decreases expected_count - i,
    {
        codes.push(AdsError::from_u32(get_u32(b, 4 * i)));
        i = i + 1;
    }
    Ok(codes)
}

// Batch requests.

/// The fixed fields of every read, in order.
pub open spec fn encode_read_heads(rs: Seq<ReadRequest>) -> Seq<u8>
    decreases rs.len(),
{
    if rs.len() == 0 {
        Seq::empty()
    } else {
        encode_read_heads(rs.drop_last()) + u32_le(rs.last().index_group) + u32_le(
            rs.last().index_offset,
        ) + u32_le(rs.last().length)
    }
}

/// The size of the answer to a batch of reads: a result, a length and the
/// data of each.
pub open spec fn read_answer_len(rs: Seq<ReadRequest>) -> nat
    decreases rs.len(),
{
    if rs.len() == 0 {
        0
    } else {
        (read_answer_len(rs.drop_last()) + 8 + rs.last().length) as nat
    }
}

/// The fixed fields of every write, in order.
pub open spec fn encode_write_heads(ws: Seq<crate::request::WriteRequestModel>) -> Seq<u8>
    decreases ws.len(),
{
    if ws.len() == 0 {
        Seq::empty()
    } else {
        encode_write_heads(ws.drop_last()) + u32_le(ws.last().index_group) + u32_le(
            ws.last().index_offset,
        ) + u32_le(ws.last().length)
    }
}

/// The data of every write, in order.
pub open spec fn encode_write_data(ws: Seq<crate::request::WriteRequestModel>) -> Seq<u8>
    decreases ws.len(),
{
    if ws.len() == 0 {
        Seq::empty()
    } else {
        encode_write_data(ws.drop_last()) + ws.last().data
    }
}

/// The fixed fields of every read-write, in order.
pub open spec fn encode_read_write_heads(ws: Seq<crate::request::ReadWriteRequestModel>) -> Seq<
    u8,
>
    decreases ws.len(),
{
    if ws.len() == 0 {
        Seq::empty()
    } else {
        encode_read_write_heads(ws.drop_last()) + u32_le(ws.last().index_group) + u32_le(
            ws.last().index_offset,
        ) + u32_le(ws.last().read_length) + u32_le(ws.last().write_length)
    }
}

/// The data of every read-write, in order.
pub open spec fn encode_read_write_data(ws: Seq<crate::request::ReadWriteRequestModel>) -> Seq<
    u8,
>
    decreases ws.len(),
{
    if ws.len() == 0 {
        Seq::empty()
    } else {
        encode_read_write_data(ws.drop_last()) + ws.last().data
    }
}

/// The size of the answer to a batch of read-writes.
pub open spec fn read_write_answer_len(ws: Seq<crate::request::ReadWriteRequestModel>) -> nat
    decreases ws.len(),
{
    if ws.len() == 0 {
        0
    } else {
        (read_write_answer_len(ws.drop_last()) + 8 + ws.last().read_length) as nat
    }
}

proof fn lemma_read_answer_len_prefix(rs: Seq<ReadRequest>, i: int)
    requires
        0 <= i <= rs.len(),
    ensures
        read_answer_len(rs.subrange(0, i)) <= read_answer_len(rs),
    decreases rs.len() - i,
{
    if i < rs.len() {
        lemma_read_answer_len_prefix(rs, i + 1);
        assert(rs.subrange(0, i + 1).drop_last() =~= rs.subrange(0, i));
    } else {
        assert(rs.subrange(0, i) =~= rs);
    }
}

proof fn lemma_read_write_answer_len_prefix(ws: Seq<crate::request::ReadWriteRequestModel>, i: int)
    requires
        0 <= i <= ws.len(),
    ensures
        read_write_answer_len(ws.subrange(0, i)) <= read_write_answer_len(ws),
    decreases ws.len() - i,
{
    if i < ws.len() {
        lemma_read_write_answer_len_prefix(ws, i + 1);
        assert(ws.subrange(0, i + 1).drop_last() =~= ws.subrange(0, i));
    } else {
        assert(ws.subrange(0, i) =~= ws);
    }
}

/// Packs reads into one request of the batch-read group whose results carry
/// their lengths: the offset is the count, the payload is every read's fixed
/// fields in order, and the read length is the size of the answer.
pub fn sumup_read_request(requests: &Vec<ReadRequest>) -> (r: Result<ReadWriteRequest, ClientError>)
    requires
        read_answer_len(requests@) <= u32::MAX,
    ensures
        requests@.len() > MAX_SUMUP_COMMANDS <==> r == Err::<ReadWriteRequest, ClientError>(
            ClientError::BatchTooLarge,
        ),
        requests@.len() <= MAX_SUMUP_COMMANDS ==> r is Ok,
        r matches Ok(q) ==> q@ == (crate::request::ReadWriteRequestModel {
            index_group: SUMUP_READ_EX,
            index_offset: requests@.len() as u32,
            read_length: read_answer_len(requests@) as u32,
            write_length: encode_read_heads(requests@).len() as u32,
            data: encode_read_heads(requests@),
        }),
{
    let n = requests.len();
    if n > MAX_SUMUP_COMMANDS {
        return Err(ClientError::BatchTooLarge);
    }
    let ghost rs = requests@;
    let mut data: Vec<u8> = Vec::new();
    let mut answer: u32 = 0;
    let mut i: usize = 0;
    while i < n
        invariant
            n == requests@.len(),
            n <= MAX_SUMUP_COMMANDS,
            rs == requests@,
            i <= n,
            read_answer_len(rs) <= u32::MAX,
            answer == read_answer_len(rs.subrange(0, i as int)),
            data@ == encode_read_heads(rs.subrange(0, i as int)),
            data@.len() == 12 * i,
        decreases n - i,
    {
        let q = requests[i];
        proof {
            lemma_read_answer_len_prefix(rs, i + 1);
            assert(rs.subrange(0, i + 1).drop_last() =~= rs.subrange(0, i as int));
        }
        put_u32(&mut data, q.index_group);
        put_u32(&mut data, q.index_offset);
        put_u32(&mut data, q.length);
        answer = answer + 8 + q.length;
        assert(data@ =~= encode_read_heads(rs.subrange(0, i + 1)));
        i = i + 1;
    }
    assert(rs.subrange(0, n as int) =~= rs);
    let write_length = data.len() as u32;
    Ok(ReadWriteRequest::new(SUMUP_READ_EX, n as u32, answer, write_length, data))
}

/// Packs writes into one request of the batch-write group: the offset is
/// the count, the payload is every write's fixed fields in order followed by
/// every write's data in order, and the read length is one result code each.
pub fn sumup_write_request(requests: &Vec<WriteRequest>) -> (r: Result<ReadWriteRequest, ClientError>)
    requires
        encode_write_heads(requests@.map_values(|w: WriteRequest| w@)).len() + encode_write_data(
            requests@.map_values(|w: WriteRequest| w@),
        ).len() <= u32::MAX,
    ensures
        requests@.len() > MAX_SUMUP_COMMANDS <==> r == Err::<ReadWriteRequest, ClientError>(
            ClientError::BatchTooLarge,
        ),
        requests@.len() <= MAX_SUMUP_COMMANDS ==> r is Ok,
        r matches Ok(q) ==> {
            let ws = requests@.map_values(|w: WriteRequest| w@);
            let payload = encode_write_heads(ws) + encode_write_data(ws);
            q@ == (crate::request::ReadWriteRequestModel {
                index_group: SUMUP_WRITE,
                index_offset: requests@.len() as u32,
                read_length: (4 * requests@.len()) as u32,
                write_length: payload.len() as u32,
                data: payload,
            })
        },
{
    let n = requests.len();
    if n > MAX_SUMUP_COMMANDS {
        return Err(ClientError::BatchTooLarge);
    }
    let ghost ws = requests@.map_values(|w: WriteRequest| w@);
    let mut data: Vec<u8> = Vec::new();
    let mut i: usize = 0;
    while i < n
        invariant
            n == requests@.len(),
            ws == requests@.map_values(|w: WriteRequest| w@),
            i <= n,
            data@ == encode_write_heads(ws.subrange(0, i as int)),
        decreases n - i,
    {
        let q = &requests[i];
        put_u32(&mut data, q.index_group);
        put_u32(&mut data, q.index_offset);
        put_u32(&mut data, q.length);
        assert(ws.subrange(0, i + 1).drop_last() =~= ws.subrange(0, i as int));
        assert(data@ =~= encode_write_heads(ws.subrange(0, i + 1)));
        i = i + 1;
    }
    assert(ws.subrange(0, n as int) =~= ws);
    let ghost heads = data@;
    let mut j: usize = 0;
    while j < n
        invariant
            n == requests@.len(),
            ws == requests@.map_values(|w: WriteRequest| w@),
            j <= n,
            data@ == heads + encode_write_data(ws.subrange(0, j as int)),
        decreases n - j,
    {
        put_bytes(&mut data, requests[j].data.as_slice());
        assert(ws.subrange(0, j + 1).drop_last() =~= ws.subrange(0, j as int));
        assert(data@ =~= heads + encode_write_data(ws.subrange(0, j + 1)));
        j = j + 1;
    }
    assert(ws.subrange(0, n as int) =~= ws);
    let write_length = data.len() as u32;
    Ok(ReadWriteRequest::new(SUMUP_WRITE, n as u32, (4 * n) as u32, write_length, data))
}

/// Packs read-writes into one request of the batch-read-write group (used to
/// acquire many symbol handles at once): the offset is the count, the payload
/// is every fixed part in order followed by every data block in order, and
/// the read length is the size of the answer.
pub fn sumup_read_write_request(requests: &Vec<ReadWriteRequest>) -> (r: Result<
    ReadWriteRequest,
    ClientError,
>)
    requires
        read_write_answer_len(requests@.map_values(|w: ReadWriteRequest| w@)) <= u32::MAX,
        encode_read_write_heads(requests@.map_values(|w: ReadWriteRequest| w@)).len()
            + encode_read_write_data(requests@.map_values(|w: ReadWriteRequest| w@)).len()
            <= u32::MAX,
    ensures
        requests@.len() > MAX_SUMUP_COMMANDS <==> r == Err::<ReadWriteRequest, ClientError>(
            ClientError::BatchTooLarge,
        ),
        requests@.len() <= MAX_SUMUP_COMMANDS ==> r is Ok,
        r matches Ok(q) ==> {
            let ws = requests@.map_values(|w: ReadWriteRequest| w@);
            let payload = encode_read_write_heads(ws) + encode_read_write_data(ws);
            q@ == (crate::request::ReadWriteRequestModel {
                index_group: SUMUP_READ_WRITE,
                index_offset: requests@.len() as u32,
                read_length: read_write_answer_len(ws) as u32,
                write_length: payload.len() as u32,
                data: payload,
            })
        },
{
    let n = requests.len();
    if n > MAX_SUMUP_COMMANDS {
        return Err(ClientError::BatchTooLarge);
    }
    let ghost ws = requests@.map_values(|w: ReadWriteRequest| w@);
    let mut data: Vec<u8> = Vec::new();
    let mut answer: u32 = 0;
    let mut i: usize = 0;
    while i < n
        invariant
            n == requests@.len(),
            ws == requests@.map_values(|w: ReadWriteRequest| w@),
            i <= n,
            read_write_answer_len(ws) <= u32::MAX,
            answer == read_write_answer_len(ws.subrange(0, i as int)),
            data@ == encode_read_write_heads(ws.subrange(0, i as int)),
        decreases n - i,
    {
        let q = &requests[i];
        proof {
            lemma_read_write_answer_len_prefix(ws, i + 1);
            assert(ws.subrange(0, i + 1).drop_last() =~= ws.subrange(0, i as int));
        }
        put_u32(&mut data, q.index_group);
        put_u32(&mut data, q.index_offset);
        put_u32(&mut data, q.read_length);
        put_u32(&mut data, q.write_length);
        answer = answer + 8 + q.read_length;
        assert(data@ =~= encode_read_write_heads(ws.subrange(0, i + 1)));
        i = i + 1;
    }
    assert(ws.subrange(0, n as int) =~= ws);
    let ghost heads = data@;
    let mut j: usize = 0;
    while j < n
        invariant
            n == requests@.len(),
            ws == requests@.map_values(|w: ReadWriteRequest| w@),
            j <= n,
            data@ == heads + encode_read_write_data(ws.subrange(0, j as int)),
        decreases n - j,
    {
        put_bytes(&mut data, requests[j].data.as_slice());
        assert(ws.subrange(0, j + 1).drop_last() =~= ws.subrange(0, j as int));
        assert(data@ =~= heads + encode_read_write_data(ws.subrange(0, j + 1)));
        j = j + 1;
    }
    assert(ws.subrange(0, n as int) =~= ws);
    let write_length = data.len() as u32;
    Ok(ReadWriteRequest::new(SUMUP_READ_WRITE, n as u32, answer, write_length, data))
}

} // verus!
