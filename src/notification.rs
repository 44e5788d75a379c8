//! The notification stream a device pushes: stamps of samples.
use crate::error::MalformedFrame;
use crate::wire::{
    get_bytes, get_u32, get_u64, lemma_u32_round_trip, lemma_u64_round_trip, put_bytes, put_u32,
    put_u64, u32_at, u32_le, u64_at, u64_le,
};
use vstd::prelude::*;

verus! {

/// One changed value: the notification handle it belongs to and its bytes.
#[derive(Debug, Clone, PartialEq, Eq)]
pub struct AdsNotificationSample {
    pub notification_handle: u32,
    pub sample_size: u32,
    pub data: Vec<u8>,
}

/// The samples taken at one time stamp.
#[derive(Debug, Clone, PartialEq, Eq)]
pub struct AdsStampHeader {
    pub time_stamp: u64,
    pub samples: u32,
    pub notification_samples: Vec<AdsNotificationSample>,
}

/// A whole push message: `length` bytes of `stamps` stamps.
#[derive(Debug, Clone, PartialEq, Eq)]
pub struct AdsNotificationStream {
    pub length: u32,
    pub stamps: u32,
    pub ads_stamp_headers: Vec<AdsStampHeader>,
}

pub struct SampleModel {
    pub notification_handle: u32,
    pub sample_size: u32,
    pub data: Seq<u8>,
}

pub struct StampModel {
    pub time_stamp: u64,
    pub samples: u32,
    pub notification_samples: Seq<SampleModel>,
}

pub struct StreamModel {
    pub length: u32,
    pub stamps: u32,
    pub ads_stamp_headers: Seq<StampModel>,
}

impl View for AdsNotificationSample {
    type V = SampleModel;

    open spec fn view(&self) -> SampleModel {
        SampleModel {
            notification_handle: self.notification_handle,
            sample_size: self.sample_size,
            data: self.data@,
        }
    }
}

impl View for AdsStampHeader {
    type V = StampModel;

    open spec fn view(&self) -> StampModel {
        StampModel {
            time_stamp: self.time_stamp,
            samples: self.samples,
            notification_samples: self.notification_samples@.map_values(
                |s: AdsNotificationSample| s@,
            ),
        }
    }
}

impl View for AdsNotificationStream {
    type V = StreamModel;

    open spec fn view(&self) -> StreamModel {
        StreamModel {
            length: self.length,
            stamps: self.stamps,
            ads_stamp_headers: self.ads_stamp_headers@.map_values(|s: AdsStampHeader| s@),
        }
    }
}

// Wire layout.

pub open spec fn encode_sample(s: SampleModel) -> Seq<u8> {
    u32_le(s.notification_handle) + u32_le(s.sample_size) + s.data
}

pub open spec fn encode_samples(ss: Seq<SampleModel>) -> Seq<u8>
    decreases ss.len(),
{
    if ss.len() == 0 {
        Seq::empty()
    } else {
        encode_samples(ss.drop_last()) + encode_sample(ss.last())
    }
}

pub open spec fn encode_stamp(t: StampModel) -> Seq<u8> {
    u64_le(t.time_stamp) + u32_le(t.samples) + encode_samples(t.notification_samples)
}

pub open spec fn encode_stamps(ts: Seq<StampModel>) -> Seq<u8>
    decreases ts.len(),
{
    if ts.len() == 0 {
        Seq::empty()
    } else {
        encode_stamps(ts.drop_last()) + encode_stamp(ts.last())
    }
}

pub open spec fn encode_stream(m: StreamModel) -> Seq<u8> {
    u32_le(m.length) + u32_le(m.stamps) + encode_stamps(m.ads_stamp_headers)
}

// Parsing.

/// The `n` samples that start at `b[pos]`, and the position after them.
pub open spec fn parse_samples(b: Seq<u8>, pos: int, n: nat) -> Option<(Seq<SampleModel>, int)>
    decreases n,
{
    if n == 0 {
        Some((Seq::empty(), pos))
    } else {
        match parse_samples(b, pos, (n - 1) as nat) {
            None => None,
            Some((ss, p)) => {
                if p + 8 <= b.len() && p + 8 + u32_at(b, p + 4) <= b.len() {
                    let size = u32_at(b, p + 4);
                    Some(
                        (
                            ss.push(
                                SampleModel {
                                    notification_handle: u32_at(b, p),
                                    sample_size: size,
                                    data: b.subrange(p + 8, p + 8 + size),
                                },
                            ),
                            p + 8 + size,
                        ),
                    )
                } else {
                    None
                }
            },
        }
    }
}

/// The stamp at the start of `seg`; bytes after its samples are ignored.
pub open spec fn parse_stamp(seg: Seq<u8>) -> Option<StampModel> {
    if seg.len() >= 12 {
        match parse_samples(seg, 12, u32_at(seg, 8) as nat) {
            Some((ss, _)) => Some(
                StampModel {
                    time_stamp: u64_at(seg, 0),
                    samples: u32_at(seg, 8),
                    notification_samples: ss,
                },
            ),
            None => None,
        }
    } else {
        None
    }
}

/// The `n` stamps that start at `b[pos]`, each read from its own extent of
/// `extent` bytes.
pub open spec fn parse_stamps(b: Seq<u8>, pos: int, n: nat, extent: int) -> Option<
    Seq<StampModel>,
>
    decreases n,
{
    if n == 0 {
        Some(Seq::empty())
    } else {
        match parse_stamps(b, pos, (n - 1) as nat, extent) {
            None => None,
            Some(ts) => {
                let start = pos + (n - 1) * extent;
                match parse_stamp(b.subrange(start, start + extent)) {
                    Some(t) => Some(ts.push(t)),
                    None => None,
                }
            },
        }
    }
}

/// The extent of each stamp: the declared length divided by the stamp count.
pub open spec fn stamp_extent(length: u32, stamps: u32) -> int {
    if stamps == 0 {
        0
    } else {
        length as int / stamps as int
    }
}

/// The stream at the start of `b`.
pub open spec fn parse_stream(b: Seq<u8>) -> Option<StreamModel> {
    if b.len() < 8 {
        None
    } else {
        let length = u32_at(b, 0);
        let stamps = u32_at(b, 4);
        let extent = stamp_extent(length, stamps);
        if b.len() < 8 + stamps * extent {
            None
        } else {
            match parse_stamps(b, 8, stamps as nat, extent) {
                Some(ts) => Some(StreamModel { length, stamps, ads_stamp_headers: ts }),
                None => None,
            }
        }
    }
}

// Well-formedness.

impl SampleModel {
    pub open spec fn wf(self) -> bool {
        self.sample_size == self.data.len()
    }
}

impl StampModel {
    pub open spec fn wf(self) -> bool {
        &&& self.samples == self.notification_samples.len()
        &&& forall|k: int|
            0 <= k < self.notification_samples.len() ==> (#[trigger] self.notification_samples[k]).wf()
    }
}

impl StreamModel {
    /// The stamp count matches the stamps, every stamp is well formed and
    /// has the same encoded size, and the declared length is their sum.
    pub open spec fn wf(self) -> bool {
        &&& self.stamps == self.ads_stamp_headers.len()
        &&& forall|k: int|
            0 <= k < self.ads_stamp_headers.len() ==> (#[trigger] self.ads_stamp_headers[k]).wf()
        &&& forall|k: int|
            0 <= k < self.ads_stamp_headers.len() ==> encode_stamp(
                #[trigger] self.ads_stamp_headers[k],
            ).len() == encode_stamp(self.ads_stamp_headers[0]).len()
        &&& self.length == encode_stamps(self.ads_stamp_headers).len()
    }
}

// Round trips.

proof fn lemma_parse_samples_round_trip(b: Seq<u8>, pos: int, ss: Seq<SampleModel>)
    requires
        0 <= pos,
        pos + encode_samples(ss).len() <= b.len(),
        b.subrange(pos, pos + encode_samples(ss).len()) == encode_samples(ss),
        forall|k: int| 0 <= k < ss.len() ==> (#[trigger] ss[k]).wf(),
    ensures
        parse_samples(b, pos, ss.len()) == Some((ss, pos + encode_samples(ss).len())),
    decreases ss.len(),
{
    if ss.len() > 0 {
        let init = ss.drop_last();
        let last = ss.last();
        let ei = encode_samples(init);
        let el = encode_sample(last);
        let p = pos + ei.len();
        assert(encode_samples(ss) == ei + el);
        assert(b.subrange(pos, p) =~= b.subrange(pos, pos + encode_samples(ss).len()).subrange(
            0,
            ei.len() as int,
        ));
        assert forall|k: int| 0 <= k < init.len() implies (#[trigger] init[k]).wf() by {
            assert(init[k] == ss[k]);
        }
        assert((ei + el).subrange(0, ei.len() as int) =~= ei);
        lemma_parse_samples_round_trip(b, pos, init);
        let seg = b.subrange(p, p + el.len());
        assert(seg =~= b.subrange(pos, pos + encode_samples(ss).len()).subrange(
            ei.len() as int,
            (ei.len() + el.len()) as int,
        ));
        assert(seg =~= el);
        assert(last.wf());
        assert(b.subrange(p, p + 4) =~= u32_le(last.notification_handle)) by {
            assert(b.subrange(p, p + 4) =~= seg.subrange(0, 4));
        }
        assert(b.subrange(p + 4, p + 8) =~= u32_le(last.sample_size)) by {
            assert(b.subrange(p + 4, p + 8) =~= seg.subrange(4, 8));
        }
        lemma_u32_round_trip(b, p, last.notification_handle);
        lemma_u32_round_trip(b, p + 4, last.sample_size);
        assert(b.subrange(p + 8, p + 8 + last.sample_size) =~= last.data) by {
            assert(b.subrange(p + 8, p + 8 + last.sample_size) =~= seg.subrange(8, el.len() as int));
        }
        assert(init.push(last) =~= ss);
    } else {
        assert(ss =~= Seq::<SampleModel>::empty());
    }
}

proof fn lemma_parse_stamp_round_trip(seg: Seq<u8>, t: StampModel)
    requires
        t.wf(),
        seg == encode_stamp(t),
    ensures
        parse_stamp(seg) == Some(t),
{
    let es = encode_samples(t.notification_samples);
    assert(seg.subrange(0, 8) =~= u64_le(t.time_stamp));
    assert(seg.subrange(8, 12) =~= u32_le(t.samples));
    lemma_u64_round_trip(seg, 0, t.time_stamp);
    lemma_u32_round_trip(seg, 8, t.samples);
    assert(seg.subrange(12, 12 + es.len() as int) =~= es);
    lemma_parse_samples_round_trip(seg, 12, t.notification_samples);
}

proof fn lemma_encode_stamps_len(ts: Seq<StampModel>, e: int)
    requires
        forall|k: int| 0 <= k < ts.len() ==> encode_stamp(#[trigger] ts[k]).len() == e,
    ensures
        encode_stamps(ts).len() == ts.len() * e,
    decreases ts.len(),
{
    if ts.len() > 0 {
        let init = ts.drop_last();
        assert forall|k: int| 0 <= k < init.len() implies encode_stamp(#[trigger] init[k]).len() == e by {
            assert(init[k] == ts[k]);
        }
        lemma_encode_stamps_len(init, e);
        assert(ts.len() * e == init.len() * e + e) by (nonlinear_arith)
            requires ts.len() == init.len() + 1;
    }
}

proof fn lemma_parse_stamps_round_trip(b: Seq<u8>, pos: int, ts: Seq<StampModel>, e: int)
    requires
        0 <= pos,
        0 <= e,
        forall|k: int| 0 <= k < ts.len() ==> encode_stamp(#[trigger] ts[k]).len() == e,
        forall|k: int| 0 <= k < ts.len() ==> (#[trigger] ts[k]).wf(),
        pos + ts.len() * e <= b.len(),
        b.subrange(pos, pos + ts.len() * e) == encode_stamps(ts),
    ensures
        parse_stamps(b, pos, ts.len(), e) == Some(ts),
    decreases ts.len(),
{
    if ts.len() > 0 {
        let n = ts.len();
        let init = ts.drop_last();
        let last = ts.last();
        assert forall|k: int| 0 <= k < init.len() implies encode_stamp(#[trigger] init[k]).len() == e by {
            assert(init[k] == ts[k]);
        }
        assert forall|k: int| 0 <= k < init.len() implies (#[trigger] init[k]).wf() by {
            assert(init[k] == ts[k]);
        }
        lemma_encode_stamps_len(init, e);
        assert(n * e == (n - 1) * e + e) by (nonlinear_arith);
        assert(0 <= (n - 1) * e) by (nonlinear_arith)
            requires n >= 1, e >= 0;
        let whole = b.subrange(pos, pos + n * e);
        assert(encode_stamps(ts) == encode_stamps(init) + encode_stamp(last));
        assert(b.subrange(pos, pos + (n - 1) * e) =~= whole.subrange(0, (n - 1) * e));
        assert((encode_stamps(init) + encode_stamp(last)).subrange(0, (n - 1) * e) =~= encode_stamps(
            init,
        ));
        lemma_parse_stamps_round_trip(b, pos, init, e);
        let start = pos + (n - 1) * e;
        assert(b.subrange(start, start + e) =~= whole.subrange((n - 1) * e, n * e));
        assert(b.subrange(start, start + e) =~= encode_stamp(last));
        lemma_parse_stamp_round_trip(b.subrange(start, start + e), last);
        assert(init.push(last) =~= ts);
    } else {
        assert(ts =~= Seq::<StampModel>::empty());
    }
}

/// Encoding then decoding a well-formed notification stream gives back the
/// same stamp count, stamps, sample counts, handles and data bytes; its
/// declared length is the sum of the stamps' extents.
pub proof fn lemma_stream_round_trip(m: StreamModel)
    requires
        m.wf(),
    ensures
        parse_stream(encode_stream(m)) == Some(m),
        m.length == m.stamps * stamp_extent(m.length, m.stamps),
{
    let b = encode_stream(m);
    let ts = m.ads_stamp_headers;
    assert(b.subrange(0, 4) =~= u32_le(m.length));
    assert(b.subrange(4, 8) =~= u32_le(m.stamps));
    lemma_u32_round_trip(b, 0, m.length);
    lemma_u32_round_trip(b, 4, m.stamps);
    if ts.len() == 0 {
        assert(ts =~= Seq::<StampModel>::empty());
    } else {
        let e = encode_stamp(ts[0]).len() as int;
        lemma_encode_stamps_len(ts, e);
        let n = m.stamps as int;
        assert(m.length as int == n * e);
        assert((n * e) / n == e) by (nonlinear_arith)
            requires n > 0;
        assert(stamp_extent(m.length, m.stamps) == e);
        assert(b.subrange(8, 8 + n * e) =~= encode_stamps(ts));
        lemma_parse_stamps_round_trip(b, 8, ts, e);
    }
}

proof fn lemma_parse_samples_stays_none(b: Seq<u8>, pos: int, k: nat, n: nat)
    requires
        k <= n,
        parse_samples(b, pos, k) is None,
    ensures
        parse_samples(b, pos, n) is None,
    decreases n,
{
    if k < n {
        lemma_parse_samples_stays_none(b, pos, k, (n - 1) as nat);
    }
}

proof fn lemma_parse_stamps_stays_none(b: Seq<u8>, pos: int, k: nat, n: nat, e: int)
    requires
        k <= n,
        parse_stamps(b, pos, k, e) is None,
    ensures
        parse_stamps(b, pos, n, e) is None,
    decreases n,
{
    if k < n {
        lemma_parse_stamps_stays_none(b, pos, k, (n - 1) as nat, e);
    }
}

proof fn lemma_encode_samples_prefix_len(ss: Seq<SampleModel>, i: int)
    requires
        0 <= i <= ss.len(),
    ensures
        encode_samples(ss.subrange(0, i)).len() <= encode_samples(ss).len(),
    decreases ss.len() - i,
{
    if i < ss.len() {
        lemma_encode_samples_prefix_len(ss, i + 1);
        assert(ss.subrange(0, i + 1).drop_last() =~= ss.subrange(0, i));
    } else {
        assert(ss.subrange(0, i) =~= ss);
    }
}

proof fn lemma_encode_stamps_prefix_len(ts: Seq<StampModel>, i: int)
    requires
        0 <= i <= ts.len(),
    ensures
        encode_stamps(ts.subrange(0, i)).len() <= encode_stamps(ts).len(),
    decreases ts.len() - i,
{
    if i < ts.len() {
        lemma_encode_stamps_prefix_len(ts, i + 1);
        assert(ts.subrange(0, i + 1).drop_last() =~= ts.subrange(0, i));
    } else {
        assert(ts.subrange(0, i) =~= ts);
    }
}

impl AdsNotificationSample {
    /// A sample whose size is the length of `data`.
    pub fn new(notification_handle: u32, data: Vec<u8>) -> (r: Self)
        requires
            data@.len() <= u32::MAX,
        ensures
            r@ == (SampleModel { notification_handle, sample_size: data@.len() as u32, data: data@ }),
            r@.wf(),
    {
        let sample_size = data.len() as u32;
        AdsNotificationSample { notification_handle, sample_size, data }
    }

    /// The encoded size: eight fixed bytes plus the data.
    pub fn sample_len(&self) -> (r: usize)
        requires
            self.data@.len() + 8 <= usize::MAX,
        ensures
            r == self.data@.len() + 8,
            r == encode_sample(self@).len(),
    {
        self.data.len() + 8
    }

    pub fn write_to(&self, out: &mut Vec<u8>)
        ensures
            final(out)@ == old(out)@ + encode_sample(self@),
    {
        let ghost start = out@;
        put_u32(out, self.notification_handle);
        put_u32(out, self.sample_size);
        put_bytes(out, self.data.as_slice());
        assert(out@ =~= start + encode_sample(self@));
    }
}

impl AdsStampHeader {
    pub fn new(time_stamp: u64, samples: u32, notification_samples: Vec<AdsNotificationSample>) -> (r:
        Self)
        ensures
            r.time_stamp == time_stamp,
            r.samples == samples,
            r.notification_samples@ == notification_samples@,
    {
        AdsStampHeader { time_stamp, samples, notification_samples }
    }

    /// The encoded size: twelve fixed bytes plus every sample.
    pub fn stamp_len(&self) -> (r: usize)
        requires
            encode_stamp(self@).len() <= usize::MAX,
        ensures
            r == encode_stamp(self@).len(),
    {
        let ghost ss = self@.notification_samples;
        let mut len: usize = 0;
        let mut i: usize = 0;
        while i < self.notification_samples.len()
            invariant
                i <= self.notification_samples@.len(),
                ss == self@.notification_samples,
                encode_stamp(self@).len() <= usize::MAX,
                len == encode_samples(ss.subrange(0, i as int)).len(),
            decreases self.notification_samples@.len() - i,
        {
            proof {
                lemma_encode_samples_prefix_len(ss, i + 1);
                assert(ss.subrange(0, i + 1).drop_last() =~= ss.subrange(0, i as int));
            }
            len = len + self.notification_samples[i].sample_len();
            i = i + 1;
        }
        assert(ss.subrange(0, i as int) =~= ss);
        len + 12
    }

    pub fn write_to(&self, out: &mut Vec<u8>)
        ensures
            final(out)@ == old(out)@ + encode_stamp(self@),
    {
        let ghost start = out@;
        let ghost ss = self@.notification_samples;
        put_u64(out, self.time_stamp);
        put_u32(out, self.samples);
        let mut i: usize = 0;
        while i < self.notification_samples.len()
            invariant
                i <= self.notification_samples@.len(),
                ss == self@.notification_samples,
                out@ == start + u64_le(self.time_stamp) + u32_le(self.samples) + encode_samples(
                    ss.subrange(0, i as int),
                ),
            decreases self.notification_samples@.len() - i,
        {
            self.notification_samples[i].write_to(out);
            assert(ss.subrange(0, i + 1).drop_last() =~= ss.subrange(0, i as int));
            i = i + 1;
        }
        assert(ss.subrange(0, i as int) =~= ss);
        assert(out@ =~= start + encode_stamp(self@));
    }

    /// The stamp at the start of `seg`.
    pub fn read_from(seg: &[u8]) -> (r: Result<Self, MalformedFrame>)
        ensures
            match parse_stamp(seg@) {
                Some(m) => r matches Ok(v) && v@ == m,
                None => r is Err,
            },
    {
        let n = seg.len();
        if n < 12 {
            return Err(MalformedFrame);
        }
        let time_stamp = get_u64(seg, 0);
        let samples = get_u32(seg, 8);
        let mut notification_samples: Vec<AdsNotificationSample> = Vec::new();
        let mut pos: usize = 12;
        let mut i: u32 = 0;
        while i < samples
            invariant
                n == seg@.len(),
                i <= samples,
                samples == u32_at(seg@, 8),
                pos <= n,
                parse_samples(seg@, 12, i as nat) == Some(
                    (notification_samples@.map_values(|s: AdsNotificationSample| s@), pos as int),
                ),
            decreases samples - i,
        {
            if n - pos < 8 {
                proof {
                    lemma_parse_samples_stays_none(seg@, 12, (i + 1) as nat, samples as nat);
                }
                return Err(MalformedFrame);
            }
            let notification_handle = get_u32(seg, pos);
            let sample_size = get_u32(seg, pos + 4);
            if n - pos - 8 < sample_size as usize {
                proof {
                    lemma_parse_samples_stays_none(seg@, 12, (i + 1) as nat, samples as nat);
                }
                return Err(MalformedFrame);
            }
            let end = pos + 8 + sample_size as usize;
            let data = get_bytes(seg, pos + 8, end);
            let ghost before = notification_samples@;
            notification_samples.push(AdsNotificationSample { notification_handle, sample_size, data });
            assert(notification_samples@.map_values(|s: AdsNotificationSample| s@) =~= before.map_values(
                |s: AdsNotificationSample| s@,
            ).push(
                SampleModel {
                    notification_handle,
                    sample_size,
                    data: seg@.subrange(pos + 8, end as int),
                },
            ));
            pos = end;
            i = i + 1;
        }
        Ok(AdsStampHeader { time_stamp, samples, notification_samples })
    }
}

impl AdsNotificationStream {
    pub fn new(length: u32, stamps: u32, ads_stamp_headers: Vec<AdsStampHeader>) -> (r: Self)
        ensures
            r.length == length,
            r.stamps == stamps,
            r.ads_stamp_headers@ == ads_stamp_headers@,
    {
        AdsNotificationStream { length, stamps, ads_stamp_headers }
    }

    /// The encoded size: eight fixed bytes plus every stamp.
    pub fn stream_len(&self) -> (r: usize)
        requires
            encode_stream(self@).len() <= usize::MAX,
        ensures
            r == encode_stream(self@).len(),
    {
        let ghost ts = self@.ads_stamp_headers;
        let mut len: usize = 0;
        let mut i: usize = 0;
        while i < self.ads_stamp_headers.len()
            invariant
                i <= self.ads_stamp_headers@.len(),
                ts == self@.ads_stamp_headers,
                encode_stream(self@).len() <= usize::MAX,
                len == encode_stamps(ts.subrange(0, i as int)).len(),
            decreases self.ads_stamp_headers@.len() - i,
        {
            proof {
                lemma_encode_stamps_prefix_len(ts, i + 1);
                assert(ts.subrange(0, i + 1).drop_last() =~= ts.subrange(0, i as int));
            }
            len = len + self.ads_stamp_headers[i].stamp_len();
            i = i + 1;
        }
        assert(ts.subrange(0, i as int) =~= ts);
        len + 8
    }

    pub fn write_to(&self, out: &mut Vec<u8>)
        ensures
            final(out)@ == old(out)@ + encode_stream(self@),
    {
        let ghost start = out@;
        let ghost ts = self@.ads_stamp_headers;
        put_u32(out, self.length);
        put_u32(out, self.stamps);
        let mut i: usize = 0;
        while i < self.ads_stamp_headers.len()
            invariant
                i <= self.ads_stamp_headers@.len(),
                ts == self@.ads_stamp_headers,
                out@ == start + u32_le(self.length) + u32_le(self.stamps) + encode_stamps(
                    ts.subrange(0, i as int),
                ),
            decreases self.ads_stamp_headers@.len() - i,
        {
            self.ads_stamp_headers[i].write_to(out);
            assert(ts.subrange(0, i + 1).drop_last() =~= ts.subrange(0, i as int));
            i = i + 1;
        }
        assert(ts.subrange(0, i as int) =~= ts);
        assert(out@ =~= start + encode_stream(self@));
    }

    /// The stream at the start of `b`: each stamp is read from its own
    /// extent, the declared length divided by the stamp count.
    pub fn read_from(b: &[u8]) -> (r: Result<Self, MalformedFrame>)
        ensures
            match parse_stream(b@) {
                Some(m) => r matches Ok(v) && v@ == m,
                None => r is Err,
            },
    {
        let n = b.len();
        if n < 8 {
            return Err(MalformedFrame);
        }
        let length = get_u32(b, 0);
        let stamps = get_u32(b, 4);
        let extent: u32 = if stamps == 0 {
            0
        } else {
            length / stamps
        };
        assert((stamps as u64) * (extent as u64) <= u64::MAX) by (nonlinear_arith)
            requires
                stamps <= u32::MAX,
                extent <= u32::MAX;
        let total: u64 = (stamps as u64) * (extent as u64);
        assert(total == stamps * stamp_extent(length, stamps)) by (nonlinear_arith)
            requires
                total == stamps as int * extent as int,
                extent == stamp_extent(length, stamps);
        assert(total <= length) by (nonlinear_arith)
            requires
                total == stamps as int * extent as int,
                stamps == 0 ==> extent == 0,
                stamps > 0 ==> extent == length as int / stamps as int;
        if ((n - 8) as u64) < total {
            return Err(MalformedFrame);
        }
        let mut ads_stamp_headers: Vec<AdsStampHeader> = Vec::new();
        let mut i: u32 = 0;
        while i < stamps
            invariant
                n == b@.len(),
                i <= stamps,
                stamps == u32_at(b@, 4),
                length == u32_at(b@, 0),
                extent == stamp_extent(length, stamps),
                8 + stamps * extent <= n,
                parse_stamps(b@, 8, i as nat, extent as int) == Some(
                    ads_stamp_headers@.map_values(|s: AdsStampHeader| s@),
                ),
            decreases stamps - i,
        {
            assert(8 + (i + 1) * extent <= 8 + stamps * extent) by (nonlinear_arith)
                requires
                    i + 1 <= stamps,
                    extent >= 0;
            assert((i + 1) * extent == i * extent + extent) by (nonlinear_arith);
            assert(0 <= i * extent) by (nonlinear_arith)
                requires
                    i >= 0,
                    extent >= 0;
            let start = 8 + (i as usize) * (extent as usize);
            let seg = get_bytes(b, start, start + extent as usize);
            let stamp = match AdsStampHeader::read_from(seg.as_slice()) {
                Ok(s) => s,
                Err(e) => {
                    proof {
                        lemma_parse_stamps_stays_none(
                            b@,
                            8,
                            (i + 1) as nat,
                            stamps as nat,
                            extent as int,
                        );
                    }
                    return Err(e);
                },
            };
            let ghost before = ads_stamp_headers@;
            ads_stamp_headers.push(stamp);
            assert(ads_stamp_headers@.map_values(|s: AdsStampHeader| s@) =~= before.map_values(
                |s: AdsStampHeader| s@,
            ).push(stamp@));
            i = i + 1;
        }
        Ok(AdsNotificationStream { length, stamps, ads_stamp_headers })
    }
}

/// The notification handle of every sample of a stamp, in order.
pub open spec fn sample_handles(t: StampModel) -> Seq<u32> {
    t.notification_samples.map_values(|x: SampleModel| x.notification_handle)
}

/// The notification handle of every sample of every stamp, in order.
pub open spec fn stamps_handles(ts: Seq<StampModel>) -> Seq<u32>
    decreases ts.len(),
{
    if ts.len() == 0 {
        Seq::empty()
    } else {
        stamps_handles(ts.drop_last()) + sample_handles(ts.last())
    }
}

impl AdsNotificationStream {
    /// The notification handle of every sample, in stream order.
    pub fn notification_handles(&self) -> (r: Vec<u32>)
        ensures
            r@ == stamps_handles(self@.ads_stamp_headers),
    {
        let ghost ts = self@.ads_stamp_headers;
        let mut out: Vec<u32> = Vec::new();
        let mut i: usize = 0;
        while i < self.ads_stamp_headers.len()
            invariant
                i <= self.ads_stamp_headers@.len(),
                ts == self@.ads_stamp_headers,
                out@ == stamps_handles(ts.subrange(0, i as int)),
            decreases self.ads_stamp_headers@.len() - i,
        {
            let stamp = &self.ads_stamp_headers[i];
            let ghost ss = stamp@.notification_samples;
            let ghost before = out@;
            let mut j: usize = 0;
            while j < stamp.notification_samples.len()
                invariant
                    j <= stamp.notification_samples@.len(),
                    ss == stamp@.notification_samples,
                    out@ == before + ss.subrange(0, j as int).map_values(
                        |x: SampleModel| x.notification_handle,
                    ),
                decreases stamp.notification_samples@.len() - j,
            {
                out.push(stamp.notification_samples[j].notification_handle);
                assert(out@ =~= before + ss.subrange(0, j + 1).map_values(
                    |x: SampleModel| x.notification_handle,
                ));
                j = j + 1;
            }
            assert(ss.subrange(0, j as int) =~= ss);
            assert(ts.subrange(0, i + 1).drop_last() =~= ts.subrange(0, i as int));
            assert(ts[i as int] == stamp@);
            i = i + 1;
        }
        assert(ts.subrange(0, i as int) =~= ts);
        out
    }
}

} // verus!
