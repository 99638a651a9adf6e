//! H.264 RTP depacketization.
//!
//! Reassembles H.264 NAL units from RTP payloads: single NAL unit packets,
//! FU-A fragmentation and STAP-A aggregation packets (RFC 6184).

use vstd::prelude::*;
use vstd::slice::slice_subrange;

verus! {

/// NAL unit type of a STAP-A aggregation packet.
pub const NAL_TYPE_STAP_A: u8 = 24;

/// NAL unit type of an FU-A fragmentation unit.
pub const NAL_TYPE_FU_A: u8 = 28;

/// FU-A header flag marking the first fragment.
pub const FU_START_BIT: u8 = 0x80;

/// FU-A header flag marking the last fragment.
pub const FU_END_BIT: u8 = 0x40;

/// The Annex B start code written before each aggregated NAL unit.
pub open spec fn start_code() -> Seq<u8> {
    seq![0u8, 0u8, 0u8, 1u8]
}

/// The NAL units of a STAP-A payload from byte `offset` on, each behind a start code.
/// Each unit is a 16-bit big-endian size and that many bytes; a truncated unit ends the list.
pub open spec fn stap_a_units(p: Seq<u8>, offset: int) -> Seq<u8>
    decreases p.len() - offset,
{
    if offset < 0 || offset + 2 > p.len() {
        Seq::<u8>::empty()
    } else {
        let size = p[offset] as int * 256 + p[offset + 1] as int;
        if offset + 2 + size > p.len() {
            Seq::<u8>::empty()
        } else {
            start_code() + p.subrange(offset + 2, offset + 2 + size) + stap_a_units(p, offset + 2 + size)
        }
    }
}

/// What a STAP-A payload yields: its units with start codes, or nothing when there are none.
pub open spec fn stap_a_spec(p: Seq<u8>) -> Option<Seq<u8>> {
    if p.len() < 2 {
        None
    } else if stap_a_units(p, 1).len() == 0 {
        None
    } else {
        Some(stap_a_units(p, 1))
    }
}

/// One FU-A fragment applied to the reassembly state `(buffer, active)`:
/// the new state and the completed NAL unit, if this fragment ends one.
pub open spec fn fu_a_spec(buf: Seq<u8>, active: bool, p: Seq<u8>) -> ((Seq<u8>, bool), Option<Seq<u8>>) {
    if p.len() < 2 {
        ((buf, active), None)
    } else {
        let is_start = p[1] & FU_START_BIT != 0;
        let is_end = p[1] & FU_END_BIT != 0;
        let header = (p[0] & 0x60u8) | (p[1] & 0x1Fu8);
        if !is_start && !active {
            ((buf, active), None)
        } else {
            let nb = if is_start {
                seq![header] + p.subrange(2, p.len() as int)
            } else {
                buf + p.subrange(2, p.len() as int)
            };
            if is_end {
                ((Seq::<u8>::empty(), false), Some(nb))
            } else {
                ((nb, true), None)
            }
        }
    }
}

/// One RTP payload applied to the reassembly state `(buffer, active)`:
/// the new state and the NAL unit data that becomes ready, if any.
pub open spec fn process_spec(buf: Seq<u8>, active: bool, p: Seq<u8>) -> ((Seq<u8>, bool), Option<Seq<u8>>) {
    if p.len() == 0 {
        ((buf, active), None)
    } else {
        let t = p[0] & 0x1Fu8;
        if 1 <= t <= 23 {
            ((Seq::<u8>::empty(), false), Some(p))
        } else if t == NAL_TYPE_STAP_A {
            ((Seq::<u8>::empty(), false), stap_a_spec(p))
        } else if t == NAL_TYPE_FU_A {
            fu_a_spec(buf, active, p)
        } else {
            ((buf, active), None)
        }
    }
}

/// The data of an optional byte vector.
pub open spec fn opt_bytes(o: Option<Vec<u8>>) -> Option<Seq<u8>> {
    match o {
        Some(v) => Some(v@),
        None => None,
    }
}

/// Reassembles H.264 NAL units from RTP packets.
///
/// Handles the three main RTP packetization modes for H.264:
/// - single NAL unit: the payload is a complete NAL unit (types 1 to 23)
/// - STAP-A: several NAL units in one packet (type 24)
/// - FU-A: one NAL unit split across several packets (type 28)
pub struct H264Depacketizer {
    fua_buffer: Vec<u8>,
    fua_active: bool,
}

impl View for H264Depacketizer {
    type V = (Seq<u8>, bool);

    /// The FU-A reassembly buffer and whether a fragmented unit is being collected.
    closed spec fn view(&self) -> (Seq<u8>, bool) {
        (self.fua_buffer@, self.fua_active)
    }
}

fn append_from(out: &mut Vec<u8>, src: &[u8], from: usize, to: usize)
    requires
        from <= to <= src@.len(),
    ensures
        final(out)@ == old(out)@ + src@.subrange(from as int, to as int),
{
    let ghost start = out@;
    let mut i: usize = from;
    while i < to
        invariant
            from <= i <= to <= src@.len(),
            out@ == start + src@.subrange(from as int, i as int),
        decreases to - i,
    {
        out.push(src[i]);
        proof {
            assert(src@.subrange(from as int, i + 1) =~= src@.subrange(from as int, i as int).push(src@[i as int]));
        }
        i = i + 1;
    }
}

impl H264Depacketizer {
    /// A depacketizer with no fragment in progress.
    pub fn new() -> (r: H264Depacketizer)
        ensures
            r@ == (Seq::<u8>::empty(), false),
    {
        H264Depacketizer { fua_buffer: Vec::new(), fua_active: false }
    }

    /// Processes the payload of one RTP packet and returns a complete NAL unit if one is ready.
    ///
    /// Single NAL units come back at once; FU-A fragments are buffered until the end
    /// fragment arrives; STAP-A packets come back as all their units, each behind an
    /// Annex B start code.
    pub fn process_rtp(&mut self, payload: &[u8]) -> (r: Option<Vec<u8>>)
        ensures
            (final(self)@, opt_bytes(r)) == process_spec(old(self)@.0, old(self)@.1, payload@),
    {
        if payload.len() == 0 {
            return None;
        }
        let nal_type: u8 = payload[0] & 0x1F;
        if 1 <= nal_type && nal_type <= 23 {
            self.reset_fua();
            let mut out: Vec<u8> = Vec::new();
            append_from(&mut out, payload, 0, payload.len());
            proof {
                assert(payload@.subrange(0, payload@.len() as int) =~= payload@);
            }
            Some(out)
        } else if nal_type == NAL_TYPE_STAP_A {
            self.reset_fua();
            Self::depacketize_stap_a(payload)
        } else if nal_type == NAL_TYPE_FU_A {
            self.depacketize_fu_a(payload)
        } else {
            None
        }
    }

    /// Depacketizes a STAP-A payload: all contained NAL units, each behind a start code.
    fn depacketize_stap_a(payload: &[u8]) -> (r: Option<Vec<u8>>)
        ensures
            opt_bytes(r) == stap_a_spec(payload@),
    {
        if payload.len() < 2 {
            return None;
        }
        let n: usize = payload.len();
        let mut result: Vec<u8> = Vec::new();
        let mut offset: usize = 1;
        while n - offset >= 2
            invariant_except_break
                n == payload@.len(),
                1 <= offset <= n,
                result@ + stap_a_units(payload@, offset as int) == stap_a_units(payload@, 1),
            ensures
                result@ == stap_a_units(payload@, 1),
            decreases n - offset,
        {
            let nalu_size: usize = (payload[offset] as usize) * 256 + payload[offset + 1] as usize;
            let body: usize = offset + 2;
            if nalu_size > n - body {
                proof {
                    assert(result@ + Seq::<u8>::empty() =~= result@);
                }
                break;
            }
            let ghost before = result@;
            result.push(0u8);
            result.push(0u8);
            result.push(0u8);
            result.push(1u8);
            append_from(&mut result, payload, body, body + nalu_size);
            proof {
                assert(result@ =~= before + start_code() + payload@.subrange(body as int, body + nalu_size));
                assert(before + stap_a_units(payload@, offset as int) =~= result@ + stap_a_units(payload@, body + nalu_size));
            }
            offset = body + nalu_size;
        }
        proof {
            if n - offset < 2 {
                assert(result@ + Seq::<u8>::empty() =~= result@);
            }
        }
        if result.len() == 0 {
            None
        } else {
            Some(result)
        }
    }

    /// Depacketizes an FU-A fragment; returns the complete NAL unit when the end fragment arrives.
    fn depacketize_fu_a(&mut self, payload: &[u8]) -> (r: Option<Vec<u8>>)
        ensures
            (final(self)@, opt_bytes(r)) == fu_a_spec(old(self)@.0, old(self)@.1, payload@),
    {
        if payload.len() < 2 {
            return None;
        }
        let fu_indicator: u8 = payload[0];
        let fu_header: u8 = payload[1];
        let is_start: bool = fu_header & FU_START_BIT != 0;
        let is_end: bool = fu_header & FU_END_BIT != 0;
        let nal_type: u8 = fu_header & 0x1F;
        let nal_ref_idc: u8 = fu_indicator & 0x60;
        if is_start {
            self.fua_buffer.clear();
            self.fua_active = true;
            self.fua_buffer.push(nal_ref_idc | nal_type);
            append_from(&mut self.fua_buffer, payload, 2, payload.len());
        } else if self.fua_active {
            append_from(&mut self.fua_buffer, payload, 2, payload.len());
        } else {
            return None;
        }
        if is_end && self.fua_active {
            self.fua_active = false;
            let mut nalu: Vec<u8> = Vec::new();
            std::mem::swap(&mut nalu, &mut self.fua_buffer);
            Some(nalu)
        } else {
            None
        }
    }

    /// Drops any partially collected FU-A unit.
    fn reset_fua(&mut self)
        ensures
            final(self)@ == (Seq::<u8>::empty(), false),
    {
        self.fua_buffer.clear();
        self.fua_active = false;
    }
}


/// The header byte rebuilt from an FU-A indicator `ind` and FU header `hdr`.
pub open spec fn fu_a_header(ind: u8, hdr: u8) -> u8 {
    (ind & 0x60u8) | (hdr & 0x1Fu8)
}

/// An FU-A payload with the given start and end flags.
pub open spec fn is_fu_a(p: Seq<u8>, start: bool, end: bool) -> bool {
    &&& p.len() >= 2
    &&& p[0] & 0x1Fu8 == NAL_TYPE_FU_A
    &&& (p[1] & FU_START_BIT != 0) == start
    &&& (p[1] & FU_END_BIT != 0) == end
}

/// A start, a middle and an end FU-A fragment, in that order, reassemble into one NAL unit:
/// the rebuilt header followed by the three fragments' data, whatever state came before.
pub proof fn law_fu_a_reassembly(buf: Seq<u8>, active: bool, s: Seq<u8>, m: Seq<u8>, e: Seq<u8>)
    requires
        is_fu_a(s, true, false),
        is_fu_a(m, false, false),
        is_fu_a(e, false, true),
    ensures
        ({
            let (st1, o1) = process_spec(buf, active, s);
            let (st2, o2) = process_spec(st1.0, st1.1, m);
            let (st3, o3) = process_spec(st2.0, st2.1, e);
            &&& o1 is None
            &&& o2 is None
            &&& o3 == Some(
                seq![fu_a_header(s[0], s[1])] + s.subrange(2, s.len() as int) + m.subrange(2, m.len() as int)
                    + e.subrange(2, e.len() as int),
            )
            &&& st3 == (Seq::<u8>::empty(), false)
        }),
{
}

/// A middle or end FU-A fragment that arrives while no unit is being collected is discarded.
pub proof fn law_orphan_fragment_discarded(buf: Seq<u8>, p: Seq<u8>, end: bool)
    requires
        is_fu_a(p, false, end),
    ensures
        process_spec(buf, false, p) == ((buf, false), None::<Seq<u8>>),
{
}

/// A single NAL unit comes back unchanged and drops any unit being collected.
pub proof fn law_single_nal_passthrough(buf: Seq<u8>, active: bool, p: Seq<u8>)
    requires
        p.len() >= 1,
        1 <= p[0] & 0x1Fu8 <= 23,
    ensures
        process_spec(buf, active, p) == ((Seq::<u8>::empty(), false), Some(p)),
{
}

/// An empty payload yields nothing and leaves the state as it was.
pub proof fn law_empty_payload(buf: Seq<u8>, active: bool)
    ensures
        process_spec(buf, active, Seq::<u8>::empty()) == ((buf, active), None::<Seq<u8>>),
{
}
/// Feeds payloads one after another to the reassembly state: the final state and
/// what each payload yielded, in order.
pub open spec fn process_all(buf: Seq<u8>, active: bool, ps: Seq<Seq<u8>>) -> ((Seq<u8>, bool), Seq<Option<Seq<u8>>>)
    decreases ps.len(),
{
    if ps.len() == 0 {
        ((buf, active), Seq::empty())
    } else {
        let (st, o) = process_spec(buf, active, ps[0]);
        let (fin, os) = process_all(st.0, st.1, ps.drop_first());
        (fin, seq![o] + os)
    }
}

/// The fragment data (all bytes after the two FU-A header bytes) of each payload, concatenated.
pub open spec fn fragments_data(ps: Seq<Seq<u8>>) -> Seq<u8>
    decreases ps.len(),
{
    if ps.len() == 0 {
        Seq::empty()
    } else {
        ps[0].subrange(2, ps[0].len() as int) + fragments_data(ps.drop_first())
    }
}

/// `ps` continues a fragmented unit: middle fragments, then an end fragment last.
pub open spec fn fu_a_continuation(ps: Seq<Seq<u8>>) -> bool {
    &&& ps.len() >= 1
    &&& forall|i: int| 0 <= i < ps.len() - 1 ==> is_fu_a(#[trigger] ps[i], false, false)
    &&& is_fu_a(ps[ps.len() - 1], false, true)
}

proof fn lemma_continuation(buf: Seq<u8>, ps: Seq<Seq<u8>>)
    requires
        fu_a_continuation(ps),
    ensures
        process_all(buf, true, ps).0 == (Seq::<u8>::empty(), false),
        process_all(buf, true, ps).1.len() == ps.len(),
        forall|i: int| 0 <= i < ps.len() - 1 ==> (#[trigger] process_all(buf, true, ps).1[i]) is None,
        process_all(buf, true, ps).1[ps.len() - 1] == Some(buf + fragments_data(ps)),
    decreases ps.len(),
{
    let p = ps[0];
    let rest = ps.drop_first();
    let nb = buf + p.subrange(2, p.len() as int);
    let (st, o) = process_spec(buf, true, p);
    let (fin, os) = process_all(st.0, st.1, rest);
    assert(process_all(buf, true, ps) == (fin, seq![o] + os));
    if ps.len() == 1 {
        assert(is_fu_a(p, false, true));
        assert(st == (Seq::<u8>::empty(), false));
        assert(o == Some(nb));
        assert(rest =~= Seq::<Seq<u8>>::empty());
        assert(process_all(st.0, st.1, rest) == (st, Seq::<Option<Seq<u8>>>::empty()));
        assert(fragments_data(rest) =~= Seq::<u8>::empty());
        assert(buf + fragments_data(ps) =~= nb);
        assert(seq![o] + os =~= seq![o]);
    } else {
        assert(is_fu_a(ps[0], false, false));
        assert(st == (nb, true));
        assert(o is None);
        assert(fu_a_continuation(rest)) by {
            assert forall|i: int| 0 <= i < rest.len() - 1 implies is_fu_a(#[trigger] rest[i], false, false) by {
                assert(rest[i] == ps[i + 1]);
            }
            assert(rest[rest.len() - 1] == ps[ps.len() - 1]);
        }
        lemma_continuation(nb, rest);
        assert(nb + fragments_data(rest) =~= buf + fragments_data(ps));
        let outs = seq![o] + os;
        assert forall|i: int| 0 <= i < ps.len() - 1 implies (#[trigger] outs[i]) is None by {
            if i > 0 {
                assert(outs[i] == os[i - 1]);
            }
        }
        assert(outs[ps.len() - 1] == os[rest.len() - 1]);
    }
}

/// Any number of FU-A fragments fed in order (a start, then middles, then an end, or one
/// fragment that is both) reassemble into one NAL unit, whatever state came before: every
/// fragment but the last yields nothing, the last yields the rebuilt header followed by
/// all the fragments' data, and no unit is being collected afterwards, so a following
/// fragment without the start flag yields nothing.
pub proof fn law_fu_a_reassembly_any(buf: Seq<u8>, active: bool, ps: Seq<Seq<u8>>)
    requires
        ps.len() >= 1,
        is_fu_a(ps[0], true, ps.len() == 1),
        ps.len() > 1 ==> fu_a_continuation(ps.drop_first()),
    ensures
        ({
            let (fin, outs) = process_all(buf, active, ps);
            &&& fin == (Seq::<u8>::empty(), false)
            &&& outs.len() == ps.len()
            &&& forall|i: int| 0 <= i < ps.len() - 1 ==> (#[trigger] outs[i]) is None
            &&& outs[ps.len() - 1] == Some(seq![fu_a_header(ps[0][0], ps[0][1])] + fragments_data(ps))
            &&& forall|p: Seq<u8>|
                p.len() >= 2 && p[0] & 0x1Fu8 == NAL_TYPE_FU_A && p[1] & FU_START_BIT == 0 ==> (#[trigger] process_spec(
                    fin.0,
                    fin.1,
                    p,
                )).1 is None
        }),
{
    let p = ps[0];
    let rest = ps.drop_first();
    let head = seq![fu_a_header(p[0], p[1])];
    let nb = head + p.subrange(2, p.len() as int);
    let (st, o) = process_spec(buf, active, p);
    let (fin, os) = process_all(st.0, st.1, rest);
    assert(process_all(buf, active, ps) == (fin, seq![o] + os));
    if ps.len() == 1 {
        assert(st == (Seq::<u8>::empty(), false));
        assert(o == Some(nb));
        assert(rest =~= Seq::<Seq<u8>>::empty());
        assert(process_all(st.0, st.1, rest) == (st, Seq::<Option<Seq<u8>>>::empty()));
        assert(fragments_data(rest) =~= Seq::<u8>::empty());
        assert(head + fragments_data(ps) =~= nb);
        assert(seq![o] + os =~= seq![o]);
    } else {
        assert(st == (nb, true));
        assert(o is None);
        lemma_continuation(nb, rest);
        assert(nb + fragments_data(rest) =~= head + fragments_data(ps));
        let outs = seq![o] + os;
        assert forall|i: int| 0 <= i < ps.len() - 1 implies (#[trigger] outs[i]) is None by {
            if i > 0 {
                assert(outs[i] == os[i - 1]);
            }
        }
        assert(outs[ps.len() - 1] == os[rest.len() - 1]);
    }
}

/// Feeds FU-A fragments one after another to the FU-A step alone: the final state and
/// what each fragment yielded, in order.
pub open spec fn fu_a_all(buf: Seq<u8>, active: bool, ps: Seq<Seq<u8>>) -> ((Seq<u8>, bool), Seq<Option<Seq<u8>>>)
    decreases ps.len(),
{
    if ps.len() == 0 {
        ((buf, active), Seq::empty())
    } else {
        let (st, o) = fu_a_spec(buf, active, ps[0]);
        let (fin, os) = fu_a_all(st.0, st.1, ps.drop_first());
        (fin, seq![o] + os)
    }
}

proof fn lemma_fu_a_all_is_process_all(buf: Seq<u8>, active: bool, ps: Seq<Seq<u8>>)
    requires
        forall|i: int| 0 <= i < ps.len() ==> (#[trigger] ps[i]).len() >= 2 && ps[i][0] & 0x1Fu8 == NAL_TYPE_FU_A,
    ensures
        fu_a_all(buf, active, ps) == process_all(buf, active, ps),
    decreases ps.len(),
{
    if ps.len() > 0 {
        let rest = ps.drop_first();
        assert(ps[0].len() >= 2 && ps[0][0] & 0x1Fu8 == NAL_TYPE_FU_A);
        assert(process_spec(buf, active, ps[0]) == fu_a_spec(buf, active, ps[0]));
        let st = fu_a_spec(buf, active, ps[0]).0;
        assert forall|i: int| 0 <= i < rest.len() implies (#[trigger] rest[i]).len() >= 2 && rest[i][0] & 0x1Fu8
            == NAL_TYPE_FU_A by {
            assert(rest[i] == ps[i + 1]);
        }
        lemma_fu_a_all_is_process_all(st.0, st.1, rest);
    }
}

/// The same reassembly, stated over the FU-A step itself: fragments fed in order (a start,
/// then middles, then an end, or one fragment that is both) to the step, whatever its
/// state before, yield nothing until the last, which yields the rebuilt header followed
/// by all the fragments' data; afterwards no unit is being collected, so a following
/// fragment without the start flag yields nothing.
pub proof fn law_fu_a_step_reassembly_any(buf: Seq<u8>, active: bool, ps: Seq<Seq<u8>>)
    requires
        ps.len() >= 1,
        is_fu_a(ps[0], true, ps.len() == 1),
        ps.len() > 1 ==> fu_a_continuation(ps.drop_first()),
    ensures
        ({
            let (fin, outs) = fu_a_all(buf, active, ps);
            &&& fin == (Seq::<u8>::empty(), false)
            &&& outs.len() == ps.len()
            &&& forall|i: int| 0 <= i < ps.len() - 1 ==> (#[trigger] outs[i]) is None
            &&& outs[ps.len() - 1] == Some(seq![fu_a_header(ps[0][0], ps[0][1])] + fragments_data(ps))
            &&& forall|p: Seq<u8>|
                p.len() >= 2 && p[1] & FU_START_BIT == 0 ==> (#[trigger] fu_a_spec(fin.0, fin.1, p)).1 is None
        }),
{
    assert forall|i: int| 0 <= i < ps.len() implies (#[trigger] ps[i]).len() >= 2 && ps[i][0] & 0x1Fu8
        == NAL_TYPE_FU_A by {
        if i > 0 {
            let rest = ps.drop_first();
            assert(ps[i] == rest[i - 1]);
            if i - 1 < rest.len() - 1 {
                assert(is_fu_a(rest[i - 1], false, false));
            }
        }
    }
    lemma_fu_a_all_is_process_all(buf, active, ps);
    law_fu_a_reassembly_any(buf, active, ps);
}


/// The body of a STAP-A payload aggregating `units`: each unit behind its size as two
/// bytes, high byte first.
pub open spec fn stap_a_body(units: Seq<Seq<u8>>) -> Seq<u8>
    decreases units.len(),
{
    if units.len() == 0 {
        Seq::empty()
    } else {
        let u = units[0];
        seq![(u.len() / 256) as u8, (u.len() % 256) as u8] + u + stap_a_body(units.drop_first())
    }
}

/// The Annex B byte stream of `units`: each unit behind the start code 0, 0, 0, 1.
pub open spec fn annex_b(units: Seq<Seq<u8>>) -> Seq<u8>
    decreases units.len(),
{
    if units.len() == 0 {
        Seq::empty()
    } else {
        seq![0u8, 0u8, 0u8, 1u8] + units[0] + annex_b(units.drop_first())
    }
}

proof fn lemma_stap_a_units_of_body(p: Seq<u8>, offset: int, units: Seq<Seq<u8>>)
    requires
        0 <= offset <= p.len(),
        p.subrange(offset, p.len() as int) == stap_a_body(units),
        forall|i: int| 0 <= i < units.len() ==> (#[trigger] units[i]).len() < 65536,
    ensures
        stap_a_units(p, offset) == annex_b(units),
    decreases units.len(),
{
    if units.len() == 0 {
        assert(p.subrange(offset, p.len() as int).len() == 0);
    } else {
        let u = units[0];
        let rest = units.drop_first();
        let hi = (u.len() / 256) as u8;
        let lo = (u.len() % 256) as u8;
        assert(u.len() < 65536);
        let tail = p.subrange(offset, p.len() as int);
        assert(tail == seq![hi, lo] + u + stap_a_body(rest));
        assert(tail[0] == hi && tail[1] == lo);
        assert(p[offset] == hi && p[offset + 1] == lo);
        assert(hi as int * 256 + lo as int == u.len());
        let next = offset + 2 + u.len();
        assert(next <= p.len());
        assert(p.subrange(offset + 2, next) =~= u) by {
            assert forall|k: int| 0 <= k < u.len() implies p.subrange(offset + 2, next)[k] == u[k] by {
                assert(p[offset + 2 + k] == tail[2 + k]);
            }
        }
        assert(p.subrange(next, p.len() as int) =~= stap_a_body(rest)) by {
            assert forall|k: int| 0 <= k < p.len() - next implies p.subrange(next, p.len() as int)[k] == stap_a_body(
                rest,
            )[k] by {
                assert(p[next + k] == tail[2 + u.len() + k]);
            }
        }
        assert forall|i: int| 0 <= i < rest.len() implies (#[trigger] rest[i]).len() < 65536 by {
            assert(rest[i] == units[i + 1]);
        }
        lemma_stap_a_units_of_body(p, next, rest);
        assert(start_code() == seq![0u8, 0u8, 0u8, 1u8]);
    }
}

proof fn lemma_annex_b_nonempty(units: Seq<Seq<u8>>)
    requires
        units.len() > 0,
    ensures
        annex_b(units).len() >= 4,
{
}

/// A STAP-A payload (any indicator byte whose type is 24) aggregating one or more NAL
/// units, each of fewer than 65536 bytes behind its 16-bit big-endian size, yields all
/// the units in order, each behind a start code, and ends any fragmented unit.
pub proof fn law_stap_a_units(buf: Seq<u8>, active: bool, indicator: u8, units: Seq<Seq<u8>>)
    requires
        indicator & 0x1Fu8 == NAL_TYPE_STAP_A,
        units.len() >= 1,
        forall|i: int| 0 <= i < units.len() ==> (#[trigger] units[i]).len() < 65536,
    ensures
        process_spec(buf, active, seq![indicator] + stap_a_body(units)) == ((Seq::<u8>::empty(), false), Some(
            annex_b(units),
        )),
{
    let p = seq![indicator] + stap_a_body(units);
    assert(p[0] == indicator);
    assert(p.subrange(1, p.len() as int) =~= stap_a_body(units));
    lemma_stap_a_units_of_body(p, 1, units);
    lemma_annex_b_nonempty(units);
    let u = units[0];
    assert(stap_a_body(units).len() >= 2);
}

/// A STAP-A payload with a single NAL unit `u` of fewer than 65536 bytes, its size
/// written as the two bytes `hi`, `lo` with `hi * 256 + lo == u.len()`, yields that
/// whole unit behind a start code.
pub proof fn law_stap_a_single_unit(buf: Seq<u8>, active: bool, hi: u8, lo: u8, u: Seq<u8>)
    requires
        hi as int * 256 + lo as int == u.len(),
    ensures
        process_spec(buf, active, seq![0x18u8, hi, lo] + u) == ((Seq::<u8>::empty(), false), Some(
            seq![0u8, 0u8, 0u8, 1u8] + u,
        )),
{
    let units = seq![u];
    assert((u.len() / 256) as u8 == hi && (u.len() % 256) as u8 == lo);
    assert(units[0] == u);
    assert(units.drop_first() =~= Seq::<Seq<u8>>::empty());
    assert(stap_a_body(units.drop_first()) == Seq::<u8>::empty());
    assert(annex_b(units.drop_first()) == Seq::<u8>::empty());
    assert(stap_a_body(units) =~= seq![hi, lo] + u);
    assert(seq![0x18u8] + stap_a_body(units) =~= seq![0x18u8, hi, lo] + u);
    assert(annex_b(units) =~= seq![0u8, 0u8, 0u8, 1u8] + u);
    assert(0x18u8 & 0x1Fu8 == NAL_TYPE_STAP_A) by (bit_vector);
    law_stap_a_units(buf, active, 0x18u8, units);
}

} // verus!
