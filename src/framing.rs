//! The persisted log: records appended one after another, each a four-byte little-endian
//! length followed by that many bytes of an encoded event.
use crate::codec::{
    decode, decode_event, encode, encode_event, lemma_decode_encode, lemma_encoded_len,
};
use crate::event::Event;
use crate::wire::{
    get_le, le_bytes, le_value, lemma_le_bytes_len, lemma_le_value_bound, lemma_le_value_of_bytes,
    lemma_pow256_values, put_le,
};
use vstd::prelude::*;

verus! {

/// One record of the log.
pub open spec fn frame_bytes(payload: Seq<u8>) -> Seq<u8> {
    le_bytes(payload.len(), 4) + payload
}

/// The log that appending the events `es` in order writes.
pub open spec fn log_of(es: Seq<Event>) -> Seq<u8>
    decreases es.len(),
{
    if es.len() == 0 {
        Seq::empty()
    } else {
        frame_bytes(encode_event(es[0])) + log_of(es.drop_first())
    }
}

/// Bytes that begin a record but do not yet hold all of it.
pub open spec fn incomplete_frame(t: Seq<u8>) -> bool {
    t.len() < 4 || 4 + le_value(t.take(4)) > t.len()
}

/// The payloads of the complete records at the start of `s`, and the bytes they take.
pub open spec fn split_frames(s: Seq<u8>) -> (Seq<Seq<u8>>, nat)
    decreases s.len(),
{
    if s.len() < 4 {
        (Seq::empty(), 0)
    } else {
        let l = le_value(s.take(4));
        if 4 + l <= s.len() {
            let (rest, n) = split_frames(s.skip(4 + l as int));
            (seq![s.subrange(4, 4 + l as int)] + rest, (4 + l + n) as nat)
        } else {
            (Seq::empty(), 0)
        }
    }
}

/// The events that the payloads decode to, in order; payloads that do not decode are left out.
pub open spec fn decoded_events(ps: Seq<Seq<u8>>) -> Seq<Event>
    decreases ps.len(),
{
    if ps.len() == 0 {
        Seq::empty()
    } else {
        let init = decoded_events(ps.drop_last());
        match decode_event(ps.last()) {
            Some(e) => init.push(e),
            None => init,
        }
    }
}

/// How many of the payloads do not decode.
pub open spec fn malformed_count(ps: Seq<Seq<u8>>) -> nat
    decreases ps.len(),
{
    if ps.len() == 0 {
        0
    } else {
        malformed_count(ps.drop_last()) + if decode_event(ps.last()) is Some {
            0nat
        } else {
            1nat
        }
    }
}

/// What a replay from `offset` reads: the events, the records that did not decode, and the
/// offset at which the next replay resumes.
pub open spec fn replay_outcome(log: Seq<u8>, offset: nat) -> (Seq<Event>, nat, nat) {
    let (ps, n) = split_frames(log.skip(offset as int));
    (decoded_events(ps), malformed_count(ps), offset + n)
}

/// What a replay returns.
pub struct Replay {
    pub events: Vec<Event>,
    pub malformed: usize,
    pub next_offset: usize,
}

/// Frames one payload.
pub fn frame(payload: &[u8]) -> (r: Vec<u8>)
    requires
        payload@.len() <= u32::MAX,
    ensures
        r@ == frame_bytes(payload@),
{
    let mut out: Vec<u8> = Vec::new();
    put_le(&mut out, payload.len() as u64, 4);
    let mut i: usize = 0;
    let ghost head = out@;
    while i < payload.len()
        invariant
            i <= payload@.len(),
            out@ == head + payload@.take(i as int),
        decreases payload@.len() - i,
    {
        out.push(payload[i]);
        assert(payload@.take(i + 1) =~= payload@.take(i as int).push(payload@[i as int]));
        i = i + 1;
    }
    assert(payload@.take(payload@.len() as int) =~= payload@);
    out
}

/// The record that persisting `e` appends to the log.
pub fn event_record(e: &Event) -> (r: Vec<u8>)
    ensures
        r@ == frame_bytes(encode_event(*e)),
{
    let payload = encode(e);
    frame(payload.as_slice())
}

proof fn lemma_split_frames_bound(s: Seq<u8>)
    ensures
        split_frames(s).1 <= s.len(),
        4 * split_frames(s).0.len() <= split_frames(s).1,
    decreases s.len(),
{
    if s.len() >= 4 {
        let l = le_value(s.take(4));
        if 4 + l <= s.len() {
            lemma_split_frames_bound(s.skip(4 + l as int));
        }
    }
}

pub proof fn lemma_decoded_push(ps: Seq<Seq<u8>>, p: Seq<u8>)
    ensures
        decoded_events(ps.push(p)) == match decode_event(p) {
            Some(e) => decoded_events(ps).push(e),
            None => decoded_events(ps),
        },
        malformed_count(ps.push(p)) == malformed_count(ps) + if decode_event(p) is Some {
            0nat
        } else {
            1nat
        },
{
    assert(ps.push(p).drop_last() =~= ps);
}

/// Reads every complete record from `offset` on. A record that does not decode is counted
/// and skipped; a record that is not yet completely written ends the replay, which resumes
/// at that record next time.
pub fn replay(log: &[u8], offset: usize) -> (r: Replay)
    requires
        offset <= log@.len(),
    ensures
        (r.events@, r.malformed as nat, r.next_offset as nat) == replay_outcome(
            log@,
            offset as nat,
        ),
{
    let ghost whole = split_frames(log@.skip(offset as int));
    let ghost mut done: Seq<Seq<u8>> = Seq::empty();
    let len = log.len();
    let mut events: Vec<Event> = Vec::new();
    let mut malformed: usize = 0;
    let mut p: usize = offset;
    assert(done + whole.0 =~= whole.0);
    loop
        invariant
            offset <= p <= len,
            len == log@.len(),
            whole == split_frames(log@.skip(offset as int)),
            ({
                let (ps, n) = split_frames(log@.skip(p as int));
                whole.0 == done + ps && whole.1 == (p - offset) + n
            }),
            events@ == decoded_events(done),
            malformed == malformed_count(done),
            malformed <= done.len(),
            4 * done.len() <= p - offset,
        ensures
            offset <= p <= len,
            whole.0 == done,
            whole.1 == p - offset,
            events@ == decoded_events(done),
            malformed == malformed_count(done),
        decreases len - p,
    {
        let ghost s = log@.skip(p as int);
        if len - p < 4 {
            assert(split_frames(s) == (Seq::<Seq<u8>>::empty(), 0nat));
            assert(done + Seq::<Seq<u8>>::empty() =~= done);
            break;
        }
        let l64 = get_le(log, p, 4);
        proof {
            assert(log@.subrange(p as int, p + 4) =~= s.take(4));
            lemma_le_value_bound(s.take(4));
            lemma_pow256_values();
        }
        if l64 > (len - p - 4) as u64 {
            assert(split_frames(s) == (Seq::<Seq<u8>>::empty(), 0nat));
            assert(done + Seq::<Seq<u8>>::empty() =~= done);
            break;
        }
        let l = l64 as usize;
        let payload = vstd::slice::slice_subrange(log, p + 4, p + 4 + l);
        proof {
            assert(payload@ =~= s.subrange(4, 4 + l as int));
            assert(s.skip(4 + l as int) =~= log@.skip(p + 4 + l));
            let (rest, n) = split_frames(s.skip(4 + l as int));
            assert(done + (seq![payload@] + rest) =~= done.push(payload@) + rest);
            lemma_decoded_push(done, payload@);
        }
        match decode(payload) {
            Some(e) => {
                events.push(e);
            },
            None => {
                malformed = malformed + 1;
            },
        }
        proof {
            done = done.push(payload@);
        }
        p = p + 4 + l;
    }
    proof {
        lemma_split_frames_bound(log@.skip(offset as int));
    }
    Replay { events, malformed, next_offset: p }
}

proof fn lemma_frame_of_event(e: Event, rest: Seq<u8>)
    ensures
        ({
            let b = encode_event(e);
            let s = frame_bytes(b) + rest;
            &&& s.len() >= 4
            &&& le_value(s.take(4)) == b.len()
            &&& s.subrange(4, 4 + b.len() as int) == b
            &&& s.skip(4 + b.len() as int) == rest
        }),
{
    let b = encode_event(e);
    let s = frame_bytes(b) + rest;
    lemma_encoded_len(e);
    lemma_pow256_values();
    lemma_le_bytes_len(b.len(), 4);
    assert(s.take(4) =~= le_bytes(b.len(), 4));
    lemma_le_value_of_bytes(b.len(), 4);
    assert(s.subrange(4, 4 + b.len() as int) =~= b);
    assert(s.skip(4 + b.len() as int) =~= rest);
}

/// The payloads of the log of `es`, followed by an incomplete record, are the encodings of
/// `es`, and they end where the incomplete record begins.
proof fn lemma_split_log(es: Seq<Event>, tail: Seq<u8>)
    requires
        incomplete_frame(tail),
    ensures
        split_frames(log_of(es) + tail) == (es.map_values(|e: Event| encode_event(e)), log_of(
            es,
        ).len()),
    decreases es.len(),
{
    if es.len() == 0 {
        assert(log_of(es) + tail =~= tail);
        assert(es.map_values(|e: Event| encode_event(e)) =~= Seq::<Seq<u8>>::empty());
    } else {
        let b = encode_event(es[0]);
        let rest = log_of(es.drop_first()) + tail;
        assert(log_of(es) + tail =~= frame_bytes(b) + rest);
        lemma_frame_of_event(es[0], rest);
        lemma_split_log(es.drop_first(), tail);
        assert(es.map_values(|e: Event| encode_event(e)) =~= seq![b] + es.drop_first().map_values(
            |e: Event| encode_event(e),
        ));
        lemma_le_bytes_len(b.len(), 4);
    }
}

proof fn lemma_decoded_encodings(es: Seq<Event>)
    requires
        forall|i: int| 0 <= i < es.len() ==> (#[trigger] es[i]).wf(),
    ensures
        decoded_events(es.map_values(|e: Event| encode_event(e))) == es,
        malformed_count(es.map_values(|e: Event| encode_event(e))) == 0,
    decreases es.len(),
{
    if es.len() > 0 {
        let ps = es.map_values(|e: Event| encode_event(e));
        assert(ps.drop_last() =~= es.drop_last().map_values(|e: Event| encode_event(e)));
        assert(es.last() == es[es.len() - 1]);
        lemma_decoded_encodings(es.drop_last());
        lemma_decode_encode(es.last());
        assert(es.drop_last().push(es.last()) =~= es);
    }
}

/// Appending well-formed events and replaying the log from its start gives back exactly those
/// events, in the order they were appended, with no record counted as malformed. A record that
/// was not completely written at the end of the log is not read: the replay stops before it,
/// without error, and resumes there next time.
pub proof fn lemma_replay_appended(es: Seq<Event>, tail: Seq<u8>)
    requires
        forall|i: int| 0 <= i < es.len() ==> (#[trigger] es[i]).wf(),
        incomplete_frame(tail),
    ensures
        replay_outcome(log_of(es) + tail, 0) == (es, 0nat, log_of(es).len()),
{
    let log = log_of(es) + tail;
    assert(log.skip(0) =~= log);
    lemma_split_log(es, tail);
    lemma_decoded_encodings(es);
}

} // verus!
