//! Reading jobs off the `ready_jobs` stream: which message a worker takes
//! from a read reply, which jobs it takes over from an auto-claim, and when
//! creating the consumer group counts as done.

use vstd::prelude::*;
use crate::text::chars_of;

verus! {

/// One stream message as the worker reads it: its stream id and its
/// `job_id` field, absent, or decoded to an integer (`Err` with the
/// decoder's message where the field does not decode).
pub struct StreamMessage {
    pub id: String,
    pub job_id: Option<Result<i32, String>>,
}

/// A (stream id, job id) pair as plain values.
pub open spec fn pair_view(p: (String, i32)) -> (Seq<char>, i32) {
    (p.0@, p.1)
}

/// The job a read reply hands the worker: the first message of the first
/// stream, provided that it carries a `job_id` field.
pub open spec fn first_ready_spec(streams: Seq<Seq<StreamMessage>>)
    -> Result<Option<(Seq<char>, i32)>, Seq<char>>
{
    if streams.len() == 0 || streams[0].len() == 0 {
        Ok(None)
    } else {
        let m = streams[0][0];
        match m.job_id {
            None => Ok(None),
            Some(Err(e)) => Err(e@),
            Some(Ok(j)) => Ok(Some((m.id@, j))),
        }
    }
}

/// Picks the job out of a blocking group read (one message is asked for):
/// nothing when no stream, no message or no `job_id` field came back, the
/// decoder's error where the field does not decode.
pub fn first_ready_job(streams: &Vec<Vec<StreamMessage>>) -> (r: Result<Option<(String, i32)>, String>)
    ensures
        first_ready_spec(streams@.map_values(|s: Vec<StreamMessage>| s@)) == (match r {
            Ok(Some(p)) => Ok(Some(pair_view(p))),
            Ok(None) => Ok(None),
            Err(e) => Err(e@),
        }),
{
    let ghost view = streams@.map_values(|s: Vec<StreamMessage>| s@);
    if streams.len() == 0 {
        return Ok(None);
    }
    let first = &streams[0];
    assert(view[0] == first@);
    if first.len() == 0 {
        return Ok(None);
    }
    let m = &first[0];
    match &m.job_id {
        None => Ok(None),
        Some(Err(e)) => Err(e.clone()),
        Some(Ok(j)) => Ok(Some((m.id.clone(), *j))),
    }
}

/// The jobs an auto-claim hands over, in order: messages without a `job_id`
/// field are skipped, and the first field that does not decode fails the
/// whole reply.
pub open spec fn claimed_spec(ms: Seq<StreamMessage>) -> Result<Seq<(Seq<char>, i32)>, Seq<char>>
    decreases ms.len(),
{
    if ms.len() == 0 {
        Ok(Seq::empty())
    } else {
        match claimed_spec(ms.drop_last()) {
            Err(e) => Err(e),
            Ok(v) => match ms.last().job_id {
                None => Ok(v),
                Some(Err(e)) => Err(e@),
                Some(Ok(j)) => Ok(v.push((ms.last().id@, j))),
            },
        }
    }
}

/// Collects the (stream id, job id) pairs of the messages that an
/// auto-claim took over for this worker.
pub fn claimed_jobs(messages: &Vec<StreamMessage>) -> (r: Result<Vec<(String, i32)>, String>)
    ensures
        claimed_spec(messages@) == (match r {
            Ok(v) => Ok(v@.map_values(|p: (String, i32)| pair_view(p))),
            Err(e) => Err(e@),
        }),
{
    let mut jobs: Vec<(String, i32)> = Vec::new();
    let mut i: usize = 0;
    assert(messages@.take(0) == Seq::<StreamMessage>::empty());
    assert(jobs@.map_values(|p: (String, i32)| pair_view(p)) == Seq::<(Seq<char>, i32)>::empty());
    while i < messages.len()
        invariant
            i <= messages.len(),
            claimed_spec(messages@.take(i as int))
                == Ok::<Seq<(Seq<char>, i32)>, Seq<char>>(jobs@.map_values(|p: (String, i32)| pair_view(p))),
        decreases messages.len() - i,
    {
        let m = &messages[i];
        assert(messages@.take(i + 1).drop_last() == messages@.take(i as int));
        assert(messages@.take(i + 1).last() == messages@[i as int]);
        match &m.job_id {
            None => {},
            Some(Err(e)) => {
                let err = e.clone();
                proof {
                    lemma_claimed_error_sticks(messages@, i as int + 1);
                }
                return Err(err);
            },
            Some(Ok(j)) => {
                let ghost before = jobs@;
                jobs.push((m.id.clone(), *j));
                assert(jobs@.map_values(|p: (String, i32)| pair_view(p))
                    == before.map_values(|p: (String, i32)| pair_view(p)).push((m.id@, *j)));
            },
        }
        i = i + 1;
    }
    assert(messages@.take(messages.len() as int) == messages@);
    Ok(jobs)
}

/// A worker takes the first message of the first stream in a read reply:
/// its stream id with its decoded job id, nothing when it carries no
/// `job_id` field or no message came back, and the decoder's error when the
/// field does not decode. Later messages and streams play no part.
pub proof fn first_message_is_taken(streams: Seq<Seq<StreamMessage>>)
    ensures
        (streams.len() == 0 || streams[0].len() == 0) ==> first_ready_spec(streams) == Ok::<Option<(Seq<char>, i32)>, Seq<char>>(None),
        streams.len() > 0 && streams[0].len() > 0 ==> match streams[0][0].job_id {
            Some(Ok(j)) => first_ready_spec(streams) == Ok::<Option<(Seq<char>, i32)>, Seq<char>>(Some((streams[0][0].id@, j))),
            Some(Err(e)) => first_ready_spec(streams) == Err::<Option<(Seq<char>, i32)>, Seq<char>>(e@),
            None => first_ready_spec(streams) == Ok::<Option<(Seq<char>, i32)>, Seq<char>>(None),
        },
{
}

/// True when every message's `job_id` field, where present, decodes.
pub open spec fn all_decode(ms: Seq<StreamMessage>) -> bool {
    forall|i: int| 0 <= i < ms.len() ==> !(#[trigger] ms[i].job_id matches Some(Err(_)))
}

/// An auto-claim whose fields all decode hands over one job per message
/// that carries a `job_id` field, repeated job ids included: no message is
/// lost, so each is handled (and acknowledged) in turn.
pub proof fn claimed_counts_every_job_message(ms: Seq<StreamMessage>)
    requires
        all_decode(ms),
    ensures
        claimed_spec(ms) matches Ok(v)
            && v.len() == ms.filter(|m: StreamMessage| m.job_id is Some).len(),
    decreases ms.len(),
{
    if ms.len() > 0 {
        let rest = ms.drop_last();
        assert(all_decode(rest)) by {
            assert forall|i: int| 0 <= i < rest.len() implies !(#[trigger] rest[i].job_id matches Some(Err(_))) by {
                assert(rest[i] == ms[i]);
            }
        }
        claimed_counts_every_job_message(rest);
        assert(!(ms[ms.len() - 1].job_id matches Some(Err(_))));
        let f = |m: StreamMessage| m.job_id is Some;
        assert(ms == rest.push(ms.last()));
        rest.lemma_filter_len_push(f, ms.last());
    } else {
        let f = |m: StreamMessage| m.job_id is Some;
        assert(ms.filter(f).len() == 0);
    }
}

/// An auto-claim whose messages all carry decoded job ids hands over every
/// message, in order, each as its own (stream id, job id) pair.
pub proof fn claimed_keeps_order(ms: Seq<StreamMessage>)
    requires
        forall|i: int| 0 <= i < ms.len() ==> (#[trigger] ms[i].job_id matches Some(Ok(_))),
    ensures
        claimed_spec(ms) matches Ok(v) && v.len() == ms.len() && forall|i: int| 0 <= i < ms.len() ==>
            match ms[i].job_id {
                Some(Ok(j)) => #[trigger] v[i] == (ms[i].id@, j),
                _ => false,
            },
    decreases ms.len(),
{
    if ms.len() > 0 {
        let rest = ms.drop_last();
        assert forall|i: int| 0 <= i < rest.len() implies (#[trigger] rest[i].job_id matches Some(Ok(_))) by {
            assert(rest[i] == ms[i]);
        }
        claimed_keeps_order(rest);
        assert(ms[ms.len() - 1].job_id matches Some(Ok(_)));
        let v = claimed_spec(ms)->Ok_0;
        let w = claimed_spec(rest)->Ok_0;
        assert forall|i: int| 0 <= i < ms.len() implies
            match ms[i].job_id {
                Some(Ok(j)) => #[trigger] v[i] == (ms[i].id@, j),
                _ => false,
            } by {
            if i < rest.len() {
                assert(rest[i] == ms[i]);
                assert(v[i] == w[i]);
            }
        }
    }
}

/// The messages that carry a `job_id` field, in their order.
pub open spec fn job_messages(ms: Seq<StreamMessage>) -> Seq<StreamMessage> {
    ms.filter(|m: StreamMessage| m.job_id is Some)
}

/// Where every `job_id` field present decodes, the auto-claim hands over
/// exactly the messages that carry one, in their order, each as its own
/// (stream id, job id) pair: messages without the field are skipped and
/// nothing else is dropped, reordered or merged.
pub proof fn claimed_pairs_follow_the_messages(ms: Seq<StreamMessage>)
    requires
        all_decode(ms),
    ensures
        claimed_spec(ms) matches Ok(v)
            && v.len() == job_messages(ms).len()
            && forall|i: int| 0 <= i < v.len() ==>
                match (#[trigger] job_messages(ms)[i]).job_id {
                    Some(Ok(j)) => v[i] == (job_messages(ms)[i].id@, j),
                    _ => false,
                },
    decreases ms.len(),
{
    let f = |m: StreamMessage| m.job_id is Some;
    reveal(Seq::filter);
    if ms.len() > 0 {
        let rest = ms.drop_last();
        assert(all_decode(rest)) by {
            assert forall|i: int| 0 <= i < rest.len() implies !(#[trigger] rest[i].job_id matches Some(Err(_))) by {
                assert(rest[i] == ms[i]);
            }
        }
        claimed_pairs_follow_the_messages(rest);
        assert(!(ms[ms.len() - 1].job_id matches Some(Err(_))));
        let v = claimed_spec(ms)->Ok_0;
        let w = claimed_spec(rest)->Ok_0;
        let fm = job_messages(ms);
        let fr = job_messages(rest);
        assert(fm == (if f(ms.last()) { fr.push(ms.last()) } else { fr }));
        assert forall|i: int| 0 <= i < v.len() implies
            match (#[trigger] job_messages(ms)[i]).job_id {
                Some(Ok(j)) => v[i] == (job_messages(ms)[i].id@, j),
                _ => false,
            } by {
            if i < w.len() {
                assert(fm[i] == fr[i]);
                assert(v[i] == w[i]);
            }
        }
    }
}

/// Once a prefix of the messages fails to decode, every longer prefix fails
/// with the same error.
proof fn lemma_claimed_error_sticks(ms: Seq<StreamMessage>, k: int)
    requires
        0 <= k <= ms.len(),
        claimed_spec(ms.take(k)) is Err,
    ensures
        claimed_spec(ms) == claimed_spec(ms.take(k)),
    decreases ms.len() - k,
{
    if k < ms.len() {
        assert(ms.take(k + 1).drop_last() == ms.take(k));
        lemma_claimed_error_sticks(ms, k + 1);
    } else {
        assert(ms.take(k) == ms);
    }
}

/// True when `needle` occurs in `text` as a contiguous run of characters.
pub open spec fn contains_text(text: Seq<char>, needle: Seq<char>) -> bool {
    exists|i: int| 0 <= i && i + needle.len() <= text.len()
        && #[trigger] text.subrange(i, i + needle.len()) == needle
}

/// Whether `needle` occurs in `text`.
pub fn text_contains(text: &str, needle: &str) -> (r: bool)
    ensures
        r == contains_text(text@, needle@),
{
    let t = chars_of(text);
    let p = chars_of(needle);
    if p.len() > t.len() {
        assert forall|i: int| 0 <= i && i + p@.len() <= t@.len() implies
            #[trigger] t@.subrange(i, i + p@.len()) != p@ by {}
        return false;
    }
    let last: usize = t.len() - p.len();
    let mut i: usize = 0;
    loop
        invariant
            t@ == text@,
            p@ == needle@,
            last == t@.len() - p@.len(),
            p@.len() <= t@.len(),
            i <= last,
            forall|k: int| 0 <= k < i ==> #[trigger] t@.subrange(k, k + p@.len()) != p@,
        decreases last + 1 - i,
    {
        let mut j: usize = 0;
        let mut same = true;
        while j < p.len()
            invariant
                i <= last,
                t@.len() == t.len(),
                last == t@.len() - p@.len(),
                p@.len() <= t@.len(),
                j <= p@.len(),
                same == (forall|m: int| 0 <= m < j ==> t@[i + m] == p@[m]),
            decreases p.len() - j,
        {
            if t[i + j] != p[j] {
                same = false;
            }
            j = j + 1;
        }
        if same {
            assert(t@.subrange(i as int, i + p@.len()) =~= p@);
            return true;
        }
        assert(t@.subrange(i as int, i + p@.len())[0] == t@[i as int + 0]);
        assert(!(t@.subrange(i as int, i + p@.len()) =~= p@)) by {
            let m: int = choose|m: int| 0 <= m < p@.len() && t@[i + m] != p@[m];
            assert(t@.subrange(i as int, i + p@.len())[m] == t@[i + m]);
        }
        if i == last {
            return false;
        }
        i = i + 1;
    }
}

/// The outcome of creating the workers' consumer group: a group that
/// already exists (an error that mentions `BUSYGROUP`) counts as created;
/// any other error is passed on.
pub fn group_create_result(result: Result<(), String>) -> (r: Result<(), String>)
    ensures
        match result {
            Ok(()) => r == Ok::<(), String>(()),
            Err(e) => if contains_text(e@, "BUSYGROUP"@) {
                r == Ok::<(), String>(())
            } else {
                r == Err::<(), String>(e)
            },
        },
{
    match result {
        Ok(()) => Ok(()),
        Err(e) => if text_contains(e.as_str(), "BUSYGROUP") { Ok(()) } else { Err(e) },
    }
}

} // verus!
