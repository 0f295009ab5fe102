//! The correlation engine: hands out call ids and, for the call under way,
//! picks the matching reply out of each inbound transport message while
//! surfacing everything else.
//!
//! The engine does no I/O. Its driver sends the text that [`Session::begin`]
//! returns, then feeds every inbound message to [`on_message`] until it
//! answers [`Step::Done`].
use vstd::prelude::*;
use crate::codec::{
    Method, PacketIncoming, Response, ResponseError, encode, is_request, single_line, frame_units, split_frame,
    views, unit_packet, decode_envelope,
};
use crate::json::{Json, text_of};

verus! {

/// Per-connection state: the last call id handed out (0 before the first).
#[derive(Debug)]
pub struct Session {
    pub last_id: u32,
}

impl Session {
    pub fn new() -> (r: Session)
        ensures
            r.last_id == 0,
    {
        Session { last_id: 0 }
    }

    /// Starts a call: takes the next id and encodes `m` under it. `None` once
    /// every `u32` id has been used, since ids are never reused.
    pub fn begin(&mut self, m: &Method) -> (r: Option<(u32, String)>)
        ensures
            old(self).last_id < u32::MAX ==> (r matches Some((id, text)) && id == old(self).last_id
                + 1 && final(self).last_id == id && single_line(text@) && text@.len() > 0
                && exists|j: Json| #[trigger] is_request(j, id, *m) && text@ == text_of(j)),
            old(self).last_id == u32::MAX ==> r is None && final(self).last_id == u32::MAX,
    {
        if self.last_id == u32::MAX {
            return None;
        }
        self.last_id = self.last_id + 1;
        let id = self.last_id;
        Some((id, encode(id, m)))
    }
}

/// A unit that was not the awaited reply, handed to the diagnostic sink.
#[derive(Debug)]
pub enum Observed {
    Packet(PacketIncoming),
    /// Text that reads neither as a reply nor as a notification.
    Undecodable(String),
}

/// What the engine makes of one inbound message.
#[derive(Debug)]
pub enum Step {
    /// The awaited reply came; `skipped` holds every other unit, in order.
    Done { response: Response, skipped: Vec<Observed> },
    /// The device refused the call; `skipped` holds every other unit, in order.
    Refused { error: ResponseError, skipped: Vec<Observed> },
    /// No unit answered the call; `skipped` holds them all, in order.
    Waiting { skipped: Vec<Observed> },
}

/// `o` is how unit `u` is reported.
pub open spec fn observed(u: Seq<char>, o: Observed) -> bool {
    match unit_packet(u) {
        Some(p) => o == Observed::Packet(p),
        None => o matches Observed::Undecodable(t) && t@ == u,
    }
}

/// The call a packet answers, where it answers one.
pub open spec fn answer_id(p: PacketIncoming) -> Option<u32> {
    match p {
        PacketIncoming::Response(r) => Some(r.id),
        PacketIncoming::Error(e) => Some(e.id),
        PacketIncoming::IncomingRequest(_) => None,
    }
}

/// Unit `u` is a reply, or an error reply, to call `id`.
pub open spec fn answers(u: Seq<char>, id: u32) -> bool {
    unit_packet(u) matches Some(p) && answer_id(p) == Some(id)
}

/// What answers a call: its reply or its refusal.
pub open spec fn answer_packet(a: Result<Response, ResponseError>) -> PacketIncoming {
    match a {
        Ok(r) => PacketIncoming::Response(r),
        Err(e) => PacketIncoming::Error(e),
    }
}

/// Unit `k` is the first of `us` that answers call `id`.
pub open spec fn first_answer(us: Seq<Seq<char>>, id: u32, k: int) -> bool {
    &&& 0 <= k < us.len()
    &&& answers(us[k], id)
    &&& forall|j: int| 0 <= j < k ==> !answers(#[trigger] us[j], id)
}

/// `sk` reports the units of `us` one by one, unit `k` left out.
pub open spec fn reports_all_but(us: Seq<Seq<char>>, sk: Seq<Observed>, k: int) -> bool {
    &&& sk.len() == us.len() - 1
    &&& forall|j: int| 0 <= j < k ==> observed(us[j], #[trigger] sk[j])
    &&& forall|j: int| k <= j < sk.len() ==> observed(us[j + 1], #[trigger] sk[j])
}

/// `sk` reports every unit of `us`, in order.
pub open spec fn reports_all(us: Seq<Seq<char>>, sk: Seq<Observed>) -> bool {
    &&& sk.len() == us.len()
    &&& forall|j: int| 0 <= j < us.len() ==> observed(us[j], #[trigger] sk[j])
}

/// Decodes unit `u`: a reply or an error reply comes back as `Ok`,
/// anything else as the report it gets.
fn observe(u: &String) -> (r: Result<Result<Response, ResponseError>, Observed>)
    ensures
        match r {
            Ok(a) => unit_packet(u@) == Some(answer_packet(a)),
            Err(o) => observed(u@, o) && !(unit_packet(u@) matches Some(p) && answer_id(
                p,
            ) is Some),
        },
{
    match decode_envelope(u.as_str()) {
        Some(PacketIncoming::Response(resp)) => Ok(Ok(resp)),
        Some(PacketIncoming::Error(e)) => Ok(Err(e)),
        Some(p) => Err(Observed::Packet(p)),
        None => Err(Observed::Undecodable(u.clone())),
    }
}

fn answer_matches(a: &Result<Response, ResponseError>, id: u32) -> (r: bool)
    ensures
        r == (answer_id(answer_packet(*a)) == Some(id)),
{
    match a {
        Ok(resp) => resp.id == id,
        Err(e) => e.id == id,
    }
}

/// Handles one inbound message while call `id` is outstanding: the first
/// unit that is a reply or an error reply with that id ends the wait; every
/// other unit is reported, never kept.
pub fn on_message(id: u32, message: &str) -> (r: Step)
    ensures
        match r {
            Step::Done { response, skipped } => exists|k: int|
                #![trigger first_answer(frame_units(message@), id, k)]
                first_answer(frame_units(message@), id, k) && unit_packet(frame_units(message@)[k])
                    == Some(PacketIncoming::Response(response)) && reports_all_but(
                    frame_units(message@),
                    skipped@,
                    k,
                ),
            Step::Refused { error, skipped } => exists|k: int|
                #![trigger first_answer(frame_units(message@), id, k)]
                first_answer(frame_units(message@), id, k) && unit_packet(frame_units(message@)[k])
                    == Some(PacketIncoming::Error(error)) && reports_all_but(
                    frame_units(message@),
                    skipped@,
                    k,
                ),
            Step::Waiting { skipped } => (forall|j: int|
                0 <= j < frame_units(message@).len() ==> !answers(
                    #[trigger] frame_units(message@)[j],
                    id,
                )) && reports_all(frame_units(message@), skipped@),
        },
{
    let units = split_frame(message);
    let ghost us = frame_units(message@);
    assert(forall|j: int| 0 <= j < units@.len() ==> units@[j]@ == #[trigger] us[j]);
    let mut skipped: Vec<Observed> = Vec::new();
    let mut found: Option<Result<Response, ResponseError>> = None;
    let ghost mut k: int = 0;
    let mut i: usize = 0;
    while i < units.len()
        invariant
            views(units@) == us,
            i <= units@.len(),
            forall|j: int| 0 <= j < units@.len() ==> units@[j]@ == #[trigger] us[j],
            match found {
                None => reports_all(us.take(i as int), skipped@) && forall|j: int|
                    0 <= j < i ==> !answers(#[trigger] us[j], id),
                Some(a) => 0 <= k < i && first_answer(us, id, k) && unit_packet(us[k]) == Some(
                    answer_packet(a),
                ) && skipped@.len() == i - 1 && (forall|j: int|
                    0 <= j < k ==> observed(us[j], #[trigger] skipped@[j])) && (forall|j: int|
                    k <= j < i - 1 ==> observed(us[j + 1], #[trigger] skipped@[j])),
            },
        decreases units@.len() - i,
    {
        match observe(&units[i]) {
            Ok(a) => {
                if found.is_none() && answer_matches(&a, id) {
                    proof {
                        k = i as int;
                    }
                    found = Some(a);
                } else {
                    skipped.push(Observed::Packet(match a {
                        Ok(resp) => PacketIncoming::Response(resp),
                        Err(e) => PacketIncoming::Error(e),
                    }));
                }
            },
            Err(o) => {
                skipped.push(o);
            },
        }
        i = i + 1;
    }
    match found {
        Some(Ok(response)) => {
            assert(first_answer(frame_units(message@), id, k));
            Step::Done { response, skipped }
        },
        Some(Err(error)) => {
            assert(first_answer(frame_units(message@), id, k));
            Step::Refused { error, skipped }
        },
        None => {
            assert(us.take(units@.len() as int) =~= us);
            Step::Waiting { skipped }
        },
    }
}

/// A message in which exactly one unit answers call `id` is resolved by that
/// unit: it is the first answer, so [`on_message`] returns what it holds and
/// reports every other unit.
pub proof fn lemma_unique_reply_selected(id: u32, message: Seq<char>, k: int)
    requires
        0 <= k < frame_units(message).len(),
        answers(frame_units(message)[k], id),
        forall|j: int|
            0 <= j < frame_units(message).len() && j != k ==> !answers(
                #[trigger] frame_units(message)[j],
                id,
            ),
    ensures
        first_answer(frame_units(message), id, k),
        forall|k2: int| #[trigger] first_answer(frame_units(message), id, k2) ==> k2 == k,
{
}

} // verus!
