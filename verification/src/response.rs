//! The response side of an exchange: extracting generated text segments
//! from a success body and classifying failures.

use vstd::prelude::*;
use vstd::string::StringExecFns;
use crate::codec::parsed_of;
use crate::json::{Json, JsonValue, entries_lookup, json_get, models_of};

verus! {

/// The normalized result of one successful exchange: generated text
/// segments, in the order the service returned them, restricted to
/// candidates attributed to the `"model"` role.
#[derive(Debug, PartialEq, Eq)]
pub struct Response {
    pub segments: Vec<String>,
}

impl View for Response {
    type V = Seq<Seq<char>>;

    open spec fn view(&self) -> Seq<Seq<char>> {
        self.segments.deep_view()
    }
}

/// A failed exchange.
#[derive(Debug, PartialEq, Eq)]
pub enum Error {
    /// The HTTP exchange could not be completed, or its body could not
    /// be read as JSON.
    TransportFailure { message: String },
    /// The service rejected the request: a failing HTTP status plus the
    /// provider's diagnostic message, empty when the body carried none.
    ServiceFailure { status: u16, message: String },
}

/// An HTTP status that counts as success.
pub open spec fn is_success_status(status: u16) -> bool {
    200 <= status < 300
}

/// The text of one content part, when it has a string `text` field.
pub open spec fn part_text(part: Json) -> Option<Seq<char>> {
    match json_get(part, "text"@) {
        Some(Json::Str(t)) => Some(t),
        _ => None,
    }
}

/// The texts of a list of content parts, in order; parts without a
/// string `text` field contribute nothing.
pub open spec fn texts_of_parts(parts: Seq<Json>) -> Seq<Seq<char>>
    decreases parts.len(),
{
    if parts.len() == 0 {
        Seq::empty()
    } else {
        let head = match part_text(parts[0]) {
            Some(t) => seq![t],
            None => Seq::<Seq<char>>::empty(),
        };
        head + texts_of_parts(parts.drop_first())
    }
}

/// Whether a candidate's content is attributed to the `"model"` role:
/// true when the `role` field is absent, or is exactly the string
/// `"model"`.
pub open spec fn candidate_role_ok(content: Json) -> bool {
    match json_get(content, "role"@) {
        None => true,
        Some(Json::Str(role)) => role == "model"@,
        Some(_) => false,
    }
}

/// The segments one candidate contributes: the texts of its
/// `content.parts`, unless the candidate has no content object, its
/// content is attributed to another role, or `parts` is not an array.
pub open spec fn candidate_texts(candidate: Json) -> Seq<Seq<char>> {
    match json_get(candidate, "content"@) {
        Some(content) => if content is Obj && candidate_role_ok(content) {
            match json_get(content, "parts"@) {
                Some(Json::Arr(parts)) => texts_of_parts(parts),
                _ => Seq::empty(),
            }
        } else {
            Seq::empty()
        },
        None => Seq::empty(),
    }
}

/// The segments of a list of candidates, in order.
pub open spec fn segments_of_candidates(candidates: Seq<Json>) -> Seq<Seq<char>>
    decreases candidates.len(),
{
    if candidates.len() == 0 {
        Seq::empty()
    } else {
        candidate_texts(candidates[0]) + segments_of_candidates(candidates.drop_first())
    }
}

/// The segments of a whole success body: those of its `candidates`
/// array, or none when `candidates` is absent or not an array.
pub open spec fn segments_of(body: Json) -> Seq<Seq<char>> {
    match json_get(body, "candidates"@) {
        Some(Json::Arr(candidates)) => segments_of_candidates(candidates),
        _ => Seq::empty(),
    }
}

/// The provider's diagnostic message, when the body carries a string
/// `error.message` field.
pub open spec fn error_message_of(body: Json) -> Option<Seq<char>> {
    match json_get(body, "error"@) {
        Some(err) => match json_get(err, "message"@) {
            Some(Json::Str(message)) => Some(message),
            _ => None,
        },
        None => None,
    }
}

/// The message a service-level failure carries: the provider's
/// diagnostic, or the empty string when the body has none.
pub open spec fn service_message_of(body: Json) -> Seq<char> {
    match error_message_of(body) {
        Some(message) => message,
        None => Seq::empty(),
    }
}

/// Append the texts of `parts` to `out`, in order.
fn push_texts(parts: &Vec<JsonValue>, out: &mut Vec<String>)
    ensures
        final(out).deep_view() == old(out).deep_view() + texts_of_parts(models_of(parts@)),
{
    let ghost pseq = models_of(parts@);
    let ghost d0 = out.deep_view();
    proof {
        assert(pseq.skip(0) =~= pseq);
    }
    let n = parts.len();
    let mut i: usize = 0;
    while i < n
        invariant
            n == parts.len(),
            0 <= i <= n,
            pseq == models_of(parts@),
            pseq.len() == n,
            d0 == old(out).deep_view(),
            out.deep_view() + texts_of_parts(pseq.skip(i as int)) == d0 + texts_of_parts(pseq),
        decreases n - i,
    {
        proof {
            assert(pseq.skip(i as int)[0] == pseq[i as int]);
            assert(pseq.skip(i as int).drop_first() =~= pseq.skip(i as int + 1));
            assert(pseq[i as int] == parts@[i as int]@);
        }
        let ghost before = out.deep_view();
        match parts[i].get("text") {
            Some(JsonValue::Str(t)) => {
                out.push(t.clone());
                proof {
                    assert(out.deep_view() =~= before.push(t@));
                    assert(before.push(t@) + texts_of_parts(pseq.skip(i as int + 1)) =~= before
                        + (seq![t@] + texts_of_parts(pseq.skip(i as int + 1))));
                }
            },
            _ => {},
        }
        proof {
            assert(out.deep_view() + texts_of_parts(pseq.skip(i as int + 1)) == d0
                + texts_of_parts(pseq));
        }
        i += 1;
    }
    proof {
        assert(pseq.skip(n as int) =~= Seq::<Json>::empty());
        assert(out.deep_view() + Seq::<Seq<char>>::empty() =~= out.deep_view());
    }
}

/// Append the segments `candidate` contributes to `out`.
fn push_candidate(candidate: &JsonValue, out: &mut Vec<String>)
    ensures
        final(out).deep_view() == old(out).deep_view() + candidate_texts(candidate@),
{
    let content = match candidate.get("content") {
        Some(content) => content,
        None => {
            proof {
                assert(old(out).deep_view() + candidate_texts(candidate@) =~= old(
                    out,
                ).deep_view());
            }
            return;
        },
    };
    match content {
        JsonValue::Obj(_) => {},
        _ => {
            proof {
                assert(old(out).deep_view() + candidate_texts(candidate@) =~= old(
                    out,
                ).deep_view());
            }
            return;
        },
    }
    let role_ok: bool = match content.get("role") {
        None => true,
        Some(JsonValue::Str(role)) => {
            let expected = String::from_str("model");
            *role == expected
        },
        Some(_) => false,
    };
    proof {
        assert(role_ok == candidate_role_ok(content@));
    }
    if role_ok {
        match content.get("parts") {
            Some(JsonValue::Arr(parts)) => {
                proof {
                    crate::json::lemma_arr_models(*parts);
                }
                push_texts(parts, out);
            },
            _ => {
                proof {
                    assert(old(out).deep_view() + candidate_texts(candidate@) =~= old(
                        out,
                    ).deep_view());
                }
            },
        }
    } else {
        proof {
            assert(old(out).deep_view() + candidate_texts(candidate@) =~= old(out).deep_view());
        }
    }
}

/// Extract every generated segment of a success body, in order.
fn extract_segments(body: &JsonValue) -> (r: Vec<String>)
    ensures
        r.deep_view() == segments_of(body@),
{
    let mut out: Vec<String> = Vec::new();
    proof {
        assert(out.deep_view() =~= Seq::<Seq<char>>::empty());
    }
    let candidates = match body.get("candidates") {
        Some(JsonValue::Arr(candidates)) => candidates,
        _ => {
            return out;
        },
    };
    proof {
        crate::json::lemma_arr_models(*candidates);
    }
    let ghost cseq = models_of(candidates@);
    proof {
        assert(cseq.skip(0) =~= cseq);
    }
    let n = candidates.len();
    let mut i: usize = 0;
    while i < n
        invariant
            n == candidates.len(),
            0 <= i <= n,
            cseq == models_of(candidates@),
            cseq.len() == n,
            segments_of(body@) == segments_of_candidates(cseq),
            out.deep_view() + segments_of_candidates(cseq.skip(i as int)) == segments_of_candidates(
                cseq,
            ),
        decreases n - i,
    {
        proof {
            assert(cseq.skip(i as int)[0] == cseq[i as int]);
            assert(cseq.skip(i as int).drop_first() =~= cseq.skip(i as int + 1));
            assert(cseq[i as int] == candidates@[i as int]@);
        }
        let ghost before = out.deep_view();
        push_candidate(&candidates[i], &mut out);
        proof {
            assert(before + candidate_texts(cseq[i as int]) + segments_of_candidates(
                cseq.skip(i as int + 1),
            ) =~= before + (candidate_texts(cseq[i as int]) + segments_of_candidates(
                cseq.skip(i as int + 1),
            )));
        }
        i += 1;
    }
    proof {
        assert(cseq.skip(n as int) =~= Seq::<Json>::empty());
        assert(out.deep_view() + Seq::<Seq<char>>::empty() =~= out.deep_view());
    }
    out
}

/// Classify one HTTP exchange outcome, given the raw status code and the
/// decoded JSON body.
///
/// On a success status the generated segments are extracted, in order;
/// a body with no usable `candidates` yields an empty response rather
/// than an error. On a failing status the result is a service-level
/// failure carrying that status and the provider's `error.message`,
/// or the empty string when the body has none.
pub fn classify(status: u16, body: &JsonValue) -> (r: Result<Response, Error>)
    ensures
        is_success_status(status) ==> (r matches Ok(resp) && resp@ == segments_of(body@)),
        !is_success_status(status) ==> (r matches Err(Error::ServiceFailure {
            status: s,
            message: m,
        }) && s == status && m@ == service_message_of(body@)),
{
    if 200 <= status && status < 300 {
        Ok(Response { segments: extract_segments(body) })
    } else {
        let message: String = match body.get("error") {
            Some(err) => match err.get("message") {
                Some(JsonValue::Str(m)) => m.clone(),
                _ => String::new(),
            },
            None => String::new(),
        };
        Err(Error::ServiceFailure { status, message })
    }
}

/// A candidate whose content is attributed to a role other than
/// `"model"` contributes no segments.
pub proof fn lemma_foreign_role_candidate_empty(candidate: Json, content: Json, role: Seq<char>)
    requires
        json_get(candidate, "content"@) == Some(content),
        json_get(content, "role"@) == Some(Json::Str(role)),
        role != "model"@,
    ensures
        candidate_texts(candidate) == Seq::<Seq<char>>::empty(),
{
}

/// A body without a `candidates` array yields no segments at all; on a
/// success status it classifies to an empty response, not an error.
pub proof fn lemma_no_candidates_no_segments(body: Json)
    requires
        !(json_get(body, "candidates"@) matches Some(Json::Arr(_))),
    ensures
        segments_of(body) == Seq::<Seq<char>>::empty(),
{
}

/// A synthetic success body that echoes `text`: one candidate attributed
/// to the `"model"` role, with a single part carrying `text`.
pub open spec fn spec_echo_reply(text: Seq<char>) -> Json {
    Json::Obj(
        seq![
            (
                "candidates"@,
                Json::Arr(
                    seq![
                        Json::Obj(
                            seq![
                                (
                                    "content"@,
                                    Json::Obj(
                                        seq![
                                            ("role"@, Json::Str("model"@)),
                                            (
                                                "parts"@,
                                                Json::Arr(
                                                    seq![
                                                        Json::Obj(
                                                            seq![("text"@, Json::Str(text))],
                                                        ),
                                                    ],
                                                ),
                                            ),
                                        ],
                                    ),
                                ),
                            ],
                        ),
                    ],
                ),
            ),
        ],
    )
}

/// Echo round trip: a body built from a request carries exactly the
/// request's prompt, and a success reply echoing that prompt classifies
/// to exactly that prompt — order preserved, no character changed.
pub proof fn lemma_round_trip(prompt: Seq<char>, max_tokens: Option<u64>)
    ensures
        crate::request::prompt_of_body(crate::request::spec_request_body(prompt, max_tokens))
            == Some(prompt),
        segments_of(spec_echo_reply(prompt)) == seq![prompt],
{
    crate::request::lemma_built_body_carries_prompt(prompt, max_tokens);
    reveal_strlit("role");
    reveal_strlit("parts");
    assert("role"@.len() == 4);
    assert("parts"@.len() == 5);
    let reply = spec_echo_reply(prompt);
    let candidates = reply->Obj_0[0].1;
    assert(json_get(reply, "candidates"@) == Some(candidates));
    let candidate = candidates->Arr_0[0];
    let content = candidate->Obj_0[0].1;
    assert(json_get(candidate, "content"@) == Some(content));
    let centries = content->Obj_0;
    assert(json_get(content, "role"@) == Some(Json::Str("model"@)));
    assert(candidate_role_ok(content));
    let tail = centries.drop_first();
    assert(tail =~= seq![centries[1]]);
    let parts = centries[1].1;
    assert(entries_lookup(tail, "parts"@) == Some(parts));
    assert(json_get(content, "parts"@) == Some(parts));
    let part = parts->Arr_0[0];
    assert(json_get(part, "text"@) == Some(Json::Str(prompt)));
    assert(part_text(part) == Some(prompt));
    assert(parts->Arr_0.drop_first() =~= Seq::<Json>::empty());
    assert(texts_of_parts(parts->Arr_0) =~= seq![prompt] + texts_of_parts(Seq::<Json>::empty()));
    assert(seq![prompt] + Seq::<Seq<char>>::empty() =~= seq![prompt]);
    assert(candidate_texts(candidate) == seq![prompt]);
    assert(candidates->Arr_0.drop_first() =~= Seq::<Json>::empty());
    assert(segments_of_candidates(candidates->Arr_0) =~= candidate_texts(candidate)
        + segments_of_candidates(Seq::<Json>::empty()));
    assert(segments_of(reply) =~= seq![prompt]);
}

/// Classify one HTTP exchange outcome, given the raw status code and the
/// body as text.
///
/// A body that does not parse as JSON is a transport-level failure,
/// whatever the status — service classification is never applied to it.
/// A body that parses is classified exactly as [`classify`] classifies
/// the document it parses to.
pub fn classify_response(status: u16, body_text: &str) -> (r: Result<Response, Error>)
    ensures
        parsed_of(body_text@) matches Some(doc) ==> {
            &&& is_success_status(status) ==> (r matches Ok(resp) && resp@ == segments_of(doc))
            &&& !is_success_status(status) ==> (r matches Err(Error::ServiceFailure {
                status: s,
                message: m,
            }) && s == status && m@ == service_message_of(doc))
        },
        parsed_of(body_text@) is None ==> (r matches Err(Error::TransportFailure { message })
            && message@ == "response body is not valid JSON"@),
        !is_success_status(status) ==> r is Err,
        r matches Err(Error::ServiceFailure { status: s, .. }) ==> s == status
            && !is_success_status(status),
        r is Ok ==> is_success_status(status),
{
    match crate::codec::parse_document(body_text) {
        Some(body) => classify(status, &body),
        None => Err(
            Error::TransportFailure {
                message: String::from_str("response body is not valid JSON"),
            },
        ),
    }
}

} // verus!
