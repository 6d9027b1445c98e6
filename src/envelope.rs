//! The versioned persistence envelope: a holder as a flat record of strings,
//! and that record as JSON text `{"version":"2.0","data":{...}}`.
use vstd::prelude::*;
use crate::error::ErrorKind;
use crate::holder::{clone_opt, CredentialRequest, Holder, HolderData, HolderState, StoredCredential};
use crate::json::{json_at, json_at_of, json_quoted, quote, str_at, string_at, JsonAt};
use crate::message::{
    issue_readable, offer_readable, opt_view, parse_issue, parse_offer, text_is,
};

verus! {

/// A holder as plain strings, the form in which it is persisted. Fields that
/// the state does not use are `None`.
#[derive(Clone, Debug)]
pub struct HolderRecord {
    pub source_id: String,
    pub thread_id: String,
    pub state: String,
    pub offer: Option<String>,
    pub request_id: Option<String>,
    pub request_attachment: Option<String>,
    pub credential: Option<String>,
    pub cred_id: Option<String>,
    pub rev_reg_id: Option<String>,
    pub tails_location: Option<String>,
    pub tails_hash: Option<String>,
    pub declined: bool,
}

pub open spec fn state_name(s: HolderState) -> Seq<char> {
    match s {
        HolderState::ProposalSet => "ProposalSet"@,
        HolderState::OfferReceived => "OfferReceived"@,
        HolderState::RequestSet => "RequestSet"@,
        HolderState::Finished => "Finished"@,
        HolderState::Failed => "Failed"@,
    }
}

pub open spec fn state_of_name(n: Seq<char>) -> Option<HolderState> {
    if n == "ProposalSet"@ {
        Some(HolderState::ProposalSet)
    } else if n == "OfferReceived"@ {
        Some(HolderState::OfferReceived)
    } else if n == "RequestSet"@ {
        Some(HolderState::RequestSet)
    } else if n == "Finished"@ {
        Some(HolderState::Finished)
    } else if n == "Failed"@ {
        Some(HolderState::Failed)
    } else {
        None
    }
}

pub open spec fn offer_text(o: Option<crate::message::Offer>) -> Option<Seq<char>> {
    match o {
        Some(o) => Some(o.text@),
        None => None,
    }
}

/// Whether `rec` records `h`: the fields that `h`'s state uses agree.
pub open spec fn record_matches(rec: HolderRecord, h: Holder) -> bool {
    &&& rec.source_id@ == h.source_id@
    &&& rec.thread_id@ == h.thread_id@
    &&& rec.state@ == state_name(h.state())
    &&& opt_view(rec.offer) == offer_text(h.offer())
    &&& match h.data {
        HolderData::RequestSet { request, .. } => {
            &&& opt_view(rec.request_id) == Some(request.id@)
            &&& opt_view(rec.request_attachment) == Some(request.attachment@)
        },
        HolderData::Finished { credential, stored, .. } => {
            &&& opt_view(rec.credential) == Some(credential.text@)
            &&& opt_view(rec.cred_id) == Some(stored.cred_id@)
            &&& opt_view(rec.rev_reg_id) == opt_view(stored.rev_reg_id)
            &&& opt_view(rec.tails_location) == opt_view(stored.tails_location)
            &&& opt_view(rec.tails_hash) == opt_view(stored.tails_hash)
        },
        HolderData::Failed { declined, .. } => rec.declined == declined,
        _ => true,
    }
}

/// Whether `rec` holds nothing beyond what `h`'s state uses.
pub open spec fn record_tidy(rec: HolderRecord, h: Holder) -> bool {
    &&& (!(h.data is RequestSet) ==> rec.request_id is None && rec.request_attachment is None)
    &&& (!(h.data is Finished) ==> {
        &&& rec.credential is None
        &&& rec.cred_id is None
        &&& rec.rev_reg_id is None
        &&& rec.tails_location is None
        &&& rec.tails_hash is None
    })
    &&& (!(h.data is Failed) ==> !rec.declined)
}

/// Whether `rec` names a state and holds, readable, what that state needs.
pub open spec fn record_valid(rec: HolderRecord) -> bool {
    let offer_ok = rec.offer matches Some(t) && offer_readable(t@);
    match state_of_name(rec.state@) {
        None => false,
        Some(HolderState::ProposalSet) => rec.offer is None,
        Some(HolderState::OfferReceived) => offer_ok,
        Some(HolderState::RequestSet) => offer_ok && rec.request_id is Some
            && rec.request_attachment is Some,
        Some(HolderState::Finished) => offer_ok && (rec.credential matches Some(t) && issue_readable(
            t@,
        )) && rec.cred_id is Some,
        Some(HolderState::Failed) => rec.offer matches Some(t) ==> offer_readable(t@),
    }
}

fn state_label(s: HolderState) -> (r: String)
    ensures
        r@ == state_name(s),
{
    match s {
        HolderState::ProposalSet => String::from_str("ProposalSet"),
        HolderState::OfferReceived => String::from_str("OfferReceived"),
        HolderState::RequestSet => String::from_str("RequestSet"),
        HolderState::Finished => String::from_str("Finished"),
        HolderState::Failed => String::from_str("Failed"),
    }
}

fn state_from_label(n: &String) -> (r: Option<HolderState>)
    ensures
        r == state_of_name(n@),
{
    if text_is(n, "ProposalSet") {
        Some(HolderState::ProposalSet)
    } else if text_is(n, "OfferReceived") {
        Some(HolderState::OfferReceived)
    } else if text_is(n, "RequestSet") {
        Some(HolderState::RequestSet)
    } else if text_is(n, "Finished") {
        Some(HolderState::Finished)
    } else if text_is(n, "Failed") {
        Some(HolderState::Failed)
    } else {
        None
    }
}

/// The record of a holder.
pub fn to_record(h: &Holder) -> (r: HolderRecord)
    ensures
        record_matches(r, *h),
        record_tidy(r, *h),
{
    let mut r = HolderRecord {
        source_id: h.source_id.clone(),
        thread_id: h.thread_id.clone(),
        state: state_label(h.get_state()),
        offer: None,
        request_id: None,
        request_attachment: None,
        credential: None,
        cred_id: None,
        rev_reg_id: None,
        tails_location: None,
        tails_hash: None,
        declined: false,
    };
    match &h.data {
        HolderData::ProposalSet => {},
        HolderData::OfferReceived { offer } => {
            r.offer = Some(offer.text.clone());
        },
        HolderData::RequestSet { offer, request } => {
            r.offer = Some(offer.text.clone());
            r.request_id = Some(request.id.clone());
            r.request_attachment = Some(request.attachment.clone());
        },
        HolderData::Finished { offer, credential, stored } => {
            r.offer = Some(offer.text.clone());
            r.credential = Some(credential.text.clone());
            r.cred_id = Some(stored.cred_id.clone());
            r.rev_reg_id = clone_opt(&stored.rev_reg_id);
            r.tails_location = clone_opt(&stored.tails_location);
            r.tails_hash = clone_opt(&stored.tails_hash);
        },
        HolderData::Failed { offer, declined } => {
            r.offer = match offer {
                Some(o) => Some(o.text.clone()),
                None => None,
            };
            r.declined = *declined;
        },
    }
    r
}

/// The holder that a record describes; `InvalidJson` where the record names
/// no state, or lacks or cannot read what its state needs.
pub fn from_record(rec: &HolderRecord) -> (r: Result<Holder, ErrorKind>)
    ensures
        r is Ok <==> record_valid(*rec),
        r is Err ==> r == Err::<Holder, ErrorKind>(ErrorKind::InvalidJson),
        r matches Ok(h) ==> h.wf() && record_matches(*rec, h),
{
    let state = match state_from_label(&rec.state) {
        Some(s) => s,
        None => return Err(ErrorKind::InvalidJson),
    };
    let offer = match &rec.offer {
        Some(t) => match parse_offer(t.as_str()) {
            Some(o) => Some(o),
            None => return Err(ErrorKind::InvalidJson),
        },
        None => None,
    };
    let data = match (state, offer) {
        (HolderState::ProposalSet, None) => HolderData::ProposalSet,
        (HolderState::OfferReceived, Some(offer)) => HolderData::OfferReceived { offer },
        (HolderState::RequestSet, Some(offer)) => match (&rec.request_id, &rec.request_attachment) {
            (Some(id), Some(attachment)) => HolderData::RequestSet {
                offer,
                request: CredentialRequest { id: id.clone(), attachment: attachment.clone() },
            },
            _ => return Err(ErrorKind::InvalidJson),
        },
        (HolderState::Finished, Some(offer)) => {
            let credential = match &rec.credential {
                Some(t) => match parse_issue(t.as_str()) {
                    Some(i) => i,
                    None => return Err(ErrorKind::InvalidJson),
                },
                None => return Err(ErrorKind::InvalidJson),
            };
            let cred_id = match &rec.cred_id {
                Some(c) => c.clone(),
                None => return Err(ErrorKind::InvalidJson),
            };
            HolderData::Finished {
                offer,
                credential,
                stored: StoredCredential {
                    cred_id,
                    rev_reg_id: clone_opt(&rec.rev_reg_id),
                    tails_location: clone_opt(&rec.tails_location),
                    tails_hash: clone_opt(&rec.tails_hash),
                },
            }
        },
        (HolderState::Failed, offer) => HolderData::Failed { offer, declined: rec.declined },
        _ => return Err(ErrorKind::InvalidJson),
    };
    Ok(Holder { source_id: rec.source_id.clone(), thread_id: rec.thread_id.clone(), data })
}

/// Each state's name reads back as that state.
pub proof fn lemma_state_name(s: HolderState)
    ensures
        state_of_name(state_name(s)) == Some(s),
{
    reveal_strlit("ProposalSet");
    reveal_strlit("OfferReceived");
    reveal_strlit("RequestSet");
    reveal_strlit("Finished");
    reveal_strlit("Failed");
    assert("ProposalSet"@ != "OfferReceived"@) by {
        assert("ProposalSet"@[0] != "OfferReceived"@[0]);
    }
    assert("ProposalSet"@ != "RequestSet"@) by {
        assert("ProposalSet"@[0] != "RequestSet"@[0]);
    }
    assert("OfferReceived"@ != "RequestSet"@) by {
        assert("OfferReceived"@[0] != "RequestSet"@[0]);
    }
    assert("ProposalSet"@ != "Finished"@) by {
        assert("ProposalSet"@[0] != "Finished"@[0]);
    }
    assert("OfferReceived"@ != "Finished"@) by {
        assert("OfferReceived"@[0] != "Finished"@[0]);
    }
    assert("RequestSet"@ != "Finished"@) by {
        assert("RequestSet"@[0] != "Finished"@[0]);
    }
    assert("ProposalSet"@ != "Failed"@) by {
        assert("ProposalSet"@[0] != "Failed"@[0]);
    }
    assert("OfferReceived"@ != "Failed"@) by {
        assert("OfferReceived"@[0] != "Failed"@[0]);
    }
    assert("RequestSet"@ != "Failed"@) by {
        assert("RequestSet"@[0] != "Failed"@[0]);
    }
    assert("Finished"@ != "Failed"@) by {
        assert("Finished"@[1] != "Failed"@[1]);
    }
}

/// Reading back the record of a well-formed holder succeeds, and gives a
/// holder in the same state, on the same thread, that keeps the same texts.
pub proof fn lemma_record_round_trip(h: Holder, rec: HolderRecord, back: Holder)
    requires
        h.wf(),
        record_matches(rec, h),
        record_matches(rec, back),
    ensures
        record_valid(rec),
        back.state() == h.state(),
        back.source_id@ == h.source_id@,
        back.thread_id@ == h.thread_id@,
        offer_text(back.offer()) == offer_text(h.offer()),
{
    lemma_state_name(h.state());
    lemma_state_name(back.state());
}

/// `,"key":"value"` for a present value, nothing for an absent one.
pub open spec fn field_json(key: Seq<char>, v: Option<Seq<char>>) -> Seq<char> {
    match v {
        Some(x) => ",\""@ + key + "\":"@ + json_quoted(x),
        None => Seq::<char>::empty(),
    }
}

/// The JSON text of a record, in its versioned envelope.
pub open spec fn record_json(rec: HolderRecord) -> Seq<char> {
    "{\"version\":\"2.0\",\"data\":{\"source_id\":"@ + json_quoted(rec.source_id@)
        + ",\"thread_id\":"@ + json_quoted(rec.thread_id@) + ",\"state\":"@ + json_quoted(
        rec.state@,
    ) + field_json("offer"@, opt_view(rec.offer)) + field_json(
        "request_id"@,
        opt_view(rec.request_id),
    ) + field_json("request_attachment"@, opt_view(rec.request_attachment)) + field_json(
        "credential"@,
        opt_view(rec.credential),
    ) + field_json("cred_id"@, opt_view(rec.cred_id)) + field_json(
        "rev_reg_id"@,
        opt_view(rec.rev_reg_id),
    ) + field_json("tails_location"@, opt_view(rec.tails_location)) + field_json(
        "tails_hash"@,
        opt_view(rec.tails_hash),
    ) + (if rec.declined {
        ",\"declined\":\"true\""@
    } else {
        Seq::<char>::empty()
    }) + "}}"@
}

fn push_field(s: &mut String, key: &str, v: &Option<String>)
    ensures
        final(s)@ == old(s)@ + field_json(key@, opt_view(*v)),
{
    match v {
        Some(x) => {
            let ghost start = s@;
            s.append(",\"");
            s.append(key);
            s.append("\":");
            s.append(quote(x.as_str()).as_str());
            assert(s@ =~= start + field_json(key@, opt_view(*v)));
        },
        None => {
            assert(s@ =~= s@ + field_json(key@, opt_view(*v)));
        },
    }
}

/// The record as JSON text, in its versioned envelope.
pub fn encode_record(rec: &HolderRecord) -> (r: String)
    ensures
        r@ == record_json(*rec),
{
    let mut s = String::from_str("{\"version\":\"2.0\",\"data\":{\"source_id\":");
    s.append(quote(rec.source_id.as_str()).as_str());
    s.append(",\"thread_id\":");
    s.append(quote(rec.thread_id.as_str()).as_str());
    s.append(",\"state\":");
    s.append(quote(rec.state.as_str()).as_str());
    push_field(&mut s, "offer", &rec.offer);
    push_field(&mut s, "request_id", &rec.request_id);
    push_field(&mut s, "request_attachment", &rec.request_attachment);
    push_field(&mut s, "credential", &rec.credential);
    push_field(&mut s, "cred_id", &rec.cred_id);
    push_field(&mut s, "rev_reg_id", &rec.rev_reg_id);
    push_field(&mut s, "tails_location", &rec.tails_location);
    push_field(&mut s, "tails_hash", &rec.tails_hash);
    let ghost before = s@;
    if rec.declined {
        s.append(",\"declined\":\"true\"");
    }
    s.append("}}");
    assert(s@ =~= record_json(*rec));
    s
}

/// The text of a record that holds only what its holder's state uses is
/// fixed by the holder: writing the instance read back from such a record
/// gives the same text again.
pub proof fn lemma_rewrite_same_text(
    h: Holder,
    rec: HolderRecord,
    back: Holder,
    again: HolderRecord,
)
    requires
        record_matches(rec, h),
        record_tidy(rec, h),
        record_matches(rec, back),
        record_matches(again, back),
        record_tidy(again, back),
    ensures
        record_json(again) == record_json(rec),
{
    lemma_state_name(h.state());
    lemma_state_name(back.state());
    assert(back.state() == h.state());
    assert(rec.declined == again.declined);
    assert(opt_view(rec.request_id) == opt_view(again.request_id));
    assert(opt_view(rec.request_attachment) == opt_view(again.request_attachment));
    assert(opt_view(rec.credential) == opt_view(again.credential));
    assert(opt_view(rec.cred_id) == opt_view(again.cred_id));
    assert(opt_view(rec.rev_reg_id) == opt_view(again.rev_reg_id));
    assert(opt_view(rec.tails_location) == opt_view(again.tails_location));
    assert(opt_view(rec.tails_hash) == opt_view(again.tails_hash));
}

/// Whether `text` is a version "2.0" envelope whose data names a source id, a
/// thread id and a state.
pub open spec fn envelope_readable(text: Seq<char>) -> bool {
    &&& json_at_of(text, ""@) is Object
    &&& str_at(text, "/version"@) == Some("2.0"@)
    &&& str_at(text, "/data/source_id"@) is Some
    &&& str_at(text, "/data/thread_id"@) is Some
    &&& str_at(text, "/data/state"@) is Some
}

/// Whether `rec` holds the strings of the envelope `text`.
pub open spec fn is_record_in(rec: HolderRecord, text: Seq<char>) -> bool {
    &&& str_at(text, "/data/source_id"@) == Some(rec.source_id@)
    &&& str_at(text, "/data/thread_id"@) == Some(rec.thread_id@)
    &&& str_at(text, "/data/state"@) == Some(rec.state@)
    &&& str_at(text, "/data/offer"@) == opt_view(rec.offer)
    &&& str_at(text, "/data/request_id"@) == opt_view(rec.request_id)
    &&& str_at(text, "/data/request_attachment"@) == opt_view(rec.request_attachment)
    &&& str_at(text, "/data/credential"@) == opt_view(rec.credential)
    &&& str_at(text, "/data/cred_id"@) == opt_view(rec.cred_id)
    &&& str_at(text, "/data/rev_reg_id"@) == opt_view(rec.rev_reg_id)
    &&& str_at(text, "/data/tails_location"@) == opt_view(rec.tails_location)
    &&& str_at(text, "/data/tails_hash"@) == opt_view(rec.tails_hash)
    &&& rec.declined == (str_at(text, "/data/declined"@) == Some("true"@))
}

fn is_true(v: &Option<String>) -> (r: bool)
    ensures
        r == (opt_view(*v) == Some("true"@)),
{
    match v {
        Some(x) => text_is(x, "true"),
        None => false,
    }
}

/// Reads a record out of its envelope; `InvalidJson` where `text` is not a
/// readable envelope of version "2.0".
pub fn decode_record(text: &str) -> (r: Result<HolderRecord, ErrorKind>)
    ensures
        r is Ok <==> envelope_readable(text@),
        r is Err ==> r == Err::<HolderRecord, ErrorKind>(ErrorKind::InvalidJson),
        r matches Ok(rec) ==> is_record_in(rec, text@),
{
    if !matches!(json_at(text, ""), JsonAt::Object(_)) {
        return Err(ErrorKind::InvalidJson);
    }
    let version_ok = match string_at(text, "/version") {
        Some(v) => text_is(&v, "2.0"),
        None => false,
    };
    if !version_ok {
        return Err(ErrorKind::InvalidJson);
    }
    let source_id = string_at(text, "/data/source_id");
    let thread_id = string_at(text, "/data/thread_id");
    let state = string_at(text, "/data/state");
    match (source_id, thread_id, state) {
        (Some(source_id), Some(thread_id), Some(state)) => Ok(
            HolderRecord {
                source_id,
                thread_id,
                state,
                offer: string_at(text, "/data/offer"),
                request_id: string_at(text, "/data/request_id"),
                request_attachment: string_at(text, "/data/request_attachment"),
                credential: string_at(text, "/data/credential"),
                cred_id: string_at(text, "/data/cred_id"),
                rev_reg_id: string_at(text, "/data/rev_reg_id"),
                tails_location: string_at(text, "/data/tails_location"),
                tails_hash: string_at(text, "/data/tails_hash"),
                declined: is_true(&string_at(text, "/data/declined")),
            },
        ),
        _ => Err(ErrorKind::InvalidJson),
    }
}

} // verus!
