//! The handle-based credential-holder API. Operations that need the network,
//! the wallet or the ledger are split: the library decides and builds, the
//! caller performs the outside work and hands back what came of it.
use vstd::prelude::*;
use crate::correlator::{accepts, holder_find_message_to_handle};
use crate::envelope::{
    decode_record, encode_record, envelope_readable, from_record, is_record_in, record_json,
    record_matches, record_tidy, record_valid, to_record, HolderRecord,
};
use crate::error::ErrorKind;
use crate::holder::{Holder, HolderData, HolderState, Outgoing, StoredCredential};
use crate::json::{json_at, json_at_of, str_at, JsonAt};
use crate::message::{
    is_offer_of, message_readable, message_wf, offer_readable, offer_wf, parse_message,
    parse_offer, Message, MessageKind,
};
use crate::registry::{entry, live, released, HandleRegistry};

verus! {

/// Marks the credential protocol in the handle API.
#[derive(Clone, Copy, Debug, PartialEq, Eq, Structural)]
pub struct Credential {}

/// The thread id that the offer in `text` opens: its own, else its id.
pub open spec fn offer_thread_of(text: Seq<char>) -> Seq<char> {
    match str_at(text, "/~0thread/thid"@) {
        Some(t) => t,
        None => str_at(text, "/@id"@).unwrap(),
    }
}

/// Whether `h` is a fresh holder made from the offer `text` for `source_id`.
pub open spec fn made_from_offer(h: Holder, source_id: Seq<char>, text: Seq<char>) -> bool {
    &&& h.wf()
    &&& h.state() == HolderState::OfferReceived
    &&& h.source_id@ == source_id
    &&& h.thread_id@ == offer_thread_of(text)
    &&& h.offer() matches Some(o) && is_offer_of(o, text)
}

/// Whether `offer` is accepted as an offer: JSON that is not an array and
/// holds what an offer needs.
pub open spec fn offer_accepted(offer: Seq<char>) -> bool {
    &&& !(json_at_of(offer, ""@) is NotJson)
    &&& !(json_at_of(offer, ""@) is Array)
    &&& offer_readable(offer)
}

/// Reads an offer into a fresh holder. Text that is not JSON, and a JSON
/// array, fail `InvalidJson`; other JSON that is not an offer gives `None`.
pub fn create_credential(source_id: &str, offer: &str) -> (r: Result<Option<Holder>, ErrorKind>)
    ensures
        json_at_of(offer@, ""@) is NotJson || json_at_of(offer@, ""@) is Array
            ==> r == Err::<Option<Holder>, ErrorKind>(ErrorKind::InvalidJson),
        !(json_at_of(offer@, ""@) is NotJson || json_at_of(offer@, ""@) is Array) ==> (r matches Ok(
            o,
        ) && (o is Some <==> offer_readable(offer@))),
        r matches Ok(Some(h)) ==> made_from_offer(h, source_id@, offer@),
{
    match json_at(offer, "") {
        JsonAt::NotJson | JsonAt::Array(_) => return Err(ErrorKind::InvalidJson),
        _ => {},
    }
    match parse_offer(offer) {
        Some(o) => Ok(Some(Holder::create_from_offer(source_id, o))),
        None => Ok(None),
    }
}

/// Creates a holder from an offer and registers it. Input that is not an
/// offer, a JSON array among it, fails `InvalidJson`.
pub fn credential_create_with_offer(
    reg: &mut HandleRegistry<Holder>,
    source_id: &str,
    offer: &str,
) -> (r: Result<u32, ErrorKind>)
    ensures
        !offer_accepted(offer@) ==> r == Err::<u32, ErrorKind>(ErrorKind::InvalidJson)
            && final(reg)@ == old(reg)@,
        offer_accepted(offer@) && old(reg)@.len() < u32::MAX ==> {
            &&& r == Ok::<u32, ErrorKind>((old(reg)@.len() + 1) as u32)
            &&& final(reg)@.len() == old(reg)@.len() + 1
            &&& final(reg)@.subrange(0, old(reg)@.len() as int) == old(reg)@
            &&& live(final(reg)@, r->Ok_0)
            &&& made_from_offer(entry(final(reg)@, r->Ok_0), source_id@, offer@)
        },
        offer_accepted(offer@) && old(reg)@.len() >= u32::MAX ==> r == Err::<u32, ErrorKind>(
            ErrorKind::ObjectCacheFull,
        ),
{
    match json_at(offer, "") {
        JsonAt::NotJson | JsonAt::Array(_) => return Err(ErrorKind::InvalidJson),
        _ => {},
    }
    let o = match parse_offer(offer) {
        Some(o) => o,
        None => return Err(ErrorKind::InvalidJson),
    };
    let holder = Holder::create_from_offer(source_id, o);
    let ghost h = holder;
    let r = reg.add(holder);
    proof {
        if r is Ok {
            assert(final(reg)@.subrange(0, old(reg)@.len() as int) =~= old(reg)@);
            assert(entry(final(reg)@, r->Ok_0) == h);
        }
    }
    r
}

/// Creates a holder from an offer message fetched from a connection and
/// registers it; other JSON than an offer fails `InvalidCredentialHandle`.
/// Gives back the handle and the offer.
pub fn credential_create_with_msgid(
    reg: &mut HandleRegistry<Holder>,
    source_id: &str,
    offer: &str,
) -> (r: Result<(u32, String), ErrorKind>)
    ensures
        json_at_of(offer@, ""@) is NotJson || json_at_of(offer@, ""@) is Array ==> r == Err::<
            (u32, String),
            ErrorKind,
        >(ErrorKind::InvalidJson),
        !(json_at_of(offer@, ""@) is NotJson || json_at_of(offer@, ""@) is Array) && !offer_readable(
            offer@,
        ) ==> r == Err::<(u32, String), ErrorKind>(ErrorKind::InvalidCredentialHandle),
        r is Err ==> final(reg)@ == old(reg)@,
        r matches Ok((h, o)) ==> {
            &&& o@ == offer@
            &&& h == old(reg)@.len() + 1
            &&& live(final(reg)@, h)
            &&& final(reg)@.len() == old(reg)@.len() + 1
            &&& final(reg)@.subrange(0, old(reg)@.len() as int) == old(reg)@
            &&& made_from_offer(entry(final(reg)@, h), source_id@, offer@)
        },
        offer_accepted(offer@) && old(reg)@.len() < u32::MAX ==> r is Ok,
{
    let holder = match create_credential(source_id, offer) {
        Ok(Some(h)) => h,
        Ok(None) => return Err(ErrorKind::InvalidCredentialHandle),
        Err(e) => return Err(e),
    };
    let ghost h = holder;
    let handle = match reg.add(holder) {
        Ok(handle) => handle,
        Err(e) => return Err(e),
    };
    proof {
        assert(final(reg)@.subrange(0, old(reg)@.len() as int) =~= old(reg)@);
        assert(entry(final(reg)@, handle) == h);
    }
    Ok((handle, String::from_str(offer)))
}

/// The JSON text of a message fetched by id, which must be a credential
/// offer; any other message fails `InvalidMessages`.
pub fn get_credential_offer_msg(message: &Message) -> (r: Result<String, ErrorKind>)
    ensures
        match *message {
            Message::CredentialOffer(o) => r == Ok::<String, ErrorKind>(o.text),
            _ => r == Err::<String, ErrorKind>(ErrorKind::InvalidMessages),
        },
{
    match message {
        Message::CredentialOffer(o) => Ok(o.text.clone()),
        _ => Err(ErrorKind::InvalidMessages),
    }
}

/// The texts of the credential offers among `msgs`, in order.
pub open spec fn offer_texts(msgs: Seq<(String, Message)>) -> Seq<Seq<char>>
    decreases msgs.len(),
{
    if msgs.len() == 0 {
        Seq::empty()
    } else {
        let rest = offer_texts(msgs.drop_last());
        match msgs.last().1 {
            Message::CredentialOffer(o) => rest.push(o.text@),
            _ => rest,
        }
    }
}

/// JSON texts joined by commas.
pub open spec fn joined(items: Seq<Seq<char>>) -> Seq<char>
    decreases items.len(),
{
    if items.len() == 0 {
        Seq::empty()
    } else if items.len() == 1 {
        items[0]
    } else {
        joined(items.drop_last()) + ","@ + items.last()
    }
}

/// The credential offers in an inbox, as a JSON array of the messages.
pub fn get_credential_offer_messages(messages: &Vec<(String, Message)>) -> (r: String)
    ensures
        r@ == "["@ + joined(offer_texts(messages@)) + "]"@,
{
    let mut s = String::from_str("[");
    let mut count: usize = 0;
    let mut i: usize = 0;
    while i < messages.len()
        invariant
            i <= messages@.len(),
            count == offer_texts(messages@.subrange(0, i as int)).len(),
            count <= i,
            s@ == "["@ + joined(offer_texts(messages@.subrange(0, i as int))),
        decreases messages@.len() - i,
    {
        let ghost prefix = messages@.subrange(0, i as int);
        let ghost next = messages@.subrange(0, i + 1);
        assert(next.drop_last() =~= prefix);
        match &messages[i].1 {
            Message::CredentialOffer(o) => {
                if count > 0 {
                    s.append(",");
                }
                s.append(o.text.as_str());
                count = count + 1;
                proof {
                    let items = offer_texts(next);
                    assert(items.drop_last() =~= offer_texts(prefix));
                    if items.len() == 1 {
                        assert(offer_texts(prefix).len() == 0);
                        assert(joined(offer_texts(prefix)) =~= Seq::<char>::empty());
                    }
                    assert(s@ =~= "["@ + joined(items));
                }
            },
            _ => {},
        }
        i = i + 1;
    }
    assert(messages@.subrange(0, messages@.len() as int) =~= messages@);
    s.append("]");
    s
}

/// What an update cycle does next.
#[derive(Clone, Debug)]
pub enum UpdatePlan {
    /// Nothing to do: the instance stays in the state with this code.
    Done(u32),
    /// Fetch the connection's inbox and hand it to `plan_from_inbox`.
    FetchInbox,
    /// Process `message`. `uid` is the inbox id to acknowledge afterwards;
    /// `store_credential` asks the caller to store the issued credential first
    /// and hand what the store reported to `process_message`.
    Process { message: Message, uid: Option<String>, store_credential: bool },
}

/// Whether processing `m` in `state` needs the credential stored first.
pub open spec fn needs_store(state: HolderState, m: Message) -> bool {
    state == HolderState::RequestSet && m.kind() == MessageKind::CredentialIssue
}

/// The first step of an update cycle. An unknown handle fails
/// `InvalidCredentialHandle`; a terminal instance is done without any
/// outside work; a supplied message that cannot be read fails
/// `InvalidOption`; with no message supplied the inbox is wanted.
pub fn update_state_plan(reg: &HandleRegistry<Holder>, handle: u32, message: Option<&str>) -> (r:
    Result<UpdatePlan, ErrorKind>)
    ensures
        !live(reg@, handle) ==> r == Err::<UpdatePlan, ErrorKind>(
            ErrorKind::InvalidCredentialHandle,
        ),
        live(reg@, handle) ==> {
            let h = entry(reg@, handle);
            if h.state().is_terminal() {
                r matches Ok(UpdatePlan::Done(c)) && c == h.state().spec_code()
            } else {
                match message {
                    None => r matches Ok(UpdatePlan::FetchInbox),
                    Some(t) => if message_readable(t@) {
                        r matches Ok(UpdatePlan::Process { message: m, uid, store_credential })
                            && uid is None && message_wf(m) && crate::message::is_message_of(m, t@)
                            && store_credential == needs_store(h.state(), m)
                    } else {
                        r == Err::<UpdatePlan, ErrorKind>(ErrorKind::InvalidOption)
                    },
                }
            }
        },
{
    let holder = match reg.get(handle) {
        Ok(h) => h,
        Err(_) => return Err(ErrorKind::InvalidCredentialHandle),
    };
    if holder.is_terminal_state() {
        return Ok(UpdatePlan::Done(holder.get_state().code()));
    }
    match message {
        None => Ok(UpdatePlan::FetchInbox),
        Some(t) => match parse_message(t) {
            Some(m) => {
                let store = matches!(holder.get_state(), HolderState::RequestSet) && matches!(
                    m,
                    Message::CredentialIssue(_)
                );
                Ok(UpdatePlan::Process { message: m, uid: None, store_credential: store })
            },
            None => Err(ErrorKind::InvalidOption),
        },
    }
}

/// The step of an update cycle after the inbox was fetched: the first inbox
/// message that the instance takes, or nothing to do.
pub fn plan_from_inbox(
    reg: &HandleRegistry<Holder>,
    handle: u32,
    inbox: Vec<(String, Message)>,
) -> (r: Result<UpdatePlan, ErrorKind>)
    ensures
        !live(reg@, handle) ==> r == Err::<UpdatePlan, ErrorKind>(
            ErrorKind::InvalidCredentialHandle,
        ),
        live(reg@, handle) ==> {
            let h = entry(reg@, handle);
            match r {
                Ok(UpdatePlan::Done(c)) => c == h.state().spec_code() && forall|j: int|
                    0 <= j < inbox@.len() ==> !accepts(h.state(), h.thread_id@, #[trigger] inbox@[j].1),
                Ok(UpdatePlan::Process { message, uid, store_credential }) => {
                    &&& store_credential == needs_store(h.state(), message)
                    &&& exists|i: int|
                        0 <= i < inbox@.len() && inbox@[i].1 == message && uid == Some(inbox@[i].0)
                            && accepts(h.state(), h.thread_id@, message) && (forall|j: int|
                            0 <= j < i ==> !accepts(h.state(), h.thread_id@, #[trigger] inbox@[j].1))
                },
                _ => false,
            }
        },
{
    let holder = match reg.get(handle) {
        Ok(h) => h,
        Err(_) => return Err(ErrorKind::InvalidCredentialHandle),
    };
    match holder_find_message_to_handle(holder, &inbox) {
        None => Ok(UpdatePlan::Done(holder.get_state().code())),
        Some(i) => {
            let mut inbox = inbox;
            let ghost before = inbox@;
            let (uid, message) = inbox.remove(i);
            assert(before[i as int] == (uid, message));
            let store = matches!(holder.get_state(), HolderState::RequestSet) && matches!(
                message,
                Message::CredentialIssue(_)
            );
            Ok(UpdatePlan::Process { message, uid: Some(uid), store_credential: store })
        },
    }
}

/// Advances the instance under `handle` by `message` without storing the
/// result: the caller acknowledges the inbox message, sends the outgoing
/// message if there is one, and then calls `persist`.
pub fn process_message(
    reg: &HandleRegistry<Holder>,
    handle: u32,
    message: &Message,
    stored: Option<StoredCredential>,
    reply_id: String,
) -> (r: Result<(Holder, Option<Outgoing>), ErrorKind>)
    ensures
        !live(reg@, handle) ==> r == Err::<(Holder, Option<Outgoing>), ErrorKind>(
            ErrorKind::InvalidCredentialHandle,
        ),
        live(reg@, handle) ==> r == Ok::<(Holder, Option<Outgoing>), ErrorKind>(
            entry(reg@, handle).message_step(*message, stored, reply_id),
        ),
        live(reg@, handle) && entry(reg@, handle).wf() && message_wf(*message) ==> (r matches Ok(
            (h, _),
        ) && h.wf()),
{
    match reg.get(handle) {
        Ok(h) => Ok(h.process_aries_msg(message, stored, reply_id)),
        Err(_) => Err(ErrorKind::InvalidCredentialHandle),
    }
}

/// Stores the well-formed `holder` under the live `handle` and gives its
/// state's code.
pub fn persist(reg: &mut HandleRegistry<Holder>, handle: u32, holder: Holder) -> (r: Result<
    u32,
    ErrorKind,
>)
    requires
        holder.wf(),
    ensures
        live(old(reg)@, handle) ==> r == Ok::<u32, ErrorKind>(holder.state().spec_code())
            && final(reg)@ == old(reg)@.update(handle - 1, Some(holder)),
        !live(old(reg)@, handle) ==> r == Err::<u32, ErrorKind>(ErrorKind::InvalidHandle)
            && final(reg)@ == old(reg)@,
{
    let code = holder.get_state().code();
    match reg.insert(handle, holder) {
        Ok(()) => Ok(code),
        Err(e) => Err(e),
    }
}

pub open spec fn credential_of(h: Holder) -> Result<String, ErrorKind> {
    match h.data {
        HolderData::Finished { credential, .. } => Ok(credential.text),
        _ => Err(ErrorKind::InvalidState),
    }
}

pub open spec fn attributes_of(h: Holder) -> Result<String, ErrorKind> {
    match h.offer() {
        Some(o) => Ok(o.attributes),
        None => Err(ErrorKind::InvalidState),
    }
}

pub open spec fn attachment_of(h: Holder) -> Result<String, ErrorKind> {
    match h.offer() {
        Some(o) => Ok(o.attachment),
        None => Err(ErrorKind::InvalidState),
    }
}

pub open spec fn cred_id_of(h: Holder) -> Result<String, ErrorKind> {
    match h.stored() {
        Some(s) => Ok(s.cred_id),
        None => Err(ErrorKind::InvalidState),
    }
}

/// What a revocation accessor gives for `h`, `field` picking the value out
/// of what the credential store reported.
pub open spec fn revocation_field_ok(
    h: Holder,
    r: Result<String, ErrorKind>,
    field: spec_fn(StoredCredential) -> Option<String>,
) -> bool {
    match h.stored() {
        Some(s) => r matches Ok(v) && v@ == crate::holder::opt_or_empty(field(s)),
        None => r == Err::<String, ErrorKind>(ErrorKind::InvalidState),
    }
}

/// The issued credential message, as JSON text; only a finished instance has
/// one.
pub fn get_credential(reg: &HandleRegistry<Holder>, handle: u32) -> (r: Result<String, ErrorKind>)
    ensures
        !live(reg@, handle) ==> r == Err::<String, ErrorKind>(ErrorKind::InvalidHandle),
        live(reg@, handle) ==> r == credential_of(entry(reg@, handle)),
{
    match reg.get(handle) {
        Ok(h) => h.get_credential(),
        Err(e) => Err(e),
    }
}

/// The offered attributes, as JSON text.
pub fn get_attributes(reg: &HandleRegistry<Holder>, handle: u32) -> (r: Result<String, ErrorKind>)
    ensures
        !live(reg@, handle) ==> r == Err::<String, ErrorKind>(ErrorKind::InvalidHandle),
        live(reg@, handle) ==> r == attributes_of(entry(reg@, handle)),
{
    match reg.get(handle) {
        Ok(h) => h.get_attributes(),
        Err(e) => Err(e),
    }
}

/// The offer's attachment data, as JSON text.
pub fn get_attachment(reg: &HandleRegistry<Holder>, handle: u32) -> (r: Result<String, ErrorKind>)
    ensures
        !live(reg@, handle) ==> r == Err::<String, ErrorKind>(ErrorKind::InvalidHandle),
        live(reg@, handle) ==> r == attachment_of(entry(reg@, handle)),
{
    match reg.get(handle) {
        Ok(h) => h.get_attachment(),
        Err(e) => Err(e),
    }
}

/// Where the revocation tails file lies; empty when the credential cannot
/// be revoked.
pub fn get_tails_location(reg: &HandleRegistry<Holder>, handle: u32) -> (r: Result<
    String,
    ErrorKind,
>)
    ensures
        !live(reg@, handle) ==> r == Err::<String, ErrorKind>(ErrorKind::InvalidHandle),
        live(reg@, handle) ==> revocation_field_ok(
            entry(reg@, handle),
            r,
            |s: StoredCredential| s.tails_location,
        ),
{
    match reg.get(handle) {
        Ok(h) => h.get_tails_location(),
        Err(e) => Err(e),
    }
}

/// The hash of the revocation tails file; empty when the credential cannot
/// be revoked.
pub fn get_tails_hash(reg: &HandleRegistry<Holder>, handle: u32) -> (r: Result<String, ErrorKind>)
    ensures
        !live(reg@, handle) ==> r == Err::<String, ErrorKind>(ErrorKind::InvalidHandle),
        live(reg@, handle) ==> revocation_field_ok(
            entry(reg@, handle),
            r,
            |s: StoredCredential| s.tails_hash,
        ),
{
    match reg.get(handle) {
        Ok(h) => h.get_tails_hash(),
        Err(e) => Err(e),
    }
}

/// The revocation registry id; empty when the credential cannot be revoked.
pub fn get_rev_reg_id(reg: &HandleRegistry<Holder>, handle: u32) -> (r: Result<String, ErrorKind>)
    ensures
        !live(reg@, handle) ==> r == Err::<String, ErrorKind>(ErrorKind::InvalidHandle),
        live(reg@, handle) ==> revocation_field_ok(
            entry(reg@, handle),
            r,
            |s: StoredCredential| s.rev_reg_id,
        ),
{
    match reg.get(handle) {
        Ok(h) => h.get_rev_reg_id(),
        Err(e) => Err(e),
    }
}

/// The id under which the credential store keeps the credential, which the
/// caller deletes there before releasing the handle.
pub fn get_cred_id(reg: &HandleRegistry<Holder>, handle: u32) -> (r: Result<String, ErrorKind>)
    ensures
        !live(reg@, handle) ==> r == Err::<String, ErrorKind>(ErrorKind::InvalidHandle),
        live(reg@, handle) ==> r == cred_id_of(entry(reg@, handle)),
{
    match reg.get(handle) {
        Ok(h) => h.get_cred_id(),
        Err(e) => Err(e),
    }
}

/// The code of the instance's state.
pub fn get_state(reg: &HandleRegistry<Holder>, handle: u32) -> (r: Result<u32, ErrorKind>)
    ensures
        !live(reg@, handle) ==> r == Err::<u32, ErrorKind>(ErrorKind::InvalidHandle),
        live(reg@, handle) ==> r == Ok::<u32, ErrorKind>(entry(reg@, handle).state().spec_code()),
{
    match reg.get(handle) {
        Ok(h) => Ok(h.get_state().code()),
        Err(e) => Err(e),
    }
}

/// Not implemented: always `ActionNotSupported`.
pub fn generate_credential_request_msg(_handle: u32, _my_pw_did: &str, _their_pw_did: &str) -> (r:
    Result<String, ErrorKind>)
    ensures
        r == Err::<String, ErrorKind>(ErrorKind::ActionNotSupported),
{
    Err(ErrorKind::ActionNotSupported)
}

/// Removes the instance under `handle`; an unknown handle fails
/// `InvalidCredentialHandle`.
pub fn release(reg: &mut HandleRegistry<Holder>, handle: u32) -> (r: Result<(), ErrorKind>)
    ensures
        live(old(reg)@, handle) ==> r is Ok,
        !live(old(reg)@, handle) ==> r == Err::<(), ErrorKind>(ErrorKind::InvalidCredentialHandle),
        final(reg)@ == released(old(reg)@, handle),
{
    match reg.release(handle) {
        Ok(()) => Ok(()),
        Err(_) => Err(ErrorKind::InvalidCredentialHandle),
    }
}

/// Removes every instance.
pub fn release_all(reg: &mut HandleRegistry<Holder>)
    ensures
        forall|h: u32| !live(#[trigger] final(reg)@, h),
{
    reg.drain();
}

/// Whether `handle` names a live instance.
pub fn is_valid_handle(reg: &HandleRegistry<Holder>, handle: u32) -> (r: bool)
    ensures
        r == live(reg@, handle),
{
    reg.has_handle(handle)
}

/// The instance in its persistence envelope, as JSON text.
pub fn to_string(reg: &HandleRegistry<Holder>, handle: u32) -> (r: Result<String, ErrorKind>)
    ensures
        !live(reg@, handle) ==> r == Err::<String, ErrorKind>(ErrorKind::InvalidHandle),
        live(reg@, handle) ==> (r matches Ok(t) && exists|rec: HolderRecord|
            record_matches(rec, entry(reg@, handle)) && record_tidy(rec, entry(reg@, handle))
                && t@ == record_json(rec)),
{
    match reg.get(handle) {
        Ok(h) => {
            let rec = to_record(h);
            let t = encode_record(&rec);
            assert(record_matches(rec, *h) && record_tidy(rec, *h) && t@ == record_json(rec));
            Ok(t)
        },
        Err(e) => Err(e),
    }
}

/// The instance's source id; an unknown handle fails
/// `InvalidCredentialHandle`.
pub fn get_source_id(reg: &HandleRegistry<Holder>, handle: u32) -> (r: Result<String, ErrorKind>)
    ensures
        !live(reg@, handle) ==> r == Err::<String, ErrorKind>(ErrorKind::InvalidCredentialHandle),
        live(reg@, handle) ==> r == Ok::<String, ErrorKind>(entry(reg@, handle).source_id),
{
    match reg.get(handle) {
        Ok(h) => Ok(h.get_source_id()),
        Err(_) => Err(ErrorKind::InvalidCredentialHandle),
    }
}

/// Reads an instance back from its persistence envelope and registers it
/// under a new handle. Text that is not a readable envelope, or whose record
/// is not valid, fails `InvalidJson`.
pub fn from_string(reg: &mut HandleRegistry<Holder>, credential_data: &str) -> (r: Result<
    u32,
    ErrorKind,
>)
    ensures
        !envelope_readable(credential_data@) ==> r == Err::<u32, ErrorKind>(ErrorKind::InvalidJson),
        r is Err ==> final(reg)@ == old(reg)@,
        r matches Ok(h) ==> {
            &&& h == old(reg)@.len() + 1
            &&& live(final(reg)@, h)
            &&& final(reg)@.len() == old(reg)@.len() + 1
            &&& final(reg)@.subrange(0, old(reg)@.len() as int) == old(reg)@
            &&& entry(final(reg)@, h).wf()
            &&& exists|rec: HolderRecord|
                is_record_in(rec, credential_data@) && record_valid(rec) && record_matches(
                    rec,
                    entry(final(reg)@, h),
                )
        },
        envelope_readable(credential_data@) && old(reg)@.len() < u32::MAX ==> (r is Ok
            <==> exists|rec: HolderRecord| is_record_in(rec, credential_data@) && record_valid(rec)),
{
    let rec = match decode_record(credential_data) {
        Ok(rec) => rec,
        Err(e) => return Err(e),
    };
    let holder = match from_record(&rec) {
        Ok(h) => h,
        Err(e) => {
            proof {
                lemma_record_in_unique(rec, credential_data@);
            }
            return Err(e);
        },
    };
    let ghost h = holder;
    let handle = match reg.add(holder) {
        Ok(handle) => handle,
        Err(e) => return Err(e),
    };
    proof {
        assert(final(reg)@.subrange(0, old(reg)@.len() as int) =~= old(reg)@);
        assert(entry(final(reg)@, handle) == h);
    }
    Ok(handle)
}

/// Two records read from one envelope agree on what decides validity.
proof fn lemma_record_in_unique(rec: HolderRecord, text: Seq<char>)
    requires
        is_record_in(rec, text),
        !record_valid(rec),
    ensures
        forall|other: HolderRecord| is_record_in(other, text) ==> !record_valid(other),
{
    assert forall|other: HolderRecord| is_record_in(other, text) implies !record_valid(other) by {
        assert(crate::message::opt_view(other.offer) == crate::message::opt_view(rec.offer));
        assert(crate::message::opt_view(other.credential) == crate::message::opt_view(rec.credential));
    }
}

/// Whether a payment is due before the credential is issued: never.
pub fn is_payment_required(_handle: u32) -> (r: Result<bool, ErrorKind>)
    ensures
        r == Ok::<bool, ErrorKind>(false),
{
    Ok(false)
}

/// The exchange's outcome: 1 issued, 2 failed, 3 declined.
pub fn get_credential_status(reg: &HandleRegistry<Holder>, handle: u32) -> (r: Result<
    u32,
    ErrorKind,
>)
    ensures
        !live(reg@, handle) ==> r == Err::<u32, ErrorKind>(ErrorKind::InvalidHandle),
        live(reg@, handle) ==> r == entry(reg@, handle).status(),
{
    match reg.get(handle) {
        Ok(h) => h.get_credential_status(),
        Err(e) => Err(e),
    }
}

/// The instance's thread id.
pub fn get_thread_id(reg: &HandleRegistry<Holder>, handle: u32) -> (r: Result<String, ErrorKind>)
    ensures
        !live(reg@, handle) ==> r == Err::<String, ErrorKind>(ErrorKind::InvalidHandle),
        live(reg@, handle) ==> r == Ok::<String, ErrorKind>(entry(reg@, handle).thread_id),
{
    match reg.get(handle) {
        Ok(h) => Ok(h.get_thread_id()),
        Err(e) => Err(e),
    }
}

/// Declines the offer of the instance under `handle`. The caller sends the
/// problem report and then calls `persist` with the failed holder.
pub fn decline_offer(
    reg: &HandleRegistry<Holder>,
    handle: u32,
    comment: Option<String>,
    report_id: String,
) -> (r: Result<(Holder, Outgoing), ErrorKind>)
    ensures
        !live(reg@, handle) ==> r == Err::<(Holder, Outgoing), ErrorKind>(ErrorKind::InvalidHandle),
        live(reg@, handle) ==> r == entry(reg@, handle).decline_step(comment, report_id),
        live(reg@, handle) && entry(reg@, handle).wf() ==> (r matches Ok((h, _)) ==> h.wf()),
{
    match reg.get(handle) {
        Ok(h) => h.decline_offer(comment, report_id),
        Err(e) => Err(e),
    }
}

/// Builds the credential request of the instance under `handle` from the
/// request that the credential library made (`attachment`, a JSON object).
/// The caller sends the request and then calls `persist`.
pub fn send_credential_request(
    reg: &HandleRegistry<Holder>,
    handle: u32,
    request_id: String,
    attachment: String,
) -> (r: Result<(Holder, Outgoing), ErrorKind>)
    ensures
        !live(reg@, handle) ==> r == Err::<(Holder, Outgoing), ErrorKind>(ErrorKind::InvalidHandle),
        live(reg@, handle) && !(json_at_of(attachment@, ""@) is Object) ==> r == Err::<
            (Holder, Outgoing),
            ErrorKind,
        >(ErrorKind::InvalidJson),
        live(reg@, handle) && json_at_of(attachment@, ""@) is Object ==> r == entry(
            reg@,
            handle,
        ).request_step(request_id, attachment),
        live(reg@, handle) && entry(reg@, handle).wf() ==> (r matches Ok((h, _)) ==> h.wf()),
{
    let h = match reg.get(handle) {
        Ok(h) => h,
        Err(e) => return Err(e),
    };
    if !matches!(json_at(attachment.as_str(), ""), JsonAt::Object(_)) {
        return Err(ErrorKind::InvalidJson);
    }
    h.prepare_credential_request(request_id, attachment)
}

/// After release, a handle names no instance, so every operation on it fails
/// with an unknown-handle error.
pub proof fn lemma_released_handle_is_invalid(s: Seq<Option<Holder>>, h: u32)
    ensures
        !live(released(s, h), h),
{
}

/// Once an instance is terminal, a message leaves it unchanged and sends
/// nothing.
pub proof fn lemma_terminal_is_fixed(
    h: Holder,
    m: Message,
    stored: Option<StoredCredential>,
    reply_id: String,
)
    requires
        h.state().is_terminal(),
    ensures
        h.message_step(m, stored, reply_id) == (h, Option::<Outgoing>::None),
{
}

} // verus!
