//! The credential-holder state machine.
use vstd::prelude::*;
use crate::error::ErrorKind;
use crate::json::{json_quoted, quote};
use crate::message::{issue_is_wf, issue_wf, message_wf, offer_is_wf, offer_wf, Issue, Message, Offer};

verus! {

/// The states of a credential holder; `code` gives each its stable ordinal.
#[derive(Clone, Copy, Debug, PartialEq, Eq, Structural)]
pub enum HolderState {
    ProposalSet,
    OfferReceived,
    RequestSet,
    Finished,
    Failed,
}

impl HolderState {
    pub open spec fn spec_code(self) -> u32 {
        match self {
            HolderState::ProposalSet => 0,
            HolderState::OfferReceived => 1,
            HolderState::RequestSet => 2,
            HolderState::Finished => 3,
            HolderState::Failed => 4,
        }
    }

    /// The state's ordinal.
    #[verifier::when_used_as_spec(spec_code)]
    pub fn code(self) -> (r: u32)
        ensures
            r == self.spec_code(),
    {
        match self {
            HolderState::ProposalSet => 0,
            HolderState::OfferReceived => 1,
            HolderState::RequestSet => 2,
            HolderState::Finished => 3,
            HolderState::Failed => 4,
        }
    }

    pub open spec fn is_terminal(self) -> bool {
        self == HolderState::Finished || self == HolderState::Failed
    }
}

/// A credential request that the holder sent.
#[derive(Clone, Debug)]
pub struct CredentialRequest {
    pub id: String,
    /// The request's content, as JSON text.
    pub attachment: String,
}

/// What the credential store reported on storing an issued credential.
#[derive(Clone, Debug)]
pub struct StoredCredential {
    pub cred_id: String,
    pub rev_reg_id: Option<String>,
    pub tails_location: Option<String>,
    pub tails_hash: Option<String>,
}

/// A holder's state together with the data that the state carries.
#[derive(Clone, Debug)]
pub enum HolderData {
    ProposalSet,
    OfferReceived { offer: Offer },
    RequestSet { offer: Offer, request: CredentialRequest },
    Finished { offer: Offer, credential: Issue, stored: StoredCredential },
    /// `declined` tells a declined offer from a failed exchange.
    Failed { offer: Option<Offer>, declined: bool },
}

/// One credential exchange, seen from the holder's side.
#[derive(Clone, Debug)]
pub struct Holder {
    pub source_id: String,
    pub thread_id: String,
    pub data: HolderData,
}

/// A message that a transition asks to send.
#[derive(Clone, Debug)]
pub enum Outgoing {
    CredentialRequest { id: String, thread_id: String, attachment: String },
    ProblemReport { id: String, thread_id: String, comment: Option<String> },
    Ack { id: String, thread_id: String },
}

pub fn clone_opt(o: &Option<String>) -> (r: Option<String>)
    ensures
        r == *o,
{
    match o {
        Some(s) => Some(s.clone()),
        None => None,
    }
}

fn copy_offer(o: &Offer) -> (r: Offer)
    ensures
        r == *o,
{
    Offer {
        id: o.id.clone(),
        thread_id: clone_opt(&o.thread_id),
        attributes: o.attributes.clone(),
        attachment: o.attachment.clone(),
        text: o.text.clone(),
    }
}

fn copy_issue(i: &Issue) -> (r: Issue)
    ensures
        r == *i,
{
    Issue {
        id: i.id.clone(),
        thread_id: i.thread_id.clone(),
        please_ack: i.please_ack,
        text: i.text.clone(),
    }
}

fn copy_stored(s: &StoredCredential) -> (r: StoredCredential)
    ensures
        r == *s,
{
    StoredCredential {
        cred_id: s.cred_id.clone(),
        rev_reg_id: clone_opt(&s.rev_reg_id),
        tails_location: clone_opt(&s.tails_location),
        tails_hash: clone_opt(&s.tails_hash),
    }
}

fn copy_data(d: &HolderData) -> (r: HolderData)
    ensures
        r == *d,
{
    match d {
        HolderData::ProposalSet => HolderData::ProposalSet,
        HolderData::OfferReceived { offer } => HolderData::OfferReceived { offer: copy_offer(offer) },
        HolderData::RequestSet { offer, request } => HolderData::RequestSet {
            offer: copy_offer(offer),
            request: CredentialRequest {
                id: request.id.clone(),
                attachment: request.attachment.clone(),
            },
        },
        HolderData::Finished { offer, credential, stored } => HolderData::Finished {
            offer: copy_offer(offer),
            credential: copy_issue(credential),
            stored: copy_stored(stored),
        },
        HolderData::Failed { offer, declined } => HolderData::Failed {
            offer: match offer {
                Some(o) => Some(copy_offer(o)),
                None => None,
            },
            declined: *declined,
        },
    }
}

/// The JSON text of a message that the holder sends.
pub open spec fn outgoing_json(m: Outgoing) -> Seq<char> {
    match m {
        Outgoing::CredentialRequest { id, thread_id, attachment } =>
            "{\"@type\":\"https://didcomm.org/issue-credential/1.0/request-credential\",\"@id\":"@
            + json_quoted(id@) + ",\"~thread\":{\"thid\":"@ + json_quoted(thread_id@)
            + "},\"requests~attach\":[{\"@id\":\"libindy-cred-request-0\",\"mime-type\":\"application/json\",\"data\":{\"json\":"@
            + attachment@ + "}}]}"@,
        Outgoing::ProblemReport { id, thread_id, comment } =>
            "{\"@type\":\"https://didcomm.org/issue-credential/1.0/problem-report\",\"@id\":"@
            + json_quoted(id@) + ",\"~thread\":{\"thid\":"@ + json_quoted(thread_id@)
            + "},\"description\":{\"code\":\"issuance-abandoned\""@ + match comment {
                Some(c) => ",\"en\":"@ + json_quoted(c@),
                None => Seq::<char>::empty(),
            } + "}}"@,
        Outgoing::Ack { id, thread_id } =>
            "{\"@type\":\"https://didcomm.org/issue-credential/1.0/ack\",\"@id\":"@
            + json_quoted(id@) + ",\"status\":\"OK\",\"~thread\":{\"thid\":"@
            + json_quoted(thread_id@) + "}}"@,
    }
}

impl Outgoing {
    /// The message as JSON text, ready for the transport.
    pub fn to_json(&self) -> (r: String)
        ensures
            r@ == outgoing_json(*self),
    {
        match self {
            Outgoing::CredentialRequest { id, thread_id, attachment } => {
                let mut s = String::from_str(
                    "{\"@type\":\"https://didcomm.org/issue-credential/1.0/request-credential\",\"@id\":",
                );
                s.append(quote(id.as_str()).as_str());
                s.append(",\"~thread\":{\"thid\":");
                s.append(quote(thread_id.as_str()).as_str());
                s.append(
                    "},\"requests~attach\":[{\"@id\":\"libindy-cred-request-0\",\"mime-type\":\"application/json\",\"data\":{\"json\":",
                );
                s.append(attachment.as_str());
                s.append("}}]}");
                s
            },
            Outgoing::ProblemReport { id, thread_id, comment } => {
                let mut s = String::from_str(
                    "{\"@type\":\"https://didcomm.org/issue-credential/1.0/problem-report\",\"@id\":",
                );
                s.append(quote(id.as_str()).as_str());
                s.append(",\"~thread\":{\"thid\":");
                s.append(quote(thread_id.as_str()).as_str());
                s.append("},\"description\":{\"code\":\"issuance-abandoned\"");
                match comment {
                    Some(c) => {
                        s.append(",\"en\":");
                        s.append(quote(c.as_str()).as_str());
                    },
                    None => {},
                }
                s.append("}}");
                proof {
                    assert(s@ =~= outgoing_json(*self));
                }
                s
            },
            Outgoing::Ack { id, thread_id } => {
                let mut s = String::from_str(
                    "{\"@type\":\"https://didcomm.org/issue-credential/1.0/ack\",\"@id\":",
                );
                s.append(quote(id.as_str()).as_str());
                s.append(",\"status\":\"OK\",\"~thread\":{\"thid\":");
                s.append(quote(thread_id.as_str()).as_str());
                s.append("}}");
                s
            },
        }
    }
}


pub open spec fn opt_or_empty(o: Option<String>) -> Seq<char> {
    match o {
        Some(s) => s@,
        None => Seq::<char>::empty(),
    }
}

fn string_or_empty(o: &Option<String>) -> (r: String)
    ensures
        r@ == opt_or_empty(*o),
{
    match o {
        Some(s) => s.clone(),
        None => String::new(),
    }
}

impl Holder {
    pub open spec fn state(self) -> HolderState {
        match self.data {
            HolderData::ProposalSet => HolderState::ProposalSet,
            HolderData::OfferReceived { .. } => HolderState::OfferReceived,
            HolderData::RequestSet { .. } => HolderState::RequestSet,
            HolderData::Finished { .. } => HolderState::Finished,
            HolderData::Failed { .. } => HolderState::Failed,
        }
    }

    /// The offer that the holder received, if it received one.
    pub open spec fn offer(self) -> Option<Offer> {
        match self.data {
            HolderData::ProposalSet => None,
            HolderData::OfferReceived { offer } => Some(offer),
            HolderData::RequestSet { offer, .. } => Some(offer),
            HolderData::Finished { offer, .. } => Some(offer),
            HolderData::Failed { offer, .. } => offer,
        }
    }

    /// Every offer and issued credential that the holder keeps is the one
    /// read from its own text.
    pub open spec fn wf(self) -> bool {
        &&& (self.offer() matches Some(o) ==> offer_wf(o))
        &&& (self.data matches HolderData::Finished { credential, .. } ==> issue_wf(credential))
    }

    /// The same holder in new state data.
    pub open spec fn with_data(self, data: HolderData) -> Holder {
        Holder { source_id: self.source_id, thread_id: self.thread_id, data }
    }

    /// The thread id that an offer opens: its own thread id, else its id.
    pub open spec fn offer_thread(offer: Offer) -> Seq<char> {
        match offer.thread_id {
            Some(t) => t@,
            None => offer.id@,
        }
    }

    /// A holder that received `offer`.
    pub fn create_from_offer(source_id: &str, offer: Offer) -> (r: Holder)
        ensures
            r.source_id@ == source_id@,
            r.thread_id@ == Self::offer_thread(offer),
            r.data == (HolderData::OfferReceived { offer }),
            offer_wf(offer) ==> r.wf(),
    {
        let thread_id = match &offer.thread_id {
            Some(t) => t.clone(),
            None => offer.id.clone(),
        };
        Holder {
            source_id: String::from_str(source_id),
            thread_id,
            data: HolderData::OfferReceived { offer },
        }
    }

    /// A holder that proposed a credential on the thread `thread_id`.
    pub fn create_with_proposal(source_id: &str, thread_id: &str) -> (r: Holder)
        ensures
            r.source_id@ == source_id@,
            r.thread_id@ == thread_id@,
            r.data == HolderData::ProposalSet,
            r.wf(),
    {
        Holder {
            source_id: String::from_str(source_id),
            thread_id: String::from_str(thread_id),
            data: HolderData::ProposalSet,
        }
    }

    pub fn copy(&self) -> (r: Holder)
        ensures
            r == *self,
    {
        Holder {
            source_id: self.source_id.clone(),
            thread_id: self.thread_id.clone(),
            data: copy_data(&self.data),
        }
    }

    /// Whether the holder is well formed: every offer and issued credential it
    /// keeps is the one read from its own text.
    pub fn is_well_formed(&self) -> (r: bool)
        ensures
            r == self.wf(),
    {
        match &self.data {
            HolderData::ProposalSet => true,
            HolderData::OfferReceived { offer } => offer_is_wf(offer),
            HolderData::RequestSet { offer, .. } => offer_is_wf(offer),
            HolderData::Finished { offer, credential, .. } => offer_is_wf(offer) && issue_is_wf(
                credential,
            ),
            HolderData::Failed { offer, .. } => match offer {
                Some(o) => offer_is_wf(o),
                None => true,
            },
        }
    }

    pub fn get_state(&self) -> (r: HolderState)
        ensures
            r == self.state(),
    {
        match &self.data {
            HolderData::ProposalSet => HolderState::ProposalSet,
            HolderData::OfferReceived { .. } => HolderState::OfferReceived,
            HolderData::RequestSet { .. } => HolderState::RequestSet,
            HolderData::Finished { .. } => HolderState::Finished,
            HolderData::Failed { .. } => HolderState::Failed,
        }
    }

    pub fn is_terminal_state(&self) -> (r: bool)
        ensures
            r == self.state().is_terminal(),
    {
        match &self.data {
            HolderData::Finished { .. } | HolderData::Failed { .. } => true,
            _ => false,
        }
    }

    pub fn get_source_id(&self) -> (r: String)
        ensures
            r == self.source_id,
    {
        self.source_id.clone()
    }

    pub fn get_thread_id(&self) -> (r: String)
        ensures
            r == self.thread_id,
    {
        self.thread_id.clone()
    }

    /// What a credential request with the given id and content does.
    pub open spec fn request_step(self, request_id: String, attachment: String) -> Result<
        (Holder, Outgoing),
        ErrorKind,
    > {
        match self.data {
            HolderData::OfferReceived { offer } => Ok(
                (
                    self.with_data(
                        HolderData::RequestSet {
                            offer,
                            request: CredentialRequest { id: request_id, attachment },
                        },
                    ),
                    Outgoing::CredentialRequest {
                        id: request_id,
                        thread_id: self.thread_id,
                        attachment,
                    },
                ),
            ),
            _ => Err(ErrorKind::InvalidState),
        }
    }

    /// Moves from a received offer to a sent request; the request's content
    /// comes from the credential library, its id from the caller.
    pub fn prepare_credential_request(&self, request_id: String, attachment: String) -> (r: Result<
        (Holder, Outgoing),
        ErrorKind,
    >)
        ensures
            r == self.request_step(request_id, attachment),
            self.wf() ==> (r matches Ok((h, _)) ==> h.wf()),
    {
        match &self.data {
            HolderData::OfferReceived { offer } => {
                let out = Outgoing::CredentialRequest {
                    id: request_id.clone(),
                    thread_id: self.thread_id.clone(),
                    attachment: attachment.clone(),
                };
                let next = Holder {
                    source_id: self.source_id.clone(),
                    thread_id: self.thread_id.clone(),
                    data: HolderData::RequestSet {
                        offer: copy_offer(offer),
                        request: CredentialRequest { id: request_id, attachment },
                    },
                };
                Ok((next, out))
            },
            _ => Err(ErrorKind::InvalidState),
        }
    }

    /// What declining the offer does.
    pub open spec fn decline_step(self, comment: Option<String>, report_id: String) -> Result<
        (Holder, Outgoing),
        ErrorKind,
    > {
        match self.data {
            HolderData::OfferReceived { offer } => Ok(
                (
                    self.with_data(HolderData::Failed { offer: Some(offer), declined: true }),
                    Outgoing::ProblemReport { id: report_id, thread_id: self.thread_id, comment },
                ),
            ),
            _ => Err(ErrorKind::InvalidState),
        }
    }

    /// Declines a received offer: the holder fails and reports why.
    pub fn decline_offer(&self, comment: Option<String>, report_id: String) -> (r: Result<
        (Holder, Outgoing),
        ErrorKind,
    >)
        ensures
            r == self.decline_step(comment, report_id),
            self.wf() ==> (r matches Ok((h, _)) ==> h.wf()),
    {
        match &self.data {
            HolderData::OfferReceived { offer } => {
                let next = Holder {
                    source_id: self.source_id.clone(),
                    thread_id: self.thread_id.clone(),
                    data: HolderData::Failed { offer: Some(copy_offer(offer)), declined: true },
                };
                Ok(
                    (
                        next,
                        Outgoing::ProblemReport {
                            id: report_id,
                            thread_id: self.thread_id.clone(),
                            comment,
                        },
                    ),
                )
            },
            _ => Err(ErrorKind::InvalidState),
        }
    }

    /// What processing `m` does. `stored` is what the credential store
    /// reported for an issued credential (`None`: it could not store it);
    /// `reply_id` is the id of a reply, if the step sends one.
    pub open spec fn message_step(
        self,
        m: Message,
        stored: Option<StoredCredential>,
        reply_id: String,
    ) -> (Holder, Option<Outgoing>) {
        match (self.data, m) {
            (HolderData::ProposalSet, Message::CredentialOffer(offer)) => (
                self.with_data(HolderData::OfferReceived { offer }),
                None,
            ),
            (HolderData::RequestSet { offer, .. }, Message::CredentialIssue(credential)) => match stored {
                Some(stored) => (
                    self.with_data(HolderData::Finished { offer, credential, stored }),
                    if credential.please_ack {
                        Some(Outgoing::Ack { id: reply_id, thread_id: self.thread_id })
                    } else {
                        None
                    },
                ),
                None => (
                    self.with_data(HolderData::Failed { offer: Some(offer), declined: false }),
                    Some(
                        Outgoing::ProblemReport {
                            id: reply_id,
                            thread_id: self.thread_id,
                            comment: None,
                        },
                    ),
                ),
            },
            (HolderData::RequestSet { offer, .. }, Message::CredentialProblemReport(_))
            | (HolderData::RequestSet { offer, .. }, Message::ReportProblem(_))
            | (HolderData::RequestSet { offer, .. }, Message::NotificationProblemReport(_)) => (
                self.with_data(HolderData::Failed { offer: Some(offer), declined: false }),
                None,
            ),
            _ => (self, None),
        }
    }

    /// Advances the holder by one message; a message that the state does not
    /// expect, and any message in a terminal state, leaves it as it is.
    pub fn process_aries_msg(
        &self,
        msg: &Message,
        stored: Option<StoredCredential>,
        reply_id: String,
    ) -> (r: (Holder, Option<Outgoing>))
        ensures
            r == self.message_step(*msg, stored, reply_id),
            self.wf() && message_wf(*msg) ==> r.0.wf(),
    {
        match (&self.data, msg) {
            (HolderData::ProposalSet, Message::CredentialOffer(offer)) => (
                Holder {
                    source_id: self.source_id.clone(),
                    thread_id: self.thread_id.clone(),
                    data: HolderData::OfferReceived { offer: copy_offer(offer) },
                },
                None,
            ),
            (HolderData::RequestSet { offer, .. }, Message::CredentialIssue(credential)) => match stored {
                Some(stored) => {
                    let out = if credential.please_ack {
                        Some(Outgoing::Ack { id: reply_id, thread_id: self.thread_id.clone() })
                    } else {
                        None
                    };
                    let next = Holder {
                        source_id: self.source_id.clone(),
                        thread_id: self.thread_id.clone(),
                        data: HolderData::Finished {
                            offer: copy_offer(offer),
                            credential: copy_issue(credential),
                            stored,
                        },
                    };
                    (next, out)
                },
                None => {
                    let next = Holder {
                        source_id: self.source_id.clone(),
                        thread_id: self.thread_id.clone(),
                        data: HolderData::Failed { offer: Some(copy_offer(offer)), declined: false },
                    };
                    let out = Outgoing::ProblemReport {
                        id: reply_id,
                        thread_id: self.thread_id.clone(),
                        comment: None,
                    };
                    (next, Some(out))
                },
            },
            (HolderData::RequestSet { offer, .. }, Message::CredentialProblemReport(_))
            | (HolderData::RequestSet { offer, .. }, Message::ReportProblem(_))
            | (HolderData::RequestSet { offer, .. }, Message::NotificationProblemReport(_)) => (
                Holder {
                    source_id: self.source_id.clone(),
                    thread_id: self.thread_id.clone(),
                    data: HolderData::Failed { offer: Some(copy_offer(offer)), declined: false },
                },
                None,
            ),
            _ => (self.copy(), None),
        }
    }
    /// The issued credential message; only a finished holder has one.
    pub fn get_credential(&self) -> (r: Result<String, ErrorKind>)
        ensures
            match self.data {
                HolderData::Finished { credential, .. } => r == Ok::<String, ErrorKind>(credential.text),
                _ => r == Err::<String, ErrorKind>(ErrorKind::InvalidState),
            },
    {
        match &self.data {
            HolderData::Finished { credential, .. } => Ok(credential.text.clone()),
            _ => Err(ErrorKind::InvalidState),
        }
    }

    fn offer_ref(&self) -> (r: Option<&Offer>)
        ensures
            match self.offer() {
                Some(o) => r == Some(&o),
                None => r is None,
            },
    {
        match &self.data {
            HolderData::ProposalSet => None,
            HolderData::OfferReceived { offer } => Some(offer),
            HolderData::RequestSet { offer, .. } => Some(offer),
            HolderData::Finished { offer, .. } => Some(offer),
            HolderData::Failed { offer, .. } => match offer {
                Some(o) => Some(o),
                None => None,
            },
        }
    }

    /// The offered attributes, as JSON text; there from the offer on.
    pub fn get_attributes(&self) -> (r: Result<String, ErrorKind>)
        ensures
            match self.offer() {
                Some(o) => r == Ok::<String, ErrorKind>(o.attributes),
                None => r == Err::<String, ErrorKind>(ErrorKind::InvalidState),
            },
    {
        match self.offer_ref() {
            Some(o) => Ok(o.attributes.clone()),
            None => Err(ErrorKind::InvalidState),
        }
    }

    /// The offer's attachment data, as JSON text; there from the offer on.
    pub fn get_attachment(&self) -> (r: Result<String, ErrorKind>)
        ensures
            match self.offer() {
                Some(o) => r == Ok::<String, ErrorKind>(o.attachment),
                None => r == Err::<String, ErrorKind>(ErrorKind::InvalidState),
            },
    {
        match self.offer_ref() {
            Some(o) => Ok(o.attachment.clone()),
            None => Err(ErrorKind::InvalidState),
        }
    }

    /// What the credential store reported, for a finished holder.
    pub open spec fn stored(self) -> Option<StoredCredential> {
        match self.data {
            HolderData::Finished { stored, .. } => Some(stored),
            _ => None,
        }
    }

    /// The revocation registry id; empty for a credential that cannot be
    /// revoked.
    pub fn get_rev_reg_id(&self) -> (r: Result<String, ErrorKind>)
        ensures
            match self.stored() {
                Some(s) => r matches Ok(v) && v@ == opt_or_empty(s.rev_reg_id),
                None => r == Err::<String, ErrorKind>(ErrorKind::InvalidState),
            },
    {
        match &self.data {
            HolderData::Finished { stored, .. } => Ok(string_or_empty(&stored.rev_reg_id)),
            _ => Err(ErrorKind::InvalidState),
        }
    }

    /// Where the revocation tails file lies; empty for a credential that
    /// cannot be revoked.
    pub fn get_tails_location(&self) -> (r: Result<String, ErrorKind>)
        ensures
            match self.stored() {
                Some(s) => r matches Ok(v) && v@ == opt_or_empty(s.tails_location),
                None => r == Err::<String, ErrorKind>(ErrorKind::InvalidState),
            },
    {
        match &self.data {
            HolderData::Finished { stored, .. } => Ok(string_or_empty(&stored.tails_location)),
            _ => Err(ErrorKind::InvalidState),
        }
    }

    /// The hash of the revocation tails file; empty for a credential that
    /// cannot be revoked.
    pub fn get_tails_hash(&self) -> (r: Result<String, ErrorKind>)
        ensures
            match self.stored() {
                Some(s) => r matches Ok(v) && v@ == opt_or_empty(s.tails_hash),
                None => r == Err::<String, ErrorKind>(ErrorKind::InvalidState),
            },
    {
        match &self.data {
            HolderData::Finished { stored, .. } => Ok(string_or_empty(&stored.tails_hash)),
            _ => Err(ErrorKind::InvalidState),
        }
    }

    /// The id under which the credential store keeps the credential.
    pub fn get_cred_id(&self) -> (r: Result<String, ErrorKind>)
        ensures
            match self.stored() {
                Some(s) => r == Ok::<String, ErrorKind>(s.cred_id),
                None => r == Err::<String, ErrorKind>(ErrorKind::InvalidState),
            },
    {
        match &self.data {
            HolderData::Finished { stored, .. } => Ok(stored.cred_id.clone()),
            _ => Err(ErrorKind::InvalidState),
        }
    }

    /// The exchange's outcome: 1 issued, 2 failed, 3 declined.
    pub open spec fn status(self) -> Result<u32, ErrorKind> {
        match self.data {
            HolderData::Finished { .. } => Ok(1),
            HolderData::Failed { declined, .. } => Ok(if declined { 3 } else { 2 }),
            _ => Err(ErrorKind::InvalidState),
        }
    }

    /// The exchange's outcome, once it has one.
    pub fn get_credential_status(&self) -> (r: Result<u32, ErrorKind>)
        ensures
            r == self.status(),
    {
        match &self.data {
            HolderData::Finished { .. } => Ok(1),
            HolderData::Failed { declined, .. } => Ok(if *declined { 3 } else { 2 }),
            _ => Err(ErrorKind::InvalidState),
        }
    }
}

} // verus!
