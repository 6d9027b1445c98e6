//! The closed set of protocol messages that a credential holder reads.
use vstd::prelude::*;
use crate::json::{json_at, string_at, str_at, json_at_of, JsonAt};

verus! {

/// The kinds of message that the holder tells apart.
#[derive(Clone, Copy, Debug, PartialEq, Eq, Structural)]
pub enum MessageKind {
    CredentialOffer,
    CredentialIssue,
    CredentialProblemReport,
    ReportProblem,
    NotificationProblemReport,
    Other,
}

/// A credential offer, with the parts of it that the holder reads.
#[derive(Clone, Debug)]
pub struct Offer {
    pub id: String,
    pub thread_id: Option<String>,
    /// The credential preview's attributes, as JSON text.
    pub attributes: String,
    /// The data of the first offer attachment, as JSON text.
    pub attachment: String,
    /// The whole message, as JSON text.
    pub text: String,
}

/// An issued credential message.
#[derive(Clone, Debug)]
pub struct Issue {
    pub id: String,
    pub thread_id: String,
    /// Whether the issuer asked for an acknowledgement.
    pub please_ack: bool,
    pub text: String,
}

/// A problem report of any of the three protocols that carry one.
#[derive(Clone, Debug)]
pub struct ProblemReport {
    pub id: String,
    pub thread_id: Option<String>,
    pub text: String,
}

/// A protocol message read from JSON text.
#[derive(Clone, Debug)]
pub enum Message {
    CredentialOffer(Offer),
    CredentialIssue(Issue),
    CredentialProblemReport(ProblemReport),
    ReportProblem(ProblemReport),
    NotificationProblemReport(ProblemReport),
    /// A message of a protocol that the holder does not take part in.
    Other(String),
}

pub open spec fn opt_view(o: Option<String>) -> Option<Seq<char>> {
    match o {
        Some(s) => Some(s@),
        None => None,
    }
}

/// Whether `t` is the message type `name` under one of the two DIDComm prefixes.
pub open spec fn type_is(t: Seq<char>, name: Seq<char>) -> bool {
    t == "https://didcomm.org/"@ + name || t == "did:sov:BzCbsNYhMrjHiqZDTUASHg;spec/"@ + name
}

/// The kind of message that the type string `t` names.
pub open spec fn kind_of_type(t: Seq<char>) -> MessageKind {
    if type_is(t, "issue-credential/1.0/offer-credential"@) {
        MessageKind::CredentialOffer
    } else if type_is(t, "issue-credential/1.0/issue-credential"@) {
        MessageKind::CredentialIssue
    } else if type_is(t, "issue-credential/1.0/problem-report"@) {
        MessageKind::CredentialProblemReport
    } else if type_is(t, "report-problem/1.0/problem-report"@) {
        MessageKind::ReportProblem
    } else if type_is(t, "notification/1.0/problem-report"@) {
        MessageKind::NotificationProblemReport
    } else {
        MessageKind::Other
    }
}

/// Whether `text` holds what an offer needs: an id, the preview's attributes
/// and the data of a first attachment.
pub open spec fn offer_readable(text: Seq<char>) -> bool {
    &&& str_at(text, "/@id"@) is Some
    &&& json_at_of(text, "/credential_preview/attributes"@) is Array
    &&& json_at_of(text, "/offers~0attach/0/data"@) is Object
}

/// Whether `o` is the offer read from `text`.
pub open spec fn is_offer_of(o: Offer, text: Seq<char>) -> bool {
    &&& o.text@ == text
    &&& str_at(text, "/@id"@) == Some(o.id@)
    &&& str_at(text, "/~0thread/thid"@) == opt_view(o.thread_id)
    &&& (json_at_of(text, "/credential_preview/attributes"@) matches JsonAt::Array(a) && a@
        == o.attributes@)
    &&& (json_at_of(text, "/offers~0attach/0/data"@) matches JsonAt::Object(d) && d@
        == o.attachment@)
}

/// Whether `text` holds what an issued credential message needs: an id and a
/// thread id.
pub open spec fn issue_readable(text: Seq<char>) -> bool {
    str_at(text, "/@id"@) is Some && str_at(text, "/~0thread/thid"@) is Some
}

pub open spec fn is_issue_of(i: Issue, text: Seq<char>) -> bool {
    &&& i.text@ == text
    &&& str_at(text, "/@id"@) == Some(i.id@)
    &&& str_at(text, "/~0thread/thid"@) == Some(i.thread_id@)
    &&& i.please_ack == (json_at_of(text, "/~0please_ack"@) is Object)
}

pub open spec fn is_report_of(p: ProblemReport, text: Seq<char>) -> bool {
    &&& p.text@ == text
    &&& str_at(text, "/@id"@) == Some(p.id@)
    &&& str_at(text, "/~0thread/thid"@) == opt_view(p.thread_id)
}

/// Whether `text` is a message that the holder can read: a JSON object with a
/// type and an id, and the parts that its kind needs.
pub open spec fn message_readable(text: Seq<char>) -> bool {
    match str_at(text, "/@type"@) {
        None => false,
        Some(t) => {
            &&& str_at(text, "/@id"@) is Some
            &&& (kind_of_type(t) == MessageKind::CredentialOffer ==> offer_readable(text))
            &&& (kind_of_type(t) == MessageKind::CredentialIssue ==> issue_readable(text))
        },
    }
}

impl Message {
    pub open spec fn kind(self) -> MessageKind {
        match self {
            Message::CredentialOffer(_) => MessageKind::CredentialOffer,
            Message::CredentialIssue(_) => MessageKind::CredentialIssue,
            Message::CredentialProblemReport(_) => MessageKind::CredentialProblemReport,
            Message::ReportProblem(_) => MessageKind::ReportProblem,
            Message::NotificationProblemReport(_) => MessageKind::NotificationProblemReport,
            Message::Other(_) => MessageKind::Other,
        }
    }

    /// The thread id that the message carries, if any.
    pub open spec fn thread(self) -> Option<Seq<char>> {
        match self {
            Message::CredentialOffer(o) => opt_view(o.thread_id),
            Message::CredentialIssue(i) => Some(i.thread_id@),
            Message::CredentialProblemReport(p) => opt_view(p.thread_id),
            Message::ReportProblem(p) => opt_view(p.thread_id),
            Message::NotificationProblemReport(p) => opt_view(p.thread_id),
            Message::Other(_) => None,
        }
    }
}

/// An offer that is the one read from its own text.
pub open spec fn offer_wf(o: Offer) -> bool {
    offer_readable(o.text@) && is_offer_of(o, o.text@)
}

/// An issued credential message that is the one read from its own text.
pub open spec fn issue_wf(i: Issue) -> bool {
    issue_readable(i.text@) && is_issue_of(i, i.text@)
}

/// Offers and issued credentials in `m` are the ones read from their texts.
pub open spec fn message_wf(m: Message) -> bool {
    match m {
        Message::CredentialOffer(o) => offer_wf(o),
        Message::CredentialIssue(i) => issue_wf(i),
        _ => true,
    }
}

fn opt_text_eq(a: &Option<String>, b: &Option<String>) -> (r: bool)
    ensures
        r == (opt_view(*a) == opt_view(*b)),
{
    match (a, b) {
        (Some(x), Some(y)) => x.eq(y),
        (None, None) => true,
        _ => false,
    }
}

/// Whether the offer is the one read from its own text.
pub fn offer_is_wf(o: &Offer) -> (r: bool)
    ensures
        r == offer_wf(*o),
{
    match parse_offer(o.text.as_str()) {
        Some(p) => p.id.eq(&o.id) && opt_text_eq(&p.thread_id, &o.thread_id) && p.attributes.eq(
            &o.attributes,
        ) && p.attachment.eq(&o.attachment),
        None => false,
    }
}

/// Whether the issued credential message is the one read from its own text.
pub fn issue_is_wf(i: &Issue) -> (r: bool)
    ensures
        r == issue_wf(*i),
{
    match parse_issue(i.text.as_str()) {
        Some(p) => p.id.eq(&i.id) && p.thread_id.eq(&i.thread_id) && p.please_ack == i.please_ack,
        None => false,
    }
}

/// Whether `m` is the message read from `text`.
pub open spec fn is_message_of(m: Message, text: Seq<char>) -> bool {
    &&& str_at(text, "/@type"@) is Some
    &&& m.kind() == kind_of_type(str_at(text, "/@type"@).unwrap())
    &&& match m {
        Message::CredentialOffer(o) => is_offer_of(o, text),
        Message::CredentialIssue(i) => is_issue_of(i, text),
        Message::CredentialProblemReport(p) => is_report_of(p, text),
        Message::ReportProblem(p) => is_report_of(p, text),
        Message::NotificationProblemReport(p) => is_report_of(p, text),
        Message::Other(t) => t@ == text,
    }
}

pub(crate) fn text_is(s: &String, lit: &str) -> (r: bool)
    ensures
        r == (s@ == lit@),
{
    let l = String::from_str(lit);
    s.eq(&l)
}

fn type_matches(t: &String, name: &str) -> (r: bool)
    ensures
        r == type_is(t@, name@),
{
    let a = String::from_str("https://didcomm.org/").concat(name);
    let b = String::from_str("did:sov:BzCbsNYhMrjHiqZDTUASHg;spec/").concat(name);
    t.eq(&a) || t.eq(&b)
}

/// The kind of message that the type string `t` names.
pub fn kind_from_type(t: &String) -> (r: MessageKind)
    ensures
        r == kind_of_type(t@),
{
    if type_matches(t, "issue-credential/1.0/offer-credential") {
        MessageKind::CredentialOffer
    } else if type_matches(t, "issue-credential/1.0/issue-credential") {
        MessageKind::CredentialIssue
    } else if type_matches(t, "issue-credential/1.0/problem-report") {
        MessageKind::CredentialProblemReport
    } else if type_matches(t, "report-problem/1.0/problem-report") {
        MessageKind::ReportProblem
    } else if type_matches(t, "notification/1.0/problem-report") {
        MessageKind::NotificationProblemReport
    } else {
        MessageKind::Other
    }
}

/// Reads a credential offer from JSON text.
pub fn parse_offer(text: &str) -> (r: Option<Offer>)
    ensures
        r is Some <==> offer_readable(text@),
        r matches Some(o) ==> is_offer_of(o, text@),
{
    let id = string_at(text, "/@id");
    let thread_id = string_at(text, "/~0thread/thid");
    let attributes = json_at(text, "/credential_preview/attributes");
    let attachment = json_at(text, "/offers~0attach/0/data");
    match (id, attributes, attachment) {
        (Some(id), JsonAt::Array(attributes), JsonAt::Object(attachment)) => Some(
            Offer { id, thread_id, attributes, attachment, text: String::from_str(text) },
        ),
        _ => None,
    }
}

pub fn parse_issue(text: &str) -> (r: Option<Issue>)
    ensures
        r is Some <==> issue_readable(text@),
        r matches Some(i) ==> is_issue_of(i, text@),
{
    let id = string_at(text, "/@id");
    let thread_id = string_at(text, "/~0thread/thid");
    let please_ack = json_at(text, "/~0please_ack");
    match (id, thread_id) {
        (Some(id), Some(thread_id)) => Some(
            Issue {
                id,
                thread_id,
                please_ack: matches!(please_ack, JsonAt::Object(_)),
                text: String::from_str(text),
            },
        ),
        _ => None,
    }
}

fn parse_report(text: &str) -> (r: Option<ProblemReport>)
    ensures
        r is Some <==> str_at(text@, "/@id"@) is Some,
        r matches Some(p) ==> is_report_of(p, text@),
{
    let id = string_at(text, "/@id");
    let thread_id = string_at(text, "/~0thread/thid");
    match id {
        Some(id) => Some(ProblemReport { id, thread_id, text: String::from_str(text) }),
        None => None,
    }
}

/// Reads a protocol message from JSON text; `None` where the text is not a
/// message that the holder can read.
pub fn parse_message(text: &str) -> (r: Option<Message>)
    ensures
        r is Some <==> message_readable(text@),
        r matches Some(m) ==> is_message_of(m, text@) && message_wf(m),
{
    let t = match string_at(text, "/@type") {
        Some(t) => t,
        None => return None,
    };
    let kind = kind_from_type(&t);
    let id = string_at(text, "/@id");
    if id.is_none() {
        return None;
    }
    match kind {
        MessageKind::CredentialOffer => match parse_offer(text) {
            Some(o) => Some(Message::CredentialOffer(o)),
            None => None,
        },
        MessageKind::CredentialIssue => match parse_issue(text) {
            Some(i) => Some(Message::CredentialIssue(i)),
            None => None,
        },
        MessageKind::CredentialProblemReport => match parse_report(text) {
            Some(p) => Some(Message::CredentialProblemReport(p)),
            None => None,
        },
        MessageKind::ReportProblem => match parse_report(text) {
            Some(p) => Some(Message::ReportProblem(p)),
            None => None,
        },
        MessageKind::NotificationProblemReport => match parse_report(text) {
            Some(p) => Some(Message::NotificationProblemReport(p)),
            None => None,
        },
        MessageKind::Other => Some(Message::Other(String::from_str(text))),
    }
}

} // verus!
