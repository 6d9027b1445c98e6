//! Choosing, from an inbox, the one message that a holder can take next.
use vstd::prelude::*;
use crate::holder::{Holder, HolderState};
use crate::message::{Message, MessageKind};

verus! {

/// The exact rule: the message carries the instance's thread id.
pub open spec fn thread_exact(t: Option<Seq<char>>, thread_id: Seq<char>) -> bool {
    t == Some(thread_id)
}

/// The exact-or-absent rule: the message carries the instance's thread id, or
/// none at all.
pub open spec fn thread_exact_or_absent(t: Option<Seq<char>>, thread_id: Seq<char>) -> bool {
    t is None || t == Some(thread_id)
}

/// Whether a holder in `state` on the thread `thread_id` takes the message `m`.
pub open spec fn accepts(state: HolderState, thread_id: Seq<char>, m: Message) -> bool {
    match state {
        HolderState::ProposalSet => m.kind() == MessageKind::CredentialOffer && thread_exact(
            m.thread(),
            thread_id,
        ),
        HolderState::RequestSet => match m.kind() {
            MessageKind::CredentialIssue => thread_exact(m.thread(), thread_id),
            MessageKind::CredentialProblemReport
            | MessageKind::ReportProblem
            | MessageKind::NotificationProblemReport => thread_exact_or_absent(m.thread(), thread_id),
            _ => false,
        },
        _ => false,
    }
}

fn same_thread(t: &Option<String>, thread_id: &String) -> (r: bool)
    ensures
        r == (crate::message::opt_view(*t) == Some(thread_id@)),
{
    match t {
        Some(t) => t.eq(thread_id),
        None => false,
    }
}

/// Whether a holder in `state` on the thread `thread_id` takes the message `m`.
pub fn accepts_message(state: HolderState, thread_id: &String, m: &Message) -> (r: bool)
    ensures
        r == accepts(state, thread_id@, *m),
{
    match state {
        HolderState::ProposalSet => match m {
            Message::CredentialOffer(o) => same_thread(&o.thread_id, thread_id),
            _ => false,
        },
        HolderState::RequestSet => match m {
            Message::CredentialIssue(i) => i.thread_id.eq(thread_id),
            Message::CredentialProblemReport(p)
            | Message::ReportProblem(p)
            | Message::NotificationProblemReport(p) => p.thread_id.is_none() || same_thread(
                &p.thread_id,
                thread_id,
            ),
            _ => false,
        },
        _ => false,
    }
}

/// The position of the first inbox message that the holder takes, if any.
/// The inbox is left as it is.
pub fn holder_find_message_to_handle(sm: &Holder, messages: &Vec<(String, Message)>) -> (r: Option<
    usize,
>)
    ensures
        match r {
            Some(i) => {
                &&& i < messages@.len()
                &&& accepts(sm.state(), sm.thread_id@, messages@[i as int].1)
                &&& forall|j: int|
                    0 <= j < i ==> !accepts(sm.state(), sm.thread_id@, #[trigger] messages@[j].1)
            },
            None => forall|j: int|
                0 <= j < messages@.len() ==> !accepts(
                    sm.state(),
                    sm.thread_id@,
                    #[trigger] messages@[j].1,
                ),
        },
{
    let state = sm.get_state();
    let mut i: usize = 0;
    while i < messages.len()
        invariant
            i <= messages@.len(),
            state == sm.state(),
            forall|j: int| 0 <= j < i ==> !accepts(sm.state(), sm.thread_id@, #[trigger] messages@[j].1),
        decreases messages@.len() - i,
    {
        if accepts_message(state, &sm.thread_id, &messages[i].1) {
            return Some(i);
        }
        i = i + 1;
    }
    None
}

/// A credential offer or an issued credential whose thread id is not the
/// holder's is never taken, whatever the holder's state.
pub proof fn lemma_foreign_thread_rejected(h: Holder, m: Message)
    requires
        m.kind() == MessageKind::CredentialOffer || m.kind() == MessageKind::CredentialIssue,
        m.thread() != Some(h.thread_id@),
    ensures
        !accepts(h.state(), h.thread_id@, m),
{
}

/// No message is taken by a holder in a terminal state.
pub proof fn lemma_terminal_takes_nothing(h: Holder, m: Message)
    requires
        h.state().is_terminal(),
    ensures
        !accepts(h.state(), h.thread_id@, m),
{
}

} // verus!
