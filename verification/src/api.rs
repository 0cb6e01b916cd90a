//! The capability object a block instance owns.

use crate::errors::{Error, ErrorView};
use crate::event::{BlockEvent, BlockEventView};
use crate::request::{
    default_action_view, DefaultAction, Request, RequestCmd, RequestCmdView, RequestView, Widget,
};
use std::time::Duration;
use tokio::sync::mpsc::error::SendError;
use tokio::sync::mpsc::{Receiver, Sender};
use vstd::prelude::*;
use vstd::string::StringExecFns;

verus! {

/// The error with which tokio's bounded channel hands a value back when
/// `Sender::send` finds the receiving half closed or dropped. Nothing is
/// claimed of it; the library only tells it apart from a delivery.
#[verifier::external_type_specification]
#[verifier::external_body]
#[verifier::reject_recursive_types(T)]
pub struct ExSendError<T>(SendError<T>);

/// The sending half of tokio's bounded channel. The library holds it for
/// whoever performs the sends and claims nothing of it.
#[verifier::external_type_specification]
#[verifier::external_body]
#[verifier::reject_recursive_types(T)]
pub struct ExSender<T>(Sender<T>);

/// The receiving half of tokio's bounded channel. The library holds it for
/// whoever awaits the events and claims nothing of it.
#[verifier::external_type_specification]
#[verifier::external_body]
#[verifier::reject_recursive_types(T)]
pub struct ExReceiver<T>(Receiver<T>);

/// Context of one block instance.
pub struct CommonApi {
    /// Identifies the instance; every request it issues is tagged with it.
    pub id: usize,
    /// Where this instance's events arrive. No one else holds this end.
    pub event_receiver: Receiver<BlockEvent>,
    /// A handle on the one channel that carries all blocks' requests.
    pub request_sender: Sender<Request>,
    /// How long to wait before retrying a failed operation.
    pub error_interval: Duration,
}

/// The requests that instance `id` issues for `cmds`, one after the other.
pub open spec fn issued(id: usize, cmds: Seq<RequestCmdView>) -> Seq<RequestView>
    decreases cmds.len(),
{
    if cmds.len() == 0 {
        Seq::empty()
    } else {
        issued(id, cmds.drop_last()).push(RequestView { block_id: id, cmd: cmds.last() })
    }
}

/// What one instance issues is one request per command, in the order of the
/// commands, each tagged with the instance's id.
pub proof fn lemma_issued_in_order(id: usize, cmds: Seq<RequestCmdView>)
    ensures
        issued(id, cmds).len() == cmds.len(),
        forall|i: int|
            0 <= i < cmds.len() ==> #[trigger] issued(id, cmds)[i] == (RequestView {
                block_id: id,
                cmd: cmds[i],
            }),
    decreases cmds.len(),
{
    if cmds.len() > 0 {
        lemma_issued_in_order(id, cmds.drop_last());
    }
}

/// What the consumer of the request channel sees of instance `id`, when
/// `delivered` is all that the channel handed out, first come first.
pub open spec fn seen_of(delivered: Seq<RequestView>, id: usize) -> Seq<RequestView>
    decreases delivered.len(),
{
    if delivered.len() == 0 {
        Seq::empty()
    } else if delivered.last().block_id == id {
        seen_of(delivered.drop_last(), id).push(delivered.last())
    } else {
        seen_of(delivered.drop_last(), id)
    }
}

/// Draining a first-in first-out channel that took the requests of one
/// instance yields those requests, in the order in which they were issued.
pub proof fn lemma_round_trip(id: usize, cmds: Seq<RequestCmdView>)
    ensures
        seen_of(issued(id, cmds), id) == issued(id, cmds),
    decreases cmds.len(),
{
    if cmds.len() > 0 {
        let before = issued(id, cmds.drop_last());
        lemma_round_trip(id, cmds.drop_last());
        assert(issued(id, cmds).drop_last() =~= before);
    }
}

/// Requests of other instances do not disturb what is seen of one: a
/// request that the channel takes next is appended to what is seen of its
/// own instance and leaves every other instance's requests as they were.
pub proof fn lemma_instances_do_not_interfere(delivered: Seq<RequestView>, next: RequestView, id: usize)
    ensures
        seen_of(delivered.push(next), id) == if next.block_id == id {
            seen_of(delivered, id).push(next)
        } else {
            seen_of(delivered, id)
        },
{
    assert(delivered.push(next).drop_last() =~= delivered);
}

/// The error a block gets when the bar no longer takes requests.
pub open spec fn send_failure() -> ErrorView {
    ErrorView { message: "Failed to send Request"@, block: None }
}

/// The error a block gets when the icon it asked for does not exist.
pub open spec fn icon_not_found(icon: Seq<char>) -> ErrorView {
    ErrorView { message: "Icon '"@ + icon + "' not found"@, block: None }
}

/// What becomes of a request once the channel has answered: delivered, or
/// the fatal send failure.
pub fn sent(outcome: Result<(), SendError<Request>>) -> (r: Result<(), Error>)
    ensures
        r is Ok <==> outcome is Ok,
        r is Err ==> r->Err_0@ == send_failure(),
{
    match outcome {
        Ok(()) => Ok(()),
        Err(_) => Err(Error::new("Failed to send Request")),
    }
}

impl CommonApi {
    /// The request that shows `widget` for this block.
    pub fn set_widget(&self, widget: &Widget) -> (r: Request)
        ensures
            r@ == (RequestView { block_id: self.id, cmd: RequestCmdView::SetWidget(widget@) }),
    {
        Request { block_id: self.id, cmd: RequestCmd::SetWidget(widget.clone()) }
    }

    /// The request that hides this block until a new widget is set.
    pub fn unset_widget(&self) -> (r: Request)
        ensures
            r@ == (RequestView { block_id: self.id, cmd: RequestCmdView::UnsetWidget }),
    {
        Request { block_id: self.id, cmd: RequestCmd::UnsetWidget }
    }

    /// The request that shows `error` for this block.
    pub fn set_error(&self, error: Error) -> (r: Request)
        ensures
            r@ == (RequestView { block_id: self.id, cmd: RequestCmdView::SetError(error@) }),
    {
        Request { block_id: self.id, cmd: RequestCmd::SetError(error) }
    }

    /// The request that installs `actions` as this block's click bindings.
    pub fn set_default_actions(&mut self, actions: &'static [DefaultAction]) -> (r: Request)
        ensures
            *final(self) == *old(self),
            r@ == (RequestView {
                block_id: old(self).id,
                cmd: RequestCmdView::SetDefaultActions(
                    actions@.map_values(|a: DefaultAction| default_action_view(a)),
                ),
            }),
    {
        Request { block_id: self.id, cmd: RequestCmd::SetDefaultActions(actions) }
    }

    /// The next event, given what the event channel handed out. The channel
    /// of a live block is never closed, so there is one.
    pub fn event(&mut self, received: Option<BlockEvent>) -> (e: BlockEvent)
        requires
            received is Some,
        ensures
            *final(self) == *old(self),
            e == received->0,
    {
        match received {
            Some(event) => event,
            None => BlockEvent::UpdateRequest,
        }
    }

    /// Whether `event` ends a wait for a refresh demand. Actions do not:
    /// they are discarded and the wait goes on.
    pub fn wait_for_update_request(&mut self, event: &BlockEvent) -> (done: bool)
        ensures
            *final(self) == *old(self),
            done == (event@ == BlockEventView::UpdateRequest),
    {
        event.is_update_request()
    }

    /// The icon named `icon`, given what the icon resolver found for it, or
    /// the error that says it was not found.
    pub fn get_icon(&self, icon: &str, found: Option<String>) -> (r: Result<String, Error>)
        ensures
            found is Some ==> r == Ok::<String, Error>(found->0),
            found is None ==> r is Err && r->Err_0@ == icon_not_found(icon@),
    {
        match found {
            Some(s) => Ok(s),
            None => {
                let message = String::from_str("Icon '").concat(icon).concat("' not found");
                Err(Error { message, block: None })
            },
        }
    }
}

} // verus!
