//! Handing a task to the message broker.

use crate::error::{broker_error, BrokerStage, ErrorView, TranscribeError};
use crate::topology::{EXCHANGE, EXCHANGE_KIND, PERSISTENT, QUEUE, ROUTING_KEY};
use vstd::prelude::*;
use vstd::string::*;

verus! {

/// A message for the broker.
#[derive(Debug)]
pub struct QueueMessage {
    pub exchange: String,
    pub routing_key: String,
    pub delivery_mode: u8,
    pub payload: Vec<u8>,
}

/// The contents of a message.
#[verifier::ext_equal]
pub struct QueueMessageView {
    pub exchange: Seq<char>,
    pub routing_key: Seq<char>,
    pub delivery_mode: u8,
    pub payload: Seq<u8>,
}

impl View for QueueMessage {
    type V = QueueMessageView;

    open spec fn view(&self) -> QueueMessageView {
        QueueMessageView {
            exchange: self.exchange@,
            routing_key: self.routing_key@,
            delivery_mode: self.delivery_mode,
            payload: self.payload@,
        }
    }
}

/// The message that carries a task: persistent, to the exchange of the service.
pub open spec fn task_message(payload: Seq<u8>) -> QueueMessageView {
    QueueMessageView {
        exchange: EXCHANGE@,
        routing_key: ROUTING_KEY@,
        delivery_mode: PERSISTENT,
        payload,
    }
}

/// The binding of the worker's queue.
#[derive(Debug)]
pub struct QueueBinding {
    pub queue: String,
    pub exchange: String,
    pub exchange_kind: String,
    pub routing_key: String,
}

/// The contents of a binding.
#[verifier::ext_equal]
pub struct QueueBindingView {
    pub queue: Seq<char>,
    pub exchange: Seq<char>,
    pub exchange_kind: Seq<char>,
    pub routing_key: Seq<char>,
}

impl View for QueueBinding {
    type V = QueueBindingView;

    open spec fn view(&self) -> QueueBindingView {
        QueueBindingView {
            queue: self.queue@,
            exchange: self.exchange@,
            exchange_kind: self.exchange_kind@,
            routing_key: self.routing_key@,
        }
    }
}

/// The binding by which tasks come to the worker.
pub open spec fn task_binding() -> QueueBindingView {
    QueueBindingView {
        queue: QUEUE@,
        exchange: EXCHANGE@,
        exchange_kind: EXCHANGE_KIND@,
        routing_key: ROUTING_KEY@,
    }
}

impl QueueBinding {
    /// The binding by which tasks come to the worker.
    pub fn of_tasks() -> (r: QueueBinding)
        ensures
            r@ == task_binding(),
    {
        QueueBinding {
            queue: QUEUE.to_owned(),
            exchange: EXCHANGE.to_owned(),
            exchange_kind: EXCHANGE_KIND.to_owned(),
            routing_key: ROUTING_KEY.to_owned(),
        }
    }
}

/// What is to be done next to publish a task.
#[derive(Debug)]
pub enum PublishStep {
    /// Write the task as JSON.
    EncodeTask,
    /// Declare the exchange, in case no worker has done so yet.
    DeclareExchange { name: String, kind: String, payload: Vec<u8> },
    /// Send the message.
    SendMessage { message: QueueMessage },
    /// Nothing: the task is published, or it failed.
    Finished(Result<(), TranscribeError>),
}

/// The contents of a step.
#[verifier::ext_equal]
pub enum PublishStepView {
    EncodeTask,
    DeclareExchange { name: Seq<char>, kind: Seq<char>, payload: Seq<u8> },
    SendMessage { message: QueueMessageView },
    Finished(Result<(), ErrorView>),
}

impl View for PublishStep {
    type V = PublishStepView;

    open spec fn view(&self) -> PublishStepView {
        match self {
            PublishStep::EncodeTask => PublishStepView::EncodeTask,
            PublishStep::DeclareExchange { name, kind, payload } =>
                PublishStepView::DeclareExchange { name: name@, kind: kind@, payload: payload@ },
            PublishStep::SendMessage { message } => PublishStepView::SendMessage {
                message: message@,
            },
            PublishStep::Finished(Ok(_)) => PublishStepView::Finished(Ok(())),
            PublishStep::Finished(Err(error)) => PublishStepView::Finished(Err(error@)),
        }
    }
}

/// What came of the step that was to be done.
#[derive(Debug)]
pub enum PublishEvent {
    /// The task was written as these bytes.
    Encoded(Vec<u8>),
    /// The broker did what was asked.
    Done,
    /// The step failed, for this reason.
    Failed(String),
}

/// The contents of an event.
#[verifier::ext_equal]
pub enum PublishEventView {
    Encoded(Seq<u8>),
    Done,
    Failed(Seq<char>),
}

impl View for PublishEvent {
    type V = PublishEventView;

    open spec fn view(&self) -> PublishEventView {
        match self {
            PublishEvent::Encoded(payload) => PublishEventView::Encoded(payload@),
            PublishEvent::Done => PublishEventView::Done,
            PublishEvent::Failed(detail) => PublishEventView::Failed(detail@),
        }
    }
}

/// The end of a publication whose current step failed.
pub open spec fn publish_failed(stage: BrokerStage, detail: Seq<char>) -> PublishStepView {
    PublishStepView::Finished(Err(broker_error(stage, detail)))
}

/// The declaration of the exchange that a task goes to.
pub open spec fn declare_exchange(payload: Seq<u8>) -> PublishStepView {
    PublishStepView::DeclareExchange { name: EXCHANGE@, kind: EXCHANGE_KIND@, payload }
}

/// The sending of a task.
pub open spec fn send_task(payload: Seq<u8>) -> PublishStepView {
    PublishStepView::SendMessage { message: task_message(payload) }
}

/// The step that follows on `event`. An event that does not answer the step
/// leaves it as it is.
pub open spec fn publish_next(step: PublishStepView, event: PublishEventView) -> PublishStepView {
    match (step, event) {
        (PublishStepView::EncodeTask, PublishEventView::Encoded(payload)) => declare_exchange(
            payload,
        ),
        (PublishStepView::EncodeTask, PublishEventView::Failed(detail)) => publish_failed(
            BrokerStage::Encode,
            detail,
        ),
        (PublishStepView::DeclareExchange { payload, .. }, PublishEventView::Done) => send_task(
            payload,
        ),
        (PublishStepView::DeclareExchange { .. }, PublishEventView::Failed(detail)) =>
            publish_failed(BrokerStage::DeclareExchange, detail),
        (PublishStepView::SendMessage { .. }, PublishEventView::Done) =>
            PublishStepView::Finished(Ok(())),
        (PublishStepView::SendMessage { .. }, PublishEventView::Failed(detail)) => publish_failed(
            BrokerStage::Publish,
            detail,
        ),
        (step, _) => step,
    }
}

impl PublishStep {
    /// The step that follows on `event`.
    pub fn next(self, event: PublishEvent) -> (r: PublishStep)
        ensures
            r@ == publish_next(self@, event@),
            (self, event) matches (PublishStep::EncodeTask, PublishEvent::Encoded(bytes)) ==> (
            r matches PublishStep::DeclareExchange { name, kind, payload } && name@
                == "transcribe"@ && kind@ == "direct"@ && payload@ == bytes@),
            (self, event) matches (
                PublishStep::DeclareExchange { payload, .. },
                PublishEvent::Done,
            ) ==> (r matches PublishStep::SendMessage { message } && message.exchange@
                == "transcribe"@ && message.routing_key@ == "transcribe.task"@
                && message.delivery_mode == 2 && message.payload@ == payload@),
    {
        match (self, event) {
            (PublishStep::EncodeTask, PublishEvent::Encoded(payload)) =>
                PublishStep::DeclareExchange {
                name: EXCHANGE.to_owned(),
                kind: EXCHANGE_KIND.to_owned(),
                payload,
            },
            (PublishStep::EncodeTask, PublishEvent::Failed(detail)) => PublishStep::Finished(
                Err(TranscribeError::broker(BrokerStage::Encode, detail.as_str())),
            ),
            (PublishStep::DeclareExchange { payload, .. }, PublishEvent::Done) =>
                PublishStep::SendMessage {
                message: QueueMessage {
                    exchange: EXCHANGE.to_owned(),
                    routing_key: ROUTING_KEY.to_owned(),
                    delivery_mode: PERSISTENT,
                    payload,
                },
            },
            (PublishStep::DeclareExchange { .. }, PublishEvent::Failed(detail)) =>
                PublishStep::Finished(
                Err(TranscribeError::broker(BrokerStage::DeclareExchange, detail.as_str())),
            ),
            (PublishStep::SendMessage { .. }, PublishEvent::Done) => PublishStep::Finished(Ok(())),
            (PublishStep::SendMessage { .. }, PublishEvent::Failed(detail)) =>
                PublishStep::Finished(
                Err(TranscribeError::broker(BrokerStage::Publish, detail.as_str())),
            ),
            (step, _) => step,
        }
    }
}

/// Where a publication stands after `events`.
pub open spec fn publish_run(
    step: PublishStepView,
    events: Seq<PublishEventView>,
) -> PublishStepView
    decreases events.len(),
{
    if events.len() == 0 {
        step
    } else {
        publish_run(publish_next(step, events.first()), events.drop_first())
    }
}

/// Whether a publication comes to the step `target` in the course of `events`.
pub open spec fn publish_visits(
    step: PublishStepView,
    events: Seq<PublishEventView>,
    target: PublishStepView,
) -> bool
    decreases events.len(),
{
    step == target || (events.len() > 0 && publish_visits(
        publish_next(step, events.first()),
        events.drop_first(),
        target,
    ))
}

/// A publication that succeeds has declared the exchange and sent the task, and
/// what it sent is what the task was first written as. One that does not
/// succeed blames the broker.
pub proof fn law_published_as_encoded(payload: Seq<u8>, events: Seq<PublishEventView>)
    requires
        events.len() > 0,
        events.first() == PublishEventView::Encoded(payload),
    ensures
        publish_run(PublishStepView::EncodeTask, events) == PublishStepView::Finished(Ok(())) ==> {
            &&& publish_visits(
                PublishStepView::EncodeTask,
                events,
                declare_exchange(payload),
            )
            &&& publish_visits(PublishStepView::EncodeTask, events, send_task(payload))
        },
        publish_run(PublishStepView::EncodeTask, events) matches PublishStepView::Finished(Err(e))
            ==> e is RabbitMQ,
{
    let start = declare_exchange(payload);
    reveal_with_fuel(publish_visits, 2);
    lemma_publish_ends(start, events.drop_first());
}

proof fn lemma_publish_ends(step: PublishStepView, events: Seq<PublishEventView>)
    requires
        step is DeclareExchange || step is SendMessage || step is Finished,
        step matches PublishStepView::Finished(Err(e)) ==> e is RabbitMQ,
    ensures
        publish_run(step, events) == PublishStepView::Finished(Ok(())) ==> (match step {
            PublishStepView::DeclareExchange { payload, .. } => publish_visits(
                step,
                events,
                send_task(payload),
            ),
            PublishStepView::Finished(outcome) => outcome is Ok,
            _ => true,
        }),
        publish_run(step, events) matches PublishStepView::Finished(Err(e)) ==> e is RabbitMQ,
    decreases events.len(),
{
    if events.len() > 0 {
        let next = publish_next(step, events.first());
        lemma_publish_ends(next, events.drop_first());
        reveal_with_fuel(publish_visits, 2);
    }
}

/// A task is sent to the exchange that the worker's queue is bound to, with the
/// key that it is bound by. The exchange is of the same kind for both.
pub proof fn law_tasks_reach_the_queue(payload: Seq<u8>)
    ensures
        task_message(payload).exchange == task_binding().exchange,
        task_message(payload).routing_key == task_binding().routing_key,
        declare_exchange(payload) == (PublishStepView::DeclareExchange {
            name: task_binding().exchange,
            kind: task_binding().exchange_kind,
            payload,
        }),
{
}

/// The message that carries a task holds all bytes that the task was written as, and
/// survives a restart of the broker. The worker's queue is bound to where it goes.
pub proof fn law_message_holds_the_whole_task(payload: Seq<u8>)
    ensures
        task_message(payload).payload == payload,
        task_message(payload).delivery_mode == 2,
        task_message(payload).exchange == "transcribe"@,
        task_message(payload).routing_key == "transcribe.task"@,
        task_binding().queue == "transcribe.task"@,
        task_binding().exchange == "transcribe"@,
        task_binding().exchange_kind == "direct"@,
        task_binding().routing_key == "transcribe.task"@,
{
}

/// The bytes of the task that a step carries.
pub open spec fn carried(step: PublishStepView) -> Option<Seq<u8>> {
    match step {
        PublishStepView::DeclareExchange { payload, .. } => Some(payload),
        PublishStepView::SendMessage { message } => Some(message.payload),
        _ => None,
    }
}

/// Whatever happens, the bytes that the task was written as are carried on unchanged
/// until they are sent or the publication ends, and nothing else is ever sent.
pub proof fn law_bytes_are_carried_unchanged(payload: Seq<u8>, events: Seq<PublishEventView>)
    requires
        events.len() > 0,
        events.first() == PublishEventView::Encoded(payload),
    ensures
        publish_run(PublishStepView::EncodeTask, events) is Finished || carried(
            publish_run(PublishStepView::EncodeTask, events),
        ) == Some(payload),
        publish_run(PublishStepView::EncodeTask, events) matches PublishStepView::SendMessage {
            message,
        } ==> message.payload == payload && message.delivery_mode == 2 && message.exchange
            == "transcribe"@ && message.routing_key == "transcribe.task"@,
{
    lemma_carried(
        publish_next(PublishStepView::EncodeTask, events.first()),
        payload,
        events.drop_first(),
    );
}

proof fn lemma_carried(step: PublishStepView, payload: Seq<u8>, events: Seq<PublishEventView>)
    requires
        step is Finished || carried(step) == Some(payload),
        step matches PublishStepView::SendMessage { message } ==> message == task_message(payload),
    ensures
        publish_run(step, events) is Finished || carried(publish_run(step, events)) == Some(
            payload,
        ),
        publish_run(step, events) matches PublishStepView::SendMessage { message } ==> message
            == task_message(payload),
    decreases events.len(),
{
    if events.len() > 0 {
        lemma_carried(publish_next(step, events.first()), payload, events.drop_first());
    }
}

/// A publication goes on with every step that is done: the exchange is declared, the
/// message is sent, and only when the broker took it is the task published.
pub proof fn law_publication_goes_on(
    payload: Seq<u8>,
    name: Seq<char>,
    kind: Seq<char>,
    message: QueueMessageView,
)
    ensures
        publish_next(PublishStepView::EncodeTask, PublishEventView::Encoded(payload)) == (
        PublishStepView::DeclareExchange { name: "transcribe"@, kind: "direct"@, payload }),
        publish_next(
            PublishStepView::DeclareExchange { name, kind, payload },
            PublishEventView::Done,
        ) is SendMessage,
        publish_next(PublishStepView::SendMessage { message }, PublishEventView::Done)
            == PublishStepView::Finished(Ok(())),
{
}

/// Every step that fails ends the publication at once, with an error that tells what
/// failed and why.
pub proof fn law_failed_publication_tells_why(
    payload: Seq<u8>,
    name: Seq<char>,
    kind: Seq<char>,
    message: QueueMessageView,
    detail: Seq<char>,
)
    ensures
        publish_next(PublishStepView::EncodeTask, PublishEventView::Failed(detail))
            == PublishStepView::Finished(
            Err(ErrorView::RabbitMQ("JSON serialization failed: "@ + detail)),
        ),
        publish_next(
            PublishStepView::DeclareExchange { name, kind, payload },
            PublishEventView::Failed(detail),
        ) == PublishStepView::Finished(
            Err(ErrorView::RabbitMQ("Failed to declare exchange: "@ + detail)),
        ),
        publish_next(PublishStepView::SendMessage { message }, PublishEventView::Failed(detail))
            == PublishStepView::Finished(Err(ErrorView::RabbitMQ("Publish failed: "@ + detail))),
{
}

/// What does not answer the step that is to be done changes nothing.
pub proof fn law_publication_waits_for_its_step(step: PublishStepView, event: PublishEventView)
    ensures
        step is Finished ==> publish_next(step, event) == step,
        step is EncodeTask && event is Done ==> publish_next(step, event) == step,
        (step is DeclareExchange || step is SendMessage) && event is Encoded ==> publish_next(
            step,
            event,
        ) == step,
{
}

} // verus!
