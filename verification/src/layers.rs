//! A request handler built in layers: a core handler, wrapped by middleware
//! that acts before and after the handler it wraps. Handling a request yields
//! the events in the order they happen; each layer added by the builder wraps
//! everything added before it, so the last layer acts first and last.

use vstd::prelude::*;

verus! {

/// What a handler does while it handles a request.
#[derive(Debug, Clone, Copy, PartialEq, Eq, Structural)]
pub enum HandlerEvent {
    /// The core handler handles the request.
    Handled,
    /// The logging middleware, before the handler it wraps.
    LoggingBefore,
    /// The logging middleware, after the handler it wraps.
    LoggingAfter,
    /// The metrics middleware, before the handler it wraps.
    MetricsBefore,
    /// The metrics middleware, after the handler it wraps.
    MetricsAfter,
}

/// The line printed for an event.
pub open spec fn event_text(e: HandlerEvent) -> Seq<char> {
    match e {
        HandlerEvent::Handled => "Handling request in ConcreteHandler"@,
        HandlerEvent::LoggingBefore => "Logging before handling"@,
        HandlerEvent::LoggingAfter => "Logging after handling"@,
        HandlerEvent::MetricsBefore => "Metrics before handling"@,
        HandlerEvent::MetricsAfter => "Metrics after handling"@,
    }
}

impl HandlerEvent {
    /// The line printed for the event.
    pub fn text(&self) -> (r: &'static str)
        ensures
            r@ == event_text(*self),
    {
        match self {
            HandlerEvent::Handled => "Handling request in ConcreteHandler",
            HandlerEvent::LoggingBefore => "Logging before handling",
            HandlerEvent::LoggingAfter => "Logging after handling",
            HandlerEvent::MetricsBefore => "Metrics before handling",
            HandlerEvent::MetricsAfter => "Metrics after handling",
        }
    }
}

/// A handler: the core handler, or a middleware wrapping another handler.
pub enum Handler {
    Concrete,
    LoggingMiddleware(Box<Handler>),
    MetricMiddleware(Box<Handler>),
}

/// The events of handling one request with `h`, in order.
pub open spec fn trace(h: Handler) -> Seq<HandlerEvent>
    decreases h,
{
    match h {
        Handler::Concrete => seq![HandlerEvent::Handled],
        Handler::LoggingMiddleware(inner) => seq![HandlerEvent::LoggingBefore] + trace(*inner)
            + seq![HandlerEvent::LoggingAfter],
        Handler::MetricMiddleware(inner) => seq![HandlerEvent::MetricsBefore] + trace(*inner)
            + seq![HandlerEvent::MetricsAfter],
    }
}

impl Handler {
    /// Handles one request and returns what happened, in order.
    pub fn handle(&self) -> (r: Vec<HandlerEvent>)
        ensures
            r@ == trace(*self),
        decreases self,
    {
        match self {
            Handler::Concrete => {
                let mut events = Vec::new();
                events.push(HandlerEvent::Handled);
                events
            },
            Handler::LoggingMiddleware(inner) => {
                let mut events = Vec::new();
                events.push(HandlerEvent::LoggingBefore);
                let mut inner_events = inner.handle();
                events.append(&mut inner_events);
                events.push(HandlerEvent::LoggingAfter);
                events
            },
            Handler::MetricMiddleware(inner) => {
                let mut events = Vec::new();
                events.push(HandlerEvent::MetricsBefore);
                let mut inner_events = inner.handle();
                events.append(&mut inner_events);
                events.push(HandlerEvent::MetricsAfter);
                events
            },
        }
    }
}

/// A middleware layer: it wraps a handler so that handling a request with the
/// result is its own event before, the wrapped handler's events, and its own
/// event after.
pub trait Layer {
    spec fn before_event(&self) -> HandlerEvent;

    spec fn after_event(&self) -> HandlerEvent;

    fn wrap(&self, handler: Handler) -> (r: Handler)
        ensures
            trace(r) == seq![self.before_event()] + trace(handler) + seq![self.after_event()],
    ;
}

/// The layer that logs before and after the handler it wraps.
pub struct LoggingLayer;

impl Layer for LoggingLayer {
    open spec fn before_event(&self) -> HandlerEvent {
        HandlerEvent::LoggingBefore
    }

    open spec fn after_event(&self) -> HandlerEvent {
        HandlerEvent::LoggingAfter
    }

    fn wrap(&self, handler: Handler) -> (r: Handler) {
        Handler::LoggingMiddleware(Box::new(handler))
    }
}

/// The layer that records metrics before and after the handler it wraps.
pub struct MetricLayer;

impl Layer for MetricLayer {
    open spec fn before_event(&self) -> HandlerEvent {
        HandlerEvent::MetricsBefore
    }

    open spec fn after_event(&self) -> HandlerEvent {
        HandlerEvent::MetricsAfter
    }

    fn wrap(&self, handler: Handler) -> (r: Handler) {
        Handler::MetricMiddleware(Box::new(handler))
    }
}

/// Builds a handler from a core handler and layers added one by one.
pub struct OperatorBuilder {
    pub handler: Handler,
}

impl OperatorBuilder {
    /// A builder around `handler`, with no layer yet.
    pub fn new(handler: Handler) -> (r: OperatorBuilder)
        ensures
            r.handler == handler,
    {
        OperatorBuilder { handler }
    }

    /// Adds `layer` around everything built so far.
    pub fn layer<L: Layer>(self, layer: L) -> (r: OperatorBuilder)
        ensures
            trace(r.handler) == seq![layer.before_event()] + trace(self.handler) + seq![
                layer.after_event(),
            ],
    {
        OperatorBuilder { handler: layer.wrap(self.handler) }
    }

    /// The handler built.
    pub fn build(self) -> (r: Handler)
        ensures
            r == self.handler,
    {
        self.handler
    }
}

/// Layers nest: after adding `first` and then `second` around a handler, the
/// second acts first and last, and the first acts just inside it.
pub proof fn lemma_layers_nest<L1: Layer, L2: Layer>(
    first: L1,
    second: L2,
    core: Handler,
    once: Handler,
    twice: Handler,
)
    requires
        trace(once) == seq![first.before_event()] + trace(core) + seq![first.after_event()],
        trace(twice) == seq![second.before_event()] + trace(once) + seq![second.after_event()],
    ensures
        trace(twice) == seq![second.before_event(), first.before_event()] + trace(core) + seq![
            first.after_event(),
            second.after_event(),
        ],
{
    assert(trace(twice) =~= seq![second.before_event(), first.before_event()] + trace(core)
        + seq![first.after_event(), second.after_event()]);
}

/// Handling always runs the core handler exactly once, in the middle: every
/// handler's events hold one `Handled`, with as many events before it as
/// after it.
pub proof fn lemma_handled_once_in_middle(h: Handler)
    ensures
        trace(h).len() % 2 == 1,
        trace(h)[(trace(h).len() / 2) as int] == HandlerEvent::Handled,
        forall|i: int|
            0 <= i < trace(h).len() && i != trace(h).len() / 2 ==> #[trigger] trace(h)[i]
                != HandlerEvent::Handled,
    decreases h,
{
    match h {
        Handler::Concrete => {},
        Handler::LoggingMiddleware(inner) => {
            lemma_handled_once_in_middle(*inner);
            let t = trace(*inner);
            assert forall|i: int|
                0 <= i < trace(h).len() && i != trace(h).len() / 2 implies #[trigger] trace(h)[i]
                != HandlerEvent::Handled by {
                if 1 <= i < t.len() + 1 {
                    assert(trace(h)[i] == t[i - 1]);
                }
            }
            assert(trace(h)[(trace(h).len() / 2) as int] == t[(t.len() / 2) as int]);
        },
        Handler::MetricMiddleware(inner) => {
            lemma_handled_once_in_middle(*inner);
            let t = trace(*inner);
            assert forall|i: int|
                0 <= i < trace(h).len() && i != trace(h).len() / 2 implies #[trigger] trace(h)[i]
                != HandlerEvent::Handled by {
                if 1 <= i < t.len() + 1 {
                    assert(trace(h)[i] == t[i - 1]);
                }
            }
            assert(trace(h)[(trace(h).len() / 2) as int] == t[(t.len() / 2) as int]);
        },
    }
}

} // verus!
