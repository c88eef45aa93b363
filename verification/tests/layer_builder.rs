use iobench::layers::{Handler, HandlerEvent, LoggingLayer, MetricLayer, OperatorBuilder};

#[test]
fn test_layer_builder() {
    let handler = Handler::Concrete;
    let logging_layer = LoggingLayer;
    let metric_layer = MetricLayer;

    let operator = OperatorBuilder::new(handler)
        .layer(logging_layer)
        .layer(metric_layer)
        .build();
    for event in operator.handle() {
        println!("{}", event.text());
    }
}

#[test]
fn last_layer_acts_first_and_last() {
    let operator = OperatorBuilder::new(Handler::Concrete)
        .layer(LoggingLayer)
        .layer(MetricLayer)
        .build();
    assert_eq!(
        operator.handle(),
        vec![
            HandlerEvent::MetricsBefore,
            HandlerEvent::LoggingBefore,
            HandlerEvent::Handled,
            HandlerEvent::LoggingAfter,
            HandlerEvent::MetricsAfter,
        ]
    );
}

#[test]
fn bare_handler_only_handles() {
    let operator = OperatorBuilder::new(Handler::Concrete).build();
    assert_eq!(operator.handle(), vec![HandlerEvent::Handled]);
}

#[test]
fn same_layer_twice_nests() {
    let operator = OperatorBuilder::new(Handler::Concrete)
        .layer(LoggingLayer)
        .layer(LoggingLayer)
        .build();
    assert_eq!(
        operator.handle(),
        vec![
            HandlerEvent::LoggingBefore,
            HandlerEvent::LoggingBefore,
            HandlerEvent::Handled,
            HandlerEvent::LoggingAfter,
            HandlerEvent::LoggingAfter,
        ]
    );
}

#[test]
fn event_lines() {
    assert_eq!(HandlerEvent::Handled.text(), "Handling request in ConcreteHandler");
    assert_eq!(HandlerEvent::LoggingBefore.text(), "Logging before handling");
    assert_eq!(HandlerEvent::LoggingAfter.text(), "Logging after handling");
    assert_eq!(HandlerEvent::MetricsBefore.text(), "Metrics before handling");
    assert_eq!(HandlerEvent::MetricsAfter.text(), "Metrics after handling");
}
