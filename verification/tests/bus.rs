use adxl355::{Action, Event, Exchange, Phase, Step};

fn pending<const N: usize>(step: Step<&'static str, N>) -> Exchange<&'static str, N> {
    match step {
        Step::Pending(exchange) => exchange,
        Step::Finished(outcome) => panic!("finished early with {:?}", outcome),
    }
}

#[test]
fn a_write_selects_clocks_and_deselects() {
    let exchange: Exchange<&str, 2> = Exchange::write([0x5A, 0x00]);
    assert_eq!(exchange.action(), Action::Select);
    let exchange = pending(exchange.feed(Event::Done));
    assert_eq!(exchange.action(), Action::Write([0x5A, 0x00]));
    let exchange = pending(exchange.feed(Event::Done));
    assert_eq!(exchange.action(), Action::Deselect);
    assert_eq!(exchange.feed(Event::Done), Step::Finished(Ok([0x5A, 0x00])));
}

#[test]
fn a_transfer_selects_clocks_and_deselects() {
    let exchange: Exchange<&str, 3> = Exchange::transfer([0x0D, 0x00, 0x00]);
    assert_eq!(exchange.action(), Action::Select);
    let exchange = pending(exchange.feed(Event::Done));
    assert_eq!(exchange.action(), Action::Transfer([0x0D, 0x00, 0x00]));
    let exchange = pending(exchange.feed(Event::Reply([0x00, 0x01, 0x23])));
    assert_eq!(exchange.action(), Action::Deselect);
    assert_eq!(exchange.feed(Event::Done), Step::Finished(Ok([0x00, 0x01, 0x23])));
}

#[test]
fn a_new_exchange_has_not_begun() {
    let exchange: Exchange<&str, 2> = Exchange::write([1, 2]);
    assert_eq!(exchange.frame, [1, 2]);
    assert!(!exchange.duplex);
    assert_eq!(exchange.phase, Phase::Idle);
    let exchange: Exchange<&str, 2> = Exchange::transfer([3, 4]);
    assert_eq!(exchange.frame, [3, 4]);
    assert!(exchange.duplex);
    assert_eq!(exchange.phase, Phase::Idle);
}

#[test]
fn the_line_goes_high_again_after_a_fault() {
    let exchange: Exchange<&str, 2> = Exchange::transfer([0x05, 0x00]);
    let exchange = pending(exchange.feed(Event::Done));
    let exchange = pending(exchange.feed(Event::Fault("overrun")));
    assert_eq!(exchange.action(), Action::Deselect);
    assert_eq!(exchange.feed(Event::Done), Step::Finished(Err("overrun")));
}

#[test]
fn a_failed_write_is_reported_after_the_line_went_high() {
    let exchange: Exchange<&str, 2> = Exchange::write([0x58, 0x01]);
    let exchange = pending(exchange.feed(Event::Done));
    let exchange = pending(exchange.feed(Event::Fault("mode fault")));
    assert_eq!(exchange.phase, Phase::Clocked(Err("mode fault")));
    assert_eq!(exchange.action(), Action::Deselect);
    assert_eq!(exchange.feed(Event::Done), Step::Finished(Err("mode fault")));
}

#[test]
fn an_exchange_goes_on_when_the_line_cannot_be_driven() {
    let exchange: Exchange<&str, 2> = Exchange::transfer([0x05, 0x00]);
    let exchange = pending(exchange.feed(Event::Stuck));
    assert_eq!(exchange.action(), Action::Transfer([0x05, 0x00]));
    let exchange = pending(exchange.feed(Event::Reply([0x00, 0xED])));
    assert_eq!(exchange.action(), Action::Deselect);
    assert_eq!(exchange.feed(Event::Stuck), Step::Finished(Ok([0x00, 0xED])));
}

#[test]
fn what_the_chip_select_line_reports_is_not_looked_at() {
    let exchange: Exchange<&str, 2> = Exchange::transfer([0x05, 0x00]);
    let exchange = pending(exchange.feed(Event::Fault("pin")));
    assert_eq!(exchange.action(), Action::Transfer([0x05, 0x00]));
    let exchange = pending(exchange.feed(Event::Reply([0x00, 0xED])));
    assert_eq!(exchange.action(), Action::Deselect);
    assert_eq!(exchange.feed(Event::Fault("pin")), Step::Finished(Ok([0x00, 0xED])));

    let exchange: Exchange<&str, 2> = Exchange::write([0x5A, 0x00]);
    let exchange = pending(exchange.feed(Event::Reply([9, 9])));
    assert_eq!(exchange.action(), Action::Write([0x5A, 0x00]));
}

#[test]
fn a_write_keeps_nothing_that_came_in() {
    let exchange: Exchange<&str, 2> = Exchange::write([0x50, 0x0A]);
    let exchange = pending(exchange.feed(Event::Done));
    let exchange = pending(exchange.feed(Event::Reply([0xFF, 0xFF])));
    assert_eq!(exchange.feed(Event::Done), Step::Finished(Ok([0x50, 0x0A])));
}

#[test]
fn a_transfer_that_hands_nothing_back_leaves_the_frame_as_sent() {
    let exchange: Exchange<&str, 2> = Exchange::transfer([0x05, 0x00]);
    let exchange = pending(exchange.feed(Event::Done));
    let exchange = pending(exchange.feed(Event::Done));
    assert_eq!(exchange.feed(Event::Done), Step::Finished(Ok([0x05, 0x00])));

    let exchange: Exchange<&str, 2> = Exchange::transfer([0x05, 0x00]);
    let exchange = pending(exchange.feed(Event::Done));
    let exchange = pending(exchange.feed(Event::Stuck));
    assert_eq!(exchange.feed(Event::Done), Step::Finished(Ok([0x05, 0x00])));
}

#[test]
fn an_exchange_takes_three_events() {
    let mut exchange: Exchange<&str, 10> = Exchange::transfer([0x11, 0, 0, 0, 0, 0, 0, 0, 0, 0]);
    let mut actions = Vec::new();
    let outcome = loop {
        actions.push(exchange.action());
        match exchange.feed(Event::Reply([7; 10])) {
            Step::Pending(next) => exchange = next,
            Step::Finished(outcome) => break outcome,
        }
    };
    assert_eq!(
        actions,
        vec![Action::Select, Action::Transfer([0x11, 0, 0, 0, 0, 0, 0, 0, 0, 0]), Action::Deselect]
    );
    assert_eq!(outcome, Ok([7; 10]));
}
