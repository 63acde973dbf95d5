use audioipc::rpc::{make_server, ClientHandler, HandlerError, QueueEmpty, Server};

struct Doubler {
    seen: usize,
}

impl Server for Doubler {
    type ServerMessage = u32;
    type ClientMessage = (u32, usize);

    fn process(&mut self, req: u32) -> (u32, usize) {
        self.seen += 1;
        (req * 2, self.seen)
    }
}

#[test]
fn server_responses_leave_in_request_order() {
    let mut h = make_server(Doubler { seen: 0 });
    assert_eq!(h.produce(), Ok(None));
    assert_eq!(h.consume(1), Ok(()));
    assert_eq!(h.consume(5), Ok(()));
    assert_eq!(h.produce(), Ok(Some((2, 1))));
    assert_eq!(h.consume(7), Ok(()));
    assert_eq!(h.produce(), Ok(Some((10, 2))));
    assert_eq!(h.produce(), Ok(Some((14, 3))));
    assert_eq!(h.produce(), Ok(None));
}

#[test]
fn client_routes_responses_to_oldest_request() {
    let (tx, rx) = crossbeam::channel::bounded::<(&'static str, usize)>(32);
    let mut h = ClientHandler::new(rx);
    assert_eq!(h.produce(), Ok(None));
    tx.send(("first", 3)).unwrap();
    tx.send(("second", 9)).unwrap();
    assert_eq!(h.produce(), Ok(Some("first")));
    assert_eq!(h.produce(), Ok(Some("second")));
    assert_eq!(h.produce(), Ok(None));
    assert_eq!(h.consume(), Ok(3));
    tx.send(("third", 4)).unwrap();
    assert_eq!(h.produce(), Ok(Some("third")));
    assert_eq!(h.consume(), Ok(9));
    assert_eq!(h.consume(), Ok(4));
    assert_eq!(h.consume(), Err(HandlerError::RequestResponseMismatch));
}

#[test]
fn client_reports_closed_request_queue() {
    let (tx, rx) = crossbeam::channel::bounded::<(u8, usize)>(1);
    let mut h = ClientHandler::new(rx);
    drop(tx);
    assert_eq!(h.produce(), Err(HandlerError::ConnectionAborted));
    assert_eq!(h.consume(), Err(HandlerError::RequestResponseMismatch));
}

#[test]
fn client_accepts_queue_outcomes() {
    let (_tx, rx) = crossbeam::channel::bounded::<(u8, usize)>(1);
    let mut h = ClientHandler::new(rx);
    assert_eq!(h.accept_request(Err(QueueEmpty::Empty)), Ok(None));
    assert_eq!(h.accept_request(Err(QueueEmpty::Disconnected)), Err(HandlerError::ConnectionAborted));
    assert_eq!(h.accept_request(Ok((5, 11))), Ok(Some(5)));
    assert_eq!(h.consume(), Ok(11));
}
