use vstd::prelude::*;
use std::collections::VecDeque;

verus! {

#[verifier::external_type_specification]
#[verifier::external_body]
#[verifier::reject_recursive_types(T)]
pub struct ExReceiver<T>(crossbeam::channel::Receiver<T>);

/// Client RPC definition: the request and response message types.
pub trait Client {
    type ServerMessage;
    type ClientMessage;
}

/// Server RPC definition: the message types and `process`, which answers
/// each inbound request.
pub trait Server {
    type ServerMessage;
    type ClientMessage;

    fn process(&mut self, req: Self::ServerMessage) -> Self::ClientMessage;
}

/// Why a handler could not go on.
#[derive(Clone, Copy, Debug, PartialEq, Eq, Structural)]
pub enum HandlerError {
    /// Every proxy that could send requests is gone.
    ConnectionAborted,
    /// A response arrived while no request was in flight.
    RequestResponseMismatch,
}

/// What an attempt to take a queued request gave.
#[derive(Clone, Copy, Debug, PartialEq, Eq, Structural)]
pub enum QueueEmpty {
    /// No request is queued at the moment.
    Empty,
    /// No request is queued and every sender has gone.
    Disconnected,
}

/// `crossbeam::channel::Receiver::try_recv`, with its error's two variants
/// told apart.  What it returns depends on other threads, so nothing is
/// claimed of the result.
#[verifier::external_body]
fn channel_try_recv<T>(rx: &crossbeam::channel::Receiver<T>) -> Result<T, QueueEmpty> {
    match rx.try_recv() {
        Ok(v) => Ok(v),
        Err(crossbeam::channel::TryRecvError::Empty) => Err(QueueEmpty::Empty),
        Err(crossbeam::channel::TryRecvError::Disconnected) => Err(QueueEmpty::Disconnected),
    }
}

/// Appending to the back of a queue.
pub open spec fn queue_push<T>(q: Seq<T>, x: T) -> Seq<T> {
    q.push(x)
}

/// Taking from the front of a queue: the item and what remains.
pub open spec fn queue_pop<T>(q: Seq<T>) -> Option<(T, Seq<T>)> {
    if q.len() == 0 {
        None
    } else {
        Some((q[0], q.drop_first()))
    }
}

/// First in, first out: what is taken after an append is what was at the
/// front before it, or the appended item itself when the queue was empty.
pub proof fn lemma_queue_fifo<T>(q: Seq<T>, x: T)
    ensures
        q.len() == 0 ==> queue_pop(queue_push(q, x)) == Some((x, Seq::<T>::empty())),
        q.len() > 0 ==> queue_pop(queue_push(q, x)) == Some(
            (q[0], queue_push(q.drop_first(), x)),
        ),
{
    if q.len() == 0 {
        assert(queue_push(q, x).drop_first() =~= Seq::<T>::empty());
    } else {
        assert(queue_push(q, x).drop_first() =~= queue_push(q.drop_first(), x));
    }
}

/// Server side of an RPC connection: requests are passed to the server as
/// they arrive and the responses leave in the same order.
pub struct ServerHandler<S: Server> {
    server: S,
    in_flight: VecDeque<S::ClientMessage>,
}

pub fn make_server<S: Server>(server: S) -> (h: ServerHandler<S>)
    ensures
        h.pending() == Seq::<S::ClientMessage>::empty(),
{
    ServerHandler::<S> { server, in_flight: VecDeque::with_capacity(32) }
}

impl<S: Server> ServerHandler<S> {
    /// Responses not yet handed out, oldest first.
    pub closed spec fn pending(&self) -> Seq<S::ClientMessage> {
        self.in_flight@
    }

    /// Has the server answer `message` and queues the answer behind those
    /// already waiting.
    pub fn consume(&mut self, message: S::ServerMessage) -> (r: Result<(), HandlerError>)
        ensures
            r is Ok,
            exists|response: S::ClientMessage| #[trigger]
                queue_push(old(self).pending(), response) == final(self).pending(),
    {
        let response = self.server.process(message);
        self.in_flight.push_back(response);
        assert(queue_push(old(self).pending(), response) == self.pending());
        Ok(())
    }

    /// The oldest waiting response, if any.
    pub fn produce(&mut self) -> (r: Result<Option<S::ClientMessage>, HandlerError>)
        ensures
            r is Ok,
            match queue_pop(old(self).pending()) {
                None => r == Ok::<Option<S::ClientMessage>, HandlerError>(None) && final(self).pending() == old(
                    self,
                ).pending(),
                Some((x, rest)) => r == Ok::<Option<S::ClientMessage>, HandlerError>(Some(x)) && final(self).pending() == rest,
            },
    {
        match self.in_flight.pop_front() {
            Some(res) => Ok(Some(res)),
            None => Ok(None),
        }
    }
}

/// Client side of an RPC connection: requests queued by proxies are sent in
/// order, and each response is routed to the proxy whose request is the
/// oldest still in flight.
#[verifier::reject_recursive_types(Req)]
pub struct ClientHandler<Req> {
    messages: crossbeam::channel::Receiver<(Req, usize)>,
    in_flight: VecDeque<usize>,
}

impl<Req> ClientHandler<Req> {
    /// Keys of the proxies whose requests await a response, oldest first.
    pub closed spec fn in_flight(&self) -> Seq<usize> {
        self.in_flight@
    }

    pub fn new(rx: crossbeam::channel::Receiver<(Req, usize)>) -> (h: ClientHandler<Req>)
        ensures
            h.in_flight() == Seq::<usize>::empty(),
    {
        ClientHandler { messages: rx, in_flight: VecDeque::with_capacity(32) }
    }

    /// Takes the next request that a proxy queued, if there is one.
    pub fn produce(&mut self) -> (r: Result<Option<Req>, HandlerError>)
        ensures
            r matches Ok(Some(_)) ==> exists|key: usize| #[trigger]
                queue_push(old(self).in_flight(), key) == final(self).in_flight(),
            !(r matches Ok(Some(_))) ==> final(self).in_flight() == old(self).in_flight(),
            r matches Err(e) ==> e == HandlerError::ConnectionAborted,
    {
        let received = channel_try_recv(&self.messages);
        self.accept_request(received)
    }

    /// Acts on what the request queue gave: a request is recorded as in
    /// flight for the proxy that sent it and handed on for sending.
    pub fn accept_request(&mut self, received: Result<(Req, usize), QueueEmpty>) -> (r: Result<
        Option<Req>,
        HandlerError,
    >)
        ensures
            match received {
                Ok((req, key)) => r == Ok::<Option<Req>, HandlerError>(Some(req))
                    && final(self).in_flight() == queue_push(old(self).in_flight(), key),
                Err(QueueEmpty::Empty) => r == Ok::<Option<Req>, HandlerError>(None)
                    && final(self).in_flight() == old(self).in_flight(),
                Err(QueueEmpty::Disconnected) => r == Err::<Option<Req>, HandlerError>(
                    HandlerError::ConnectionAborted,
                ) && final(self).in_flight() == old(self).in_flight(),
            },
    {
        match received {
            Ok((request, key)) => {
                self.in_flight.push_back(key);
                Ok(Some(request))
            },
            Err(QueueEmpty::Empty) => Ok(None),
            Err(QueueEmpty::Disconnected) => Err(HandlerError::ConnectionAborted),
        }
    }

    /// The proxy that an arriving response belongs to: the one whose request
    /// is the oldest in flight.
    pub fn consume(&mut self) -> (r: Result<usize, HandlerError>)
        ensures
            match queue_pop(old(self).in_flight()) {
                None => r == Err::<usize, HandlerError>(HandlerError::RequestResponseMismatch)
                    && final(self).in_flight() == old(self).in_flight(),
                Some((key, rest)) => r == Ok::<usize, HandlerError>(key) && final(self).in_flight()
                    == rest,
            },
    {
        match self.in_flight.pop_front() {
            Some(key) => Ok(key),
            None => Err(HandlerError::RequestResponseMismatch),
        }
    }
}

} // verus!
