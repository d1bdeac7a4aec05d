use hot_reload_proxy::admission::Admission;
use hot_reload_proxy::connections::SocketPair;
use hot_reload_proxy::control::ControlAction;
use hot_reload_proxy::control::ControlEvent;
use hot_reload_proxy::control::Predecessor;
use hot_reload_proxy::handler::HandlerEvent;
use hot_reload_proxy::ipc::collect_socket_pairs;
use hot_reload_proxy::ipc::IPCSocketPair;
use hot_reload_proxy::ipc::Message;
use hot_reload_proxy::ipc::Socket;
use hot_reload_proxy::listener::Listener;
use hot_reload_proxy::listener::ListenerAction;
use hot_reload_proxy::listener::ListenerEvent;
use hot_reload_proxy::listener::Spawn;
use hot_reload_proxy::server::Server;
use hot_reload_proxy::server::ServerAction;
use hot_reload_proxy::server::ServerEvent;

type Stream = u32;
type Listening = u16;
type Sender = u8;
type Report = ServerEvent<Sender, Stream, Listening>;
type Step = ServerAction<Sender, Stream, Listening>;
type Notice = ControlEvent<Sender, Stream, Listening>;
type Order = ControlAction<Sender, Stream, Listening>;

/// A generation as a driver holds it: the pool, the accept loop, the
/// handlers that run and the sink.
struct Running {
    pool: Admission,
    listener: Listener<Stream, Listening>,
    handlers: Vec<Spawn<Stream>>,
    sink: Vec<Socket<Stream, Listening>>,
    next_socket: Stream,
}

impl Running {
    fn fresh(capacity: usize, listening: Option<Listening>) -> Running {
        Running {
            pool: Admission::new(capacity),
            listener: Listener::new(listening, "10.0.0.1:9000".to_string()),
            handlers: Vec::new(),
            sink: Vec::new(),
            next_socket: 100,
        }
    }

    fn socket(&mut self) -> Stream {
        self.next_socket += 1;
        self.next_socket
    }

    /// Reports the event and performs the bookkeeping of the action.
    /// Returns false where the listener has to wait for a permit.
    fn report(&mut self, event: ListenerEvent<Stream>) -> Option<ListenerAction<Stream>> {
        if event == ListenerEvent::PermitAcquired && !self.pool.try_acquire() {
            return None;
        }
        let action = self.listener.run(event).expect("the event belongs here");
        match action {
            ListenerAction::Spawn(spawn) => {
                self.handlers.push(spawn);
                Some(ListenerAction::AcquirePermit)
            },
            ListenerAction::Release => {
                assert_eq!(self.pool.release(1), 1);
                Some(ListenerAction::AcquirePermit)
            },
            ListenerAction::Stop { permits } => {
                assert_eq!(self.pool.release(permits), permits);
                Some(ListenerAction::Stop { permits })
            },
            ListenerAction::Fail { permits } => {
                assert_eq!(self.pool.release(permits), permits);
                Some(ListenerAction::Fail { permits })
            },
            other => Some(other),
        }
    }

    /// Lets one client in, if a permit is to be had.
    fn let_in(&mut self, upstream_answers: bool) -> bool {
        if self.report(ListenerEvent::PermitAcquired).is_none() {
            return false;
        }
        let client = self.socket();
        assert_eq!(self.report(ListenerEvent::Accepted(client)), Some(ListenerAction::Connect));
        if upstream_answers {
            let upstream = self.socket();
            self.report(ListenerEvent::Connected(upstream));
        } else {
            self.report(ListenerEvent::ConnectFailed);
        }
        true
    }

    fn end_handler(&mut self, at: usize, event: HandlerEvent) {
        let spawn = self.handlers.remove(at);
        let exit = spawn.handler.run(spawn.socket_pair, event);
        assert_eq!(self.pool.release(exit.permits), exit.permits);
        if let Some(socket_pair) = exit.handover {
            self.sink.push(Socket::SocketPair(socket_pair));
        }
    }

    fn check_account(&self, listener_permits: usize) {
        assert_eq!(self.pool.outstanding(), self.handlers.len() + listener_permits);
        assert!(self.pool.outstanding() <= self.pool.capacity());
    }
}

#[test]
fn permits_are_conserved_over_a_long_run() {
    let mut running = Running::fresh(4, Some(80));
    assert_eq!(running.report(ListenerEvent::Start), Some(ListenerAction::AcquirePermit));
    let mut x: u32 = 2024;
    for _ in 0..3000 {
        x = x.wrapping_mul(1664525).wrapping_add(1013904223);
        match (x >> 24) % 5 {
            0 | 1 => {
                let entered = running.let_in(true);
                if !entered {
                    assert_eq!(running.handlers.len(), 4);
                }
            },
            2 => {
                running.let_in(false);
            },
            3 => {
                if !running.handlers.is_empty() {
                    let at = (x as usize >> 8) % running.handlers.len();
                    running.end_handler(at, HandlerEvent::Copied);
                }
            },
            _ => {
                if !running.handlers.is_empty() {
                    let at = (x as usize >> 8) % running.handlers.len();
                    running.end_handler(at, HandlerEvent::CopyFailed);
                }
            },
        }
        running.check_account(0);
        // No shutdown: nothing was handed over.
        assert!(running.sink.is_empty());
    }
    while !running.handlers.is_empty() {
        running.end_handler(0, HandlerEvent::Copied);
    }
    assert_eq!(running.pool.outstanding(), 0);
    assert_eq!(running.pool.available(), 4);
}

#[test]
fn full_pool_holds_the_listener_back() {
    let mut running = Running::fresh(2, Some(80));
    running.report(ListenerEvent::Start);
    assert!(running.let_in(true));
    assert!(running.let_in(true));
    assert!(!running.let_in(true));
    running.check_account(0);
    running.end_handler(0, HandlerEvent::Copied);
    assert!(running.let_in(true));
    assert!(!running.let_in(true));
    assert_eq!(running.pool.outstanding(), 2);
}

#[test]
fn fatal_accept_gives_its_permit_back() {
    let mut running = Running::fresh(3, Some(80));
    running.report(ListenerEvent::Start);
    assert!(running.let_in(true));
    assert_eq!(running.report(ListenerEvent::PermitAcquired), Some(ListenerAction::Accept));
    running.check_account(1);
    for delay in [1u64, 2, 4, 8, 16, 32, 64] {
        assert_eq!(
            running.report(ListenerEvent::AcceptFailed),
            Some(ListenerAction::Sleep(delay))
        );
        running.check_account(1);
        assert_eq!(running.report(ListenerEvent::Slept), Some(ListenerAction::Accept));
    }
    assert_eq!(
        running.report(ListenerEvent::AcceptFailed),
        Some(ListenerAction::Fail { permits: 1 })
    );
    running.check_account(0);
    // The handler that runs is not touched and ends in its own time.
    assert_eq!(running.handlers.len(), 1);
    let signal = &running.listener.notify_shutdown;
    assert_eq!(running.handlers[0].handler.poll(signal), None);
    running.end_handler(0, HandlerEvent::Copied);
    assert_eq!(running.pool.available(), 3);
}

#[test]
fn shutdown_hands_over_every_active_pair() {
    for n in [0usize, 1, 2, 5, 40] {
        let mut running = Running::fresh(50, Some(80));
        running.report(ListenerEvent::Start);
        let mut active = Vec::new();
        for _ in 0..n {
            assert!(running.let_in(true));
            let pair = &running.handlers.last().unwrap().socket_pair;
            active.push(IPCSocketPair { client: pair.client, upstream: pair.upstream });
        }
        // The listener is waiting for its next permit when the shutdown comes.
        assert_eq!(
            running.report(ListenerEvent::Shutdown),
            Some(ListenerAction::Stop { permits: 0 })
        );
        // The handlers end in an order of their own: last first.
        while !running.handlers.is_empty() {
            let at = running.handlers.len() - 1;
            let known = running.handlers[at].handler.poll(&running.listener.notify_shutdown);
            assert_eq!(known, Some(HandlerEvent::Shutdown));
            running.end_handler(at, known.unwrap());
        }
        if let Some(listening) = running.listener.surrender() {
            running.sink.push(listening);
        }
        assert_eq!(running.pool.outstanding(), 0);

        let resources = collect_socket_pairs(running.sink);
        assert_eq!(resources.socket_pairs.len(), n);
        active.reverse();
        assert_eq!(resources.socket_pairs, active);
        assert_eq!(resources.listeners, vec![80]);
    }
}

#[test]
fn session_that_ended_before_the_shutdown_is_not_handed_over() {
    let mut running = Running::fresh(5, Some(80));
    running.report(ListenerEvent::Start);
    assert!(running.let_in(true));
    assert!(running.let_in(true));
    running.end_handler(0, HandlerEvent::Copied);
    let survivor = IPCSocketPair {
        client: running.handlers[0].socket_pair.client,
        upstream: running.handlers[0].socket_pair.upstream,
    };
    running.report(ListenerEvent::Shutdown);
    running.end_handler(0, HandlerEvent::Shutdown);
    let resources = collect_socket_pairs(running.sink);
    assert_eq!(resources.socket_pairs, vec![survivor]);
}

#[test]
fn takeover_round_trip() {
    // The older generation serves three connections.
    let mut older = Running::fresh(10, Some(80));
    older.report(ListenerEvent::Start);
    for _ in 0..3 {
        assert!(older.let_in(true));
    }
    let served: Vec<SocketPair<Stream>> = older
        .handlers
        .iter()
        .map(|spawn| SocketPair {
            client: spawn.socket_pair.client,
            upstream: spawn.socket_pair.upstream,
        })
        .collect();
    let sender: Sender = 9;
    let (mut control, opening) = Predecessor::new::<Sender, Stream, Listening>(sender);

    // The newer generation starts with the takeover option.
    let mut newer = Server::new("10.0.0.1:9000".to_string());
    assert_eq!(newer.run(Report::Start(true)), Ok(Step::Connect));
    assert_eq!(newer.run(Report::Connected), Ok(Step::Receive));
    assert_eq!(control.step(Notice::PeerConnected), Ok(Order::Receive));

    // Opening message, and the request that answers it.
    let (kept_sender, request) = match newer.run(Report::Received(opening)) {
        Ok(Step::Takeover(sender, request)) => (sender, request),
        other => panic!("no request: {:?}", other),
    };
    assert_eq!(kept_sender, 9);
    assert_eq!(control.step(Notice::Received(request)), Ok(Order::Collect));

    // The older generation shuts down and every handler hands over.
    older.report(ListenerEvent::Shutdown);
    while !older.handlers.is_empty() {
        older.end_handler(0, HandlerEvent::Shutdown);
    }
    if let Some(listening) = older.listener.surrender() {
        older.sink.push(listening);
    }
    assert_eq!(older.pool.outstanding(), 0);
    let bundle = collect_socket_pairs(older.sink);
    let answer = match control.step(Notice::Collected(bundle)) {
        Ok(Order::Send(message)) => message,
        other => panic!("no bundle: {:?}", other),
    };

    // The newer generation resumes the same connections on the same
    // listening socket.
    let resumption = match newer.run(Report::Received(answer)) {
        Ok(Step::Resume(resumption)) => resumption,
        other => panic!("no resumption: {:?}", other),
    };
    assert!(resumption.surplus.is_empty());
    let mut younger = Running {
        pool: Admission::default(),
        listener: resumption.listener,
        handlers: Vec::new(),
        sink: Vec::new(),
        next_socket: 500,
    };
    for mut spawn in resumption.spawns {
        assert!(younger.pool.try_acquire());
        assert_eq!(spawn.handler.poll(&younger.listener.notify_shutdown), None);
        younger.handlers.push(spawn);
    }
    let resumed: Vec<SocketPair<Stream>> = younger
        .handlers
        .iter()
        .map(|spawn| SocketPair {
            client: spawn.socket_pair.client,
            upstream: spawn.socket_pair.upstream,
        })
        .collect();
    assert_eq!(resumed, served);
    assert_eq!(younger.listener.listener, Some(80));
    younger.check_account(0);

    // Only then the older generation is let go.
    let release = match newer.run(Report::Resumed) {
        Ok(Step::Release(message)) => message,
        other => panic!("no release: {:?}", other),
    };
    assert_eq!(release, Message::Shutdown());

    // The newer generation goes on accepting.
    assert_eq!(younger.report(ListenerEvent::Start), Some(ListenerAction::AcquirePermit));
    assert!(younger.let_in(true));
    assert_eq!(younger.handlers.len(), 4);
    younger.check_account(0);
}

#[test]
fn peer_that_declines_leaves_the_older_generation_untouched_until_it_exits() {
    let mut older = Running::fresh(10, Some(80));
    older.report(ListenerEvent::Start);
    assert!(older.let_in(true));
    let (mut control, _) = Predecessor::new::<Sender, Stream, Listening>(1);
    control.step(Notice::PeerConnected).unwrap();
    assert_eq!(
        control.step(Notice::Received(Message::Shutdown())),
        Ok(Order::Exit)
    );
    assert!(older.sink.is_empty());
    assert!(!older.listener.notify_shutdown.is_triggered());
}

#[test]
fn interrupt_stops_every_handler_and_builds_no_bundle() {
    let mut older = Running::fresh(10, Some(80));
    older.report(ListenerEvent::Start);
    for _ in 0..3 {
        assert!(older.let_in(true));
    }
    let (mut control, _) = Predecessor::new::<Sender, Stream, Listening>(1);
    assert_eq!(control.step(Notice::Interrupt), Ok(Order::Stop));
    // The driver triggers the shutdown of the generation.
    assert_eq!(
        older.report(ListenerEvent::Shutdown),
        Some(ListenerAction::Stop { permits: 0 })
    );
    for spawn in older.handlers.iter_mut() {
        assert_eq!(
            spawn.handler.poll(&older.listener.notify_shutdown),
            Some(HandlerEvent::Shutdown)
        );
    }
    while !older.handlers.is_empty() {
        older.end_handler(0, HandlerEvent::Shutdown);
    }
    assert_eq!(older.pool.outstanding(), 0);
    // The control side never asks for a bundle.
    let nothing = collect_socket_pairs(Vec::<Socket<Stream, Listening>>::new());
    assert_eq!(
        control.step(Notice::Collected(nothing)),
        Err(Notice::Collected(collect_socket_pairs(Vec::new())))
    );
    assert_eq!(control.step(Notice::PeerConnected), Err(Notice::PeerConnected));
}
