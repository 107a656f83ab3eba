//! The relay client: one TCP connection to the server, kept alive by
//! heartbeats and made anew when it fails.
//!
//! The caller owns the socket and the timers. It tells [`RelayClient`] what
//! happened and does what the returned [`RelayAction`] says.

use vstd::prelude::*;
use vstd::string::*;
use crate::client::Args;
use crate::codec::frame::clone_details;
use crate::codec::frame::details;
use crate::codec::frame::Frame;
use crate::codec::frame::FrameView;
use crate::codec::frame::HandshakeFrame;
use crate::codec::frame::HandshakeReplyFrame;
use crate::codec::frame::KeepAliveFrame;
use crate::codec::frame::KeepAliveView;
use crate::codec::frame::PeerDetail;
use crate::codec::frame::PeerDetailView;
use crate::codec::frame::PeerInfo;

verus! {

/// How many frames the queue towards the server holds.
pub const OUTBOUND_BUFFER_SIZE: usize = 1000;

/// How many handshake replies may wait for the orchestrator.
pub const CONFIG_CHANNEL_SIZE: usize = 10;

/// Milliseconds to wait before a failed connection is made anew.
pub const RECONNECT_BACKOFF_MS: u64 = 5000;

/// Milliseconds between two queries of the public IPv6 address.
pub const IPV6_REFRESH_INTERVAL_MS: u64 = 300000;

/// What the relay client is configured with.
#[derive(Debug, Clone)]
pub struct RelayClientConfig {
    /// Where the server listens.
    pub server_addr: String,
    /// Milliseconds between two keepalives.
    pub keepalive_interval_ms: u64,
    /// How many frames the queue towards the server holds.
    pub outbound_buffer_size: usize,
    /// After how many silent keepalive intervals, less one, the connection
    /// counts as dead.
    pub keep_alive_thresh: u8,
    /// The identity of this client.
    pub identity: String,
    /// The public IPv6 address of this client; empty when it has none.
    pub ipv6: String,
    /// The UDP port of the IPv6 path.
    pub port: u16,
    /// The public IPv4 address that STUN found; empty when unknown.
    pub stun_ip: String,
    /// The UDP port that STUN found.
    pub stun_port: u16,
}

/// Milliseconds in a number of seconds, or the largest number when that
/// does not fit.
pub open spec fn millis_of_secs(secs: u64) -> u64 {
    if secs * 1000 <= u64::MAX {
        (secs * 1000) as u64
    } else {
        u64::MAX
    }
}

impl RelayClientConfig {
    /// The relay client's configuration for the program's arguments and
    /// the public addresses that were found.
    pub fn from_args(
        args: &Args,
        ipv6: String,
        port: u16,
        stun_ip: String,
        stun_port: u16,
    ) -> (r: Self)
        ensures
            r.server_addr@ == args.server@,
            r.keepalive_interval_ms == millis_of_secs(args.keepalive_interval),
            r.outbound_buffer_size == OUTBOUND_BUFFER_SIZE,
            r.keep_alive_thresh == args.keepalive_threshold,
            r.identity@ == args.identity@,
            r.ipv6@ == ipv6@,
            r.port == port,
            r.stun_ip@ == stun_ip@,
            r.stun_port == stun_port,
    {
        let keepalive_interval_ms = match args.keepalive_interval.checked_mul(1000) {
            Some(ms) => ms,
            None => u64::MAX,
        };
        RelayClientConfig {
            server_addr: args.server.clone(),
            keepalive_interval_ms,
            outbound_buffer_size: OUTBOUND_BUFFER_SIZE,
            keep_alive_thresh: args.keepalive_threshold,
            identity: args.identity.clone(),
            ipv6,
            port,
            stun_ip,
            stun_port,
        }
    }
}

/// Where the relay client stands.
#[derive(Clone, Copy, Debug, PartialEq, Eq, Structural)]
pub enum RelayState {
    /// No connection, and none being made.
    Disconnected,
    /// A connection is being made.
    Connecting,
    /// The handshake is sent, and its reply is awaited.
    Handshaking,
    /// The handshake is done; frames flow.
    Running,
}

/// What the caller is to do next.
#[derive(Debug, Clone)]
pub enum RelayAction {
    /// Open a TCP connection to the server.
    Connect,
    /// Write this frame to the connection.
    Send(Frame),
    /// The handshake is done: hand its reply to the orchestrator.
    Ready(HandshakeReplyFrame),
    /// Hand this frame to the orchestrator.
    Deliver(Frame),
    /// Close the connection, wait this many milliseconds, then start again.
    Reconnect { after_ms: u64 },
    /// There is no running connection for this frame.
    NotConnected(Frame),
    /// Nothing to do.
    Nothing,
}

/// Whether a connection that was last heard at `last_active` is dead at
/// `now`: more than the threshold less one intervals have passed in
/// silence.
pub open spec fn connection_dead(now: u64, last_active: u64, thresh: u8, interval_ms: u64) -> bool {
    now - last_active > (thresh - 1) * interval_ms
}

/// Whether a connection that was last heard at `last_active` is dead at
/// `now`.
pub fn is_dead(now: u64, last_active: u64, thresh: u8, interval_ms: u64) -> (r: bool)
    ensures
        r == connection_dead(now, last_active, thresh, interval_ms),
{
    if thresh == 0 {
        assert((thresh - 1) * interval_ms == -(interval_ms as int)) by (nonlinear_arith)
            requires
                thresh == 0,
        ;
        if now >= last_active {
            now > last_active || interval_ms > 0
        } else {
            last_active - now < interval_ms
        }
    } else if now <= last_active {
        assert((thresh - 1) * interval_ms >= 0) by (nonlinear_arith)
            requires
                thresh >= 1,
        ;
        false
    } else {
        let elapsed: u128 = (now - last_active) as u128;
        let intervals: u128 = (thresh - 1) as u128;
        assert(intervals * (interval_ms as u128) <= 255 * 0xffff_ffff_ffff_ffff)
            by (nonlinear_arith)
            requires
                intervals <= 255,
                interval_ms <= 0xffff_ffff_ffff_ffff,
        ;
        let limit: u128 = intervals * (interval_ms as u128);
        elapsed > limit
    }
}

/// The relay client's state machine.
pub struct RelayClient {
    cfg: RelayClientConfig,
    state: RelayState,
    last_active: u64,
    current_ipv6: String,
}

impl RelayClient {
    /// Where the client stands.
    pub closed spec fn state(&self) -> RelayState {
        self.state
    }

    /// When a frame last came from the server.
    pub closed spec fn last_active(&self) -> u64 {
        self.last_active
    }

    /// The public IPv6 address that the next keepalive states.
    pub closed spec fn current_ipv6(&self) -> Seq<char> {
        self.current_ipv6@
    }

    /// The identity of this client.
    pub closed spec fn identity(&self) -> Seq<char> {
        self.cfg.identity@
    }

    /// The keepalive threshold.
    pub closed spec fn thresh(&self) -> u8 {
        self.cfg.keep_alive_thresh
    }

    /// Milliseconds between two keepalives.
    pub closed spec fn interval_ms(&self) -> u64 {
        self.cfg.keepalive_interval_ms
    }

    /// The keepalive that this client sends: its identity and public
    /// addresses, and no peers.
    pub closed spec fn keepalive(&self) -> KeepAliveView {
        KeepAliveView {
            identity: self.cfg.identity@,
            ipv6: self.current_ipv6@,
            port: self.cfg.port,
            stun_ip: self.cfg.stun_ip@,
            stun_port: self.cfg.stun_port,
            peer_details: Seq::empty(),
        }
    }

    /// Whether two clients differ in nothing but the state and the clock.
    pub open spec fn same_setup(&self, other: &RelayClient) -> bool {
        &&& self.identity() == other.identity()
        &&& self.thresh() == other.thresh()
        &&& self.interval_ms() == other.interval_ms()
        &&& self.current_ipv6() == other.current_ipv6()
        &&& self.keepalive() == other.keepalive()
    }

    /// A client that is not connected.
    pub fn new(cfg: RelayClientConfig) -> (r: Self)
        ensures
            r.state() == RelayState::Disconnected,
            r.identity() == cfg.identity@,
            r.current_ipv6() == cfg.ipv6@,
            r.thresh() == cfg.keep_alive_thresh,
            r.interval_ms() == cfg.keepalive_interval_ms,
            r.last_active() == 0,
            r.keepalive() == (KeepAliveView {
                identity: cfg.identity@,
                ipv6: cfg.ipv6@,
                port: cfg.port,
                stun_ip: cfg.stun_ip@,
                stun_port: cfg.stun_port,
                peer_details: Seq::empty(),
            }),
    {
        let current_ipv6 = cfg.ipv6.clone();
        RelayClient { cfg, state: RelayState::Disconnected, last_active: 0, current_ipv6 }
    }

    /// Where the client stands.
    pub fn current_state(&self) -> (r: RelayState)
        ensures
            r == self.state(),
    {
        self.state
    }

    /// Starts a connection attempt, at the beginning and after each
    /// backoff. A client that is not disconnected does nothing.
    pub fn on_start(&mut self) -> (r: RelayAction)
        ensures
            final(self).same_setup(old(self)),
            final(self).last_active() == old(self).last_active(),
            old(self).state() == RelayState::Disconnected ==> r is Connect && final(self).state()
                == RelayState::Connecting,
            old(self).state() != RelayState::Disconnected ==> r is Nothing && final(self).state()
                == old(self).state(),
    {
        match self.state {
            RelayState::Disconnected => {
                self.state = RelayState::Connecting;
                RelayAction::Connect
            },
            _ => RelayAction::Nothing,
        }
    }

    /// The connection is open: the handshake goes out.
    pub fn on_connected(&mut self) -> (r: RelayAction)
        ensures
            final(self).same_setup(old(self)),
            final(self).last_active() == old(self).last_active(),
            old(self).state() == RelayState::Connecting ==> {
                &&& final(self).state() == RelayState::Handshaking
                &&& r matches RelayAction::Send(frame)
                &&& frame@ == FrameView::Handshake { identity: old(self).identity() }
            },
            old(self).state() != RelayState::Connecting ==> r is Nothing && final(self).state()
                == old(self).state(),
    {
        match self.state {
            RelayState::Connecting => {
                self.state = RelayState::Handshaking;
                RelayAction::Send(
                    Frame::Handshake(HandshakeFrame { identity: self.cfg.identity.clone() }),
                )
            },
            _ => RelayAction::Nothing,
        }
    }

    /// The connection could not be opened, or a read or a write on it
    /// failed: the client is disconnected and starts again after the
    /// backoff. A client that is disconnected already does nothing.
    pub fn on_failure(&mut self) -> (r: RelayAction)
        ensures
            final(self).same_setup(old(self)),
            final(self).last_active() == old(self).last_active(),
            final(self).state() == RelayState::Disconnected,
            old(self).state() != RelayState::Disconnected ==> (r matches RelayAction::Reconnect {
                after_ms,
            } && after_ms == RECONNECT_BACKOFF_MS),
            old(self).state() == RelayState::Disconnected ==> r is Nothing,
    {
        match self.state {
            RelayState::Disconnected => RelayAction::Nothing,
            _ => {
                self.state = RelayState::Disconnected;
                RelayAction::Reconnect { after_ms: RECONNECT_BACKOFF_MS }
            },
        }
    }

    /// A frame came from the server at `now`.
    ///
    /// While the handshake is awaited, its reply makes the client run, and
    /// any other frame breaks the protocol: the client disconnects and
    /// starts again after the backoff. While the client runs, every frame
    /// sets the clock; data, keepalives and peer updates go to the
    /// orchestrator, and other frames are ignored.
    pub fn on_frame(&mut self, frame: Frame, now: u64) -> (r: RelayAction)
        ensures
            final(self).same_setup(old(self)),
            match old(self).state() {
                RelayState::Handshaking => match frame@ {
                    FrameView::HandshakeReply(reply) => {
                        &&& final(self).state() == RelayState::Running
                        &&& final(self).last_active() == now
                        &&& r matches RelayAction::Ready(out)
                        &&& out@ == reply
                    },
                    _ => {
                        &&& final(self).state() == RelayState::Disconnected
                        &&& final(self).last_active() == old(self).last_active()
                        &&& r matches RelayAction::Reconnect { after_ms }
                        &&& after_ms == RECONNECT_BACKOFF_MS
                    },
                },
                RelayState::Running => {
                    &&& final(self).state() == RelayState::Running
                    &&& final(self).last_active() == now
                    &&& match frame@ {
                        FrameView::Data { .. } | FrameView::KeepAlive(_) | FrameView::PeerUpdate(
                            _,
                        ) => r matches RelayAction::Deliver(out) && out@ == frame@,
                        _ => r is Nothing,
                    }
                },
                _ => {
                    &&& final(self).state() == old(self).state()
                    &&& final(self).last_active() == old(self).last_active()
                    &&& r is Nothing
                },
            },
    {
        match self.state {
            RelayState::Handshaking => match frame {
                Frame::HandshakeReply(reply) => {
                    self.state = RelayState::Running;
                    self.last_active = now;
                    RelayAction::Ready(reply)
                },
                _ => {
                    self.state = RelayState::Disconnected;
                    RelayAction::Reconnect { after_ms: RECONNECT_BACKOFF_MS }
                },
            },
            RelayState::Running => {
                self.last_active = now;
                match frame {
                    Frame::Data(data) => RelayAction::Deliver(Frame::Data(data)),
                    Frame::KeepAlive(keepalive) => RelayAction::Deliver(Frame::KeepAlive(keepalive)),
                    Frame::PeerUpdate(update) => RelayAction::Deliver(Frame::PeerUpdate(update)),
                    _ => RelayAction::Nothing,
                }
            },
            _ => RelayAction::Nothing,
        }
    }

    /// The keepalive timer fired at `now`. A running client whose server
    /// has been silent for too long disconnects and starts again after the
    /// backoff; else it sends a keepalive with its identity and public
    /// addresses and with no peers. A client that does not run does
    /// nothing.
    pub fn on_keepalive_tick(&mut self, now: u64) -> (r: RelayAction)
        ensures
            final(self).same_setup(old(self)),
            final(self).last_active() == old(self).last_active(),
            old(self).state() != RelayState::Running ==> r is Nothing && final(self).state()
                == old(self).state(),
            old(self).state() == RelayState::Running ==> if connection_dead(
                now,
                old(self).last_active(),
                old(self).thresh(),
                old(self).interval_ms(),
            ) {
                &&& final(self).state() == RelayState::Disconnected
                &&& r matches RelayAction::Reconnect { after_ms }
                &&& after_ms == RECONNECT_BACKOFF_MS
            } else {
                &&& final(self).state() == RelayState::Running
                &&& r matches RelayAction::Send(frame)
                &&& frame@ == FrameView::KeepAlive(old(self).keepalive())
            },
    {
        match self.state {
            RelayState::Running => {
                if is_dead(
                    now,
                    self.last_active,
                    self.cfg.keep_alive_thresh,
                    self.cfg.keepalive_interval_ms,
                ) {
                    self.state = RelayState::Disconnected;
                    RelayAction::Reconnect { after_ms: RECONNECT_BACKOFF_MS }
                } else {
                    let peer_details: Vec<PeerDetail> = Vec::new();
                    assert(details(peer_details@) =~= Seq::<PeerDetailView>::empty());
                    RelayAction::Send(
                        Frame::KeepAlive(
                            KeepAliveFrame {
                                identity: self.cfg.identity.clone(),
                                ipv6: self.current_ipv6.clone(),
                                port: self.cfg.port,
                                stun_ip: self.cfg.stun_ip.clone(),
                                stun_port: self.cfg.stun_port,
                                peer_details,
                            },
                        ),
                    )
                }
            },
            _ => RelayAction::Nothing,
        }
    }

    /// The public IPv6 address was queried again. An address that was found
    /// is stated by the keepalives from now on; the connection stays.
    pub fn on_ipv6_refresh(&mut self, found: Option<String>)
        ensures
            final(self).state() == old(self).state(),
            final(self).last_active() == old(self).last_active(),
            final(self).identity() == old(self).identity(),
            final(self).thresh() == old(self).thresh(),
            final(self).interval_ms() == old(self).interval_ms(),
            final(self).current_ipv6() == (match found {
                Some(ipv6) => ipv6@,
                None => old(self).current_ipv6(),
            }),
            final(self).keepalive() == (KeepAliveView {
                ipv6: final(self).current_ipv6(),
                ..old(self).keepalive()
            }),
    {
        if let Some(ipv6) = found {
            self.current_ipv6 = ipv6;
        }
    }

    /// The orchestrator has a frame for the server. A running client sends
    /// it; else the frame comes back.
    pub fn on_outbound(&self, frame: Frame) -> (r: RelayAction)
        ensures
            self.state() == RelayState::Running ==> (r matches RelayAction::Send(out) && out@
                == frame@),
            self.state() != RelayState::Running ==> (r matches RelayAction::NotConnected(out)
                && out@ == frame@),
    {
        match self.state {
            RelayState::Running => RelayAction::Send(frame),
            _ => RelayAction::NotConnected(frame),
        }
    }
}

/// Counters of the frames that went through the relay.
#[derive(Clone, Copy, Debug, PartialEq, Eq, Structural)]
pub struct RelayStatus {
    pub rx_error: u64,
    pub rx_frame: u64,
    pub tx_frame: u64,
    pub tx_error: u64,
}

impl Default for RelayStatus {
    fn default() -> (r: Self)
        ensures
            r == (RelayStatus { rx_error: 0, rx_frame: 0, tx_frame: 0, tx_error: 0 }),
    {
        RelayStatus { rx_error: 0, tx_error: 0, rx_frame: 0, tx_frame: 0 }
    }
}

/// `n + 1`, and 0 after the largest number.
pub open spec fn bumped(n: u64) -> u64 {
    if n == u64::MAX {
        0
    } else {
        (n + 1) as u64
    }
}

/// Whether `i` is the first of `others` with the identity `identity`.
pub open spec fn is_first_named(others: Seq<PeerDetailView>, identity: Seq<char>, i: int) -> bool {
    &&& 0 <= i < others.len()
    &&& others[i].identity == identity
    &&& forall|k: int| 0 <= k < i ==> (#[trigger] others[k]).identity != identity
}

/// The peers after one peer's last activity was noted: the first peer with
/// that identity has its time set; without such a peer nothing changes.
pub open spec fn noted(others: Seq<PeerDetailView>, identity: Seq<char>, last_active: u64) -> Seq<
    PeerDetailView,
> {
    if exists|i: int| is_first_named(others, identity, i) {
        let i = choose|i: int| is_first_named(others, identity, i);
        others.update(i, PeerDetailView { last_active, ..others[i] })
    } else {
        others
    }
}

/// The peers after the last activity of each of `infos` was noted, in order.
pub open spec fn all_noted(others: Seq<PeerDetailView>, infos: Seq<PeerInfo>) -> Seq<
    PeerDetailView,
>
    decreases infos.len(),
{
    if infos.len() == 0 {
        others
    } else {
        noted(
            all_noted(others, infos.drop_last()),
            infos.last().identity@,
            infos.last().last_active,
        )
    }
}

/// The orchestrator's view of the relay: what went through it, and the
/// peers that the server last reported.
pub struct RelayHandler {
    metrics: RelayStatus,
    others: Vec<PeerDetail>,
}

impl RelayHandler {
    /// The counters.
    pub closed spec fn metrics(&self) -> RelayStatus {
        self.metrics
    }

    /// The peers that the server last reported.
    pub closed spec fn others(&self) -> Seq<PeerDetailView> {
        details(self.others@)
    }

    /// A handler that has seen nothing yet.
    pub fn new() -> (r: Self)
        ensures
            r.metrics() == (RelayStatus { rx_error: 0, rx_frame: 0, tx_frame: 0, tx_error: 0 }),
            r.others() == Seq::<PeerDetailView>::empty(),
    {
        let r = RelayHandler {
            metrics: RelayStatus { rx_error: 0, tx_error: 0, rx_frame: 0, tx_frame: 0 },
            others: Vec::new(),
        };
        assert(r.others() =~= Seq::<PeerDetailView>::empty());
        r
    }

    /// Takes the peers of a handshake reply or a keepalive reply.
    pub fn set_others(&mut self, others: Vec<PeerDetail>)
        ensures
            final(self).metrics() == old(self).metrics(),
            final(self).others() == details(others@),
    {
        self.others = others;
    }

    fn note(&mut self, info: &PeerInfo)
        ensures
            final(self).metrics() == old(self).metrics(),
            final(self).others() == noted(old(self).others(), info.identity@, info.last_active),
    {
        let mut i: usize = 0;
        while i < self.others.len()
            invariant
                i <= self.others@.len(),
                self.others() == old(self).others(),
                self.metrics() == old(self).metrics(),
                forall|k: int| 0 <= k < i ==> (#[trigger] self.others()[k]).identity
                    != info.identity@,
            decreases self.others.len() - i,
        {
            if self.others[i].identity == info.identity {
                proof {
                    let before = old(self).others();
                    assert(is_first_named(before, info.identity@, i as int));
                    let j = choose|j: int| is_first_named(before, info.identity@, j);
                    if j < i {
                        assert(before[j].identity != info.identity@);
                    }
                    if i < j {
                        assert(before[i as int].identity != info.identity@);
                    }
                }
                self.others[i].last_active = info.last_active;
                assert(self.others() =~= noted(
                    old(self).others(),
                    info.identity@,
                    info.last_active,
                ));
                return;
            }
            i += 1;
        }
        assert forall|j: int| !is_first_named(self.others(), info.identity@, j) by {
            if 0 <= j < self.others().len() {
                assert(self.others()[j].identity != info.identity@);
            }
        }
    }

    /// Notes when each of the named peers was last active, as a keepalive
    /// reply states it. Names of unknown peers are passed over.
    pub fn update_peer_status(&mut self, peer_infos: Vec<PeerInfo>)
        ensures
            final(self).metrics() == old(self).metrics(),
            final(self).others() == all_noted(old(self).others(), peer_infos@),
    {
        let mut k: usize = 0;
        assert(peer_infos@.take(0) =~= Seq::<PeerInfo>::empty());
        while k < peer_infos.len()
            invariant
                k <= peer_infos@.len(),
                self.metrics() == old(self).metrics(),
                self.others() == all_noted(old(self).others(), peer_infos@.take(k as int)),
            decreases peer_infos.len() - k,
        {
            proof {
                let next = peer_infos@.take(k + 1);
                assert(next.drop_last() =~= peer_infos@.take(k as int));
                assert(next.last() == peer_infos@[k as int]);
            }
            self.note(&peer_infos[k]);
            k += 1;
        }
        assert(peer_infos@.take(k as int) =~= peer_infos@);
    }

    /// The peers that the server last reported.
    pub fn get_others(&self) -> (r: Vec<PeerDetail>)
        ensures
            details(r@) == self.others(),
    {
        clone_details(&self.others)
    }

    /// Counts a frame handed to the relay: every frame counts as sent, and
    /// one that the queue did not take counts as an error too.
    pub fn send_frame(&mut self, queued: bool)
        ensures
            final(self).others() == old(self).others(),
            final(self).metrics() == (RelayStatus {
                tx_frame: bumped(old(self).metrics().tx_frame),
                tx_error: if queued {
                    old(self).metrics().tx_error
                } else {
                    bumped(old(self).metrics().tx_error)
                },
                ..old(self).metrics()
            }),
    {
        self.metrics.tx_frame = self.metrics.tx_frame.wrapping_add(1);
        if !queued {
            self.metrics.tx_error = self.metrics.tx_error.wrapping_add(1);
        }
    }

    /// Counts what came of waiting for a frame from the relay: a frame, or
    /// the end of the queue, which is an error.
    pub fn recv_frame(&mut self, received: bool)
        ensures
            final(self).others() == old(self).others(),
            final(self).metrics() == (if received {
                RelayStatus { rx_frame: bumped(old(self).metrics().rx_frame), ..old(self).metrics() }
            } else {
                RelayStatus { rx_error: bumped(old(self).metrics().rx_error), ..old(self).metrics() }
            }),
    {
        if received {
            self.metrics.rx_frame = self.metrics.rx_frame.wrapping_add(1);
        } else {
            self.metrics.rx_error = self.metrics.rx_error.wrapping_add(1);
        }
    }

    /// The counters.
    pub fn get_status(&self) -> (r: RelayStatus)
        ensures
            r == self.metrics(),
    {
        self.metrics
    }
}

} // verus!
