//! The `dynamic` mode session engine: a charge point that drives the full
//! transaction lifecycle on its own schedule.
//!
//! The engine is the decision core of one session.  Its runner owns the
//! WebSocket and the timers; it feeds every matured timer and inbound text
//! to [`ChargePointDynamic::step`] and performs what the returned
//! [`StepOutput`] asks: send the frames in order, arm timers, terminate.
//! Everything the engine decides is stated in the contract of `step`, and
//! the transaction-lifecycle, meter-precondition and heartbeat laws hold as
//! invariants of the state.

use vstd::prelude::*;
use crate::clock::utc_now_rfc3339;
use crate::codec::{RawFrame, RawFrameV};
use crate::config::{ChargePointConfig, GeneralConfig};
use crate::correlation::SharedState;
use crate::cp::{TxAct, SessionEvent, StepOutput, lifecycle_dfa, lifecycle_dfa_step, lifecycle_ok,
    is_call_for, is_call_with};
use crate::mock_data::MeterReadings;
use crate::msg_generator::{MessageGeneratorConfig, MessageGeneratorConfigV, default_config_v};
use crate::types::{CommonConnectorStatusType, CommonOcppAction};
use crate::v1_6::OcppAction;
use crate::v1_6::msg_generator::{MessageGenerator, start_transaction_payload,
    stop_transaction_payload, status_notification_payload, heartbeat_payload,
    meter_values_payload, boot_notification_payload};
use crate::v1_6::msg_handler::{V16MessageHandler, OcppMessageFrame, OcppMessageFrameV,
    call_response_payload, not_implemented_error, resolve_frame, transaction_id_of};
use crate::codec::spec_read_frame;
use crate::codec::FrameError;

verus! {

/// Where a session stands in its own transaction lifecycle.
#[derive(Clone, Copy, Debug, PartialEq, Eq, Structural)]
pub enum SessionPhase {
    /// No transaction: waiting for the start deadline.
    Idle,
    /// `StartTransaction` and `StatusNotification(Preparing)` sent; waiting
    /// for the transaction id or the five-second timeout.
    Starting,
    /// `StatusNotification(Charging)` sent; metering until the stop
    /// deadline.
    Charging,
}

/// The automaton state the log of a session in this phase reaches.
pub open spec fn dfa_state_of(p: SessionPhase) -> int {
    match p {
        SessionPhase::Idle => 0,
        SessionPhase::Starting => 2,
        SessionPhase::Charging => 3,
    }
}

/// Pushing one action runs the automaton one step further.
proof fn lemma_dfa_push(log: Seq<TxAct>, a: TxAct)
    ensures
        lifecycle_dfa(log.push(a)) == match lifecycle_dfa(log) {
            Some(s) => lifecycle_dfa_step(s, a),
            None => None,
        },
{
    assert(log.push(a).drop_last() =~= log);
    assert(log.push(a).last() == a);
}

/// A `dynamic` mode charge point session engine.
pub struct ChargePointDynamic {
    pub general_config: GeneralConfig,
    pub config: ChargePointConfig,
    generator: MessageGenerator,
    handler: V16MessageHandler,
    shared: SharedState<OcppAction>,
    phase: SessionPhase,
    transaction_active: bool,
    tx_log: Ghost<Seq<TxAct>>,
    hb_ticks: Ghost<int>,
    hb_sent: Ghost<int>,
}

impl ChargePointDynamic {
    /// The fleet-wide settings this session was created with.
    pub closed spec fn spec_general_config(&self) -> GeneralConfig {
        self.general_config
    }

    /// The charge point settings this session was created with.
    pub closed spec fn spec_config(&self) -> ChargePointConfig {
        self.config
    }

    /// The lifecycle phase.
    pub closed spec fn spec_phase(&self) -> SessionPhase {
        self.phase
    }

    /// Whether a transaction is running.
    pub closed spec fn spec_transaction_active(&self) -> bool {
        self.transaction_active
    }

    /// The transaction-related actions sent so far, oldest first.
    pub closed spec fn spec_tx_log(&self) -> Seq<TxAct> {
        self.tx_log@
    }

    /// The outstanding correlations.
    pub closed spec fn pending(&self) -> Map<Seq<char>, OcppAction> {
        self.shared.pending()
    }

    /// The transaction id the CSMS assigned, if any.
    pub closed spec fn spec_transaction_id(&self) -> Option<i32> {
        self.shared.spec_transaction_id()
    }

    /// How many fallback message ids were handed out.
    pub closed spec fn spec_next_id(&self) -> int {
        self.shared.spec_next_id()
    }

    /// How many heartbeat ticks the engine has seen.
    pub closed spec fn spec_hb_ticks(&self) -> int {
        self.hb_ticks@
    }

    /// How many Heartbeat frames the engine has produced.
    pub closed spec fn spec_hb_sent(&self) -> int {
        self.hb_sent@
    }

    /// The generator identity in use.
    pub closed spec fn spec_generator_config(&self) -> MessageGeneratorConfigV {
        self.generator.config@
    }

    /// The session invariant: the correlation table is sound, the activity
    /// flag mirrors the phase, the transaction log sits exactly at the
    /// automaton state of the phase, a charging session always has a
    /// transaction id, and every heartbeat tick produced exactly one
    /// Heartbeat frame.
    pub closed spec fn wf(&self) -> bool {
        &&& self.shared.wf()
        &&& self.transaction_active == (self.phase is Charging)
        &&& lifecycle_dfa(self.tx_log@) == Some(dfa_state_of(self.phase))
        &&& (self.phase is Charging ==> self.shared.spec_transaction_id() is Some)
        &&& self.hb_sent@ == self.hb_ticks@
    }

    /// The lifecycle law: in every reachable session state, the ordered
    /// sequence of transaction-related outbound actions is a prefix of the
    /// repeated cycle `StartTransaction`, `StatusNotification(Preparing)`,
    /// `StatusNotification(Charging)`, `MeterValues*`, `StopTransaction`,
    /// `StatusNotification(Available)`.
    pub proof fn lemma_transaction_lifecycle(&self)
        requires
            self.wf(),
        ensures
            lifecycle_ok(self.spec_tx_log()),
    {
    }

    /// The heartbeat law, in its discrete form: in every reachable session
    /// state, the engine has produced exactly one Heartbeat frame per
    /// heartbeat tick it was given.
    pub proof fn lemma_heartbeat_cadence(&self)
        requires
            self.wf(),
        ensures
            self.spec_hb_sent() == self.spec_hb_ticks(),
    {
    }

    /// Nothing was sent and the session state is untouched.
    pub open spec fn inbound_untouched(pre: Self, post: Self, r: StepOutput) -> bool {
        &&& r.messages@.len() == 0
        &&& post.spec_phase() == pre.spec_phase()
        &&& post.spec_tx_log() == pre.spec_tx_log()
        &&& post.pending() == pre.pending()
        &&& post.spec_transaction_id() == pre.spec_transaction_id()
    }

    /// What processing one inbound text does, case by case over the
    /// reading of the text: a known Call gets its acknowledgment under its
    /// own message id, an unknown action the `NotImplemented` CallError, a
    /// CallResult settles its correlation entry — completing the start of
    /// a transaction when one was awaited — and a CallError settles its
    /// entry silently.  Unreadable text changes nothing.
    pub open spec fn inbound_post(
        pre: ChargePointDynamic,
        post: ChargePointDynamic,
        text: Seq<char>,
        ts: Seq<char>,
        r: StepOutput,
    ) -> bool {
        &&& !r.terminate
        &&& post.spec_hb_ticks() == pre.spec_hb_ticks()
        &&& post.spec_hb_sent() == pre.spec_hb_sent()
        &&& match spec_read_frame(text) {
            None => Self::inbound_untouched(pre, post, r),
            Some(raw) => match resolve_frame(raw) {
                Ok(OcppMessageFrameV::Call { msg_id, action, payload }) => {
                    &&& r.messages@.len() == 1
                    &&& r.messages@[0]@ == (RawFrameV::CallResult {
                        msg_id,
                        payload: call_response_payload(action),
                    })
                    &&& post.spec_phase() == pre.spec_phase()
                    &&& post.spec_tx_log() == pre.spec_tx_log()
                    &&& post.pending() == pre.pending()
                    &&& post.spec_transaction_id() == pre.spec_transaction_id()
                },
                Err(msg_id) => {
                    &&& r.messages@.len() == 1
                    &&& r.messages@[0]@ == not_implemented_error(msg_id)
                    &&& post.spec_phase() == pre.spec_phase()
                    &&& post.spec_tx_log() == pre.spec_tx_log()
                    &&& post.pending() == pre.pending()
                    &&& post.spec_transaction_id() == pre.spec_transaction_id()
                },
                Ok(OcppMessageFrameV::CallResult { msg_id, payload }) => {
                    if pre.pending().contains_key(msg_id) {
                        let a = pre.pending()[msg_id];
                        &&& if a == OcppAction::StartTransaction && pre.spec_phase() is Starting {
                            &&& r.messages@.len() == 1
                            &&& is_call_with(
                                r.messages@[0]@,
                                OcppAction::StatusNotification,
                                status_notification_payload(
                                    CommonConnectorStatusType::Charging,
                                    ts,
                                ),
                            )
                            &&& (r.messages@[0]@ matches RawFrameV::Call { msg_id: sid, .. }
                                && !pre.pending().remove(msg_id).contains_key(sid)
                                && post.pending() == pre.pending().remove(msg_id).insert(
                                sid,
                                OcppAction::StatusNotification,
                            ))
                            &&& r.arm_stop_timer
                            &&& post.spec_phase() is Charging
                            &&& post.spec_transaction_id() == (if transaction_id_of(
                                payload,
                            ) is Some {
                                transaction_id_of(payload)
                            } else if pre.spec_transaction_id() is Some {
                                pre.spec_transaction_id()
                            } else {
                                Some(1i32)
                            })
                            &&& post.spec_tx_log() == pre.spec_tx_log() + seq![
                                TxAct::Status(CommonConnectorStatusType::Charging),
                            ]
                        } else {
                            &&& r.messages@.len() == 0
                            &&& post.pending() == pre.pending().remove(msg_id)
                            &&& post.spec_phase() == pre.spec_phase()
                            &&& post.spec_tx_log() == pre.spec_tx_log()
                            &&& post.spec_transaction_id() == (if a
                                == OcppAction::StartTransaction && transaction_id_of(
                                payload,
                            ) is Some {
                                transaction_id_of(payload)
                            } else {
                                pre.spec_transaction_id()
                            })
                        }
                    } else {
                        Self::inbound_untouched(pre, post, r)
                    }
                },
                Ok(OcppMessageFrameV::CallError { msg_id, .. }) => {
                    &&& r.messages@.len() == 0
                    &&& post.spec_phase() == pre.spec_phase()
                    &&& post.spec_tx_log() == pre.spec_tx_log()
                    &&& post.spec_transaction_id() == pre.spec_transaction_id()
                    &&& post.pending() == (if pre.pending().contains_key(msg_id) {
                        pre.pending().remove(msg_id)
                    } else {
                        pre.pending()
                    })
                },
            },
        }
    }

    /// A fresh session for one charge point: idle, nothing pending, nothing
    /// sent.
    pub fn new(general_config: GeneralConfig, config: ChargePointConfig) -> (r: ChargePointDynamic)
        ensures
            r.wf(),
            r.spec_general_config() == general_config,
            r.spec_config() == config,
            r.spec_phase() is Idle,
            r.pending() == Map::<Seq<char>, OcppAction>::empty(),
            r.spec_transaction_id() is None,
            r.spec_tx_log() == Seq::<TxAct>::empty(),
            r.spec_next_id() == 0,
            r.spec_generator_config() == default_config_v(),
    {
        let r = ChargePointDynamic {
            general_config,
            config,
            generator: MessageGenerator::new(MessageGeneratorConfig::default()),
            handler: V16MessageHandler::new(),
            shared: SharedState::new(),
            phase: SessionPhase::Idle,
            transaction_active: false,
            tx_log: Ghost(Seq::empty()),
            hb_ticks: Ghost(0),
            hb_sent: Ghost(0),
        };
        r
    }

    /// Whether the session can still issue messages: its fallback message
    /// id counter is not about to exhaust.  A runner checks this before
    /// feeding an event.
    pub fn msgs_headroom(&self) -> (r: bool)
        ensures
            r == (self.spec_next_id() + 8 < u64::MAX),
    {
        self.shared.headroom(8)
    }

    /// The `BootNotification` Call a session sends right after connecting.
    pub fn boot_message(&mut self, ts: &str) -> (r: RawFrame)
        requires
            old(self).wf(),
            old(self).spec_next_id() + 8 < u64::MAX,
        ensures
            final(self).wf(),
            final(self).spec_phase() == old(self).spec_phase(),
            final(self).spec_tx_log() == old(self).spec_tx_log(),
            final(self).spec_hb_ticks() == old(self).spec_hb_ticks(),
            final(self).spec_hb_sent() == old(self).spec_hb_sent(),
            is_call_with(
                r@,
                OcppAction::BootNotification,
                boot_notification_payload(old(self).spec_generator_config()),
            ),
            r@ matches RawFrameV::Call { msg_id, .. } && !old(self).pending().contains_key(msg_id)
                && final(self).pending() == old(self).pending().insert(
                msg_id,
                OcppAction::BootNotification,
            ),
    {
        self.generator.boot_notification(&mut self.shared)
    }

    /// Feeds one event through the engine, stamping any emitted payloads
    /// with the current time.
    pub fn step_now(&mut self, event: SessionEvent) -> (r: StepOutput)
        requires
            old(self).wf(),
            old(self).spec_next_id() + 8 < u64::MAX,
        ensures
            final(self).wf(),
            final(self).spec_next_id() <= old(self).spec_next_id() + 4,
            forall|i: int| 0 <= i < r.messages@.len() && is_call_for(
                #[trigger] r.messages@[i]@,
                OcppAction::MeterValues,
            ) ==> old(self).spec_transaction_id() is Some,
    {
        let ts = utc_now_rfc3339();
        self.step(event, ts.as_str())
    }

    /// Feeds one event through the engine.  The contract walks the event
    /// kinds: each matured deadline sends its messages and moves the phase,
    /// ticks send their single frame, inbound text is parsed, answered and
    /// may complete the start of a transaction, and close or cancellation
    /// ends the session.
    pub fn step(&mut self, event: SessionEvent, ts: &str) -> (r: StepOutput)
        requires
            old(self).wf(),
            old(self).spec_next_id() + 8 < u64::MAX,
        ensures
            final(self).wf(),
            final(self).spec_next_id() <= old(self).spec_next_id() + 4,
            final(self).spec_generator_config() == old(self).spec_generator_config(),
            // no MeterValues frame leaves without an assigned transaction id
            forall|i: int| 0 <= i < r.messages@.len() && is_call_for(
                #[trigger] r.messages@[i]@,
                OcppAction::MeterValues,
            ) ==> old(self).spec_transaction_id() is Some,
            match event {
                SessionEvent::StartTxDeadline => if old(self).spec_phase() is Idle {
                    &&& r.messages@.len() == 2
                    &&& is_call_with(
                        r.messages@[0]@,
                        OcppAction::StartTransaction,
                        start_transaction_payload(old(self).spec_generator_config(), ts@),
                    )
                    &&& is_call_with(
                        r.messages@[1]@,
                        OcppAction::StatusNotification,
                        status_notification_payload(CommonConnectorStatusType::Preparing, ts@),
                    )
                    &&& r.await_tx_assign && !r.terminate
                    &&& final(self).spec_phase() is Starting
                    &&& final(self).spec_tx_log() == old(self).spec_tx_log() + seq![
                        TxAct::Start,
                        TxAct::Status(CommonConnectorStatusType::Preparing),
                    ]
                } else {
                    final(self).unchanged_quiet(*old(self), r)
                },
                SessionEvent::StartTxTimeout => if old(self).spec_phase() is Starting {
                    &&& r.messages@.len() == 1
                    &&& is_call_with(
                        r.messages@[0]@,
                        OcppAction::StatusNotification,
                        status_notification_payload(CommonConnectorStatusType::Charging, ts@),
                    )
                    &&& r.arm_stop_timer && !r.terminate
                    &&& r.degraded == (old(self).spec_transaction_id() is None)
                    &&& final(self).spec_phase() is Charging
                    &&& final(self).spec_transaction_id() == (if old(self).spec_transaction_id() is None {
                        Some(1i32)
                    } else {
                        old(self).spec_transaction_id()
                    })
                    &&& final(self).spec_tx_log() == old(self).spec_tx_log() + seq![
                        TxAct::Status(CommonConnectorStatusType::Charging),
                    ]
                } else {
                    final(self).unchanged_quiet(*old(self), r)
                },
                SessionEvent::StopTxDeadline => if old(self).spec_phase() is Charging {
                    &&& r.messages@.len() == 2
                    &&& is_call_with(
                        r.messages@[0]@,
                        OcppAction::StopTransaction,
                        stop_transaction_payload(
                            old(self).spec_generator_config(),
                            old(self).spec_transaction_id()->0 as int,
                            ts@,
                        ),
                    )
                    &&& is_call_with(
                        r.messages@[1]@,
                        OcppAction::StatusNotification,
                        status_notification_payload(CommonConnectorStatusType::Available, ts@),
                    )
                    &&& r.arm_start_timer && !r.terminate
                    &&& final(self).spec_phase() is Idle
                    &&& final(self).spec_tx_log() == old(self).spec_tx_log() + seq![
                        TxAct::Stop,
                        TxAct::Status(CommonConnectorStatusType::Available),
                    ]
                } else {
                    final(self).unchanged_quiet(*old(self), r)
                },
                SessionEvent::MeterTick => if old(self).spec_phase() is Charging {
                    &&& r.messages@.len() == 1
                    &&& (exists|rd: MeterReadings| #[trigger] rd.wf() && is_call_with(
                        r.messages@[0]@,
                        OcppAction::MeterValues,
                        meter_values_payload(
                            old(self).spec_transaction_id()->0 as int,
                            ts@,
                            rd,
                        ),
                    ))
                    &&& !r.terminate
                    &&& final(self).spec_phase() is Charging
                    &&& final(self).spec_tx_log() == old(self).spec_tx_log() + seq![TxAct::Meter]
                } else {
                    final(self).unchanged_quiet(*old(self), r)
                },
                SessionEvent::HeartbeatTick => {
                    &&& r.messages@.len() == 1
                    &&& is_call_with(r.messages@[0]@, OcppAction::Heartbeat, heartbeat_payload())
                    &&& !r.terminate
                    &&& final(self).spec_phase() == old(self).spec_phase()
                    &&& final(self).spec_tx_log() == old(self).spec_tx_log()
                    &&& final(self).spec_hb_ticks() == old(self).spec_hb_ticks() + 1
                    &&& final(self).spec_hb_sent() == old(self).spec_hb_sent() + 1
                },
                SessionEvent::Inbound(text) => Self::inbound_post(
                    *old(self),
                    *final(self),
                    text@,
                    ts@,
                    r,
                ),
                SessionEvent::HwReady => final(self).unchanged_quiet(*old(self), r),
                SessionEvent::Closed => {
                    &&& r.messages@.len() == 0
                    &&& r.terminate
                    &&& final(self).spec_tx_log() == old(self).spec_tx_log()
                },
                SessionEvent::Cancel => {
                    &&& r.messages@.len() == 0
                    &&& r.terminate
                    &&& final(self).spec_tx_log() == old(self).spec_tx_log()
                },
            },
    {
        match event {
            SessionEvent::StartTxDeadline => {
                if matches!(self.phase, SessionPhase::Idle) {
                    proof {
                        crate::v1_6::lemma_action_names_distinct(
                            OcppAction::StartTransaction,
                            OcppAction::MeterValues,
                        );
                        crate::v1_6::lemma_action_names_distinct(
                            OcppAction::StatusNotification,
                            OcppAction::MeterValues,
                        );
                    }
                    let f0 = self.generator.start_transaction(&mut self.shared, ts);
                    let f1 = self.generator.status_notification(
                        &mut self.shared,
                        CommonConnectorStatusType::Preparing,
                        ts,
                    );
                    self.phase = SessionPhase::Starting;
                    proof {
                        lemma_dfa_push(self.tx_log@, TxAct::Start);
                        lemma_dfa_push(self.tx_log@.push(TxAct::Start), TxAct::Status(
                            CommonConnectorStatusType::Preparing,
                        ));
                    }
                    self.tx_log = Ghost(
                        self.tx_log@ + seq![
                            TxAct::Start,
                            TxAct::Status(CommonConnectorStatusType::Preparing),
                        ],
                    );
                    proof {
                        assert(old(self).tx_log@.push(TxAct::Start).push(TxAct::Status(
                            CommonConnectorStatusType::Preparing,
                        )) =~= self.tx_log@);
                    }
                    let mut out = StepOutput::quiet();
                    out.messages.push(f0);
                    out.messages.push(f1);
                    out.await_tx_assign = true;
                    out
                } else {
                    StepOutput::quiet()
                }
            }
            SessionEvent::StartTxTimeout => {
                if matches!(self.phase, SessionPhase::Starting) {
                    proof {
                        crate::v1_6::lemma_action_names_distinct(
                            OcppAction::StatusNotification,
                            OcppAction::MeterValues,
                        );
                    }
                    let degraded = self.shared.get_transaction_id().is_none();
                    if degraded {
                        self.shared.transaction_id(1);
                    }
                    let f0 = self.generator.status_notification(
                        &mut self.shared,
                        CommonConnectorStatusType::Charging,
                        ts,
                    );
                    self.phase = SessionPhase::Charging;
                    self.transaction_active = true;
                    proof {
                        lemma_dfa_push(self.tx_log@, TxAct::Status(
                            CommonConnectorStatusType::Charging,
                        ));
                    }
                    self.tx_log = Ghost(
                        self.tx_log@ + seq![TxAct::Status(CommonConnectorStatusType::Charging)],
                    );
                    proof {
                        assert(old(self).tx_log@.push(TxAct::Status(
                            CommonConnectorStatusType::Charging,
                        )) =~= self.tx_log@);
                    }
                    let mut out = StepOutput::quiet();
                    out.messages.push(f0);
                    out.arm_stop_timer = true;
                    out.degraded = degraded;
                    out
                } else {
                    StepOutput::quiet()
                }
            }
            SessionEvent::StopTxDeadline => {
                if matches!(self.phase, SessionPhase::Charging) {
                    proof {
                        crate::v1_6::lemma_action_names_distinct(
                            OcppAction::StopTransaction,
                            OcppAction::MeterValues,
                        );
                        crate::v1_6::lemma_action_names_distinct(
                            OcppAction::StatusNotification,
                            OcppAction::MeterValues,
                        );
                    }
                    let f0 = self.generator.stop_transaction(&mut self.shared, ts);
                    let f1 = self.generator.status_notification(
                        &mut self.shared,
                        CommonConnectorStatusType::Available,
                        ts,
                    );
                    self.phase = SessionPhase::Idle;
                    self.transaction_active = false;
                    proof {
                        lemma_dfa_push(self.tx_log@, TxAct::Stop);
                        lemma_dfa_push(self.tx_log@.push(TxAct::Stop), TxAct::Status(
                            CommonConnectorStatusType::Available,
                        ));
                    }
                    self.tx_log = Ghost(
                        self.tx_log@ + seq![
                            TxAct::Stop,
                            TxAct::Status(CommonConnectorStatusType::Available),
                        ],
                    );
                    proof {
                        assert(old(self).tx_log@.push(TxAct::Stop).push(TxAct::Status(
                            CommonConnectorStatusType::Available,
                        )) =~= self.tx_log@);
                    }
                    let mut out = StepOutput::quiet();
                    out.messages.push(f0);
                    out.messages.push(f1);
                    out.arm_start_timer = true;
                    out
                } else {
                    StepOutput::quiet()
                }
            }
            SessionEvent::MeterTick => {
                if matches!(self.phase, SessionPhase::Charging) {
                    let readings = MeterReadings::sample();
                    match self.generator.meter_values(&mut self.shared, &readings, ts) {
                        Some(f0) => {
                            proof {
                                lemma_dfa_push(self.tx_log@, TxAct::Meter);
                            }
                            self.tx_log = Ghost(self.tx_log@ + seq![TxAct::Meter]);
                            proof {
                                assert(old(self).tx_log@.push(TxAct::Meter) =~= self.tx_log@);
                            }
                            let mut out = StepOutput::quiet();
                            out.messages.push(f0);
                            out
                        }
                        None => {
                            // unreachable while charging: the transaction id
                            // is always assigned by then
                            StepOutput::quiet()
                        }
                    }
                } else {
                    StepOutput::quiet()
                }
            }
            SessionEvent::HeartbeatTick => {
                proof {
                    crate::v1_6::lemma_action_names_distinct(
                        OcppAction::Heartbeat,
                        OcppAction::MeterValues,
                    );
                }
                let f0 = self.generator.heartbeat(&mut self.shared);
                self.hb_ticks = Ghost(self.hb_ticks@ + 1);
                self.hb_sent = Ghost(self.hb_sent@ + 1);
                let mut out = StepOutput::quiet();
                out.messages.push(f0);
                out
            }
            SessionEvent::Inbound(text) => self.handle_inbound(text.as_str(), ts),
            SessionEvent::HwReady => StepOutput::quiet(),
            SessionEvent::Closed => {
                let mut out = StepOutput::quiet();
                out.terminate = true;
                out
            }
            SessionEvent::Cancel => {
                let mut out = StepOutput::quiet();
                out.terminate = true;
                out
            }
        }
    }

    /// Nothing was sent and nothing changed.
    pub open spec fn unchanged_quiet(&self, pre: Self, r: StepOutput) -> bool {
        &&& r.messages@.len() == 0
        &&& !r.terminate
        &&& self.spec_phase() == pre.spec_phase()
        &&& self.spec_tx_log() == pre.spec_tx_log()
    }

    /// Parses and dispatches one inbound text: Calls are answered, a
    /// CallResult may complete the start of a transaction, malformed text
    /// is dropped.
    fn handle_inbound(&mut self, text: &str, ts: &str) -> (r: StepOutput)
        requires
            old(self).wf(),
            old(self).spec_next_id() + 8 < u64::MAX,
        ensures
            final(self).wf(),
            final(self).spec_next_id() <= old(self).spec_next_id() + 4,
            final(self).spec_generator_config() == old(self).spec_generator_config(),
            forall|i: int| 0 <= i < r.messages@.len() && is_call_for(
                #[trigger] r.messages@[i]@,
                OcppAction::MeterValues,
            ) ==> old(self).spec_transaction_id() is Some,
            Self::inbound_post(*old(self), *final(self), text@, ts@, r),
    {
        let parsed = self.handler.parse_ocpp_message(text);
        match parsed {
            Ok(OcppMessageFrame::Call { msg_id, action, payload }) => {
                let reply = self.handler.handle_call(msg_id, action, &payload);
                let mut out = StepOutput::quiet();
                out.messages.push(reply);
                out
            }
            Ok(OcppMessageFrame::CallResult { msg_id, payload }) => {
                let tag = self.handler.handle_call_result(&mut self.shared, msg_id.as_str(),
                    &payload);
                if matches!(tag, Some(CommonOcppAction::StartTransaction)) && matches!(self.phase,
                SessionPhase::Starting) {
                    proof {
                        crate::v1_6::lemma_action_names_distinct(
                            OcppAction::StatusNotification,
                            OcppAction::MeterValues,
                        );
                    }
                    if self.shared.get_transaction_id().is_none() {
                        self.shared.transaction_id(1);
                    }
                    let f0 = self.generator.status_notification(
                        &mut self.shared,
                        CommonConnectorStatusType::Charging,
                        ts,
                    );
                    self.phase = SessionPhase::Charging;
                    self.transaction_active = true;
                    proof {
                        lemma_dfa_push(self.tx_log@, TxAct::Status(
                            CommonConnectorStatusType::Charging,
                        ));
                    }
                    self.tx_log = Ghost(
                        self.tx_log@ + seq![TxAct::Status(CommonConnectorStatusType::Charging)],
                    );
                    proof {
                        assert(old(self).tx_log@.push(TxAct::Status(
                            CommonConnectorStatusType::Charging,
                        )) =~= self.tx_log@);
                    }
                    let mut out = StepOutput::quiet();
                    out.messages.push(f0);
                    out.arm_stop_timer = true;
                    out
                } else {
                    StepOutput::quiet()
                }
            }
            Ok(OcppMessageFrame::CallError { msg_id, .. }) => {
                let _ = self.handler.handle_call_error(&mut self.shared, msg_id.as_str());
                StepOutput::quiet()
            }
            Err(FrameError::UnknownAction { msg_id }) => {
                let reply = self.handler.handle_unknown_action(msg_id);
                let mut out = StepOutput::quiet();
                out.messages.push(reply);
                out
            }
            Err(FrameError::MalformedFrame) => StepOutput::quiet(),
        }
    }
}

} // verus!
