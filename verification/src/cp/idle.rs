//! The `idle` mode session engine: a charge point that sends periodic
//! heartbeats and waits for CSMS-initiated commands.
//!
//! A `RemoteStartTransaction` from the CSMS drives one whole transaction:
//! the acknowledgment, `StartTransaction` with `StatusNotification
//! (Preparing)`, a wait for the assigned transaction id, a short
//! hardware-simulation wait, `StatusNotification(Charging)`, ten meter
//! reports, then `StopTransaction` with `StatusNotification(Available)`.
//! The runner owns the WebSocket and the waits; the engine owns every
//! decision, and the same lifecycle, meter-precondition and heartbeat laws
//! hold as invariants.

use vstd::prelude::*;
use crate::clock::utc_now_rfc3339;
use crate::codec::{RawFrame, RawFrameV, FrameError};
use crate::config::{ChargePointConfig, GeneralConfig};
use crate::correlation::SharedState;
use crate::cp::{TxAct, SessionEvent, StepOutput, lifecycle_dfa, lifecycle_dfa_step, lifecycle_ok,
    is_call_for, is_call_with};
use crate::mock_data::MeterReadings;
use crate::msg_generator::MessageGeneratorConfig;
use crate::types::{CommonConnectorStatusType, CommonOcppAction};
use crate::v1_6::OcppAction;
use crate::v1_6::msg_handler::{V16MessageHandler, OcppMessageFrame, OcppMessageFrameV,
    call_response_payload, not_implemented_error, resolve_frame, transaction_id_of};
use crate::v1_6::msg_generator::{MessageGenerator, start_transaction_payload,
    stop_transaction_payload, status_notification_payload, meter_values_payload};
use crate::codec::spec_read_frame;

verus! {

/// How many meter reports one remote-started transaction sends.
pub const IDLE_METER_REPORTS: u8 = 10;

/// Where an idle session stands.
#[derive(Clone, Copy, Debug, PartialEq, Eq, Structural)]
pub enum IdlePhase {
    /// Heartbeats only; waiting for a CSMS command.
    Watching,
    /// `StartTransaction` sent after a remote start; waiting for the
    /// CSMS's CallResult.
    AwaitAssign,
    /// Transaction id settled; simulating the hardware before charging.
    HwWait,
    /// Charging; this many meter reports still to send.
    Metering(u8),
}

/// The automaton state the log of an idle session in this phase reaches.
pub open spec fn idle_dfa_state_of(p: IdlePhase) -> int {
    match p {
        IdlePhase::Watching => 0,
        IdlePhase::AwaitAssign => 2,
        IdlePhase::HwWait => 2,
        IdlePhase::Metering(_) => 3,
    }
}

/// Pushing one action runs the automaton one step further.
proof fn lemma_dfa_push(log: Seq<TxAct>, a: TxAct)
    ensures
        lifecycle_dfa(log.push(a)) == match lifecycle_dfa(log) {
            Some(s) => lifecycle_dfa_step(s, a),
            None => None,
        },
{
    assert(log.push(a).drop_last() =~= log);
    assert(log.push(a).last() == a);
}

/// The transaction log after the meter report of one hardware step: one
/// `Meter` action appended when a transaction id was assigned, for the
/// report is skipped without one.
pub open spec fn pre_meter_log(log: Seq<TxAct>, tid: Option<i32>) -> Seq<TxAct> {
    if tid is Some {
        log + seq![TxAct::Meter]
    } else {
        log
    }
}

/// An `idle` mode charge point session engine.
pub struct ChargePointIdle {
    pub general_config: GeneralConfig,
    pub config: ChargePointConfig,
    generator: MessageGenerator,
    handler: V16MessageHandler,
    shared: SharedState<OcppAction>,
    phase: IdlePhase,
    tx_log: Ghost<Seq<TxAct>>,
    hb_ticks: Ghost<int>,
    hb_sent: Ghost<int>,
}

impl ChargePointIdle {
    /// The fleet-wide settings this session was created with.
    pub closed spec fn spec_general_config(&self) -> GeneralConfig {
        self.general_config
    }

    /// The charge point settings this session was created with.
    pub closed spec fn spec_config(&self) -> ChargePointConfig {
        self.config
    }

    /// The phase.
    pub closed spec fn spec_phase(&self) -> IdlePhase {
        self.phase
    }

    /// The transaction-related actions sent so far, oldest first.
    pub closed spec fn spec_tx_log(&self) -> Seq<TxAct> {
        self.tx_log@
    }

    /// The outstanding correlations.
    pub closed spec fn pending(&self) -> Map<Seq<char>, OcppAction> {
        self.shared.pending()
    }

    /// The transaction id the CSMS assigned, if any.
    pub closed spec fn spec_transaction_id(&self) -> Option<i32> {
        self.shared.spec_transaction_id()
    }

    /// How many fallback message ids were handed out.
    pub closed spec fn spec_next_id(&self) -> int {
        self.shared.spec_next_id()
    }

    /// How many heartbeat ticks the engine has seen.
    pub closed spec fn spec_hb_ticks(&self) -> int {
        self.hb_ticks@
    }

    /// How many Heartbeat frames the engine has produced.
    pub closed spec fn spec_hb_sent(&self) -> int {
        self.hb_sent@
    }

    /// The generator identity in use.
    pub closed spec fn spec_generator_config(&self) -> crate::msg_generator::MessageGeneratorConfigV {
        self.generator.config@
    }

    /// The session invariant: sound correlations, the transaction log
    /// exactly at the automaton state of the phase, and one Heartbeat frame
    /// per heartbeat tick.
    pub closed spec fn wf(&self) -> bool {
        &&& self.shared.wf()
        &&& lifecycle_dfa(self.tx_log@) == Some(idle_dfa_state_of(self.phase))
        &&& (self.phase matches IdlePhase::Metering(left) ==> 1 <= left <= IDLE_METER_REPORTS)
        &&& self.hb_sent@ == self.hb_ticks@
    }

    /// The lifecycle law for idle sessions: the ordered sequence of
    /// transaction-related outbound actions is a prefix of the repeated
    /// transaction cycle.
    pub proof fn lemma_transaction_lifecycle(&self)
        requires
            self.wf(),
        ensures
            lifecycle_ok(self.spec_tx_log()),
    {
    }

    /// The heartbeat law, in its discrete form: exactly one Heartbeat frame
    /// per heartbeat tick.
    pub proof fn lemma_heartbeat_cadence(&self)
        requires
            self.wf(),
        ensures
            self.spec_hb_sent() == self.spec_hb_ticks(),
    {
    }

    /// Nothing was sent and the session state is untouched.
    pub open spec fn inbound_untouched(pre: Self, post: Self, r: StepOutput) -> bool {
        &&& r.messages@.len() == 0
        &&& post.spec_phase() == pre.spec_phase()
        &&& post.spec_tx_log() == pre.spec_tx_log()
        &&& post.pending() == pre.pending()
        &&& post.spec_transaction_id() == pre.spec_transaction_id()
    }

    /// What processing one inbound text does, case by case over the
    /// reading of the text.  Every known Call is acknowledged under its
    /// own message id; a `RemoteStartTransaction` while watching
    /// additionally sends `StartTransaction` and
    /// `StatusNotification(Preparing)` — in that order, after the
    /// acknowledgment — and moves the session to awaiting the transaction
    /// id.  The CallResult that settles `StartTransaction` while awaiting
    /// moves it into the hardware wait.  Unknown actions get the
    /// `NotImplemented` CallError; unreadable text changes nothing.
    pub open spec fn inbound_post(
        pre: ChargePointIdle,
        post: ChargePointIdle,
        text: Seq<char>,
        ts: Seq<char>,
        r: StepOutput,
    ) -> bool {
        &&& !r.terminate
        &&& post.spec_hb_ticks() == pre.spec_hb_ticks()
        &&& post.spec_hb_sent() == pre.spec_hb_sent()
        &&& match spec_read_frame(text) {
            None => Self::inbound_untouched(pre, post, r),
            Some(raw) => match resolve_frame(raw) {
                Ok(OcppMessageFrameV::Call { msg_id, action, payload }) => {
                    &&& r.messages@.len() >= 1
                    &&& r.messages@[0]@ == (RawFrameV::CallResult {
                        msg_id,
                        payload: call_response_payload(action),
                    })
                    &&& if action == OcppAction::RemoteStartTransaction
                        && pre.spec_phase() is Watching {
                        &&& r.messages@.len() == 3
                        &&& is_call_with(
                            r.messages@[1]@,
                            OcppAction::StartTransaction,
                            start_transaction_payload(pre.spec_generator_config(), ts),
                        )
                        &&& is_call_with(
                            r.messages@[2]@,
                            OcppAction::StatusNotification,
                            status_notification_payload(
                                CommonConnectorStatusType::Preparing,
                                ts,
                            ),
                        )
                        &&& post.spec_phase() is AwaitAssign
                        &&& post.spec_tx_log() == pre.spec_tx_log() + seq![
                            TxAct::Start,
                            TxAct::Status(CommonConnectorStatusType::Preparing),
                        ]
                    } else {
                        &&& r.messages@.len() == 1
                        &&& post.spec_phase() == pre.spec_phase()
                        &&& post.spec_tx_log() == pre.spec_tx_log()
                        &&& post.pending() == pre.pending()
                    }
                    &&& post.spec_transaction_id() == pre.spec_transaction_id()
                },
                Err(msg_id) => {
                    &&& r.messages@.len() == 1
                    &&& r.messages@[0]@ == not_implemented_error(msg_id)
                    &&& post.spec_phase() == pre.spec_phase()
                    &&& post.spec_tx_log() == pre.spec_tx_log()
                    &&& post.pending() == pre.pending()
                    &&& post.spec_transaction_id() == pre.spec_transaction_id()
                },
                Ok(OcppMessageFrameV::CallResult { msg_id, payload }) => {
                    if pre.pending().contains_key(msg_id) {
                        let a = pre.pending()[msg_id];
                        &&& r.messages@.len() == 0
                        &&& post.pending() == pre.pending().remove(msg_id)
                        &&& post.spec_tx_log() == pre.spec_tx_log()
                        &&& post.spec_transaction_id() == (if a == OcppAction::StartTransaction
                            && transaction_id_of(payload) is Some {
                            transaction_id_of(payload)
                        } else {
                            pre.spec_transaction_id()
                        })
                        &&& if a == OcppAction::StartTransaction
                            && pre.spec_phase() is AwaitAssign {
                            post.spec_phase() is HwWait && r.arm_hw_timer
                        } else {
                            post.spec_phase() == pre.spec_phase()
                        }
                    } else {
                        Self::inbound_untouched(pre, post, r)
                    }
                },
                Ok(OcppMessageFrameV::CallError { msg_id, .. }) => {
                    &&& r.messages@.len() == 0
                    &&& post.spec_phase() == pre.spec_phase()
                    &&& post.spec_tx_log() == pre.spec_tx_log()
                    &&& post.spec_transaction_id() == pre.spec_transaction_id()
                    &&& post.pending() == (if pre.pending().contains_key(msg_id) {
                        pre.pending().remove(msg_id)
                    } else {
                        pre.pending()
                    })
                },
            },
        }
    }

    /// A fresh idle session.
    pub fn new(general_config: GeneralConfig, config: ChargePointConfig) -> (r: ChargePointIdle)
        ensures
            r.wf(),
            r.spec_general_config() == general_config,
            r.spec_config() == config,
            r.spec_phase() is Watching,
            r.pending() == Map::<Seq<char>, OcppAction>::empty(),
            r.spec_transaction_id() is None,
            r.spec_tx_log() == Seq::<TxAct>::empty(),
            r.spec_next_id() == 0,
    {
        ChargePointIdle {
            general_config,
            config,
            generator: MessageGenerator::new(MessageGeneratorConfig::default()),
            handler: V16MessageHandler::new(),
            shared: SharedState::new(),
            phase: IdlePhase::Watching,
            tx_log: Ghost(Seq::empty()),
            hb_ticks: Ghost(0),
            hb_sent: Ghost(0),
        }
    }

    /// Whether the session can still issue messages: its fallback message
    /// id counter is not about to exhaust.  A runner checks this before
    /// feeding an event.
    pub fn msgs_headroom(&self) -> (r: bool)
        ensures
            r == (self.spec_next_id() + 8 < u64::MAX),
    {
        self.shared.headroom(8)
    }

    /// The `BootNotification` Call a session sends right after connecting.
    pub fn boot_message(&mut self, ts: &str) -> (r: RawFrame)
        requires
            old(self).wf(),
            old(self).spec_next_id() + 8 < u64::MAX,
        ensures
            final(self).wf(),
            final(self).spec_phase() == old(self).spec_phase(),
            final(self).spec_tx_log() == old(self).spec_tx_log(),
            is_call_with(
                r@,
                OcppAction::BootNotification,
                crate::v1_6::msg_generator::boot_notification_payload(
                    old(self).spec_generator_config(),
                ),
            ),
            r@ matches RawFrameV::Call { msg_id, .. } && !old(self).pending().contains_key(msg_id)
                && final(self).pending() == old(self).pending().insert(
                msg_id,
                OcppAction::BootNotification,
            ),
    {
        self.generator.boot_notification(&mut self.shared)
    }

    /// Feeds one event through the engine, stamping any emitted payloads
    /// with the current time.
    pub fn step_now(&mut self, event: SessionEvent) -> (r: StepOutput)
        requires
            old(self).wf(),
            old(self).spec_next_id() + 8 < u64::MAX,
        ensures
            final(self).wf(),
            final(self).spec_next_id() <= old(self).spec_next_id() + 4,
            forall|i: int| 0 <= i < r.messages@.len() && is_call_for(
                #[trigger] r.messages@[i]@,
                OcppAction::MeterValues,
            ) ==> old(self).spec_transaction_id() is Some,
    {
        let ts = utc_now_rfc3339();
        self.step(event, ts.as_str())
    }

    /// Feeds one event through the engine: heartbeats on their tick,
    /// answers to CSMS Calls (a `RemoteStartTransaction` starts the
    /// transaction), the CallResult that assigns the transaction id, the
    /// hardware waits that pace the charge, and close or cancellation.
    pub fn step(&mut self, event: SessionEvent, ts: &str) -> (r: StepOutput)
        requires
            old(self).wf(),
            old(self).spec_next_id() + 8 < u64::MAX,
        ensures
            final(self).wf(),
            final(self).spec_next_id() <= old(self).spec_next_id() + 4,
            lifecycle_ok(final(self).spec_tx_log()),
            // no MeterValues frame leaves without an assigned transaction id
            forall|i: int| 0 <= i < r.messages@.len() && is_call_for(
                #[trigger] r.messages@[i]@,
                OcppAction::MeterValues,
            ) ==> old(self).spec_transaction_id() is Some,
            match event {
                SessionEvent::HeartbeatTick => {
                    &&& r.messages@.len() == 1
                    &&& is_call_for(r.messages@[0]@, OcppAction::Heartbeat)
                    &&& !r.terminate
                    &&& final(self).spec_hb_ticks() == old(self).spec_hb_ticks() + 1
                    &&& final(self).spec_hb_sent() == old(self).spec_hb_sent() + 1
                },
                SessionEvent::HwReady => match old(self).spec_phase() {
                    IdlePhase::HwWait => {
                        &&& r.messages@.len() == 1
                        &&& is_call_with(
                            r.messages@[0]@,
                            OcppAction::StatusNotification,
                            crate::v1_6::msg_generator::status_notification_payload(
                                CommonConnectorStatusType::Charging,
                                ts@,
                            ),
                        )
                        &&& r.arm_hw_timer && !r.terminate
                        &&& final(self).spec_phase() == IdlePhase::Metering(IDLE_METER_REPORTS)
                        &&& final(self).spec_tx_log() == old(self).spec_tx_log() + seq![
                            TxAct::Status(CommonConnectorStatusType::Charging),
                        ]
                    },
                    IdlePhase::Metering(left) => {
                        &&& !r.terminate
                        &&& (match old(self).spec_transaction_id() {
                            Some(tid) => r.messages@.len() == (if left == 1 {
                                3int
                            } else {
                                1int
                            }) && (exists|rd: MeterReadings| #[trigger] rd.wf() && is_call_with(
                                r.messages@[0]@,
                                OcppAction::MeterValues,
                                meter_values_payload(tid as int, ts@, rd),
                            )),
                            None => r.messages@.len() == (if left == 1 {
                                2int
                            } else {
                                0int
                            }),
                        })
                        &&& (left == 1 ==> {
                            let base: int = if old(self).spec_transaction_id() is Some {
                                1int
                            } else {
                                0int
                            };
                            &&& is_call_with(
                                r.messages@[base]@,
                                OcppAction::StopTransaction,
                                stop_transaction_payload(
                                    old(self).spec_generator_config(),
                                    match old(self).spec_transaction_id() {
                                        Some(t) => t as int,
                                        None => 1,
                                    },
                                    ts@,
                                ),
                            )
                            &&& is_call_with(
                                r.messages@[base + 1]@,
                                OcppAction::StatusNotification,
                                status_notification_payload(
                                    CommonConnectorStatusType::Available,
                                    ts@,
                                ),
                            )
                            &&& final(self).spec_phase() is Watching
                            &&& final(self).spec_tx_log() == pre_meter_log(
                                old(self).spec_tx_log(),
                                old(self).spec_transaction_id(),
                            ) + seq![
                                TxAct::Stop,
                                TxAct::Status(CommonConnectorStatusType::Available),
                            ]
                            &&& !r.arm_hw_timer
                        })
                        &&& (left > 1 ==> final(self).spec_phase() == IdlePhase::Metering(
                            (left - 1) as u8,
                        ) && r.arm_hw_timer && final(self).spec_tx_log() == pre_meter_log(
                            old(self).spec_tx_log(),
                            old(self).spec_transaction_id(),
                        ))
                    },
                    _ => final(self).unchanged_quiet(*old(self), r),
                },
                SessionEvent::Closed => r.terminate && r.messages@.len() == 0,
                SessionEvent::Cancel => r.terminate && r.messages@.len() == 0,
                SessionEvent::Inbound(text) => Self::inbound_post(
                    *old(self),
                    *final(self),
                    text@,
                    ts@,
                    r,
                ),
                _ => final(self).unchanged_quiet(*old(self), r),
            },
    {
        match event {
            SessionEvent::HeartbeatTick => {
                let f0 = self.generator.heartbeat(&mut self.shared);
                self.hb_ticks = Ghost(self.hb_ticks@ + 1);
                self.hb_sent = Ghost(self.hb_sent@ + 1);
                let mut out = StepOutput::quiet();
                out.messages.push(f0);
                proof {
                    crate::v1_6::lemma_action_names_distinct(
                        OcppAction::Heartbeat,
                        OcppAction::MeterValues,
                    );
                }
                out
            }
            SessionEvent::HwReady => {
                match self.phase {
                    IdlePhase::HwWait => {
                        proof {
                            crate::v1_6::lemma_action_names_distinct(
                                OcppAction::StatusNotification,
                                OcppAction::MeterValues,
                            );
                        }
                        let f0 = self.generator.status_notification(
                            &mut self.shared,
                            CommonConnectorStatusType::Charging,
                            ts,
                        );
                        self.phase = IdlePhase::Metering(IDLE_METER_REPORTS);
                        proof {
                            lemma_dfa_push(self.tx_log@, TxAct::Status(
                                CommonConnectorStatusType::Charging,
                            ));
                        }
                        self.tx_log = Ghost(
                            self.tx_log@ + seq![
                                TxAct::Status(CommonConnectorStatusType::Charging),
                            ],
                        );
                        proof {
                            assert(old(self).tx_log@.push(TxAct::Status(
                                CommonConnectorStatusType::Charging,
                            )) =~= self.tx_log@);
                        }
                        let mut out = StepOutput::quiet();
                        out.messages.push(f0);
                        out.arm_hw_timer = true;
                        out
                    }
                    IdlePhase::Metering(left) => {
                        let mut out = StepOutput::quiet();
                        let readings = MeterReadings::sample();
                        match self.generator.meter_values(&mut self.shared, &readings, ts) {
                            Some(f0) => {
                                proof {
                                    lemma_dfa_push(self.tx_log@, TxAct::Meter);
                                }
                                self.tx_log = Ghost(self.tx_log@.push(TxAct::Meter));
                                out.messages.push(f0);
                            }
                            None => {
                                // the CSMS never supplied a transaction id:
                                // skip the report rather than send one
                                // without it
                            }
                        }
                        if left > 1 {
                            self.phase = IdlePhase::Metering(left - 1);
                            out.arm_hw_timer = true;
                        } else {
                            proof {
                                crate::v1_6::lemma_action_names_distinct(
                                    OcppAction::StopTransaction,
                                    OcppAction::MeterValues,
                                );
                                crate::v1_6::lemma_action_names_distinct(
                                    OcppAction::StatusNotification,
                                    OcppAction::MeterValues,
                                );
                            }
                            let f1 = self.generator.stop_transaction(&mut self.shared, ts);
                            let f2 = self.generator.status_notification(
                                &mut self.shared,
                                CommonConnectorStatusType::Available,
                                ts,
                            );
                            self.phase = IdlePhase::Watching;
                            proof {
                                lemma_dfa_push(self.tx_log@, TxAct::Stop);
                                lemma_dfa_push(self.tx_log@.push(TxAct::Stop), TxAct::Status(
                                    CommonConnectorStatusType::Available,
                                ));
                            }
                            self.tx_log = Ghost(
                                self.tx_log@.push(TxAct::Stop).push(
                                    TxAct::Status(CommonConnectorStatusType::Available),
                                ),
                            );
                            out.messages.push(f1);
                            out.messages.push(f2);
                        }
                        out
                    }
                    _ => StepOutput::quiet(),
                }
            }
            SessionEvent::Inbound(text) => self.handle_inbound(text.as_str(), ts),
            SessionEvent::Closed => {
                let mut out = StepOutput::quiet();
                out.terminate = true;
                out
            }
            SessionEvent::Cancel => {
                let mut out = StepOutput::quiet();
                out.terminate = true;
                out
            }
            _ => StepOutput::quiet(),
        }
    }

    /// Nothing was sent and nothing changed.
    pub open spec fn unchanged_quiet(&self, pre: Self, r: StepOutput) -> bool {
        &&& r.messages@.len() == 0
        &&& !r.terminate
        &&& self.spec_phase() == pre.spec_phase()
        &&& self.spec_tx_log() == pre.spec_tx_log()
    }

    /// Parses and dispatches one inbound text.  A `RemoteStartTransaction`
    /// Call is acknowledged with `Accepted` and starts the transaction; any
    /// other known Call gets its acknowledgment; the CallResult that settles
    /// `StartTransaction` moves the session into the hardware wait.
    fn handle_inbound(&mut self, text: &str, ts: &str) -> (r: StepOutput)
        requires
            old(self).wf(),
            old(self).spec_next_id() + 8 < u64::MAX,
        ensures
            final(self).wf(),
            final(self).spec_next_id() <= old(self).spec_next_id() + 4,
            forall|i: int| 0 <= i < r.messages@.len() ==> !is_call_for(
                #[trigger] r.messages@[i]@,
                OcppAction::MeterValues,
            ),
            Self::inbound_post(*old(self), *final(self), text@, ts@, r),
    {
        let parsed = self.handler.parse_ocpp_message(text);
        match parsed {
            Ok(OcppMessageFrame::Call { msg_id, action, payload }) => {
                let reply = self.handler.handle_call(msg_id, action, &payload);
                let mut out = StepOutput::quiet();
                out.messages.push(reply);
                if matches!(action, OcppAction::RemoteStartTransaction) && matches!(self.phase,
                IdlePhase::Watching) {
                    proof {
                        crate::v1_6::lemma_action_names_distinct(
                            OcppAction::StartTransaction,
                            OcppAction::MeterValues,
                        );
                        crate::v1_6::lemma_action_names_distinct(
                            OcppAction::StatusNotification,
                            OcppAction::MeterValues,
                        );
                    }
                    let f0 = self.generator.start_transaction(&mut self.shared, ts);
                    let f1 = self.generator.status_notification(
                        &mut self.shared,
                        CommonConnectorStatusType::Preparing,
                        ts,
                    );
                    self.phase = IdlePhase::AwaitAssign;
                    proof {
                        lemma_dfa_push(self.tx_log@, TxAct::Start);
                        lemma_dfa_push(self.tx_log@.push(TxAct::Start), TxAct::Status(
                            CommonConnectorStatusType::Preparing,
                        ));
                    }
                    self.tx_log = Ghost(
                        self.tx_log@ + seq![
                            TxAct::Start,
                            TxAct::Status(CommonConnectorStatusType::Preparing),
                        ],
                    );
                    proof {
                        assert(old(self).tx_log@.push(TxAct::Start).push(TxAct::Status(
                            CommonConnectorStatusType::Preparing,
                        )) =~= self.tx_log@);
                    }
                    out.messages.push(f0);
                    out.messages.push(f1);
                }
                out
            }
            Ok(OcppMessageFrame::CallResult { msg_id, payload }) => {
                let tag = self.handler.handle_call_result(&mut self.shared, msg_id.as_str(),
                    &payload);
                if matches!(tag, Some(CommonOcppAction::StartTransaction)) && matches!(self.phase,
                IdlePhase::AwaitAssign) {
                    self.phase = IdlePhase::HwWait;
                    let mut out = StepOutput::quiet();
                    out.arm_hw_timer = true;
                    out
                } else {
                    StepOutput::quiet()
                }
            }
            Ok(OcppMessageFrame::CallError { msg_id, .. }) => {
                let _ = self.handler.handle_call_error(&mut self.shared, msg_id.as_str());
                StepOutput::quiet()
            }
            Err(FrameError::UnknownAction { msg_id }) => {
                let reply = self.handler.handle_unknown_action(msg_id);
                let mut out = StepOutput::quiet();
                out.messages.push(reply);
                out
            }
            Err(FrameError::MalformedFrame) => StepOutput::quiet(),
        }
    }
}

} // verus!
