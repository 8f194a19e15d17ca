//! The trackpad's event handlers.
use super::legacy;
use super::legacy::LegacyState;
use super::mode;
use super::mode::{destination_matches, MouseButtonRouting, TrackpadModes, MODE_PTP};
use super::params::TrackpadParams;
use super::ptp;
use super::ptp::PtpState;
use super::report::{TrackpadPtpReport, TrackpadReport, TrackpadReports};
use crate::event::input::{MouseButtonsEvent, TrackpadEvent, TrackpadFinger};
use crate::time::Instant;
use vstd::prelude::*;

verus! {

/// Translates the events of one trackpad into HID reports, in the mode that the
/// host selected.
///
/// It also takes changes of the keymap's mouse buttons, so that a click is
/// reported while no finger is on the surface.
#[derive(Clone, Copy, Debug)]
pub struct TrackpadHidProcessor {
    /// Selects the mode slot and is compared with the destination of the
    /// keymap's mouse buttons. It is the id of the request handler on the same
    /// interface.
    pub id: u8,
    pub params: TrackpadParams,
    pub legacy: LegacyState,
    pub ptp: PtpState,
}

/// What a frame makes of a processor: `before` becomes `after`, and `reports` are
/// sent. The decoder of the selected mode decodes the frame, and the other one
/// starts afresh.
pub open spec fn decodes(
    before: TrackpadHidProcessor,
    after: TrackpadHidProcessor,
    fingers: Seq<TrackpadFinger>,
    now: Instant,
    modes: TrackpadModes,
    routing: MouseButtonRouting,
    mouse_buttons: u8,
    reports: Seq<TrackpadReport>,
) -> bool {
    let routed = mode::routed(routing, before.id, mouse_buttons, 0b111);
    &&& after.id == before.id
    &&& after.params == before.params
    &&& if modes.mode_of(before.id) == MODE_PTP {
        &&& after.legacy == legacy::fresh_legacy()
        &&& after.ptp.contacts@ == ptp::contacts_after(before.ptp.contacts@, fingers)
        &&& after.ptp.last_button_emitted == ptp::ptp_buttons(routed)
        &&& exists|r: TrackpadPtpReport|
            {
                &&& #[trigger] ptp::carries(
                    r,
                    ptp::frame_records(before.ptp.contacts@, fingers, before.params.dims, 5),
                    now,
                    ptp::ptp_buttons(routed),
                )
                &&& reports == seq![TrackpadReport::Ptp(r)]
            }
    } else {
        &&& ptp::is_fresh(after.ptp)
        &&& after.legacy == legacy::frame_state(
            before.legacy,
            fingers,
            before.params,
            now,
            routed,
        )
        &&& reports == legacy::frame_reports(before.legacy, fingers, before.params, now, routed)
    }
}

/// What a change of the keymap's buttons makes of a processor: nothing, unless the
/// buttons go to this trackpad.
pub open spec fn clicks(
    before: TrackpadHidProcessor,
    after: TrackpadHidProcessor,
    now: Instant,
    modes: TrackpadModes,
    routing: MouseButtonRouting,
    mouse_buttons: u8,
    reports: Seq<TrackpadReport>,
) -> bool {
    let routed = mode::routed(routing, before.id, mouse_buttons, 0b111);
    &&& after.id == before.id
    &&& after.params == before.params
    &&& if routing.destination != Some(before.id) {
        after == before && reports == Seq::<TrackpadReport>::empty()
    } else if modes.mode_of(before.id) == MODE_PTP {
        &&& after.legacy == before.legacy
        &&& after.ptp.contacts@ == before.ptp.contacts@
        &&& after.ptp.last_button_emitted == ptp::ptp_buttons(routed)
        &&& if ptp::ptp_buttons(routed) == before.ptp.last_button_emitted {
            reports == Seq::<TrackpadReport>::empty()
        } else {
            exists|r: TrackpadPtpReport|
                {
                    &&& #[trigger] ptp::carries(
                        r,
                        ptp::live_records(before.ptp.contacts@, before.params.dims, 5),
                        now,
                        ptp::ptp_buttons(routed),
                    )
                    &&& reports == seq![TrackpadReport::Ptp(r)]
                }
        }
    } else {
        &&& after.ptp == before.ptp
        &&& after.legacy == legacy::button_state(before.legacy, routed)
        &&& reports == legacy::button_reports(before.legacy, routed)
    }
}

impl TrackpadHidProcessor {
    /// A processor for the trackpad with this id that has seen nothing.
    pub fn new(id: u8, params: TrackpadParams) -> (processor: Self)
        ensures
            processor.id == id,
            processor.params == params,
            processor.legacy == legacy::fresh_legacy(),
            ptp::is_fresh(processor.ptp),
    {
        Self { id, params, legacy: LegacyState::default(), ptp: PtpState::default() }
    }

    /// The mode that the host selected for this trackpad.
    pub fn current_mode(&self, modes: &TrackpadModes) -> (mode: u8)
        ensures
            mode == modes.mode_of(self.id),
    {
        modes.load(self.id)
    }

    /// The buttons within `mask` to merge into this trackpad's reports: none
    /// unless the keymap's buttons go to this trackpad.
    pub fn routed_buttons(
        &self,
        routing: &MouseButtonRouting,
        mouse_buttons: u8,
        mask: u8,
    ) -> (buttons: u8)
        ensures
            buttons == mode::routed(*routing, self.id, mouse_buttons, mask),
    {
        if destination_matches(routing, self.id) {
            mouse_buttons & mask
        } else {
            0
        }
    }

    /// Whether [`Self::on_trackpad_event`] can decode `event`: the cursor motion
    /// of the legacy mouse must be computable.
    pub fn can_process(&self, event: &TrackpadEvent, modes: &TrackpadModes) -> (ok: bool)
        ensures
            ok == (modes.mode_of(self.id) == MODE_PTP || legacy::motion_computable(
                self.legacy.prev_xy,
                event.fingers@,
                self.params,
            )),
    {
        self.current_mode(modes) == MODE_PTP || self.legacy.can_process(event, &self.params)
    }

    /// Decodes one frame and returns the reports to send. `mouse_buttons` are
    /// the buttons that the keymap holds down. The decoder of the other mode
    /// starts afresh, so that the first frame after a change of mode is clean.
    pub fn on_trackpad_event(
        &mut self,
        event: &TrackpadEvent,
        now: Instant,
        modes: &TrackpadModes,
        routing: &MouseButtonRouting,
        mouse_buttons: u8,
    ) -> (reports: TrackpadReports)
        requires
            modes.mode_of(old(self).id) == MODE_PTP || legacy::motion_computable(
                old(self).legacy.prev_xy,
                event.fingers@,
                old(self).params,
            ),
        ensures
            decodes(
                *old(self),
                *final(self),
                event.fingers@,
                now,
                *modes,
                *routing,
                mouse_buttons,
                reports@,
            ),
    {
        let mut out = TrackpadReports::new();
        let routed: u8 = self.routed_buttons(routing, mouse_buttons, 0b111);
        let params = self.params;
        if self.current_mode(modes) == MODE_PTP {
            self.ptp.process(event, &params, now, routed, &mut out);
            self.legacy = LegacyState::default();
            proof {
                let r = choose|r: TrackpadPtpReport|
                    {
                        &&& #[trigger] ptp::carries(
                            r,
                            ptp::frame_records(
                                old(self).ptp.contacts@,
                                event.fingers@,
                                params.dims,
                                5,
                            ),
                            now,
                            ptp::ptp_buttons(routed),
                        )
                        &&& out@ == super::report::enqueued(
                            Seq::empty(),
                            seq![TrackpadReport::Ptp(r)],
                        )
                    };
                assert(out@ =~= seq![TrackpadReport::Ptp(r)]);
            }
        } else {
            self.legacy.process(event, &params, now, routed, &mut out);
            self.ptp = PtpState::default();
            assert(out@ =~= legacy::frame_reports(
                old(self).legacy,
                event.fingers@,
                params,
                now,
                routed,
            ));
        }
        out
    }

    /// Reports a change of the keymap's mouse buttons between two frames.
    /// Nothing happens unless the buttons go to this trackpad.
    pub fn on_mouse_buttons_event(
        &mut self,
        _event: MouseButtonsEvent,
        now: Instant,
        modes: &TrackpadModes,
        routing: &MouseButtonRouting,
        mouse_buttons: u8,
    ) -> (reports: TrackpadReports)
        ensures
            clicks(
                *old(self),
                *final(self),
                now,
                *modes,
                *routing,
                mouse_buttons,
                reports@,
            ),
    {
        let mut out = TrackpadReports::new();
        if !destination_matches(routing, self.id) {
            return out;
        }
        let routed: u8 = self.routed_buttons(routing, mouse_buttons, 0b111);
        let params = self.params;
        if self.current_mode(modes) == MODE_PTP {
            self.ptp.process_button_event(&params, now, routed, &mut out);
            proof {
                if ptp::ptp_buttons(routed) != old(self).ptp.last_button_emitted {
                    let r = choose|r: TrackpadPtpReport|
                        {
                            &&& #[trigger] ptp::carries(
                                r,
                                ptp::live_records(old(self).ptp.contacts@, params.dims, 5),
                                now,
                                ptp::ptp_buttons(routed),
                            )
                            &&& out@ == super::report::enqueued(
                                Seq::empty(),
                                seq![TrackpadReport::Ptp(r)],
                            )
                        };
                    assert(out@ =~= seq![TrackpadReport::Ptp(r)]);
                }
            }
        } else {
            self.legacy.process_button_event(routed, &mut out);
            assert(out@ =~= legacy::button_reports(old(self).legacy, routed));
        }
        out
    }
}

/// The mode that the host selected decides which reports a frame gives: one of the
/// touchpad in mode 3, and none but the mouse's in any other. The decoder that is
/// not in use forgets what it knew, and the trackpad stays the one it is.
pub proof fn mode_decides_the_reports(
    before: TrackpadHidProcessor,
    after: TrackpadHidProcessor,
    fingers: Seq<TrackpadFinger>,
    now: Instant,
    modes: TrackpadModes,
    routing: MouseButtonRouting,
    mouse_buttons: u8,
    reports: Seq<TrackpadReport>,
    i: int,
    id: int,
)
    requires
        decodes(before, after, fingers, now, modes, routing, mouse_buttons, reports),
        before.id < 4,
        0 <= id < 5,
    ensures
        after.id == before.id && after.params == before.params,
        if modes.slots@[before.id as int] == 3 {
            &&& reports.len() == 1 && reports[0] is Ptp
            &&& after.legacy.session is None && after.legacy.prev_xy is None
            &&& after.legacy.pending_motion is None && after.legacy.last_buttons_emitted == 0
        } else {
            &&& 0 <= i < reports.len() ==> reports[i] is LegacyMouse
            &&& !after.ptp.contacts@[id].active && after.ptp.last_button_emitted == 0
        },
{
    if modes.mode_of(before.id) != MODE_PTP {
        assert(after.ptp.contacts@[id] == Seq::new(5, |k: int| ptp::untouched())[id]);
    }
}

/// The touchpad's report of a frame shows the keymap's buttons 1 to 3 if they go to
/// this trackpad, and no button otherwise.
pub proof fn touchpad_shows_the_routed_buttons(
    before: TrackpadHidProcessor,
    after: TrackpadHidProcessor,
    fingers: Seq<TrackpadFinger>,
    now: Instant,
    modes: TrackpadModes,
    routing: MouseButtonRouting,
    mouse_buttons: u8,
    reports: Seq<TrackpadReport>,
)
    requires
        decodes(before, after, fingers, now, modes, routing, mouse_buttons, reports),
        modes.mode_of(before.id) == 3,
    ensures
        reports[0] matches TrackpadReport::Ptp(r) && r.button == (if routing.destination == Some(
            before.id,
        ) {
            mouse_buttons % 8
        } else {
            0
        }),
        after.ptp.last_button_emitted == (if routing.destination == Some(before.id) {
            mouse_buttons % 8
        } else {
            0
        }),
{
    mode::destination_gets_the_buttons(routing, before.id, mouse_buttons);
    let few = mouse_buttons % 8;
    assert(few & 0b111 == few % 8 && few % 8 == few && 0u8 & 0b111 == 0) by (bit_vector)
        requires
            few < 8,
    ;
}

/// The mouse's frames are those of its decoder with the keymap's buttons 1 to 3 if
/// they go to this trackpad, and with none otherwise.
pub proof fn mouse_gets_the_routed_buttons(
    before: TrackpadHidProcessor,
    after: TrackpadHidProcessor,
    fingers: Seq<TrackpadFinger>,
    now: Instant,
    modes: TrackpadModes,
    routing: MouseButtonRouting,
    mouse_buttons: u8,
    reports: Seq<TrackpadReport>,
)
    requires
        decodes(before, after, fingers, now, modes, routing, mouse_buttons, reports),
        modes.mode_of(before.id) != 3,
    ensures
        ({
            let buttons = if routing.destination == Some(before.id) {
                mouse_buttons % 8
            } else {
                0
            };
            &&& reports == legacy::frame_reports(
                before.legacy,
                fingers,
                before.params,
                now,
                buttons,
            )
            &&& after.legacy == legacy::frame_state(
                before.legacy,
                fingers,
                before.params,
                now,
                buttons,
            )
        }),
{
    mode::destination_gets_the_buttons(routing, before.id, mouse_buttons);
}

/// A change of the keymap's buttons concerns the trackpad that they go to and no
/// other: elsewhere nothing is sent and nothing changes.
pub proof fn clicks_reach_their_destination_only(
    before: TrackpadHidProcessor,
    after: TrackpadHidProcessor,
    now: Instant,
    modes: TrackpadModes,
    routing: MouseButtonRouting,
    mouse_buttons: u8,
    reports: Seq<TrackpadReport>,
)
    requires
        clicks(before, after, now, modes, routing, mouse_buttons, reports),
    ensures
        after.id == before.id && after.params == before.params,
        routing.destination != Some(before.id) ==> after == before && reports.len() == 0,
        routing.destination == Some(before.id) && modes.mode_of(before.id) == 3 ==> {
            &&& after.legacy == before.legacy
            &&& after.ptp.contacts@ == before.ptp.contacts@
            &&& after.ptp.last_button_emitted == mouse_buttons % 8
            &&& reports.len() == (if before.ptp.last_button_emitted == mouse_buttons % 8 {
                0nat
            } else {
                1
            })
            &&& reports.len() == 1 ==> (reports[0] matches TrackpadReport::Ptp(r) && r.button
                == mouse_buttons % 8)
        },
        routing.destination == Some(before.id) && modes.mode_of(before.id) != 3 ==> {
            &&& after.ptp == before.ptp
            &&& after.legacy == legacy::button_state(before.legacy, mouse_buttons % 8)
            &&& reports == legacy::button_reports(before.legacy, mouse_buttons % 8)
        },
{
    mode::destination_gets_the_buttons(routing, before.id, mouse_buttons);
    let few = mouse_buttons % 8;
    assert(few & 0b111 == few) by (bit_vector)
        requires
            few < 8,
    ;
}

} // verus!
