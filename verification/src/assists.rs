//! Driver-assist settings, merged from two packet kinds and packed into a
//! sixteen-bit mask.
//!
//! Eight fields arrive in the session packet and two (traction control and
//! anti-lock brakes) in the car status packet; every field is optional until
//! its source packet has been seen.  The mask places each field at a fixed
//! bit offset, with bits 9 and 11 left as gaps.

use vstd::prelude::*;

use crate::packet::car_status::PacketCarStatusData;
use crate::packet::session::PacketSessionData;

verus! {

/// The ten driver-assist settings, each unset until its source packet has
/// been seen.
#[derive(Debug, Clone, Copy, PartialEq, Eq, Hash)]
pub struct Assists {
    /// Steering assist: 0 off, 1 on.
    pub steering_assist: Option<u8>,
    /// Braking assist: 0 off, 1 low, 2 medium, 3 high.
    pub braking_assist: Option<u8>,
    /// Gearbox assist: 1 manual, 2 manual and suggested gear, 3 auto.
    pub gearbox_assist: Option<u8>,
    /// Pit assist: 0 off, 1 on.
    pub pit_assist: Option<u8>,
    /// Pit release assist: 0 off, 1 on.
    pub pit_release_assist: Option<u8>,
    /// ERS assist: 0 off, 1 on.
    pub ers_assist: Option<u8>,
    /// DRS assist: 0 off, 1 on.
    pub drs_assist: Option<u8>,
    /// Dynamic racing line: 0 off, 1 corners only, 2 full.
    pub dynamic_racing_line: Option<u8>,
    /// Traction control level: 0 off, 1 medium, 2 full.
    pub traction_control: Option<u8>,
    /// Anti-lock brakes: off or on.
    pub anti_lock_brakes: Option<bool>,
}

/// The value held by an optional byte field, zero when unset.
pub open spec fn opt_u8(o: Option<u8>) -> u8 {
    match o {
        Some(v) => v,
        None => 0,
    }
}

/// The sixteen-bit mask packing the ten settings at their fixed offsets:
/// steering at bit 0, braking at 1, gearbox at 3, pit at 5, pit release at
/// 6, ERS at 7, DRS at 8, racing line at 10, traction control at 12 and
/// anti-lock brakes at 13, with bits 9 and 11 unused.
pub open spec fn assists_mask(
    steering: u8,
    braking: u8,
    gearbox: u8,
    pit: u8,
    pit_release: u8,
    ers: u8,
    drs: u8,
    racing_line: u8,
    traction: u8,
    anti_lock: bool,
) -> u16 {
    (steering as u16) | ((braking as u16) << 1) | ((gearbox as u16) << 3) | ((pit as u16) << 5)
        | ((pit_release as u16) << 6) | ((ers as u16) << 7) | ((drs as u16) << 8) | ((
    racing_line as u16) << 10) | ((traction as u16) << 12) | ((if anti_lock {
        1u16
    } else {
        0u16
    }) << 13)
}

impl Assists {
    /// Whether every one of the ten fields is set: the precondition of the
    /// mask.
    pub open spec fn all_set(self) -> bool {
        self.steering_assist is Some && self.braking_assist is Some && self.gearbox_assist is Some
            && self.pit_assist is Some && self.pit_release_assist is Some
            && self.ers_assist is Some && self.drs_assist is Some
            && self.dynamic_racing_line is Some && self.traction_control is Some
            && self.anti_lock_brakes is Some
    }

    /// Whether at least one field is set.
    pub open spec fn any_set(self) -> bool {
        self.steering_assist is Some || self.braking_assist is Some || self.gearbox_assist is Some
            || self.pit_assist is Some || self.pit_release_assist is Some
            || self.ers_assist is Some || self.drs_assist is Some
            || self.dynamic_racing_line is Some || self.traction_control is Some
            || self.anti_lock_brakes is Some
    }

    /// The mask of this value, meaningful when every field is set.
    pub open spec fn mask_of(self) -> u16 {
        assists_mask(
            opt_u8(self.steering_assist),
            opt_u8(self.braking_assist),
            opt_u8(self.gearbox_assist),
            opt_u8(self.pit_assist),
            opt_u8(self.pit_release_assist),
            opt_u8(self.ers_assist),
            opt_u8(self.drs_assist),
            opt_u8(self.dynamic_racing_line),
            opt_u8(self.traction_control),
            self.anti_lock_brakes == Some(true),
        )
    }

    /// A value with every field unset.
    pub fn unset() -> (r: Assists)
        ensures
            r == (Assists {
                steering_assist: None,
                braking_assist: None,
                gearbox_assist: None,
                pit_assist: None,
                pit_release_assist: None,
                ers_assist: None,
                drs_assist: None,
                dynamic_racing_line: None,
                traction_control: None,
                anti_lock_brakes: None,
            }),
            !r.any_set(),
    {
        Assists {
            steering_assist: None,
            braking_assist: None,
            gearbox_assist: None,
            pit_assist: None,
            pit_release_assist: None,
            ers_assist: None,
            drs_assist: None,
            dynamic_racing_line: None,
            traction_control: None,
            anti_lock_brakes: None,
        }
    }

    /// The eight session-sourced fields of a session packet, with the two
    /// car-status-sourced fields left unset.
    pub fn from_session(p: PacketSessionData) -> (r: Assists)
        ensures
            r.steering_assist == Some(p.steering_assist),
            r.braking_assist == Some(p.braking_assist),
            r.gearbox_assist == Some(p.gearbox_assist),
            r.pit_assist == Some(p.pit_assist),
            r.pit_release_assist == Some(p.pit_release_assist),
            r.ers_assist == Some(p.ers_assist),
            r.drs_assist == Some(p.drs_assist),
            r.dynamic_racing_line == Some(p.dynamic_racing_line),
            r.traction_control is None,
            r.anti_lock_brakes is None,
    {
        Assists {
            steering_assist: Some(p.steering_assist),
            braking_assist: Some(p.braking_assist),
            gearbox_assist: Some(p.gearbox_assist),
            pit_assist: Some(p.pit_assist),
            pit_release_assist: Some(p.pit_release_assist),
            ers_assist: Some(p.ers_assist),
            drs_assist: Some(p.drs_assist),
            dynamic_racing_line: Some(p.dynamic_racing_line),
            traction_control: None,
            anti_lock_brakes: None,
        }
    }

    /// The two car-status-sourced fields for the given car, with the eight
    /// session-sourced fields left unset.
    pub fn from_car_status(p: PacketCarStatusData, car_index: u8) -> (r: Assists)
        requires
            car_index < 22,
        ensures
            r.steering_assist is None,
            r.braking_assist is None,
            r.gearbox_assist is None,
            r.pit_assist is None,
            r.pit_release_assist is None,
            r.ers_assist is None,
            r.drs_assist is None,
            r.dynamic_racing_line is None,
            r.traction_control == Some(p.car_status_data@[car_index as int].traction_control),
            r.anti_lock_brakes == Some(
                p.car_status_data@[car_index as int].anti_lock_brakes != 0,
            ),
    {
        let data = &p.car_status_data[car_index as usize];
        Assists {
            steering_assist: None,
            braking_assist: None,
            gearbox_assist: None,
            pit_assist: None,
            pit_release_assist: None,
            ers_assist: None,
            drs_assist: None,
            dynamic_racing_line: None,
            traction_control: Some(data.traction_control),
            anti_lock_brakes: Some(data.anti_lock_brakes != 0),
        }
    }

    /// Whether at least one field has been populated.
    pub fn is_initialised(&self) -> (r: bool)
        ensures
            r == self.any_set(),
    {
        self.steering_assist.is_some() || self.braking_assist.is_some()
            || self.gearbox_assist.is_some() || self.pit_assist.is_some()
            || self.pit_release_assist.is_some() || self.ers_assist.is_some()
            || self.drs_assist.is_some() || self.dynamic_racing_line.is_some()
            || self.traction_control.is_some() || self.anti_lock_brakes.is_some()
    }

    /// Whether every one of the ten fields has been populated.
    pub fn is_complete(&self) -> (r: bool)
        ensures
            r == self.all_set(),
    {
        self.steering_assist.is_some() && self.braking_assist.is_some()
            && self.gearbox_assist.is_some() && self.pit_assist.is_some()
            && self.pit_release_assist.is_some() && self.ers_assist.is_some()
            && self.drs_assist.is_some() && self.dynamic_racing_line.is_some()
            && self.traction_control.is_some() && self.anti_lock_brakes.is_some()
    }

    /// The sixteen-bit mask of the ten settings.  Succeeds exactly when every
    /// field is set; fails otherwise, never observing a partially merged
    /// value.
    pub fn get_mask(&self) -> (r: Result<u16, &'static str>)
        ensures
            self.all_set() ==> r == Ok::<u16, &'static str>(self.mask_of()),
            !self.all_set() ==> (r matches Err(m) && m@ == "Assists are not initialised!"@),
    {
        if self.steering_assist.is_some() && self.braking_assist.is_some()
            && self.gearbox_assist.is_some() && self.pit_assist.is_some()
            && self.pit_release_assist.is_some() && self.ers_assist.is_some()
            && self.drs_assist.is_some() && self.dynamic_racing_line.is_some()
            && self.traction_control.is_some() && self.anti_lock_brakes.is_some() {
            let steering = *self.steering_assist.as_ref().unwrap();
            let braking = *self.braking_assist.as_ref().unwrap();
            let gearbox = *self.gearbox_assist.as_ref().unwrap();
            let pit = *self.pit_assist.as_ref().unwrap();
            let pit_release = *self.pit_release_assist.as_ref().unwrap();
            let ers = *self.ers_assist.as_ref().unwrap();
            let drs = *self.drs_assist.as_ref().unwrap();
            let racing_line = *self.dynamic_racing_line.as_ref().unwrap();
            let traction = *self.traction_control.as_ref().unwrap();
            let anti_lock = *self.anti_lock_brakes.as_ref().unwrap();
            let mask: u16 = (steering as u16) | ((braking as u16) << 1) | ((gearbox as u16) << 3)
                | ((pit as u16) << 5) | ((pit_release as u16) << 6) | ((ers as u16) << 7) | ((
            drs as u16) << 8) | ((racing_line as u16) << 10) | ((traction as u16) << 12) | ((
            if anti_lock {
                1u16
            } else {
                0u16
            }) << 13);
            Ok(mask)
        } else {
            Err("Assists are not initialised!")
        }
    }

    /// The masked bits of one named assist, still in their wire position and
    /// truncated to a byte exactly as the mask arithmetic leaves them.
    /// Recomputes the whole mask first, so it fails unless every field is
    /// set; an unrecognised name is its own error.
    pub fn decode_assist(&self, assist: &str) -> (r: Result<u8, &str>)
        ensures
            !self.all_set() ==> (r matches Err(m) && m@ == "Assists are not initialised!"@),
            self.all_set() ==> ({
                let mask = self.mask_of();
                &&& assist@ == "steering_assist"@ ==> r == Ok::<u8, &str>((mask & 0x0001) as u8)
                &&& assist@ == "braking_assist"@ ==> r == Ok::<u8, &str>((mask & 0x0006) as u8)
                &&& assist@ == "gearbox_assist"@ ==> r == Ok::<u8, &str>((mask & 0x0018) as u8)
                &&& assist@ == "pit_assist"@ ==> r == Ok::<u8, &str>((mask & 0x0020) as u8)
                &&& assist@ == "pit_release_assist"@ ==> r == Ok::<u8, &str>((mask & 0x0040) as u8)
                &&& assist@ == "ers_assist"@ ==> r == Ok::<u8, &str>((mask & 0x0080) as u8)
                &&& assist@ == "drs_assist"@ ==> r == Ok::<u8, &str>((mask & 0x0100) as u8)
                &&& assist@ == "racing_line"@ ==> r == Ok::<u8, &str>((mask & 0x0600) as u8)
                &&& assist@ == "traction_control"@ ==> r == Ok::<u8, &str>((mask & 0x1800) as u8)
                &&& assist@ == "anti_lock_brakes"@ ==> r == Ok::<u8, &str>((mask & 0x2000) as u8)
            }),
    {
        proof {
            reveal_strlit("steering_assist");
            reveal_strlit("braking_assist");
            reveal_strlit("gearbox_assist");
            reveal_strlit("pit_assist");
            reveal_strlit("pit_release_assist");
            reveal_strlit("ers_assist");
            reveal_strlit("drs_assist");
            reveal_strlit("racing_line");
            reveal_strlit("traction_control");
            reveal_strlit("anti_lock_brakes");
            assert("steering_assist"@.len() == 15);
            assert("braking_assist"@.len() == 14);
            assert("gearbox_assist"@.len() == 14);
            assert("pit_assist"@.len() == 10);
            assert("pit_release_assist"@.len() == 18);
            assert("ers_assist"@.len() == 10);
            assert("drs_assist"@.len() == 10);
            assert("racing_line"@.len() == 11);
            assert("traction_control"@.len() == 16);
            assert("anti_lock_brakes"@.len() == 16);
            assert("braking_assist"@[0] == 'b');
            assert("gearbox_assist"@[0] == 'g');
            assert("pit_assist"@[0] == 'p');
            assert("ers_assist"@[0] == 'e');
            assert("drs_assist"@[0] == 'd');
            assert("traction_control"@[0] == 't');
            assert("anti_lock_brakes"@[0] == 'a');
        }
        let mask = match self.get_mask() {
            Ok(m) => m,
            Err(e) => {
                return Err(e);
            },
        };
        if str_eq(assist, "steering_assist") {
            Ok((mask & 0x0001) as u8)
        } else if str_eq(assist, "braking_assist") {
            Ok((mask & 0x0006) as u8)
        } else if str_eq(assist, "gearbox_assist") {
            Ok((mask & 0x0018) as u8)
        } else if str_eq(assist, "pit_assist") {
            Ok((mask & 0x0020) as u8)
        } else if str_eq(assist, "pit_release_assist") {
            Ok((mask & 0x0040) as u8)
        } else if str_eq(assist, "ers_assist") {
            Ok((mask & 0x0080) as u8)
        } else if str_eq(assist, "drs_assist") {
            Ok((mask & 0x0100) as u8)
        } else if str_eq(assist, "racing_line") {
            Ok((mask & 0x0600) as u8)
        } else if str_eq(assist, "traction_control") {
            Ok((mask & 0x1800) as u8)
        } else if str_eq(assist, "anti_lock_brakes") {
            Ok((mask & 0x2000) as u8)
        } else {
            Err("Unknown assist was supplied")
        }
    }
}

/// Character-wise string comparison.
fn str_eq(a: &str, b: &str) -> (r: bool)
    ensures
        r == (a@ == b@),
{
    let n = a.unicode_len();
    let m = b.unicode_len();
    if n != m {
        return false;
    }
    for i in 0..n
        invariant
            n == a@.len(),
            n == b@.len(),
            forall|j: int| 0 <= j < i ==> a@[j] == b@[j],
    {
        if a.get_char(i) != b.get_char(i) {
            return false;
        }
    }
    proof {
        assert(a@ =~= b@);
    }
    true
}

} // verus!

