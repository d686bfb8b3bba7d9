//! The state of a joystick at one moment.

use vstd::prelude::*;

verus! {

/// A state record that can be read from the layout in which the device
/// reports it.
pub trait FromDeviceState: Sized {
    /// The layout that the device fills.
    type RawState;

    /// The record that a filled layout stands for.
    spec fn decoded(state: Self::RawState) -> Self;

    /// Reads a filled layout.
    fn from_instance(state: Self::RawState) -> (out: Self)
        ensures
            out == Self::decoded(state),
    ;
}

/// The joystick layout with two sliders and four point-of-view hats, as the
/// device fills it.
#[allow(non_snake_case)]
#[derive(Clone, Copy, Debug, PartialEq, Eq)]
pub struct RawJoyState {
    pub lX: i32,
    pub lY: i32,
    pub lZ: i32,
    pub lRx: i32,
    pub lRy: i32,
    pub lRz: i32,
    pub rglSlider: [i32; 2],
    pub rgdwPOV: [u32; 4],
    pub rgbButtons: [u8; 128],
    pub lVX: i32,
    pub lVY: i32,
    pub lVZ: i32,
    pub lVRx: i32,
    pub lVRy: i32,
    pub lVRz: i32,
    pub rglVSlider: [i32; 2],
    pub lAX: i32,
    pub lAY: i32,
    pub lAZ: i32,
    pub lARx: i32,
    pub lARy: i32,
    pub lARz: i32,
    pub rglASlider: [i32; 2],
    pub lFX: i32,
    pub lFY: i32,
    pub lFZ: i32,
    pub lFRx: i32,
    pub lFRy: i32,
    pub lFRz: i32,
    pub rglFSlider: [i32; 2],
}

/// A snapshot of a joystick: position, velocity, acceleration and force on
/// each axis and slider, the hats and the buttons.
#[derive(Clone, Copy, Debug, PartialEq, Eq)]
pub struct JoyState {
    pub x: i32,
    pub y: i32,
    pub z: i32,
    pub rx: i32,
    pub ry: i32,
    pub rz: i32,
    pub slider: [i32; 2],
    pub pov: [u32; 4],
    pub buttons: [u8; 128],
    pub v_x: i32,
    pub v_y: i32,
    pub v_z: i32,
    pub v_rx: i32,
    pub v_ry: i32,
    pub v_rz: i32,
    pub v_slider: [i32; 2],
    pub a_x: i32,
    pub a_y: i32,
    pub a_z: i32,
    pub a_rx: i32,
    pub a_ry: i32,
    pub a_rz: i32,
    pub a_slider: [i32; 2],
    pub f_x: i32,
    pub f_y: i32,
    pub f_z: i32,
    pub f_rx: i32,
    pub f_ry: i32,
    pub f_rz: i32,
    pub f_slider: [i32; 2],
}

impl FromDeviceState for JoyState {
    type RawState = RawJoyState;

    open spec fn decoded(state: RawJoyState) -> JoyState {
        JoyState {
            x: state.lX,
            y: state.lY,
            z: state.lZ,
            rx: state.lRx,
            ry: state.lRy,
            rz: state.lRz,
            slider: state.rglSlider,
            pov: state.rgdwPOV,
            buttons: state.rgbButtons,
            v_x: state.lVX,
            v_y: state.lVY,
            v_z: state.lVZ,
            v_rx: state.lVRx,
            v_ry: state.lVRy,
            v_rz: state.lVRz,
            v_slider: state.rglVSlider,
            a_x: state.lAX,
            a_y: state.lAY,
            a_z: state.lAZ,
            a_rx: state.lARx,
            a_ry: state.lARy,
            a_rz: state.lARz,
            a_slider: state.rglASlider,
            f_x: state.lFX,
            f_y: state.lFY,
            f_z: state.lFZ,
            f_rx: state.lFRx,
            f_ry: state.lFRy,
            f_rz: state.lFRz,
            f_slider: state.rglFSlider,
        }
    }

    fn from_instance(state: RawJoyState) -> (out: JoyState) {
        JoyState {
            x: state.lX,
            y: state.lY,
            z: state.lZ,
            rx: state.lRx,
            ry: state.lRy,
            rz: state.lRz,
            slider: state.rglSlider,
            pov: state.rgdwPOV,
            buttons: state.rgbButtons,
            v_x: state.lVX,
            v_y: state.lVY,
            v_z: state.lVZ,
            v_rx: state.lVRx,
            v_ry: state.lVRy,
            v_rz: state.lVRz,
            v_slider: state.rglVSlider,
            a_x: state.lAX,
            a_y: state.lAY,
            a_z: state.lAZ,
            a_rx: state.lARx,
            a_ry: state.lARy,
            a_rz: state.lARz,
            a_slider: state.rglASlider,
            f_x: state.lFX,
            f_y: state.lFY,
            f_z: state.lFZ,
            f_rx: state.lFRx,
            f_ry: state.lFRy,
            f_rz: state.lFRz,
            f_slider: state.rglFSlider,
        }
    }
}

} // verus!
