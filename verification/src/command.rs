//! The call surface: one logical request per incoming call, and the
//! validation rule that decides whether the device acts on it.

use vstd::prelude::*;

use crate::color::Brightness;
use crate::color::Pixel;
use crate::device::cleared;
use crate::device::filled;
use crate::fault::Fault;

verus! {

/// One logical request, constructed per incoming call and consumed
/// synchronously. The pixel index arrives as the wire's unsigned integer;
/// brightness arrives unvalidated.
#[derive(Clone, Copy, PartialEq, Eq, Structural, Debug)]
pub enum DeviceCommand {
    /// Set every addressable unit to one color and brightness.
    SetAll { r: u8, g: u8, b: u8, brightness: Brightness },
    /// Set one addressable unit.
    SetPixel { x: u32, r: u8, g: u8, b: u8, brightness: Brightness },
    /// Set the global brightness multiplier.
    SetBrightness { brightness: Brightness },
    /// Reset every addressable unit to the off state.
    Clear,
    /// Flush the staged state to the physical device.
    Show,
}

/// Whether a command passes validation against a device of `len` units:
/// every brightness must lie in the unit interval and a pixel index must
/// be below the device length.
pub open spec fn accepts(len: nat, cmd: DeviceCommand) -> bool {
    match cmd {
        DeviceCommand::SetAll { brightness, .. } => brightness.valid(),
        DeviceCommand::SetPixel { x, brightness, .. } => brightness.valid() && (x as nat) < len,
        DeviceCommand::SetBrightness { brightness } => brightness.valid(),
        DeviceCommand::Clear => true,
        DeviceCommand::Show => true,
    }
}

/// The fault a rejected command is answered with: an invalid brightness is
/// reported before an out-of-range index. Meaningful only where `accepts`
/// is false.
pub open spec fn rejection(cmd: DeviceCommand) -> Fault {
    match cmd {
        DeviceCommand::SetPixel { brightness, .. } => if !brightness.valid() {
            Fault::InvalidParameter
        } else {
            Fault::OutOfRange
        },
        _ => Fault::InvalidParameter,
    }
}

/// The staging buffer after an accepted command is applied.
pub open spec fn pixels_after(pixels: Seq<Pixel>, cmd: DeviceCommand) -> Seq<Pixel> {
    match cmd {
        DeviceCommand::SetAll { r, g, b, brightness } => filled(pixels.len(), r, g, b, brightness),
        DeviceCommand::SetPixel { x, r, g, b, brightness } => pixels.update(
            x as int,
            Pixel { r, g, b, brightness },
        ),
        DeviceCommand::SetBrightness { .. } => pixels,
        DeviceCommand::Clear => cleared(pixels),
        DeviceCommand::Show => pixels,
    }
}

/// The global brightness multiplier after an accepted command is applied.
pub open spec fn global_after(global: Brightness, cmd: DeviceCommand) -> Brightness {
    match cmd {
        DeviceCommand::SetBrightness { brightness } => brightness,
        _ => global,
    }
}

} // verus!
