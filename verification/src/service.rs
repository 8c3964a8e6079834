//! The device controller and per-call dispatcher: validated, side-effecting
//! access to the LED strip capability, and the mapping from one incoming
//! command to one device operation and one reply.

use vstd::prelude::*;

use crate::color::Brightness;
use crate::color::Color;
use crate::color::Pixel;
use crate::command::DeviceCommand;
use crate::command::accepts;
use crate::command::global_after;
use crate::command::pixels_after;
use crate::command::rejection;
use crate::device::LedStrip;
use crate::device::cleared;
use crate::device::filled;
use crate::device::rendered;
use crate::fault::Fault;

verus! {

/// The device controller: it owns the strip capability for the lifetime of
/// one service run, validates each request, and translates accepted
/// requests into strip operations. Rejected requests leave the device
/// state untouched.
pub struct BlinkService<T: LedStrip> {
    leds: T,
}

impl<T: LedStrip> BlinkService<T> {
    /// The staging buffer of the owned strip.
    pub closed spec fn pixels(&self) -> Seq<Pixel> {
        self.leds.pixels()
    }

    /// The global brightness multiplier of the owned strip.
    pub closed spec fn global(&self) -> Brightness {
        self.leds.global()
    }

    /// The frames the owned strip has transferred so far.
    pub closed spec fn sent(&self) -> Seq<Seq<Color>> {
        self.leds.sent()
    }

    /// Well-formedness of the owned strip.
    pub closed spec fn inv(&self) -> bool {
        self.leds.inv()
    }

    /// Takes ownership of the strip capability.
    pub fn new(leds: T) -> (s: Self)
        ensures
            s.inv() <==> leds.inv(),
            s.pixels() == leds.pixels(),
            s.global() == leds.global(),
            s.sent() == leds.sent(),
    {
        BlinkService { leds }
    }

    /// Releases the strip capability, unchanged, when a service run is
    /// over: the inverse of `new`.
    pub fn release(self) -> (leds: T)
        ensures
            leds.inv() <==> self.inv(),
            leds.pixels() == self.pixels(),
            leds.global() == self.global(),
            leds.sent() == self.sent(),
    {
        self.leds
    }

    /// The number of addressable units of the owned strip.
    pub fn pixel_count(&self) -> (n: usize)
        requires
            self.inv(),
        ensures
            n == self.pixels().len(),
    {
        self.leds.pixel_count()
    }

    /// Sets every addressable unit to one color scaled by `brightness`.
    /// Fails with `InvalidParameter`, changing nothing, iff the brightness
    /// lies outside the unit interval.
    pub fn set_all(&mut self, r: u8, g: u8, b: u8, brightness: Brightness) -> (res: Result<
        (),
        Fault,
    >)
        requires
            old(self).inv(),
        ensures
            final(self).inv(),
            final(self).global() == old(self).global(),
            final(self).sent() == old(self).sent(),
            brightness.valid() ==> res is Ok && final(self).pixels() == filled(
                old(self).pixels().len(),
                r,
                g,
                b,
                brightness,
            ),
            !brightness.valid() ==> res == Result::<(), Fault>::Err(Fault::InvalidParameter)
                && final(self).pixels() == old(self).pixels(),
    {
        if brightness.is_valid() {
            self.leds.set_all(r, g, b, brightness);
            Ok(())
        } else {
            Err(Fault::InvalidParameter)
        }
    }

    /// Sets one addressable unit. Fails with `InvalidParameter` on an
    /// out-of-range brightness, else with `OutOfRange` on an index at or
    /// beyond the device length; a failed call changes nothing.
    pub fn set_pixel(&mut self, x: u32, r: u8, g: u8, b: u8, brightness: Brightness) -> (res:
        Result<(), Fault>)
        requires
            old(self).inv(),
        ensures
            final(self).inv(),
            final(self).global() == old(self).global(),
            final(self).sent() == old(self).sent(),
            !brightness.valid() ==> res == Result::<(), Fault>::Err(Fault::InvalidParameter)
                && final(self).pixels() == old(self).pixels(),
            brightness.valid() && (x as nat) >= old(self).pixels().len() ==> res == Result::<
                (),
                Fault,
            >::Err(Fault::OutOfRange) && final(self).pixels() == old(self).pixels(),
            brightness.valid() && (x as nat) < old(self).pixels().len() ==> res is Ok && final(self).pixels() == old(self).pixels().update(x as int, Pixel { r, g, b, brightness }),
    {
        if !brightness.is_valid() {
            Err(Fault::InvalidParameter)
        } else {
            let n: usize = self.leds.pixel_count();
            let xi: usize = x as usize;
            if xi >= n {
                Err(Fault::OutOfRange)
            } else {
                self.leds.set_pixel(xi, r, g, b, brightness);
                Ok(())
            }
        }
    }

    /// Sets the global brightness multiplier applied on subsequent flushes.
    /// Fails with `InvalidParameter`, changing nothing, iff the brightness
    /// lies outside the unit interval.
    pub fn set_brightness(&mut self, brightness: Brightness) -> (res: Result<(), Fault>)
        requires
            old(self).inv(),
        ensures
            final(self).inv(),
            final(self).pixels() == old(self).pixels(),
            final(self).sent() == old(self).sent(),
            brightness.valid() ==> res is Ok && final(self).global() == brightness,
            !brightness.valid() ==> res == Result::<(), Fault>::Err(Fault::InvalidParameter)
                && final(self).global() == old(self).global(),
    {
        if brightness.is_valid() {
            self.leds.set_brightness(brightness);
            Ok(())
        } else {
            Err(Fault::InvalidParameter)
        }
    }

    /// Resets every addressable unit to the off state; no failure mode.
    pub fn clear(&mut self)
        requires
            old(self).inv(),
        ensures
            final(self).inv(),
            final(self).pixels() == cleared(old(self).pixels()),
            final(self).global() == old(self).global(),
            final(self).sent() == old(self).sent(),
    {
        self.leds.clear();
    }

    /// Flushes the staged state to the physical device. The staging state
    /// is untouched either way; on success exactly the rendered frame is
    /// recorded as transferred, and a failed transfer is the one failure
    /// that is surfaced to the caller, as `DeviceIOError`.
    pub fn show(&mut self) -> (res: Result<(), Fault>)
        requires
            old(self).inv(),
        ensures
            final(self).inv(),
            final(self).pixels() == old(self).pixels(),
            final(self).global() == old(self).global(),
            res is Ok ==> final(self).sent() == old(self).sent().push(
                rendered(old(self).pixels(), old(self).global()),
            ),
            res is Err ==> res == Result::<(), Fault>::Err(Fault::DeviceIOError) && final(self).sent() == old(self).sent(),
    {
        if self.leds.show() {
            Ok(())
        } else {
            Err(Fault::DeviceIOError)
        }
    }

    /// The per-call dispatcher: maps one incoming command to the matching
    /// device operation and produces the reply. A rejected command is
    /// answered with its fault and changes nothing; an accepted command
    /// other than `Show` always succeeds; `Show` is answered with
    /// `DeviceIOError` exactly when the transfer fails. No command, however
    /// it fares, terminates the worker.
    pub fn handle(&mut self, cmd: DeviceCommand) -> (res: Result<(), Fault>)
        requires
            old(self).inv(),
        ensures
            final(self).inv(),
            !accepts(old(self).pixels().len(), cmd) ==> res == Result::<(), Fault>::Err(
                rejection(cmd),
            ) && final(self).pixels() == old(self).pixels() && final(self).global() == old(self).global() && final(self).sent() == old(self).sent(),
            accepts(old(self).pixels().len(), cmd) && !(cmd is Show) ==> res is Ok && final(self).pixels() == pixels_after(old(self).pixels(), cmd) && final(self).global()
                == global_after(old(self).global(), cmd) && final(self).sent() == old(self).sent(),
            cmd is Show ==> final(self).pixels() == old(self).pixels() && final(self).global()
                == old(self).global() && (res is Ok ==> final(self).sent() == old(self).sent().push(rendered(old(self).pixels(), old(self).global()))) && (res is Err ==> res
                == Result::<(), Fault>::Err(Fault::DeviceIOError) && final(self).sent() == old(self).sent()),
    {
        match cmd {
            DeviceCommand::SetAll { r, g, b, brightness } => self.set_all(r, g, b, brightness),
            DeviceCommand::SetPixel { x, r, g, b, brightness } => self.set_pixel(
                x,
                r,
                g,
                b,
                brightness,
            ),
            DeviceCommand::SetBrightness { brightness } => self.set_brightness(brightness),
            DeviceCommand::Clear => {
                self.clear();
                Ok(())
            },
            DeviceCommand::Show => self.show(),
        }
    }
}

} // verus!
