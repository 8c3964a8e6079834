//! The device capability: an LED strip with a staging buffer, a global
//! brightness multiplier, and a flush operation that transfers the rendered
//! frame to the physical device.
//!
//! The capability is a trait, so that a test double can stand in for real
//! hardware. Its model is three spec-level pieces: the staging buffer (a
//! sequence of pixels), the global brightness, and the sequence of frames
//! transferred so far.

use vstd::prelude::*;
use vstd::pervasive::VecAdditionalExecFns;

use crate::color::Brightness;
use crate::color::Color;
use crate::color::Pixel;
use crate::color::off_pixel;
use crate::color::scale_spec;

verus! {

/// Every pixel of the buffer set to the off state; the length is kept.
pub open spec fn cleared(pixels: Seq<Pixel>) -> Seq<Pixel> {
    Seq::new(pixels.len(), |i: int| off_pixel())
}

/// Every pixel of a buffer of length `len` set to one color and brightness.
pub open spec fn filled(len: nat, r: u8, g: u8, b: u8, brightness: Brightness) -> Seq<Pixel> {
    Seq::new(len, |i: int| Pixel { r, g, b, brightness })
}

/// One pixel rendered to the color the physical device receives: each
/// channel scaled by the pixel's own brightness and the global multiplier.
pub open spec fn scaled_pixel(p: Pixel, global: Brightness) -> Color {
    Color {
        r: scale_spec(p.r, p.brightness, global),
        g: scale_spec(p.g, p.brightness, global),
        b: scale_spec(p.b, p.brightness, global),
    }
}

/// The frame a flush transfers: the whole buffer rendered under the global
/// brightness multiplier.
pub open spec fn rendered(pixels: Seq<Pixel>, global: Brightness) -> Seq<Color> {
    pixels.map_values(|p: Pixel| scaled_pixel(p, global))
}

/// Clearing an already cleared buffer changes nothing: repeated `clear`
/// calls leave the device in the same all-off state.
pub proof fn lemma_clear_idempotent(pixels: Seq<Pixel>)
    ensures
        cleared(cleared(pixels)) == cleared(pixels),
{
    assert(cleared(cleared(pixels)) =~= cleared(pixels));
}

/// An LED strip capability. Implementations promise nothing about how the
/// physical transfer is done, only how each operation changes the model:
/// the staging buffer `pixels`, the `global` brightness, and the frames
/// `sent` so far. The operations are only required to work on a
/// well-formed strip (`inv`), which each operation preserves.
pub trait LedStrip: Sized {
    /// The staging buffer: one entry per addressable unit.
    spec fn pixels(&self) -> Seq<Pixel>;

    /// The global brightness multiplier applied when a frame is rendered.
    spec fn global(&self) -> Brightness;

    /// The frames transferred to the physical device so far.
    spec fn sent(&self) -> Seq<Seq<Color>>;

    /// Well-formedness: whatever the implementation needs of its own state.
    /// It must at least keep the stored brightness values valid.
    spec fn inv(&self) -> bool;

    /// The number of addressable units; fixed for the strip's lifetime.
    fn pixel_count(&self) -> (n: usize)
        requires
            self.inv(),
        ensures
            n == self.pixels().len(),
    ;

    /// Sets every addressable unit to one color and brightness.
    fn set_all(&mut self, r: u8, g: u8, b: u8, brightness: Brightness)
        requires
            old(self).inv(),
            brightness.valid(),
        ensures
            final(self).inv(),
            final(self).pixels() == filled(old(self).pixels().len(), r, g, b, brightness),
            final(self).global() == old(self).global(),
            final(self).sent() == old(self).sent(),
    ;

    /// Sets one addressable unit.
    fn set_pixel(&mut self, x: usize, r: u8, g: u8, b: u8, brightness: Brightness)
        requires
            old(self).inv(),
            brightness.valid(),
            x < old(self).pixels().len(),
        ensures
            final(self).inv(),
            final(self).pixels() == old(self).pixels().update(
                x as int,
                Pixel { r, g, b, brightness },
            ),
            final(self).global() == old(self).global(),
            final(self).sent() == old(self).sent(),
    ;

    /// Sets the global brightness multiplier applied on subsequent flushes.
    fn set_brightness(&mut self, brightness: Brightness)
        requires
            old(self).inv(),
            brightness.valid(),
        ensures
            final(self).inv(),
            final(self).pixels() == old(self).pixels(),
            final(self).global() == brightness,
            final(self).sent() == old(self).sent(),
    ;

    /// Resets every addressable unit to the off state.
    fn clear(&mut self)
        requires
            old(self).inv(),
        ensures
            final(self).inv(),
            final(self).pixels() == cleared(old(self).pixels()),
            final(self).global() == old(self).global(),
            final(self).sent() == old(self).sent(),
    ;

    /// Transfers the rendered frame to the physical device. Returns whether
    /// the transfer went through; on failure nothing is recorded as sent
    /// and the staging state is untouched, so the caller may re-assert the
    /// desired state and flush again.
    fn show(&mut self) -> (ok: bool)
        requires
            old(self).inv(),
        ensures
            final(self).inv(),
            final(self).pixels() == old(self).pixels(),
            final(self).global() == old(self).global(),
            ok ==> final(self).sent() == old(self).sent().push(
                rendered(old(self).pixels(), old(self).global()),
            ),
            !ok ==> final(self).sent() == old(self).sent(),
    ;
}

/// An in-memory LED strip: the reference implementation of [`LedStrip`] and
/// the stand-in for real hardware in tests. It keeps every frame a
/// successful flush would have transferred, and can be told to fail its
/// next transfer, so that callers can observe exactly what reached the
/// device and how a transport failure is reported.
pub struct MemoryLed {
    buf: Vec<Pixel>,
    global: Brightness,
    frames: Vec<Vec<Color>>,
    fail_next: bool,
}

impl MemoryLed {
    /// A strip of `len` addressable units, all off, at full global
    /// brightness, with nothing transferred yet.
    pub fn new(len: usize) -> (l: MemoryLed)
        ensures
            l.inv(),
            l.pixels() == Seq::new(len as nat, |i: int| off_pixel()),
            l.global().permille == crate::color::BRIGHTNESS_FULL,
            l.sent() == Seq::<Seq<Color>>::empty(),
            !l.will_fail(),
    {
        let mut buf: Vec<Pixel> = Vec::new();
        let mut i: usize = 0;
        while i < len
            invariant
                i <= len,
                buf@.len() == i,
                forall|k: int| 0 <= k < i ==> buf@[k] == off_pixel(),
            decreases len - i,
        {
            buf.push(Pixel::off());
            i = i + 1;
        }
        proof {
            assert(buf@ =~= Seq::new(len as nat, |i: int| off_pixel()));
        }
        let l = MemoryLed { buf, global: Brightness::full(), frames: Vec::new(), fail_next: false };
        proof {
            assert(l.sent() =~= Seq::<Seq<Color>>::empty());
        }
        l
    }

    /// Whether the next transfer has been set up to fail.
    pub closed spec fn will_fail(&self) -> bool {
        self.fail_next
    }

    /// Makes the next `show` fail, to simulate a transport failure. The
    /// staging state and the transfer record are untouched.
    pub fn fail_next_show(&mut self)
        requires
            old(self).inv(),
        ensures
            final(self).inv(),
            final(self).pixels() == old(self).pixels(),
            final(self).global() == old(self).global(),
            final(self).sent() == old(self).sent(),
            final(self).will_fail(),
    {
        self.fail_next = true;
    }

    /// The number of frames transferred to the device so far.
    pub fn frame_count(&self) -> (n: usize)
        ensures
            n == self.sent().len(),
    {
        self.frames.len()
    }

    /// One transferred frame.
    pub fn sent_frame(&self, i: usize) -> (f: &Vec<Color>)
        requires
            i < self.sent().len(),
        ensures
            f@ == self.sent()[i as int],
    {
        &self.frames[i]
    }

    /// One entry of the staging buffer.
    pub fn pixel_at(&self, i: usize) -> (p: Pixel)
        requires
            i < self.pixels().len(),
        ensures
            p == self.pixels()[i as int],
    {
        self.buf[i]
    }

    /// The current global brightness multiplier.
    pub fn global_brightness(&self) -> (b: Brightness)
        ensures
            b == self.global(),
    {
        self.global
    }
}

impl LedStrip for MemoryLed {
    closed spec fn pixels(&self) -> Seq<Pixel> {
        self.buf@
    }

    closed spec fn global(&self) -> Brightness {
        self.global
    }

    closed spec fn sent(&self) -> Seq<Seq<Color>> {
        self.frames@.map_values(|f: Vec<Color>| f@)
    }

    closed spec fn inv(&self) -> bool {
        &&& self.global.valid()
        &&& forall|k: int| 0 <= k < self.buf@.len() ==> (#[trigger] self.buf@[k]).brightness.valid()
    }

    fn pixel_count(&self) -> (n: usize) {
        self.buf.len()
    }

    fn set_all(&mut self, r: u8, g: u8, b: u8, brightness: Brightness) {
        let n: usize = self.buf.len();
        let mut i: usize = 0;
        while i < n
            invariant
                i <= n,
                self.buf@.len() == n,
                self.global == old(self).global,
                self.frames == old(self).frames,
                self.fail_next == old(self).fail_next,
                self.global.valid(),
                brightness.valid(),
                forall|k: int| 0 <= k < i ==> self.buf@[k] == (Pixel { r, g, b, brightness }),
                forall|k: int| i <= k < n ==> self.buf@[k] == old(self).buf@[k],
            decreases n - i,
        {
            self.buf.set(i, Pixel { r, g, b, brightness });
            i = i + 1;
        }
        proof {
            assert(self.buf@ =~= filled(old(self).pixels().len(), r, g, b, brightness));
        }
    }

    fn set_pixel(&mut self, x: usize, r: u8, g: u8, b: u8, brightness: Brightness) {
        self.buf.set(x, Pixel { r, g, b, brightness });
    }

    fn set_brightness(&mut self, brightness: Brightness) {
        self.global = brightness;
    }

    fn clear(&mut self) {
        let n: usize = self.buf.len();
        let mut i: usize = 0;
        while i < n
            invariant
                i <= n,
                self.buf@.len() == n,
                self.global == old(self).global,
                self.frames == old(self).frames,
                self.fail_next == old(self).fail_next,
                self.global.valid(),
                forall|k: int| 0 <= k < i ==> self.buf@[k] == off_pixel(),
                forall|k: int| i <= k < n ==> self.buf@[k] == old(self).buf@[k],
            decreases n - i,
        {
            self.buf.set(i, Pixel::off());
            i = i + 1;
        }
        proof {
            assert(self.buf@ =~= cleared(old(self).pixels()));
        }
    }

    fn show(&mut self) -> (ok: bool) {
        if self.fail_next {
            self.fail_next = false;
            proof {
                assert(self.sent() =~= old(self).sent());
            }
            false
        } else {
            let n: usize = self.buf.len();
            let mut frame: Vec<Color> = Vec::new();
            let mut i: usize = 0;
            while i < n
                invariant
                    i <= n,
                    self == old(self),
                    self.buf@.len() == n,
                    self.inv(),
                    frame@.len() == i,
                    forall|k: int| 0 <= k < i ==> frame@[k] == scaled_pixel(self.buf@[k], self.global),
                decreases n - i,
            {
                let p: Pixel = self.buf[i];
                let c = Color {
                    r: crate::color::scale_channel(p.r, p.brightness, self.global),
                    g: crate::color::scale_channel(p.g, p.brightness, self.global),
                    b: crate::color::scale_channel(p.b, p.brightness, self.global),
                };
                frame.push(c);
                i = i + 1;
            }
            proof {
                assert(frame@ =~= rendered(self.buf@, self.global));
            }
            self.frames.push(frame);
            proof {
                assert(self.sent() =~= old(self).sent().push(
                    rendered(old(self).pixels(), old(self).global()),
                ));
            }
            true
        }
    }
}

} // verus!
