use blink_service::color::Brightness;
use blink_service::color::Color;
use blink_service::color::Pixel;
use blink_service::color::scale_channel;
use blink_service::command::DeviceCommand;
use blink_service::device::MemoryLed;
use blink_service::fault::Fault;
use blink_service::service::BlinkService;

fn full() -> Brightness {
    Brightness { permille: 1000 }
}

fn off() -> Pixel {
    Pixel { r: 0, g: 0, b: 0, brightness: Brightness { permille: 0 } }
}

#[test]
fn new_strip_is_all_off() {
    let led = MemoryLed::new(4);
    assert_eq!(led.global_brightness().permille, 1000);
    assert_eq!(led.frame_count(), 0);
    for i in 0..4 {
        assert_eq!(led.pixel_at(i), off());
    }
}

#[test]
fn invalid_brightness_rejected_everywhere() {
    let led = MemoryLed::new(3);
    let mut svc = BlinkService::new(led);
    for bad in [Brightness { permille: 1001 }, Brightness { permille: -1 }, Brightness {
        permille: 2000,
    }, Brightness { permille: i32::MIN }] {
        assert_eq!(svc.set_all(9, 9, 9, bad), Err(Fault::InvalidParameter));
        assert_eq!(svc.set_pixel(0, 9, 9, 9, bad), Err(Fault::InvalidParameter));
        assert_eq!(svc.set_brightness(bad), Err(Fault::InvalidParameter));
    }
    let led = svc.release();
    for i in 0..3 {
        assert_eq!(led.pixel_at(i), off());
    }
    assert_eq!(led.global_brightness().permille, 1000);
    assert_eq!(led.frame_count(), 0);
}

#[test]
fn boundary_brightness_accepted() {
    let led = MemoryLed::new(1);
    let mut svc = BlinkService::new(led);
    assert_eq!(svc.set_brightness(Brightness { permille: 0 }), Ok(()));
    assert_eq!(svc.set_brightness(Brightness { permille: 1000 }), Ok(()));
    assert_eq!(svc.set_all(1, 2, 3, Brightness { permille: 0 }), Ok(()));
}

#[test]
fn out_of_range_index_rejected() {
    let led = MemoryLed::new(3);
    let mut svc = BlinkService::new(led);
    assert_eq!(svc.set_pixel(3, 9, 9, 9, full()), Err(Fault::OutOfRange));
    assert_eq!(svc.set_pixel(4, 9, 9, 9, full()), Err(Fault::OutOfRange));
    assert_eq!(svc.set_pixel(u32::MAX, 9, 9, 9, full()), Err(Fault::OutOfRange));
    let led = svc.release();
    for i in 0..3 {
        assert_eq!(led.pixel_at(i), off());
    }
}

#[test]
fn invalid_brightness_reported_before_bad_index() {
    let led = MemoryLed::new(3);
    let mut svc = BlinkService::new(led);
    assert_eq!(svc.set_pixel(7, 9, 9, 9, Brightness { permille: 5000 }), Err(
        Fault::InvalidParameter,
    ));
}

#[test]
fn set_pixel_then_show_transfers_once() {
    let led = MemoryLed::new(2);
    let mut svc = BlinkService::new(led);
    assert_eq!(svc.handle(DeviceCommand::SetPixel { x: 0, r: 255, g: 0, b: 0, brightness: full() }),
        Ok(()));
    assert_eq!(svc.handle(DeviceCommand::Show), Ok(()));
    let led = svc.release();
    assert_eq!(led.pixel_at(0), Pixel { r: 255, g: 0, b: 0, brightness: full() });
    assert_eq!(led.frame_count(), 1);
    let frame = led.sent_frame(0);
    assert_eq!(frame[0], Color { r: 255, g: 0, b: 0 });
    assert_eq!(frame[1], Color { r: 0, g: 0, b: 0 });
}

#[test]
fn rejected_brightness_then_half_multiplier_shows() {
    let led = MemoryLed::new(1);
    let mut svc = BlinkService::new(led);
    assert_eq!(svc.handle(DeviceCommand::SetAll { r: 200, g: 100, b: 50, brightness: full() }),
        Ok(()));
    assert_eq!(svc.handle(DeviceCommand::SetBrightness { brightness: Brightness {
        permille: 2000,
    } }), Err(Fault::InvalidParameter));
    assert_eq!(svc.handle(DeviceCommand::SetBrightness { brightness: Brightness {
        permille: 500,
    } }), Ok(()));
    assert_eq!(svc.handle(DeviceCommand::Show), Ok(()));
    let led = svc.release();
    assert_eq!(led.global_brightness().permille, 500);
    assert_eq!(led.frame_count(), 1);
    assert_eq!(led.sent_frame(0)[0], Color { r: 100, g: 50, b: 25 });
}

#[test]
fn failed_show_is_device_io_error_and_clear_still_works() {
    let mut led = MemoryLed::new(2);
    led.fail_next_show();
    let mut svc = BlinkService::new(led);
    assert_eq!(svc.set_all(10, 20, 30, full()), Ok(()));
    assert_eq!(svc.handle(DeviceCommand::Show), Err(Fault::DeviceIOError));
    assert_eq!(svc.handle(DeviceCommand::Clear), Ok(()));
    assert_eq!(svc.handle(DeviceCommand::Show), Ok(()));
    let led = svc.release();
    // the failed transfer recorded nothing; only the later one did
    assert_eq!(led.frame_count(), 1);
    assert_eq!(led.sent_frame(0)[0], Color { r: 0, g: 0, b: 0 });
}

#[test]
fn repeated_clear_is_idempotent() {
    let led = MemoryLed::new(3);
    let mut svc = BlinkService::new(led);
    assert_eq!(svc.set_all(255, 255, 255, full()), Ok(()));
    svc.clear();
    let led = svc.release();
    let mut after_first: Vec<Pixel> = Vec::new();
    for i in 0..3 {
        after_first.push(led.pixel_at(i));
    }
    let mut svc = BlinkService::new(led);
    svc.clear();
    svc.clear();
    let led = svc.release();
    for i in 0..3 {
        assert_eq!(led.pixel_at(i), after_first[i]);
        assert_eq!(led.pixel_at(i), off());
    }
    assert_eq!(led.global_brightness().permille, 1000);
}

#[test]
fn scale_channel_exact_values() {
    let full = Brightness { permille: 1000 };
    let half = Brightness { permille: 500 };
    let zero = Brightness { permille: 0 };
    assert_eq!(scale_channel(255, full, full), 255);
    assert_eq!(scale_channel(255, full, half), 127);
    assert_eq!(scale_channel(255, half, half), 63);
    assert_eq!(scale_channel(200, full, half), 100);
    assert_eq!(scale_channel(255, full, zero), 0);
    assert_eq!(scale_channel(0, full, full), 0);
}

#[test]
fn fault_messages() {
    assert_eq!(Fault::InvalidParameter.message(), "brightness out of range");
    assert_eq!(Fault::OutOfRange.message(), "pixel index out of range");
    assert_eq!(Fault::DeviceIOError.message(), "transfer to the device failed");
    assert_eq!(Fault::AlreadyRunning.message(), "service is already running");
    assert_eq!(Fault::NotRunning.message(), "service is not running");
    assert_eq!(Fault::RegistrationError.message(), "could not register the service name");
    assert_eq!(Fault::PublishError.message(), "could not publish the call handler");
}

#[test]
fn set_all_overwrites_every_pixel() {
    let led = MemoryLed::new(4);
    let mut svc = BlinkService::new(led);
    assert_eq!(svc.set_pixel(2, 1, 2, 3, full()), Ok(()));
    assert_eq!(svc.set_all(7, 8, 9, Brightness { permille: 250 }), Ok(()));
    let led = svc.release();
    for i in 0..4 {
        assert_eq!(led.pixel_at(i), Pixel { r: 7, g: 8, b: 9, brightness: Brightness {
            permille: 250,
        } });
    }
}

#[test]
fn empty_device_accepts_no_pixel_but_shows_empty_frames() {
    let led = MemoryLed::new(0);
    let mut svc = BlinkService::new(led);
    assert_eq!(svc.set_pixel(0, 1, 2, 3, full()), Err(Fault::OutOfRange));
    assert_eq!(svc.set_all(1, 2, 3, full()), Ok(()));
    assert_eq!(svc.handle(DeviceCommand::Show), Ok(()));
    let led = svc.release();
    assert_eq!(led.frame_count(), 1);
    assert_eq!(led.sent_frame(0).len(), 0);
}
