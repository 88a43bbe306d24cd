use oreos::drivers::driver::{DriverBackend, DriverCondition, RawDriverStatus};
use oreos::hal::{Condition, DeviceState, Mode, Severity};
use oreos::drivers::led::{LedBackend, LedData};
use oreos::drivers::stepper::{Stepper, StepperConfig};
use oreos::drivers::tmc2160::registers::{Frame, ReadFrame, WriteFrame};
use oreos::drivers::tmc2160::structs::Tmc2160Config;
use oreos::drivers::tmc2160::tmc2160::{init_fits_registers as tmc2160_init_fits, Tmc2160};
use oreos::drivers::tmc2209::registers::{check_crc8, compute_crc8, u64_from_le_bytes};
use oreos::drivers::tmc2209::structs::{Tmc2209Config, Tmc2209Error};
use oreos::drivers::tmc2209::tmc2209::{Tmc2209, Tmc2209Op};

fn plain_config() -> StepperConfig {
    StepperConfig {
        steps_per_rev: 200,
        microsteps: 16,
        invert_dir: false,
        enable_active_low: true,
        pulse_width_ticks: 2,
    }
}

#[test]
fn tmc_crc_matches_the_datagram_algorithm() {
    assert_eq!(compute_crc8(&[1, 2, 3]), 0xc3);
    assert_eq!(compute_crc8(&[5, 0, 0x90, 0x12, 0x34, 0x56, 0x78]), 0x1c);
    assert_eq!(compute_crc8(&[5, 0, 0]), 0x01);
    assert_eq!(compute_crc8(&[5, 1, 0x41]), 0x8f);
}

#[test]
fn smbus_crc_check_compares_checksums() {
    assert!(check_crc8(b"123456789", b"123456789").is_ok());
    assert!(check_crc8(&[1], &[2]).is_err());
}

#[test]
fn tmc2209_write_datagram() {
    let drv = Tmc2209::new((), 0);
    assert_eq!(drv.tmc_id(), 0);
    assert_eq!(drv.write_frame(0x10, 0x1234_5678), [5, 0, 0x90, 0x12, 0x34, 0x56, 0x78, 0x1c]);
}

#[test]
fn tmc2209_read_request() {
    let drv = Tmc2209::new((), 0);
    assert_eq!(drv.read_request(0x6f), [5, 0, 0x6f, 0x1d, 0, 0, 0, 0]);
    assert_eq!(drv.read_request(0x00), [5, 0, 0, 0x01, 0, 0, 0, 0]);
    let other = Tmc2209::new((), 1);
    assert_eq!(other.read_request(0xc1), [5, 1, 0x41, 0x8f, 0, 0, 0, 0]);
}

#[test]
fn tmc2209_reply_is_checked_and_decoded() {
    let mut reply = [5u8, 0xff, 0x6f, 0x11, 0x22, 0x33, 0x44, 0];
    reply[7] = compute_crc8(&reply[..7]);
    assert_eq!(Tmc2209::<()>::decode_reply::<()>(Some(reply)).ok(), Some(0x4433_2211));
    assert_eq!(u64_from_le_bytes(reply) >> 24 & 0xffff_ffff, 0x4433_2211);
    let mut bad = reply;
    bad[7] ^= 1;
    assert!(matches!(Tmc2209::<()>::decode_reply::<()>(Some(bad)), Err(Tmc2209Error::CrcMismatch)));
    assert!(matches!(Tmc2209::<()>::decode_reply::<()>(None), Err(Tmc2209Error::NoReply)));
}

#[test]
fn tmc2209_conversions() {
    assert_eq!(Tmc2209::<()>::mres_from_microsteps(256), Some(0));
    assert_eq!(Tmc2209::<()>::mres_from_microsteps(16), Some(4));
    assert_eq!(Tmc2209::<()>::mres_from_microsteps(1), Some(8));
    assert_eq!(Tmc2209::<()>::mres_from_microsteps(3), None);
    assert_eq!(Tmc2209::<()>::ma_to_cs(800, 110), Some(13));
    assert_eq!(Tmc2209::<()>::ma_to_cs(3000, 110), None);
    assert_eq!(Tmc2209::<()>::ma_to_cs(0, 110), Some(0));
    assert_eq!(Tmc2209::<()>::stall_result_from(0xffff_f3ff), 0x3ff);
    assert_eq!(Tmc2209::<()>::heartbeat_from(0x1234), 0x34);
}

#[test]
fn tmc2209_setters_need_an_initialised_driver() {
    let mut drv = Tmc2209::new((), 0);
    assert!(matches!(drv.set_run_current_ma::<()>(500), Err(Tmc2209Error::InvalidParameter)));
    assert!(matches!(drv.reverse_shaft::<()>(true), Err(Tmc2209Error::InvalidParameter)));
    assert!(drv.config().is_none());
    drv.finish_init(Tmc2209Config::default());
    let plan = drv.reverse_shaft::<()>(true).ok().unwrap();
    assert!(plan.outcome.is_ok());
    assert!(!plan.ops.is_empty());
    assert!(drv.config().unwrap().shaft_reverse);
    let plan = drv.set_microsteps::<()>(3).ok().unwrap();
    assert!(matches!(plan.outcome, Err(Tmc2209Error::InvalidMicrosteps)));
    assert_eq!(drv.config().unwrap().microsteps, 3);
}

#[test]
fn tmc2209_init_plan_of_the_default_configuration() {
    let plan = Tmc2209::<()>::init_plan::<()>(&Tmc2209Config::default());
    assert!(plan.outcome.is_ok());
    assert!(matches!(plan.ops[0], Tmc2209Op::Write { address: 0x00, .. }));
    assert!(plan.ops.last() == Some(&Tmc2209Op::DelayMs(100)));
}

#[test]
fn tmc2160_frames() {
    assert_eq!(WriteFrame::make_frame(0x1234_5678, 0x10), [0x12, 0x34, 0x56, 0x78, 0x90]);
    assert_eq!(Tmc2160::<()>::write_frame(0x6c, 0x0001_0053), [0x00, 0x01, 0x00, 0x53, 0xec]);
    assert_eq!(Tmc2160::<()>::read_request(0xef), [0x6f, 0, 0, 0, 0]);
    assert_eq!(Tmc2160::<()>::dummy_frame(), [0, 0, 0, 0, 0]);
    assert_eq!(ReadFrame::read_frame(0x00_1122_3344_55), 0x1122_3344);
    assert_eq!(Tmc2160::<()>::decode_reply::<()>(Some([0x08, 0xaa, 0xbb, 0xcc, 0xdd])).ok(), Some(0xaabb_ccdd));
    assert_eq!(Tmc2160::<()>::ma_to_cs(3, 75, 10), Some(0));
    assert_eq!(Tmc2160::<()>::mres_from_microsteps(32), Some(3));
}

#[test]
fn tmc2160_current_scale_over_the_documented_scalers() {
    // Global scaler 0 is full scale (256/256): the same scale as the TMC2209.
    assert_eq!(Tmc2160::<()>::ma_to_cs(800, 110, 0), Some(13));
    assert_eq!(Tmc2160::<()>::ma_to_cs(800, 110, 128), Some(27));
    assert_eq!(Tmc2160::<()>::ma_to_cs(800, 110, 32), None);
    assert_eq!(Tmc2160::<()>::ma_to_cs(100, 110, 32), Some(13));
    assert_eq!(Tmc2160::<()>::ma_to_cs(0, 110, 255), Some(0));
    assert_eq!(Tmc2160::<()>::ma_to_cs(u16::MAX, u16::MAX, 1), None);
    assert!(tmc2160_init_fits(&Tmc2160Config::default()));
}

#[test]
fn stepper_velocity_round_trip() {
    let mut s = Stepper::new((), (), (), 10_000, plain_config());
    assert_eq!(s.set_velocity_steps_s(1000), Some(true));
    assert_eq!(s.current_vel_steps_s(), 1000);
    assert_eq!(s.feedback().vel_steps_per_s, 1000);
    assert_eq!(s.set_velocity_steps_s(-500), Some(false));
    assert_eq!(s.feedback().vel_steps_per_s, -500);
    assert_eq!(s.set_velocity_steps_s(0), None);
    assert!(!s.dir_positive());
    assert_eq!(s.feedback().vel_steps_per_s, 0);
    assert_eq!(s.set_velocity_steps_s(i32::MAX), Some(true));
    assert_eq!(s.feedback().vel_steps_per_s, i32::MAX);
}

#[test]
fn stepper_pulses_only_when_enabled() {
    let mut s = Stepper::new((), (), (), 10_000, plain_config());
    s.set_velocity_steps_s(1000);
    assert_eq!(s.tick(), None);
    assert_eq!(s.enable(), false);
    assert_eq!(s.tick(), Some(true));
    s.complete_edge();
    assert_eq!(s.step_counter(), 0);
    assert_eq!(s.tick(), None);
    assert_eq!(s.tick(), None);
    assert_eq!(s.tick(), Some(false));
    s.complete_edge();
    assert_eq!(s.step_counter(), 1);
    assert_eq!(s.feedback().position_steps, 1);
    assert_eq!(s.disable(), true);
    assert_eq!(s.tick(), None);
    assert_eq!(s.current_vel_steps_s(), 0);
}

#[test]
fn stepper_edges_alternate_and_count_falling_edges() {
    let mut s = Stepper::new((), (), (), 10_000, plain_config());
    s.enable();
    s.set_velocity_steps_s(-1000);
    let mut edges = Vec::new();
    for _ in 0..100 {
        if let Some(level) = s.tick() {
            edges.push(level);
            s.complete_edge();
        }
    }
    assert!(!edges.is_empty());
    for (k, level) in edges.iter().enumerate() {
        assert_eq!(*level, k % 2 == 0);
    }
    let falling = edges.iter().filter(|l| !**l).count() as i32;
    assert_eq!(s.step_counter(), -falling);
    assert!(!s.dir_positive());
    assert!(s.enabled());
    assert_eq!(s.current_vel_steps_s(), 1000);
}

#[test]
fn stepper_direction_and_enable_levels() {
    let mut cfg = plain_config();
    cfg.invert_dir = true;
    cfg.enable_active_low = false;
    let mut s = Stepper::new((), (), (), 1000, cfg);
    assert_eq!(s.set_direction(true), false);
    assert_eq!(s.enable_pin_level(true), true);
    assert_eq!(s.enable(), true);
}

#[test]
fn driver_tick_data_flags_stalls_and_temperature() {
    let d = DriverBackend::<()>::tick_data::<(), ()>(
        Ok(RawDriverStatus { over_temp_shutdown: true, over_temp_prewarning: false }),
        Ok(0),
    );
    assert!(d.stalled && d.otp && !d.otpw);
    assert_eq!(d.sg_result, 0);
    let d = DriverBackend::<()>::tick_data::<(), ()>(Err(()), Ok(512));
    assert!(!d.stalled && !d.otp && !d.otpw);
    let d = DriverBackend::<()>::tick_data::<(), ()>(Err(()), Err(()));
    assert!(d.stalled);
}

static LED_BUS: u8 = 0;

#[test]
fn led_follows_the_lane() {
    let mut led = LedBackend::new((), &LED_BUS);
    assert!(!led.state().on);
    assert_eq!(led.tick_target(Some(LedData { enabled: true })), Some(true));
    assert_eq!(led.tick_target(Some(LedData { enabled: false })), None);
    assert_eq!(led.tick_target(None), None);
    led.record(true);
    assert_eq!(led.toggle_target(), false);
    assert_eq!(LedBackend::<(), u8>::level_for(true), false);
}

struct NoState;

impl oreos::hal::State for NoState {}

#[test]
fn driver_condition_classifies_with_messages() {
    let ctx = DeviceState { enabled: true, mode: Mode::Active, fault: None, custom: NoState };
    let hot = DriverCondition { stalled: true, overtemp: true, overtemp_warning: false };
    let f = hot.classify(&ctx);
    assert!(f.severity == Severity::Fault);
    assert_eq!(f.message.as_str(), "driver overtemperature");
    let stalled = DriverCondition { stalled: true, overtemp: false, overtemp_warning: true };
    let f = stalled.classify(&ctx);
    assert!(f.severity == Severity::Warning);
    assert_eq!(f.message.as_str(), "stall detected");
    let fine = DriverCondition { stalled: false, overtemp: false, overtemp_warning: true };
    let f = fine.classify(&ctx);
    assert!(f.severity == Severity::Healthy);
    assert_eq!(f.message.as_str(), "");
}
