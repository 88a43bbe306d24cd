use oreos::config::{ActuatorConfig, HardwareConfig, NodeConfig};
use oreos::transport::{
    expects_reply, pack_frame, server_step, uart_request_len, unpack_frame, RequestType,
    ServerError, ServerStep, TransferResponse,
};

#[test]
fn defaults_match_the_documented_values() {
    let a = ActuatorConfig::default();
    assert_eq!(a.id, 0);
    assert_eq!(a.name, "actuator");
    assert_eq!(a.steps_per_motor_rev, 200);
    assert_eq!(a.microsteps, 16);
    assert_eq!((a.gear_ratio_num, a.gear_ratio_den), (1, 1));
    assert_eq!((a.min_pos_steps, a.max_pos_steps), (0, 0));
    assert_eq!((a.max_vel_steps_s, a.max_accel_steps_s2), (0, 0));
    let h = HardwareConfig::default();
    assert!(h.enable_active_low && !h.dir_inverted);
    assert_eq!(h.pulse_width_ticks, 1);
    let n = NodeConfig::default();
    assert_eq!((n.node_id, n.name, n.control_hz), (0, "mcn-node", 10_000));
}

#[test]
fn frames_travel_in_eight_byte_packets() {
    let p = pack_frame([1, 2, 3, 4, 5]);
    assert_eq!(p, [1, 2, 3, 4, 5, 0, 0, 0]);
    assert_eq!(unpack_frame([9, 8, 7, 6, 5, 4, 3, 2]), [9, 8, 7, 6, 5]);
    assert_eq!(unpack_frame(pack_frame([0xa1, 0, 0xff, 0x10, 0x7f])), [0xa1, 0, 0xff, 0x10, 0x7f]);
}

#[test]
fn only_reads_wait_for_a_reply() {
    assert!(expects_reply(RequestType::Read));
    assert!(!expects_reply(RequestType::Write));
    assert_eq!(uart_request_len(RequestType::Write), 8);
    assert_eq!(uart_request_len(RequestType::Read), 4);
}

#[test]
fn server_decides_from_the_transfer() {
    let r: Result<TransferResponse, ()> = Err(());
    assert!(matches!(server_step(r, true), ServerStep::Done(Err(ServerError::PeripheralError))));
    let r: Result<TransferResponse, ()> = Ok(TransferResponse::Written);
    assert!(matches!(server_step(r, false), ServerStep::Done(Ok(()))));
    let r: Result<TransferResponse, ()> = Ok(TransferResponse::Received([1; 8]));
    assert!(matches!(server_step(r, true), ServerStep::Reply(p) if p.payload == [1; 8]));
    assert!(matches!(server_step(r, false), ServerStep::Done(Err(ServerError::EmptyResponse))));
}
