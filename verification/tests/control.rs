use zumito::control::manual::{control, decode, Delivery, COMMAND_LEN, MSG_MAX_LEN};
use zumito::motor::{Applied, Direction, Level, MotorCommand, MotorId, Motors};

fn message(bytes: &[u8]) -> [u8; MSG_MAX_LEN] {
    let mut buffer = [0u8; MSG_MAX_LEN];
    buffer[..bytes.len()].copy_from_slice(bytes);
    buffer
}

fn forward(duty: u8) -> MotorCommand {
    MotorCommand { duty, direction: Direction::Forward }
}

#[test]
fn buffer_capacity_and_command_length() {
    assert_eq!(MSG_MAX_LEN, 32);
    assert_eq!(COMMAND_LEN, 3);
}

#[test]
fn three_byte_message_decodes_to_two_forward_commands() {
    let msg = message(&[0, 10, 200]);
    assert_eq!(decode(3, &msg), Some((forward(10), forward(200))));
}

#[test]
fn reserved_byte_is_ignored() {
    for reserved in [0u8, 1, 0x7f, 0xff] {
        let msg = message(&[reserved, 10, 200]);
        assert_eq!(decode(3, &msg), Some((forward(10), forward(200))));
    }
}

#[test]
fn every_duty_byte_is_passed_through() {
    for duty in 0..=u8::MAX {
        let msg = message(&[0, duty, u8::MAX - duty]);
        assert_eq!(decode(3, &msg), Some((forward(duty), forward(u8::MAX - duty))));
    }
}

#[test]
fn bytes_after_the_command_are_ignored() {
    let mut msg = message(&[0, 10, 200]);
    msg[3] = 99;
    msg[31] = 99;
    assert_eq!(decode(3, &msg), Some((forward(10), forward(200))));
}

#[test]
fn every_other_length_is_dropped() {
    let msg = message(&[0, 10, 200, 4, 5]);
    for len in 0..=MSG_MAX_LEN + 1 {
        if len != 3 {
            assert_eq!(decode(len, &msg), None, "length {len}");
        }
    }
    assert_eq!(decode(usize::MAX, &msg), None);
}

#[test]
fn valid_message_reaches_both_motors() {
    let mut motors = Motors::new();
    let delivery = control(3, &message(&[0, 10, 200]), &mut motors);
    assert_eq!(delivery, Delivery { commands: Some((forward(10), forward(200))), wake: false });
    assert_eq!(
        motors.handle_motors(),
        Some(Applied { motor: MotorId::One, levels: (Level::Low, Level::High), timestamp: 10 })
    );
    assert_eq!(
        motors.handle_motors(),
        Some(Applied { motor: MotorId::Two, levels: (Level::Low, Level::High), timestamp: 200 })
    );
    assert_eq!(motors.handle_motors(), None);
}

#[test]
fn valid_message_wakes_a_waiting_arbiter() {
    let mut motors = Motors::new();
    assert_eq!(motors.handle_motors(), None);
    let delivery = control(3, &message(&[0, 1, 2]), &mut motors);
    assert!(delivery.wake);
    let again = control(3, &message(&[0, 3, 4]), &mut motors);
    assert!(!again.wake);
}

#[test]
fn malformed_message_leaves_the_arbiter_unchanged() {
    let mut motors = Motors::new();
    control(3, &message(&[0, 10, 200]), &mut motors);
    motors.handle_motors();
    motors.handle_motors();
    for len in [0usize, 1, 2, 4, 5, 31, 32, 33] {
        let delivery = control(len, &message(&[0, 77, 88, 99]), &mut motors);
        assert_eq!(delivery, Delivery { commands: None, wake: false });
        assert_eq!(motors.handle_motors(), None);
        assert_eq!(motors.pwm(MotorId::One).timestamp(), 10);
        assert_eq!(motors.pwm(MotorId::Two).timestamp(), 200);
        assert_eq!(motors.pwm(MotorId::One).lines(), (Level::Low, Level::High));
        assert_eq!(motors.pwm(MotorId::Two).lines(), (Level::Low, Level::High));
    }
}

#[test]
fn malformed_message_does_not_disturb_a_pending_command() {
    let mut motors = Motors::new();
    control(3, &message(&[0, 10, 200]), &mut motors);
    control(2, &message(&[0, 77]), &mut motors);
    assert_eq!(
        motors.handle_motors(),
        Some(Applied { motor: MotorId::One, levels: (Level::Low, Level::High), timestamp: 10 })
    );
}

#[test]
fn later_message_supersedes_an_unread_one() {
    let mut motors = Motors::new();
    control(3, &message(&[0, 10, 200]), &mut motors);
    control(3, &message(&[0, 11, 201]), &mut motors);
    assert_eq!(motors.handle_motors().map(|applied| applied.timestamp), Some(11));
    assert_eq!(motors.handle_motors().map(|applied| applied.timestamp), Some(201));
    assert_eq!(motors.handle_motors(), None);
}
