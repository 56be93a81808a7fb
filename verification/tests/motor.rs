use zumito::motor::{
    register, Applied, Direction, Level, MotorCommand, MotorId, Motors, PwmChannel, PWM_PERIOD,
};
use zumito::registry::{ConfigError, Registry, Resource};

#[test]
fn pwm_period_is_the_largest_duty() {
    assert_eq!(PWM_PERIOD, u8::MAX);
}

#[test]
fn forward_is_low_high_and_reverse_is_inverted() {
    assert_eq!(Direction::Forward.levels(), (Level::Low, Level::High));
    assert_eq!(Direction::Reverse.levels(), (Level::High, Level::Low));
}

#[test]
fn fresh_channel_is_idle() {
    let channel = PwmChannel::new();
    assert_eq!(channel.timestamp(), 0);
    assert_eq!(channel.lines(), (Level::Low, Level::Low));
}

#[test]
fn apply_sets_compare_value_and_lines_for_every_command() {
    for direction in [Direction::Forward, Direction::Reverse] {
        for duty in 0..=PWM_PERIOD {
            let mut channel = PwmChannel::new();
            channel.apply(MotorCommand { duty, direction });
            assert_eq!(channel.timestamp(), u16::from(duty));
            assert_eq!(channel.lines(), direction.levels());
        }
    }
}

#[test]
fn arbiter_applies_every_command_to_its_motor() {
    for motor in [MotorId::One, MotorId::Two] {
        for direction in [Direction::Forward, Direction::Reverse] {
            for duty in 0..=PWM_PERIOD {
                let mut motors = Motors::new();
                assert!(!motors.signal(motor, MotorCommand { duty, direction }));
                assert_eq!(
                    motors.handle_motors(),
                    Some(Applied { motor, levels: direction.levels(), timestamp: u16::from(duty) })
                );
                assert_eq!(motors.pwm(motor).timestamp(), u16::from(duty));
                assert_eq!(motors.pwm(motor).lines(), direction.levels());
            }
        }
    }
}

#[test]
fn arbiter_leaves_the_other_motor_alone() {
    let mut motors = Motors::new();
    motors.signal(MotorId::Two, MotorCommand { duty: 90, direction: Direction::Reverse });
    motors.handle_motors();
    assert_eq!(motors.pwm(MotorId::One).timestamp(), 0);
    assert_eq!(motors.pwm(MotorId::One).lines(), (Level::Low, Level::Low));
    assert_eq!(motors.pwm(MotorId::Two).timestamp(), 90);
    assert_eq!(motors.pwm(MotorId::Two).lines(), (Level::High, Level::Low));
}

#[test]
fn only_the_latest_command_of_a_motor_is_applied() {
    for motor in [MotorId::One, MotorId::Two] {
        let mut motors = Motors::new();
        motors.signal(motor, MotorCommand { duty: 40, direction: Direction::Forward });
        motors.signal(motor, MotorCommand { duty: 80, direction: Direction::Reverse });
        assert_eq!(
            motors.handle_motors(),
            Some(Applied { motor, levels: (Level::High, Level::Low), timestamp: 80 })
        );
        assert_eq!(motors.handle_motors(), None);
        assert_eq!(motors.pwm(motor).timestamp(), 80);
    }
}

#[test]
fn motor_one_is_served_first_when_both_are_ready() {
    let mut motors = Motors::new();
    motors.signal(MotorId::Two, MotorCommand { duty: 2, direction: Direction::Forward });
    motors.signal(MotorId::One, MotorCommand { duty: 1, direction: Direction::Forward });
    assert_eq!(motors.handle_motors().map(|applied| applied.motor), Some(MotorId::One));
    assert_eq!(motors.handle_motors().map(|applied| applied.motor), Some(MotorId::Two));
    assert_eq!(motors.handle_motors(), None);
}

#[test]
fn idle_poll_registers_the_arbiter_on_both_slots() {
    let mut motors = Motors::new();
    assert_eq!(motors.handle_motors(), None);
    assert!(motors.signal(MotorId::Two, MotorCommand { duty: 5, direction: Direction::Forward }));
    assert!(motors.signal(MotorId::One, MotorCommand { duty: 6, direction: Direction::Forward }));
    assert!(!motors.signal(MotorId::One, MotorCommand { duty: 7, direction: Direction::Forward }));
}

#[test]
fn poll_that_serves_motor_one_does_not_wait_on_motor_two() {
    let mut motors = Motors::new();
    motors.signal(MotorId::One, MotorCommand { duty: 1, direction: Direction::Forward });
    assert!(motors.handle_motors().is_some());
    assert!(!motors.signal(MotorId::Two, MotorCommand { duty: 2, direction: Direction::Forward }));
}

#[test]
fn motors_register_once() {
    let mut registry = Registry::new();
    let first = register(&mut registry);
    assert!(first.is_ok());
    let mut motors = first.ok().unwrap();
    assert_eq!(motors.handle_motors(), None);
    assert_eq!(motors.pwm(MotorId::One).timestamp(), 0);
    let second = register(&mut registry);
    assert_eq!(second.err(), Some(ConfigError::AlreadyRegistered(Resource::Motors)));
}
