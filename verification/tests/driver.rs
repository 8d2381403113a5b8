use touch_ic::bus::RegisterBus;
use touch_ic::capabilities::Capabilities;
use touch_ic::driver::{is_ready, TouchIC, DEFAULT_ADDR};
use touch_ic::gesture::{GestureInfo, GestureType};
use touch_ic::point::Point;
use touch_ic::regs;

#[derive(Debug, Clone, Copy, PartialEq, Eq)]
struct Nack(u8);

/// A bus that answers from a script and keeps what it was asked.
struct ScriptedBus<'a> {
    answers: Vec<Result<Vec<u8>, Nack>>,
    log: &'a mut Vec<(u8, u8, usize)>,
}

impl<'a> ScriptedBus<'a> {
    fn new(answers: Vec<Result<Vec<u8>, Nack>>, log: &'a mut Vec<(u8, u8, usize)>) -> Self {
        ScriptedBus { answers, log }
    }
}

impl<'a> RegisterBus for ScriptedBus<'a> {
    type Error = Nack;

    fn write_read<const N: usize>(&mut self, address: u8, register: u8) -> Result<[u8; N], Nack> {
        self.log.push((address, register, N));
        assert!(!self.answers.is_empty(), "more reads than the script holds");
        let bytes = self.answers.remove(0)?;
        let mut buf = [0u8; N];
        buf.copy_from_slice(&bytes);
        Ok(buf)
    }
}

/// A bus on which the status register never leaves the busy state.
struct BusyBus {
    reads: u32,
}

impl RegisterBus for BusyBus {
    type Error = Nack;

    fn write_read<const N: usize>(&mut self, _address: u8, _register: u8) -> Result<[u8; N], Nack> {
        self.reads += 1;
        Ok([0x10u8; N])
    }
}

#[test]
fn register_map() {
    assert_eq!(regs::STATUS, 0x01);
    assert_eq!(regs::XY_RESOLUTION_H, 0x04);
    assert_eq!(regs::X_RESOLUTION_L, 0x05);
    assert_eq!(regs::Y_RESOLUTION_L, 0x06);
    assert_eq!(regs::SENSING_COUNTER_L, 0x07);
    assert_eq!(regs::SENSING_COUNTER_H, 0x08);
    assert_eq!(regs::CONTACT_COUNT_MAX, 0x3F);
    assert_eq!(regs::ADVANCED_TOUCH_INFO, 0x10);
    assert_eq!(regs::MISC_INFO, 0xF0);
    assert_eq!(regs::POINT_BASE, 0x12);
    assert_eq!(DEFAULT_ADDR, 0x55);
}

#[test]
fn construction_reads_nothing() {
    let mut log = Vec::new();
    {
        let _a = TouchIC::new(ScriptedBus::new(vec![], &mut log), 0x2A);
    }
    {
        let _b = TouchIC::new_default(ScriptedBus::new(vec![], &mut log));
    }
    assert!(log.is_empty());
}

#[test]
fn get_point_reads_one_record_per_slot() {
    for nth in 0u8..=9 {
        let mut log = Vec::new();
        let mut ic = TouchIC::new(
            ScriptedBus::new(vec![Ok(vec![0b1_101_0011, 0x2A, 0x77, 0x00])], &mut log),
            0x2A,
        );
        assert_eq!(ic.get_point(nth), Ok(Some(Point { x: 0x52A, y: 887 })));
        assert_eq!(log, vec![(0x2A, 0x12 + 4 * nth, 4)]);
    }
}

#[test]
fn get_point_beyond_last_slot_reads_nothing() {
    let mut log = Vec::new();
    let mut ic = TouchIC::new_default(ScriptedBus::new(vec![], &mut log));
    for nth in 10u8..=255 {
        assert_eq!(ic.get_point(nth), Ok(None));
    }
    assert!(log.is_empty());
}

#[test]
fn get_point_empty_slot() {
    let mut log = Vec::new();
    let mut ic =
        TouchIC::new_default(ScriptedBus::new(vec![Ok(vec![0x7F, 0xFF, 0xFF, 0xFF])], &mut log));
    assert_eq!(ic.get_point(9), Ok(None));
    assert_eq!(log, vec![(0x55, 0x36, 4)]);
}

#[test]
fn get_point_forwards_bus_error() {
    let mut log = Vec::new();
    let mut ic = TouchIC::new_default(ScriptedBus::new(vec![Err(Nack(7))], &mut log));
    assert_eq!(ic.get_point(2), Err(Nack(7)));
    assert_eq!(log, vec![(0x55, 0x1A, 4)]);
}

#[test]
fn get_point0_and_get_point1() {
    let mut log = Vec::new();
    let mut ic = TouchIC::new_default(ScriptedBus::new(
        vec![Ok(vec![0x81, 0x02, 0x03, 0x00]), Ok(vec![0x00, 0x02, 0x03, 0x00]), Err(Nack(1))],
        &mut log,
    ));
    assert_eq!(ic.get_point0(), Ok(Some(Point { x: 2, y: 0x103 })));
    assert_eq!(ic.get_point1(), Ok(None));
    assert_eq!(ic.get_point1(), Err(Nack(1)));
    assert_eq!(log, vec![(0x55, 0x12, 4), (0x55, 0x16, 4), (0x55, 0x16, 4)]);
}

#[test]
fn get_gesture_info_reads_one_byte() {
    let mut log = Vec::new();
    let mut ic = TouchIC::new_default(ScriptedBus::new(
        vec![Ok(vec![0b0100_0101]), Ok(vec![0b0110_0101]), Err(Nack(3))],
        &mut log,
    ));
    assert_eq!(
        ic.get_gesture_info(),
        Ok(GestureInfo {
            gesture_type: GestureType::SlideRightToLeft,
            proximity: true,
            water: false
        })
    );
    assert_eq!(
        ic.get_gesture_info(),
        Ok(GestureInfo {
            gesture_type: GestureType::SlideRightToLeft,
            proximity: true,
            water: true
        })
    );
    assert_eq!(ic.get_gesture_info(), Err(Nack(3)));
    assert_eq!(log, vec![(0x55, 0x10, 1), (0x55, 0x10, 1), (0x55, 0x10, 1)]);
}

#[test]
fn get_sensor_count_reads_two_bytes() {
    let mut log = Vec::new();
    let mut ic = TouchIC::new_default(ScriptedBus::new(
        vec![Ok(vec![0x01, 0x2C]), Err(Nack(9))],
        &mut log,
    ));
    assert_eq!(ic.get_sensor_count(), Ok(300));
    assert_eq!(ic.get_sensor_count(), Err(Nack(9)));
    assert_eq!(log, vec![(0x55, 0x07, 2), (0x55, 0x07, 2)]);
}

#[test]
fn get_capabilities_reads_three_groups() {
    let mut log = Vec::new();
    let mut ic = TouchIC::new(
        ScriptedBus::new(vec![Ok(vec![10]), Ok(vec![0x80]), Ok(vec![0x1B, 0x3C, 0x9F])], &mut log),
        0x14,
    );
    assert_eq!(
        ic.get_capabilities(),
        Ok(Capabilities { max_touches: 10, max_x: 316, max_y: 2975, smart_wake_up: true })
    );
    assert_eq!(log, vec![(0x14, 0x3F, 1), (0x14, 0xF0, 1), (0x14, 0x04, 3)]);
}

#[test]
fn get_capabilities_stops_at_first_error() {
    let mut log = Vec::new();
    {
        let mut ic = TouchIC::new_default(ScriptedBus::new(vec![Err(Nack(1))], &mut log));
        assert_eq!(ic.get_capabilities(), Err(Nack(1)));
    }
    assert_eq!(log, vec![(0x55, 0x3F, 1)]);

    let mut log = Vec::new();
    {
        let mut ic =
            TouchIC::new_default(ScriptedBus::new(vec![Ok(vec![5]), Err(Nack(2))], &mut log));
        assert_eq!(ic.get_capabilities(), Err(Nack(2)));
    }
    assert_eq!(log, vec![(0x55, 0x3F, 1), (0x55, 0xF0, 1)]);

    let mut log = Vec::new();
    {
        let mut ic = TouchIC::new_default(ScriptedBus::new(
            vec![Ok(vec![5]), Ok(vec![0]), Err(Nack(3))],
            &mut log,
        ));
        assert_eq!(ic.get_capabilities(), Err(Nack(3)));
    }
    assert_eq!(log, vec![(0x55, 0x3F, 1), (0x55, 0xF0, 1), (0x55, 0x04, 3)]);
}

#[test]
fn init_stops_at_first_ready_status() {
    let mut log = Vec::new();
    let mut ic = TouchIC::new_default(ScriptedBus::new(
        vec![Ok(vec![0x10]), Ok(vec![0xF3]), Ok(vec![0x0F]), Ok(vec![0x00])],
        &mut log,
    ));
    assert_eq!(ic.init(), Ok(()));
    assert_eq!(log, vec![(0x55, 0x01, 1), (0x55, 0x01, 1), (0x55, 0x01, 1)]);
}

#[test]
fn init_ready_at_once() {
    let mut log = Vec::new();
    let mut ic = TouchIC::new(ScriptedBus::new(vec![Ok(vec![0x00])], &mut log), 0x33);
    assert_eq!(ic.init(), Ok(()));
    assert_eq!(log, vec![(0x33, 0x01, 1)]);
}

#[test]
fn init_forwards_bus_error() {
    let mut log = Vec::new();
    let mut ic = TouchIC::new_default(ScriptedBus::new(
        vec![Ok(vec![0x20]), Err(Nack(4)), Ok(vec![0x00])],
        &mut log,
    ));
    assert_eq!(ic.init(), Err(Nack(4)));
    assert_eq!(log, vec![(0x55, 0x01, 1), (0x55, 0x01, 1)]);
}

#[test]
fn wait_normal_status_gives_up_at_the_limit() {
    let mut log = Vec::new();
    let mut ic = TouchIC::new_default(ScriptedBus::new(
        vec![Ok(vec![0x10]), Ok(vec![0x10]), Ok(vec![0x10]), Ok(vec![0x00])],
        &mut log,
    ));
    assert_eq!(ic.wait_normal_status(3), Ok(false));
    assert_eq!(ic.wait_normal_status(3), Ok(true));
    assert_eq!(log.len(), 4);
}

#[test]
fn wait_normal_status_with_no_polls_reads_nothing() {
    let mut log = Vec::new();
    let mut ic = TouchIC::new_default(ScriptedBus::new(vec![], &mut log));
    assert_eq!(ic.wait_normal_status(0), Ok(false));
    assert!(log.is_empty());
}

#[test]
fn wait_normal_status_ready_on_last_poll() {
    let mut log = Vec::new();
    let mut ic = TouchIC::new_default(ScriptedBus::new(
        vec![Ok(vec![0x80]), Ok(vec![0x0A])],
        &mut log,
    ));
    assert_eq!(ic.wait_normal_status(2), Ok(true));
    assert_eq!(log.len(), 2);
}

/// A bus on which the status register leaves the busy state after a
/// given number of reads.
struct SlowBus {
    busy_reads: u64,
    reads: u64,
}

impl RegisterBus for SlowBus {
    type Error = Nack;

    fn write_read<const N: usize>(&mut self, _address: u8, _register: u8) -> Result<[u8; N], Nack> {
        self.reads += 1;
        if self.reads > self.busy_reads {
            Ok([0x0Fu8; N])
        } else {
            Ok([0xF0u8; N])
        }
    }
}

#[test]
fn init_waits_for_a_slow_device() {
    let mut bus = SlowBus { busy_reads: 250_000, reads: 0 };
    {
        let mut ic = TouchIC::new_default(&mut bus);
        assert_eq!(ic.init(), Ok(()));
    }
    assert_eq!(bus.reads, 250_001);
}

#[test]
fn wait_normal_status_on_a_slow_device() {
    let mut bus = SlowBus { busy_reads: 5, reads: 0 };
    {
        let mut ic = TouchIC::new_default(&mut bus);
        assert_eq!(ic.wait_normal_status(5), Ok(false));
        assert_eq!(ic.wait_normal_status(5), Ok(true));
    }
    assert_eq!(bus.reads, 6);
}

#[test]
fn ready_is_a_zero_upper_nibble() {
    for status in 0u8..=255 {
        assert_eq!(is_ready(status), status & 0xF0 == 0);
    }
    assert!(is_ready(0x0F));
    assert!(!is_ready(0x10));
}

#[test]
fn borrowed_bus_serves_two_handles_in_turn() {
    let mut bus = BusyBus { reads: 0 };
    {
        let mut first = TouchIC::new(&mut bus, 0x10);
        assert_eq!(first.get_sensor_count(), Ok(0x1010));
    }
    {
        let mut second = TouchIC::new(&mut bus, 0x11);
        assert_eq!(second.wait_normal_status(7), Ok(false));
    }
    assert_eq!(bus.reads, 8);
}

#[test]
fn borrowed_bus_forwards_answer_and_error() {
    let mut log = Vec::new();
    {
        let mut bus = ScriptedBus::new(vec![Ok(vec![0x01, 0x2C]), Err(Nack(5))], &mut log);
        let mut borrowed = &mut bus;
        assert_eq!(RegisterBus::write_read::<2>(&mut borrowed, 0x21, 0x07), Ok([0x01, 0x2C]));
        assert_eq!(RegisterBus::write_read::<3>(&mut borrowed, 0x22, 0x04), Err(Nack(5)));
        assert!(bus.answers.is_empty());
    }
    assert_eq!(log, vec![(0x21, 0x07, 2), (0x22, 0x04, 3)]);
}
