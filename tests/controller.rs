use night_light::controller::{AUTO_ON_DURATION_MS, MANUAL_ON_DURATION_MS};
use night_light::{
    Button, Controller, Event, InfallibleLedDriver, Instant, IrCommand, Mode, State, SystemClock,
    RGBW8,
};
use std::cell::RefCell;
use std::rc::Rc;

#[derive(Clone, Default)]
struct RecordingDriver {
    writes: Rc<RefCell<Vec<RGBW8>>>,
}

impl InfallibleLedDriver for RecordingDriver {
    fn set_pixels(&mut self, color: &RGBW8) {
        self.writes.borrow_mut().push(*color);
    }
}

fn clock() -> &'static SystemClock {
    Box::leak(Box::new(SystemClock::new()))
}

fn controller() -> (Controller<RecordingDriver>, Rc<RefCell<Vec<RGBW8>>>) {
    let driver = RecordingDriver::default();
    let writes = driver.writes.clone();
    (Controller::new(driver, clock()), writes)
}

fn at(ms: u32) -> Instant {
    Instant::from_millis(ms)
}

fn on_data(c: &Controller<RecordingDriver>) -> night_light::OnStateData {
    match *c.state() {
        State::On(d) => d,
        s => panic!("expected the on state, found {:?}", s),
    }
}

fn displayed(c: &Controller<RecordingDriver>) -> RGBW8 {
    match *c.state() {
        State::On(d) => d.fade_to.color,
        State::Off(f) => f.color,
        State::Reset => panic!("not initialised"),
    }
}

fn command(button: Button) -> IrCommand {
    IrCommand { button, repeat: false }
}

#[test]
fn new_controller_is_off_and_idle() {
    let (c, writes) = controller();
    match *c.state() {
        State::Off(f) => {
            assert_eq!(f.color, RGBW8::off());
            assert_eq!(f.destination_color, RGBW8::off());
        }
        s => panic!("unexpected {:?}", s),
    }
    assert!(c.is_idle());
    assert_eq!(*writes.borrow(), vec![RGBW8::off()]);
}

#[test]
fn manual_color_command_steps_from_off() {
    let (mut c, writes) = controller();
    let color = RGBW8::new(64, 0, 0, 128);
    c.dispatch(Event::ManualOn(color), at(0));
    let d = on_data(&c);
    assert_eq!(d.mode, Mode::ManualOn);
    assert_eq!(d.fade_to.destination_color, color);
    assert_eq!(d.fade_to.color, RGBW8::off());
    assert!(!c.is_idle());

    // Not yet a full step interval.
    c.dispatch(Event::TimerCheck, at(9));
    assert_eq!(displayed(&c), RGBW8::off());

    c.dispatch(Event::TimerCheck, at(10));
    assert_eq!(displayed(&c), RGBW8::new(1, 0, 0, 1));
    c.dispatch(Event::TimerCheck, at(15));
    assert_eq!(displayed(&c), RGBW8::new(1, 0, 0, 1));
    c.dispatch(Event::TimerCheck, at(20));
    assert_eq!(displayed(&c), RGBW8::new(2, 0, 0, 2));
    assert_eq!(writes.borrow().last().copied(), Some(RGBW8::new(2, 0, 0, 2)));
}

#[test]
fn manual_on_through_remote_uses_real_clock() {
    let sys = clock();
    let driver = RecordingDriver::default();
    let mut c = Controller::new(driver, sys);
    c.handle_ir_command(command(Button::On));
    let d = on_data(&c);
    assert_eq!(d.mode, Mode::ManualOn);
    assert_eq!(d.fade_to.destination_color, RGBW8::new(64, 0, 0, 128));
    for _ in 0..10 {
        sys.inc_from_interrupt();
    }
    c.update();
    assert_eq!(displayed(&c), RGBW8::new(1, 0, 0, 1));
}

#[test]
fn brightness_up_while_off_is_ignored() {
    let (mut c, writes) = controller();
    let before = *c.state();
    let n = writes.borrow().len();
    c.handle_ir_command(command(Button::BrightnessUp));
    c.handle_ir_command(IrCommand { button: Button::BrightnessDown, repeat: true });
    c.handle_ir_command(command(Button::Unknown(99)));
    assert_eq!(*c.state(), before);
    assert_eq!(writes.borrow().len(), n);
}

#[test]
fn manual_off_while_off_is_ignored() {
    let (mut c, _) = controller();
    let before = *c.state();
    c.dispatch(Event::ManualOff, at(5));
    c.dispatch(Event::Init, at(6));
    assert_eq!(*c.state(), before);
}

#[test]
fn manual_on_supersedes_fade_mid_way() {
    let (mut c, _) = controller();
    c.dispatch(Event::Fade, at(0));
    let first = on_data(&c);
    assert_eq!(first.mode, Mode::Fade);
    assert_ne!(first.fade_to.destination_color, first.fade_to.color);
    c.dispatch(Event::TimerCheck, at(100));
    c.dispatch(Event::TimerCheck, at(200));
    c.dispatch(Event::TimerCheck, at(300));
    let shown = displayed(&c);
    assert_ne!(shown, RGBW8::off());
    let abandoned = on_data(&c).fade_to.destination_color;

    c.handle_ir_command(command(Button::White));
    let d = on_data(&c);
    assert_eq!(d.mode, Mode::ManualOn);
    assert_eq!(d.fade_to.color, shown);
    assert_eq!(d.fade_to.destination_color, RGBW8::new(0, 0, 0, 255));
    assert_ne!(shown, abandoned);
}

#[test]
fn manual_on_times_out_exactly_at_duration() {
    let (mut c, _) = controller();
    c.dispatch(Event::ManualOn(RGBW8::new(3, 0, 0, 0)), at(1000));
    c.dispatch(Event::TimerCheck, at(1000 + MANUAL_ON_DURATION_MS - 1));
    assert!(matches!(*c.state(), State::On(_)));
    c.dispatch(Event::TimerCheck, at(1000 + MANUAL_ON_DURATION_MS));
    match *c.state() {
        State::Off(f) => {
            assert_eq!(f.color, RGBW8::new(1, 0, 0, 0));
            assert_eq!(f.destination_color, RGBW8::off());
        }
        s => panic!("expected off, found {:?}", s),
    }
}

#[test]
fn tick_before_start_does_not_time_out() {
    let (mut c, _) = controller();
    c.dispatch(Event::ManualOn(RGBW8::new(3, 0, 0, 0)), at(5000));
    c.dispatch(Event::TimerCheck, at(10));
    assert!(matches!(*c.state(), State::On(_)));
}

#[test]
fn auto_on_uses_default_color_and_long_duration() {
    let (mut c, _) = controller();
    c.handle_auto_on_event();
    let d = on_data(&c);
    assert_eq!(d.mode, Mode::AutoOn);
    assert_eq!(d.fade_to.destination_color, RGBW8::new(64, 0, 0, 128));
    let start = d.started_at.as_millis();
    c.dispatch(Event::TimerCheck, at(start + AUTO_ON_DURATION_MS - 1));
    assert!(matches!(*c.state(), State::On(_)));
    c.dispatch(Event::TimerCheck, at(start + AUTO_ON_DURATION_MS));
    assert!(matches!(*c.state(), State::Off(_)));
}

#[test]
fn auto_on_while_on_keeps_displayed_color() {
    let (mut c, _) = controller();
    c.dispatch(Event::ManualOn(RGBW8::new(0, 50, 0, 0)), at(0));
    c.dispatch(Event::TimerCheck, at(10));
    c.dispatch(Event::TimerCheck, at(20));
    assert_eq!(displayed(&c), RGBW8::new(0, 2, 0, 0));
    c.dispatch(Event::AutoOn, at(25));
    let d = on_data(&c);
    assert_eq!(d.mode, Mode::AutoOn);
    assert_eq!(d.started_at, at(25));
    assert_eq!(d.fade_to.color, RGBW8::new(0, 2, 0, 0));
    assert_eq!(d.fade_to.destination_color, RGBW8::new(64, 0, 0, 128));
}

#[test]
fn reached_destination_stays_put() {
    let (mut c, writes) = controller();
    c.dispatch(Event::ManualOn(RGBW8::new(1, 0, 0, 1)), at(0));
    c.dispatch(Event::TimerCheck, at(10));
    assert_eq!(displayed(&c), RGBW8::new(1, 0, 0, 1));
    let record = on_data(&c).fade_to;
    let n = writes.borrow().len();
    for t in [20u32, 30, 1000, 50000] {
        c.dispatch(Event::TimerCheck, at(t));
        assert_eq!(on_data(&c).fade_to, record);
    }
    assert_eq!(writes.borrow().len(), n);
}

#[test]
fn each_tick_moves_at_most_one_unit() {
    let (mut c, _) = controller();
    let dest = RGBW8::new(200, 3, 0, 255);
    c.dispatch(Event::ManualOn(dest), at(0));
    let mut prev = displayed(&c);
    for k in 1..40u32 {
        // Ticks more than one interval apart still move a single step.
        c.dispatch(Event::TimerCheck, at(k * 25));
        let now = displayed(&c);
        for (p, n, d) in [
            (prev.r, now.r, dest.r),
            (prev.g, now.g, dest.g),
            (prev.b, now.b, dest.b),
            (prev.w, now.w, dest.w),
        ] {
            assert!((n as i32 - p as i32).abs() <= 1);
            assert!((d as i32 - n as i32).abs() <= (d as i32 - p as i32).abs());
        }
        prev = now;
    }
    assert_eq!(prev, RGBW8::new(39, 3, 0, 39));
}

#[test]
fn manual_off_fades_out_then_idles() {
    let (mut c, writes) = controller();
    c.dispatch(Event::ManualOn(RGBW8::new(2, 0, 1, 0)), at(0));
    c.dispatch(Event::TimerCheck, at(10));
    c.dispatch(Event::TimerCheck, at(20));
    assert_eq!(displayed(&c), RGBW8::new(2, 0, 1, 0));
    c.dispatch(Event::ManualOff, at(30));
    match *c.state() {
        State::Off(f) => {
            assert_eq!(f.color, RGBW8::new(2, 0, 1, 0));
            assert_eq!(f.destination_color, RGBW8::off());
            assert_eq!(f.transitioned_at, at(30));
        }
        s => panic!("expected off, found {:?}", s),
    }
    assert!(!c.is_idle());
    c.dispatch(Event::TimerCheck, at(35));
    assert_eq!(displayed(&c), RGBW8::new(2, 0, 1, 0));
    c.dispatch(Event::TimerCheck, at(40));
    assert_eq!(displayed(&c), RGBW8::new(1, 0, 0, 0));
    c.dispatch(Event::TimerCheck, at(50));
    assert_eq!(displayed(&c), RGBW8::off());
    assert!(c.is_idle());
    assert_eq!(writes.borrow().last().copied(), Some(RGBW8::off()));
    c.dispatch(Event::TimerCheck, at(70));
    assert!(c.is_idle());
}

#[test]
fn cycling_mode_picks_a_new_destination_when_reached() {
    let (mut c, _) = controller();
    c.dispatch(Event::Strobe, at(0));
    let mut t = 0u32;
    let mut retargeted = false;
    for _ in 0..2000 {
        let before = on_data(&c).fade_to;
        t += 5;
        c.dispatch(Event::TimerCheck, at(t));
        let after = on_data(&c).fade_to;
        assert_ne!(after.color, after.destination_color);
        if after.color == before.destination_color {
            assert_ne!(after.destination_color, before.destination_color);
            assert_eq!(after.destination_color.w, 0);
            retargeted = true;
            break;
        }
    }
    assert!(retargeted);
}

#[test]
fn palette_modes_draw_palette_colors() {
    let (mut c, _) = controller();
    c.handle_ir_command(command(Button::Smooth));
    let d = on_data(&c);
    assert_eq!(d.mode, Mode::Smooth);
    let palette: Vec<RGBW8> = night_light::BasicColor::enumerate()
        .iter()
        .map(|b| b.as_rgbw())
        .collect();
    assert!(palette.contains(&d.fade_to.destination_color));
    c.handle_ir_command(command(Button::Flash));
    let d = on_data(&c);
    assert_eq!(d.mode, Mode::Flash);
    assert!(palette.contains(&d.fade_to.destination_color));
}

#[test]
fn color_buttons_select_palette_colors() {
    let (mut c, _) = controller();
    c.handle_ir_command(command(Button::Blue1));
    let d = on_data(&c);
    assert_eq!(d.mode, Mode::ManualOn);
    assert_eq!(d.fade_to.destination_color, RGBW8::new(0x87, 0xCE, 0xEB, 0));
    c.handle_ir_command(IrCommand { button: Button::Red, repeat: true });
    assert_eq!(on_data(&c).fade_to.destination_color, RGBW8::new(255, 0, 0, 0));
}

#[test]
fn off_button_switches_off() {
    let (mut c, _) = controller();
    c.handle_ir_command(command(Button::On));
    assert!(matches!(*c.state(), State::On(_)));
    c.handle_ir_command(command(Button::Off));
    assert!(matches!(*c.state(), State::Off(_)));
}

#[test]
fn writes_follow_the_steps_exactly() {
    let (mut c, writes) = controller();
    assert_eq!(*writes.borrow(), vec![RGBW8::off()]);
    c.dispatch(Event::Fade, at(0));
    c.dispatch(Event::ManualOn(RGBW8::new(2, 0, 0, 0)), at(1));
    c.dispatch(Event::AutoOn, at(2));
    c.dispatch(Event::ManualOn(RGBW8::new(2, 0, 0, 0)), at(3));
    assert_eq!(writes.borrow().len(), 1);
    c.dispatch(Event::TimerCheck, at(8));
    assert_eq!(writes.borrow().len(), 1);
    c.dispatch(Event::TimerCheck, at(13));
    c.dispatch(Event::TimerCheck, at(23));
    c.dispatch(Event::TimerCheck, at(33));
    c.dispatch(Event::ManualOff, at(40));
    c.dispatch(Event::TimerCheck, at(50));
    c.dispatch(Event::TimerCheck, at(60));
    c.dispatch(Event::TimerCheck, at(70));
    assert_eq!(
        *writes.borrow(),
        vec![
            RGBW8::off(),
            RGBW8::new(1, 0, 0, 0),
            RGBW8::new(2, 0, 0, 0),
            RGBW8::new(1, 0, 0, 0),
            RGBW8::off(),
            RGBW8::off(),
        ]
    );
    assert!(c.is_idle());
}
