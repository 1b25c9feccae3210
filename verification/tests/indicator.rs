use firmware_core::color::{Color, Level, Line};
use firmware_core::indicator::{Action, Indicator, BLINK_DELAY_MS, CYCLE_BUDGET};

const CYCLE: [Color; 6] = [
    Color::Red,
    Color::RedGreen,
    Color::Green,
    Color::GreenBlue,
    Color::Blue,
    Color::BlueRed,
];

fn run(indicator: &mut Indicator, steps: usize) -> Vec<Action> {
    let mut actions = Vec::new();
    for _ in 0..steps {
        actions.push(indicator.step());
    }
    actions
}

fn count(actions: &[Action], wanted: Action) -> usize {
    actions.iter().filter(|a| **a == wanted).count()
}

#[test]
fn budget_is_five_cycles_and_a_hold_is_100_ms() {
    assert_eq!(CYCLE_BUDGET, 5);
    assert_eq!(BLINK_DELAY_MS, 100);
}

#[test]
fn color_next_walks_the_cycle() {
    for i in 0..6 {
        assert_eq!(CYCLE[i].next(), CYCLE[(i + 1) % 6]);
    }
}

#[test]
fn color_change_follows_the_table() {
    assert_eq!(Color::Red.change(), (Line::Green, Level::Low));
    assert_eq!(Color::RedGreen.change(), (Line::Red, Level::High));
    assert_eq!(Color::Green.change(), (Line::Blue, Level::Low));
    assert_eq!(Color::GreenBlue.change(), (Line::Green, Level::High));
    assert_eq!(Color::Blue.change(), (Line::Red, Level::Low));
    assert_eq!(Color::BlueRed.change(), (Line::Blue, Level::High));
}

#[test]
fn fresh_indicator_is_red_with_full_budget() {
    let indicator = Indicator::new();
    assert_eq!(indicator.color(), Color::Red);
    assert_eq!(indicator.cycles_left(), 5);
    assert_eq!(indicator.blinks_done(), 0);
    assert!(!indicator.is_finished());
}

#[test]
fn first_phase_blinks_four_times_then_lights_green() {
    let mut indicator = Indicator::new();
    let actions = run(&mut indicator, 17);
    let blink = [
        Action::Heartbeat(Level::Low),
        Action::Hold { millis: 100 },
        Action::Heartbeat(Level::High),
        Action::Hold { millis: 100 },
    ];
    for b in 0..4 {
        assert_eq!(&actions[4 * b..4 * b + 4], &blink);
    }
    assert_eq!(actions[16], Action::Drive(Line::Green, Level::Low));
    assert_eq!(indicator.color(), Color::RedGreen);
    assert_eq!(indicator.cycles_left(), 5);
    assert_eq!(indicator.blinks_done(), 0);
}

#[test]
fn blinks_done_counts_whole_blinks() {
    let mut indicator = Indicator::new();
    run(&mut indicator, 3);
    assert_eq!(indicator.blinks_done(), 0);
    run(&mut indicator, 1);
    assert_eq!(indicator.blinks_done(), 1);
    run(&mut indicator, 12);
    assert_eq!(indicator.blinks_done(), 4);
    assert_eq!(indicator.color(), Color::Red);
}

#[test]
fn six_transitions_from_red_return_to_red_once() {
    let mut indicator = Indicator::new();
    let mut seen = Vec::new();
    for _ in 0..6 {
        let actions = run(&mut indicator, 17);
        assert!(matches!(actions[16], Action::Drive(_, _)));
        seen.push(indicator.color());
    }
    assert_eq!(
        seen,
        vec![
            Color::RedGreen,
            Color::Green,
            Color::GreenBlue,
            Color::Blue,
            Color::BlueRed,
            Color::Red
        ]
    );
    assert_eq!(seen.iter().filter(|c| **c == Color::Red).count(), 1);
    assert_eq!(indicator.cycles_left(), 4);
}

#[test]
fn each_cycle_blinks_four_times_per_color() {
    let mut indicator = Indicator::new();
    let mut lows = 0;
    let mut highs = 0;
    for n in 1..=5usize {
        let actions = run(&mut indicator, 102);
        lows += count(&actions, Action::Heartbeat(Level::Low));
        highs += count(&actions, Action::Heartbeat(Level::High));
        assert_eq!(lows, 24 * n);
        assert_eq!(highs, 24 * n);
        assert_eq!(count(&actions, Action::Hold { millis: 100 }), 48);
        assert_eq!(indicator.cycles_left() as usize, 5 - n);
    }
    assert!(indicator.is_finished());
}

#[test]
fn full_run_visits_the_cycle_five_times_and_stops() {
    let mut indicator = Indicator::new();
    let mut visited = Vec::new();
    let mut actions = Vec::new();
    let mut phase_start = true;
    loop {
        if phase_start {
            visited.push(indicator.color());
            phase_start = false;
        }
        let action = indicator.step();
        if action == Action::Finished {
            break;
        }
        if let Action::Drive(_, _) = action {
            phase_start = !indicator.is_finished();
        }
        actions.push(action);
    }
    assert_eq!(actions.len(), 510);
    assert_eq!(visited.len(), 30);
    for (j, color) in visited.iter().enumerate() {
        assert_eq!(*color, CYCLE[j % 6]);
    }
    assert_eq!(count(&actions, Action::Heartbeat(Level::Low)), 120);
    assert_eq!(count(&actions, Action::Heartbeat(Level::High)), 120);
    assert_eq!(count(&actions, Action::Hold { millis: 100 }), 240);
    assert_eq!(actions[509], Action::Drive(Line::Blue, Level::High));
}

#[test]
fn finished_indicator_stays_finished() {
    let mut indicator = Indicator::new();
    run(&mut indicator, 509);
    assert!(!indicator.is_finished());
    run(&mut indicator, 1);
    assert!(indicator.is_finished());
    assert_eq!(indicator.cycles_left(), 0);
    for _ in 0..3 {
        assert_eq!(indicator.step(), Action::Finished);
        assert!(indicator.is_finished());
        assert_eq!(indicator.color(), Color::BlueRed);
    }
}

#[test]
fn lines_show_the_color_from_the_third_phase_on() {
    let lit = |l: Level| l == Level::Low;
    let mut indicator = Indicator::new();
    let mut red = Level::High;
    let mut green = Level::High;
    let mut blue = Level::High;
    for step in 0..510 {
        if let Action::Drive(line, level) = indicator.step() {
            match line {
                Line::Red => red = level,
                Line::Green => green = level,
                Line::Blue => blue = level,
            }
        }
        if indicator.is_finished() {
            break;
        }
        let c = indicator.color();
        let wants_red = matches!(c, Color::Red | Color::RedGreen | Color::BlueRed);
        let wants_green = matches!(c, Color::RedGreen | Color::Green | Color::GreenBlue);
        let wants_blue = matches!(c, Color::GreenBlue | Color::Blue | Color::BlueRed);
        assert_eq!(lit(green), wants_green);
        assert_eq!(lit(blue), wants_blue);
        if step + 1 >= 34 {
            assert_eq!(lit(red), wants_red);
        } else {
            assert!(!lit(red));
        }
    }
    assert!(indicator.is_finished());
    assert_eq!((red, green, blue), (Level::Low, Level::High, Level::High));
}

#[test]
fn a_hold_comes_within_three_actions() {
    let mut indicator = Indicator::new();
    let mut since_hold = 0;
    loop {
        match indicator.step() {
            Action::Finished => break,
            Action::Hold { millis } => {
                assert_eq!(millis, 100);
                since_hold = 0;
            }
            _ => {
                since_hold += 1;
                assert!(since_hold <= 2);
            }
        }
    }
}
