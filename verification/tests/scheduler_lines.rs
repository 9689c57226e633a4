use usrs_cli::beat::Beat;
use usrs_cli::beat::BEAT_SCALE;
use usrs_cli::scheduler::Line;
use usrs_cli::scheduler::LineScheduler;

fn line(start: i32) -> Line {
    Line { start, notes: Vec::new() }
}

#[test]
fn transition_fires_only_past_the_next_start() {
    // L1 spans beats 0..50, L2 starts at 60: successive beats 10, 40, 55,
    // 65 move the cursor only at 65, never at 55
    let mut s = LineScheduler::new(vec![line(0), line(60)]);
    assert_eq!(s.current, Some(0));

    let r10 = s.on_beat(Beat::from_grid(10));
    assert_eq!(s.current, Some(0));
    assert!(r10.stale_clear.is_none());
    assert!(!r10.clear_screen);
    assert_eq!(r10.redraw.unwrap().line_index, 0);
    assert_eq!(r10.redraw.unwrap().at, Beat::from_grid(10));

    let r40 = s.on_beat(Beat::from_grid(40));
    assert_eq!(s.current, Some(0));
    assert!(!r40.clear_screen);

    let r55 = s.on_beat(Beat::from_grid(55));
    assert_eq!(s.current, Some(0));
    assert!(r55.stale_clear.is_none());
    assert!(!r55.clear_screen);
    assert_eq!(r55.redraw.unwrap().line_index, 0);

    let r65 = s.on_beat(Beat::from_grid(65));
    assert_eq!(s.current, Some(1));
    let stale = r65.stale_clear.unwrap();
    assert_eq!(stale.line_index, 0);
    assert_eq!(stale.at, Beat::from_grid(165));
    assert!(r65.clear_screen);
    assert_eq!(r65.redraw.unwrap().line_index, 1);
    assert_eq!(r65.redraw.unwrap().at, Beat::from_grid(65));
}

#[test]
fn boundary_beat_does_not_fire() {
    // the comparison is strict: a beat exactly at the next start stays
    let mut s = LineScheduler::new(vec![line(0), line(60)]);
    s.on_beat(Beat::from_grid(60));
    assert_eq!(s.current, Some(0));
    s.on_beat(Beat { num: 60 * BEAT_SCALE + 1 });
    assert_eq!(s.current, Some(1));
}

#[test]
fn last_line_never_advances_further() {
    let mut s = LineScheduler::new(vec![line(0), line(60)]);
    s.on_beat(Beat::from_grid(65));
    assert_eq!(s.current, Some(1));
    let r = s.on_beat(Beat::from_grid(1_000_000));
    assert_eq!(s.current, Some(1));
    assert!(r.stale_clear.is_none());
    assert!(!r.clear_screen);
    assert_eq!(r.redraw.unwrap().line_index, 1);
}

#[test]
fn empty_song_draws_nothing() {
    let mut s = LineScheduler::new(Vec::new());
    assert_eq!(s.current, None);
    let r = s.on_beat(Beat::from_grid(10));
    assert_eq!(s.current, None);
    assert!(r.stale_clear.is_none());
    assert!(!r.clear_screen);
    assert!(r.redraw.is_none());
}

#[test]
fn negative_beats_before_the_gap_draw_the_first_line() {
    let mut s = LineScheduler::new(vec![line(0), line(60)]);
    let r = s.on_beat(Beat { num: -7 * BEAT_SCALE });
    assert_eq!(s.current, Some(0));
    assert!(!r.clear_screen);
    assert_eq!(r.redraw.unwrap().line_index, 0);
}
