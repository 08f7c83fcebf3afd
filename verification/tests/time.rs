use engine::time::{Clock, Duration, Instant, ReadingSource, MAX_FRAME_DELTA_NANOS};

#[test]
fn duration_constructors_scale_to_nanoseconds() {
    assert_eq!(Duration::from_nanos(7).as_nanos(), 7);
    assert_eq!(Duration::from_micros(3).as_nanos(), 3_000);
    assert_eq!(Duration::from_millis(250).as_nanos(), 250_000_000);
    assert_eq!(Duration::from_secs(2).as_nanos(), 2_000_000_000);
    assert_eq!(Duration::zero().as_nanos(), 0);
    assert_eq!(Duration::default().as_nanos(), 0);
}

#[test]
fn from_hz_is_the_period_of_the_rate() {
    assert_eq!(Duration::from_hz(60).as_nanos(), 16_666_666);
    assert_eq!(Duration::from_hz(1).as_nanos(), 1_000_000_000);
    assert_eq!(Duration::from_hz(1_000_000_000).as_nanos(), 1);
}

#[test]
fn duration_arithmetic_saturates_at_zero() {
    let a = Duration::from_millis(5);
    let b = Duration::from_millis(3);
    assert_eq!(a.add(b).as_nanos(), 8_000_000);
    assert_eq!(a.sub(b).as_nanos(), 2_000_000);
    assert_eq!(b.sub(a).as_nanos(), 0);
    let mut c = a;
    c.add_assign(b);
    assert_eq!(c, Duration::from_millis(8));
    c.sub_assign(Duration::from_secs(1));
    assert_eq!(c, Duration::zero());
    assert_eq!(a.min(b), b);
}

#[test]
fn instant_arithmetic_round_trips() {
    let t = Instant::now();
    let d = Duration::from_millis(16);
    let later = t.add(d);
    assert_eq!(later.sub(t), d);
    assert_eq!(t.sub(later), Duration::zero());
    assert_eq!(later.sub_duration(d), t);
    let mut moved = t;
    moved.add_assign(d);
    assert_eq!(moved, later);
    assert!(later > t);
}

#[test]
fn elapsed_is_measured_from_the_clock() {
    let long_ago = Instant::now().sub_duration(Duration::from_secs(3600));
    assert!(long_ago.elapsed() >= Duration::from_secs(3600));
}

#[test]
fn fresh_clock_has_nothing_pending() {
    let t0 = Instant::now();
    let clock = Clock::starting_at(Duration::from_hz(60), t0);
    let frame = clock.frame();
    assert_eq!(frame.elapsed(), Duration::zero());
    assert_eq!(frame.delta_time(), Duration::zero());
    assert_eq!(frame.accumulator(), Duration::zero());
    assert_eq!(clock.uptime(), Duration::zero());
    let clock = Clock::new(Duration::from_millis(10));
    assert_eq!(clock.frame().elapsed(), Duration::zero());
}

#[test]
fn advance_accumulates_the_frame_delta() {
    let t0 = Instant::now();
    let mut clock = Clock::starting_at(Duration::from_millis(10), t0);
    clock.advance_to(t0.add(Duration::from_millis(25)));
    let frame = clock.frame();
    assert_eq!(frame.delta_time(), Duration::from_millis(25));
    assert_eq!(frame.elapsed(), Duration::from_millis(25));
    assert_eq!(frame.accumulator(), Duration::from_millis(25));
    assert_eq!(clock.uptime(), Duration::from_millis(25));
}

#[test]
fn long_frames_are_clamped() {
    let t0 = Instant::now();
    let mut clock = Clock::starting_at(Duration::from_millis(10), t0);
    clock.advance_to(t0.add(Duration::from_secs(5)));
    assert_eq!(clock.frame().delta_time().as_nanos(), MAX_FRAME_DELTA_NANOS);
    assert_eq!(clock.frame().elapsed(), Duration::from_millis(250));
    // The simulated time falls behind the wall time by what the clamp discarded.
    assert_eq!(clock.uptime(), Duration::from_secs(5));
}

#[test]
fn readings_that_go_backwards_add_nothing() {
    let t0 = Instant::now();
    let mut clock = Clock::starting_at(Duration::from_millis(10), t0);
    clock.advance_to(t0.sub_duration(Duration::from_millis(5)));
    assert_eq!(clock.frame().delta_time(), Duration::zero());
    assert_eq!(clock.frame().elapsed(), Duration::zero());
}

#[test]
fn fixed_steps_consume_whole_steps_only() {
    let t0 = Instant::now();
    let mut clock = Clock::starting_at(Duration::from_millis(10), t0);
    clock.advance_to(t0.add(Duration::from_millis(35)));
    let steps = clock.fixed_steps();
    assert_eq!(steps.len(), 3);
    for (i, step) in steps.iter().enumerate() {
        assert_eq!(step.delta_time(), Duration::from_millis(10));
        assert_eq!(step.accumulator(), Duration::zero());
        assert_eq!(step.elapsed(), Duration::from_millis(10 * (i as u64 + 1)));
    }
    assert_eq!(clock.frame().accumulator(), Duration::from_millis(5));
    assert!(clock.fixed_steps().is_empty());
}

#[test]
fn next_fixed_step_ends_at_simulated_time_minus_pending() {
    let t0 = Instant::now();
    let mut clock = Clock::starting_at(Duration::from_millis(10), t0);
    clock.advance_to(t0.add(Duration::from_millis(15)));
    let step = clock.next_fixed_step().expect("one whole step");
    assert_eq!(step.elapsed(), Duration::from_millis(10));
    assert_eq!(clock.frame().accumulator(), Duration::from_millis(5));
    assert!(clock.next_fixed_step().is_none());
    // The pending time carries over into the next frame.
    clock.advance_to(t0.add(Duration::from_millis(20)));
    let steps = clock.fixed_steps();
    assert_eq!(steps.len(), 1);
    assert_eq!(steps[0].elapsed(), Duration::from_millis(20));
    assert_eq!(clock.frame().accumulator(), Duration::zero());
}

#[test]
fn simulated_time_stays_behind_uptime() {
    let t0 = Instant::now();
    let mut clock = Clock::starting_at(Duration::from_millis(16), t0);
    let mut now = t0;
    for ms in [5u64, 300, 16, 1000, 1] {
        now = now.add(Duration::from_millis(ms));
        clock.advance_to(now);
        assert!(clock.frame().elapsed() <= clock.uptime());
    }
}

#[test]
fn advance_reads_the_clock() {
    let mut clock = Clock::new(Duration::from_millis(10));
    clock.advance();
    assert!(clock.frame().delta_time().as_nanos() <= MAX_FRAME_DELTA_NANOS);
}

#[test]
fn readings_count_nanoseconds_since_the_epoch_in_64_bits() {
    assert_eq!(Instant::from_reading(None).sub(Instant::from_reading(Some(0))), Duration::zero());
    let t = Instant::from_reading(Some(1_500));
    assert_eq!(t.sub(Instant::from_reading(None)), Duration::from_nanos(1_500));
    let wrapped = Instant::from_reading(Some((1u128 << 64) + 42));
    assert_eq!(wrapped.sub(Instant::from_reading(None)), Duration::from_nanos(42));
    let top = Instant::from_reading(Some(u64::MAX as u128));
    assert_eq!(top.sub(Instant::from_reading(None)), Duration::from_nanos(u64::MAX));
}

#[test]
fn now_reads_the_wall_clock() {
    let since = std::time::SystemTime::now()
        .duration_since(std::time::UNIX_EPOCH)
        .unwrap()
        .as_nanos() as u64;
    let t = Instant::now();
    let epoch = Instant::from_reading(None);
    assert!(t.sub(epoch).as_nanos() >= since);
}

#[test]
fn simulated_time_trails_uptime_by_what_the_clamp_discarded() {
    let t0 = Instant::from_reading(Some(1_000_000_000));
    let mut clock = Clock::starting_at(Duration::from_millis(16), t0);
    let mut now = t0;
    let mut clamped_sum = Duration::zero();
    let mut discarded = Duration::zero();
    for ms in [5u64, 300, 16, 1000, 1, 250, 251] {
        now = now.add(Duration::from_millis(ms));
        clock.advance_to(now);
        let delta = clock.frame().delta_time();
        clamped_sum.add_assign(delta);
        discarded.add_assign(Duration::from_millis(ms).sub(delta));
        let _ = clock.fixed_steps();
        assert_eq!(clock.frame().elapsed(), clamped_sum);
        assert_eq!(clock.uptime(), clock.frame().elapsed().add(discarded));
    }
    assert_eq!(discarded, Duration::from_millis(50 + 750 + 1));
    assert_eq!(clock.uptime(), Duration::from_millis(1823));
}

#[test]
fn reading_source_never_goes_backwards() {
    let mut source = ReadingSource::new();
    let first = source.read();
    let second = source.read();
    assert!(second >= first);
    let far = Instant::from_reading(Some(1u128 << 62));
    source.note(far);
    assert_eq!(source.read(), far);
    source.note(Instant::from_reading(Some(5)));
    assert_eq!(source.read(), far);
}

#[test]
fn clock_readings_come_in_order() {
    let mut clock = Clock::new(Duration::from_millis(10));
    let mut last = clock.uptime();
    for _ in 0..100 {
        clock.advance();
        let _ = clock.fixed_steps();
        assert!(clock.uptime() >= last);
        assert!(clock.frame().accumulator() <= clock.frame().elapsed());
        assert!(clock.frame().elapsed() <= clock.uptime());
        last = clock.uptime();
    }
}
