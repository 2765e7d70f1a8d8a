use rustbasic_cli::progress::{
    cargo_progress_config_args, progress_bar, ActionLabel, LineOutcome, LineSplitter,
    ProgressState, Tone, BAR_WIDTH,
};

fn feed_all(bytes: &[u8]) -> (Vec<Vec<u8>>, Vec<u8>) {
    let mut splitter = LineSplitter::new();
    let mut lines = Vec::new();
    for &b in bytes {
        if let Some(line) = splitter.push_byte(b) {
            lines.push(line);
        }
    }
    (lines, splitter.buffer)
}

#[test]
fn splitter_cuts_at_line_feeds_and_carriage_returns() {
    let (lines, pending) = feed_all(b"ab\ncd\r\n\nef");
    assert_eq!(lines, vec![b"ab".to_vec(), b"cd".to_vec()]);
    assert_eq!(pending, b"ef".to_vec());
}

#[test]
fn splitter_reports_nothing_for_breaks_alone() {
    let (lines, pending) = feed_all(b"\r\r\n\n");
    assert!(lines.is_empty());
    assert!(pending.is_empty());
}

#[test]
fn progress_line_activates_the_bar() {
    let mut s = ProgressState::new();
    assert!(!s.active);
    assert_eq!(s.last_crate_action, "Compiling");
    let out = s.handle_line("   Building [===>   ] 3/10: foo, bar");
    assert!(matches!(out, LineOutcome::Progress));
    assert_eq!((s.current, s.total, s.active), (3, 10, true));
}

#[test]
fn compiling_line_names_the_crate() {
    let mut s = ProgressState::new();
    let out = s.handle_line("   Checking serde v1.0.0");
    assert!(matches!(out, LineOutcome::Crate));
    assert_eq!(s.last_crate_action, "Checking");
    assert_eq!(s.last_crate, "serde");
    assert!(!s.active);
}

#[test]
fn finished_line_hides_the_bar() {
    let mut s = ProgressState::new();
    s.handle_line("Building [=>] 1/2: a");
    let out = s.handle_line("    Finished `dev` profile [unoptimized] target(s) in 1.0s");
    assert!(matches!(out, LineOutcome::Other { finished: true, echo: false }));
    assert!(!s.active);
    assert_eq!((s.current, s.total), (1, 2));
    assert!(progress_bar(&s).is_none());
}

#[test]
fn other_lines_are_echoed_or_ignored() {
    let mut s = ProgressState::new();
    s.handle_line("Building [=>] 1/2: a");
    assert!(matches!(
        s.handle_line("warning: unused variable"),
        LineOutcome::Other { finished: false, echo: true }
    ));
    assert!(s.active);
    assert!(matches!(
        s.handle_line("   Fresh serde v1"),
        LineOutcome::Other { finished: false, echo: false }
    ));
    assert!(matches!(
        s.handle_line("   "),
        LineOutcome::Other { finished: false, echo: false }
    ));
    assert!(matches!(
        s.handle_line("     Running `target/debug/app`"),
        LineOutcome::Other { finished: true, echo: true }
    ));
    assert!(!s.active);
}

#[test]
fn raw_lines_are_read_as_text() {
    let mut s = ProgressState::new();
    let out = s.handle_raw_line(&b"  Compiling tokio v1.0.0".to_vec());
    assert!(matches!(out, LineOutcome::Crate));
    assert_eq!(s.last_crate, "tokio");
    let out = s.handle_raw_line(&b"Building [=] 2/4: x".to_vec());
    assert!(matches!(out, LineOutcome::Progress));
    assert_eq!((s.current, s.total), (2, 4));
}

fn state(current: usize, total: usize, action: &str, krate: &str, active: bool) -> ProgressState {
    ProgressState {
        current,
        total,
        last_crate_action: action.to_string(),
        last_crate: krate.to_string(),
        active,
    }
}

#[test]
fn half_way_bar() {
    let bar = progress_bar(&state(5, 10, "Checking", "serde", true)).unwrap();
    assert_eq!(bar.cells.len(), BAR_WIDTH);
    for (i, cell) in bar.cells.iter().enumerate() {
        match i {
            0..=7 => assert!(matches!(cell, Some(Tone::Magenta))),
            8..=14 => assert!(matches!(cell, Some(Tone::Cyan))),
            _ => assert!(cell.is_none()),
        }
    }
    assert_eq!(bar.percent, 50);
    assert!(matches!(bar.percent_tone, Tone::Cyan));
    assert!(matches!(bar.label, ActionLabel::Checking));
    assert_eq!(bar.crate_name.as_deref(), Some("serde"));
    assert_eq!((bar.current, bar.total), (5, 10));
}

#[test]
fn full_bar() {
    let bar = progress_bar(&state(10, 10, "Documenting", "", true)).unwrap();
    assert!(matches!(bar.cells[0], Some(Tone::Magenta)));
    assert!(matches!(bar.cells[16], Some(Tone::Yellow)));
    assert!(matches!(bar.cells[29], Some(Tone::Green)));
    assert_eq!(bar.percent, 100);
    assert!(matches!(bar.percent_tone, Tone::Green));
    assert!(matches!(bar.label, ActionLabel::Documenting));
    assert!(bar.crate_name.is_none());
}

#[test]
fn percent_tones() {
    let low = progress_bar(&state(1, 10, "Compiling", "a", true)).unwrap();
    assert_eq!(low.percent, 10);
    assert!(matches!(low.percent_tone, Tone::Magenta));
    assert!(matches!(low.label, ActionLabel::Compiling));
    assert!(matches!(low.cells[2], Some(Tone::Magenta)));
    assert!(low.cells[3].is_none());
    let high = progress_bar(&state(7, 10, "Compiling", "a", true)).unwrap();
    assert!(matches!(high.percent_tone, Tone::Yellow));
}

#[test]
fn no_bar_without_steps_or_before_progress() {
    assert!(progress_bar(&state(0, 0, "Compiling", "", true)).is_none());
    assert!(progress_bar(&state(3, 10, "Compiling", "", false)).is_none());
}

#[test]
fn progress_config_arguments() {
    assert_eq!(
        cargo_progress_config_args(),
        vec!["--config", "term.progress.when=\"always\"", "--config", "term.progress.width=100"]
    );
}
