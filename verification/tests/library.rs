use logview::decimal::format_usize;
use logview::lines::split_lines_exec;
use logview::log_buffer::LogBuffer;
use logview::perf_graph::PerfGraph;
use logview::startup::{describe_caches, startup_settings, StartupSettings};

#[test]
fn decimal_zero() {
    assert_eq!(format_usize(0), "0");
}

#[test]
fn decimal_single_digit() {
    assert_eq!(format_usize(7), "7");
}

#[test]
fn decimal_many_digits() {
    assert_eq!(format_usize(120), "120");
    assert_eq!(format_usize(987654321), "987654321");
}

#[test]
fn decimal_large() {
    assert_eq!(format_usize(usize::MAX), usize::MAX.to_string());
}

#[test]
fn cache_description_exact() {
    assert_eq!(describe_caches(32768, 262144, 0), "# L1: 32768, L2: 262144, L3: 0");
}

#[test]
fn default_settings() {
    let s = StartupSettings::default();
    assert_eq!(s.physical_width, 1000);
    assert_eq!(s.physical_height, 670);
    assert_eq!(s.title, "Background task info");
    assert_eq!(s.default_font, "fixedsys.ttf");
}

#[test]
fn startup_title_carries_cache_description() {
    let s = startup_settings();
    assert!(s.title.starts_with("Background task info# L1: "));
    assert!(s.title.contains(", L2: "));
    assert!(s.title.contains(", L3: "));
    assert_eq!(s.physical_width, 1000);
    assert_eq!(s.physical_height, 670);
    assert_eq!(s.default_font, "fixedsys.ttf");
}

#[test]
fn split_empty() {
    assert_eq!(split_lines_exec(""), vec![""]);
}

#[test]
fn split_two_segments() {
    assert_eq!(split_lines_exec("a\nb"), vec!["a", "b"]);
}

#[test]
fn split_trailing_newline() {
    assert_eq!(split_lines_exec("a\n"), vec!["a", ""]);
}

#[test]
fn split_only_newlines() {
    assert_eq!(split_lines_exec("\n\n"), vec!["", "", ""]);
}

#[test]
fn log_buffer_new() {
    let b = LogBuffer::new();
    assert_eq!(b.text, "");
    assert_eq!(b.line_starts, vec![0]);
    assert_eq!(b.visible_lines(), vec![""]);
}

#[test]
fn log_buffer_one_line() {
    let mut b = LogBuffer::new();
    b.push_line("hi\n");
    assert_eq!(b.text, ">hi\n");
    assert_eq!(b.line_starts, vec![0, 0]);
    assert_eq!(b.visible_lines(), vec![">hi", ""]);
}

#[test]
fn log_buffer_records_starts() {
    let mut b = LogBuffer::new();
    b.push_line("x\n");
    b.push_line("y\n");
    b.push_line("z\n");
    assert_eq!(b.text, ">x\n>y\n>z\n");
    assert_eq!(b.line_starts, vec![0, 0, 3, 6]);
    assert_eq!(b.display_start(), 0);
}

#[test]
fn log_buffer_trims_oldest_in_batches() {
    let mut b = LogBuffer::new();
    for _ in 0..199 {
        b.push_line("x\n");
    }
    assert_eq!(b.line_starts.len(), 200);
    b.push_line("x\n");
    // the 201st start overflows the index and the 10 oldest offsets leave
    assert_eq!(b.line_starts.len(), 191);
    assert_eq!(b.line_starts[0], 27);
    assert_eq!(b.line_starts[190], 597);
    // the text itself is never trimmed
    assert_eq!(b.text.len(), 600);
}

#[test]
fn display_start_shows_last_sixty_lines() {
    let mut b = LogBuffer::new();
    for _ in 0..100 {
        b.push_line("x\n");
    }
    // 101 offsets indexed: the layout starts at the 60th most recent
    assert_eq!(b.line_starts.len(), 101);
    assert_eq!(b.display_start(), 120);
    let lines = b.visible_lines();
    assert_eq!(lines.len(), 61);
    assert!(lines[..60].iter().all(|l| l == ">x"));
    assert_eq!(lines[60], "");
}

#[test]
fn perf_graph_new_is_zeroed() {
    let p = PerfGraph::new();
    assert_eq!(p.head, 0);
    assert_eq!(p.values, vec![0u32; 100]);
    assert_eq!(p.get_average(), 0);
}

#[test]
fn perf_graph_update_advances_head() {
    let mut p = PerfGraph::new();
    p.update(7);
    assert_eq!(p.head, 1);
    assert_eq!(p.values[1], 7);
    assert_eq!(p.values[0], 0);
}

#[test]
fn perf_graph_head_wraps() {
    let mut p = PerfGraph::new();
    for _ in 0..100 {
        p.update(1);
    }
    assert_eq!(p.head, 0);
    for v in &p.values {
        assert_eq!(*v, 1);
    }
}

#[test]
fn perf_graph_average_is_integer_mean() {
    let mut p = PerfGraph::new();
    p.update(7);
    assert_eq!(p.get_average(), 0);
    p.update(693);
    assert_eq!(p.get_average(), 7);
}

#[test]
fn perf_graph_samples_start_at_head() {
    let mut p = PerfGraph::new();
    p.update(1);
    p.update(2);
    p.update(3);
    let s = p.samples_in_order();
    assert_eq!(s.len(), 100);
    assert_eq!(s[0], 3);
    assert_eq!(s[98], 1);
    assert_eq!(s[99], 2);
    assert!(s[1..98].iter().all(|v| *v == 0));
}
