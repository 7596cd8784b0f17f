//! Capture files and frame statistics.
use phelper_core::measurements::{
    analyze, capture_step, check_request, helper_path, reports_dir, row, scan, CaptureError, CaptureStep,
    FrameSummary,
};

/// The whole way from text to statistics; frame times are parsed as numbers
/// in between.
fn analyze_text(csv: &str, pid: u32) -> Result<FrameSummary, CaptureError> {
    let lines: Vec<String> = csv.lines().map(|l| l.to_string()).collect();
    let rows = scan(&lines, pid)?;
    let times = rows
        .rows
        .iter()
        .map(|r| r.time.as_ref().and_then(|t| t.parse::<f64>().ok()).map(f64::to_bits))
        .collect();
    analyze(&rows, &times, pid)
}

fn slow_fps(s: &FrameSummary) -> f64 {
    let slow = &s.times[s.times.len() - s.slow_count..];
    1000.0 * s.slow_count as f64 / slow.iter().map(|t| f64::from_bits(*t)).sum::<f64>()
}

#[test]
fn percentiles_use_one_swap_chain_and_slowest_tail_mean() {
    let mut csv = "Application,ProcessID,SwapChainAddress,msBetweenPresents\n".to_string();
    for i in 0..1000 {
        csv.push_str(&format!("\"game, a.exe\",42,A,{}\n", if i < 990 { 10 } else { 50 }));
    }
    for _ in 0..50 {
        csv.push_str("overlay.exe,42,B,1\nother.exe,99,C,1\n");
    }
    csv.push_str("game.exe,42,A,NaN\n");
    let result = analyze_text(&csv, 42).unwrap();
    assert_eq!(result.times.len(), 1000);
    assert_eq!(result.swap_chain, "A");
    assert_eq!(slow_fps(&result), 20.0);
    assert_eq!(f64::from_bits(result.p95), 10.0);
    assert_eq!(f64::from_bits(result.p99), 10.0);
    assert_eq!(result.other_swap_chains, 1);
    assert_eq!(result.rejected_rows, 1);
    assert_eq!(result.pid, 42);
    assert_eq!(result.slow_count, 10);
}

#[test]
fn missing_schema_and_empty_capture_are_errors() {
    assert!(analyze_text("FPS\n60\n", 42).is_err());
    assert!(analyze_text("ProcessID,SwapChainAddress,MsBetweenPresents\n", 42).is_err());
    assert_eq!(analyze_text("", 42), Err(CaptureError::NoData));
    assert_eq!(analyze_text("FPS\n60\n", 42), Err(CaptureError::NoProcessColumn));
    assert_eq!(analyze_text("ProcessID\n", 42), Err(CaptureError::NoChainColumn));
    assert_eq!(analyze_text("ProcessID,SwapChainAddress\n", 42), Err(CaptureError::NoTimeColumn));
    assert_eq!(analyze_text("\"ProcessID\n", 42), Err(CaptureError::UnclosedQuote));
    assert_eq!(
        analyze_text("ProcessID,SwapChainAddress,MsBetweenPresents\n", 42),
        Err(CaptureError::NoFrames)
    );
    let mut few = "\u{feff}processid,SWAPCHAINADDRESS,MsBetweenPresents\r\n".to_string();
    for _ in 0..99 {
        few.push_str("42,A,1.5\r\n");
    }
    assert_eq!(analyze_text(&few, 42), Err(CaptureError::TooFewFrames));
    few.push_str("42,A,1.5\r\n");
    assert!(analyze_text(&few, 42).is_ok());
}

#[test]
fn equal_chains_are_decided_by_name() {
    let mut csv = "ProcessID,SwapChainAddress,MsBetweenPresents\n".to_string();
    for i in 0..100 {
        csv.push_str(&format!("42,B,{}\n42,A,1\n", 100 - i));
    }
    csv.push_str("42,A,-1\n42,A\n42,A,inf\n\"open\n");
    let s = analyze_text(&csv, 42).unwrap();
    assert_eq!(s.swap_chain, "B");
    assert_eq!(s.rejected_rows, 4);
    assert_eq!(f64::from_bits(s.times[0]), 1.0);
    assert_eq!(f64::from_bits(s.times[99]), 100.0);
    assert_eq!(f64::from_bits(s.p95), 95.0);
    assert_eq!(f64::from_bits(s.p99), 99.0);
    assert_eq!(s.slow_count, 1);
}

#[test]
fn rows_split_at_commas_outside_quotes() {
    assert_eq!(row("a,b,").unwrap(), vec!["a", "b", ""]);
    assert_eq!(row("\"a,b\",c\r").unwrap(), vec!["a,b", "c"]);
    assert_eq!(row("\"say \"\"hi\"\"\",x").unwrap(), vec!["say \"hi\"", "x"]);
    assert_eq!(row("\"open,x"), Err(CaptureError::UnclosedQuote));
    assert_eq!(row("").unwrap(), vec![""]);
}

#[test]
fn requests_are_bounded() {
    assert_eq!(check_request(0, 10), Err(CaptureError::BadRequest));
    assert_eq!(check_request(4, 4), Err(CaptureError::BadRequest));
    assert_eq!(check_request(4, 301), Err(CaptureError::BadRequest));
    assert!(check_request(4, 5).is_ok() && check_request(4, 300).is_ok());
    assert_eq!(CaptureError::BadRequest.text(), "采集时间需为 5–300 秒，且 PID 必须有效");
}

#[test]
fn captures_stop_sample_or_wait() {
    assert_eq!(capture_step(true, 0, 10, 0), CaptureStep::GiveUp);
    assert_eq!(capture_step(false, 25_001, 10, 99_999), CaptureStep::GiveUp);
    assert_eq!(capture_step(false, 25_000, 10, 99_999), CaptureStep::Wait);
    assert_eq!(capture_step(false, 500, 10, 500), CaptureStep::Sample);
}

#[test]
fn capture_files_have_their_places() {
    assert_eq!(reports_dir("/d"), "/d/measurements");
    assert_eq!(helper_path("/d"), "/d/tools/PresentMon-2.5.1-x64.exe");
}
