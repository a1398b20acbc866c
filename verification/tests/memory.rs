use tokimo_package_ffmpeg::memory::{
    batch_concurrency, leak_verdict, parse_proc_status, rss_trend, LeakVerdict, ProcMem, RssTrend,
};

const STATUS: &str = "Name:\tscreenshot-smb-bench\nUmask:\t0022\nState:\tR (running)\nVmPeak:\t  123456 kB\nVmHWM:\t   45678 kB\nVmRSS:\t   40000 kB\nThreads:\t9\n";

#[test]
fn reads_rss_and_peak() {
    assert_eq!(parse_proc_status(STATUS), ProcMem { vm_rss_kb: 40_000, vm_hwm_kb: 45_678 });
}

#[test]
fn missing_or_malformed_figures_read_as_zero() {
    assert_eq!(parse_proc_status(""), ProcMem { vm_rss_kb: 0, vm_hwm_kb: 0 });
    assert_eq!(parse_proc_status("VmRSS:\tlots kB\n"), ProcMem { vm_rss_kb: 0, vm_hwm_kb: 0 });
    assert_eq!(parse_proc_status("VmRSS:\n"), ProcMem { vm_rss_kb: 0, vm_hwm_kb: 0 });
    assert_eq!(parse_proc_status("VmRSS 100 kB\n"), ProcMem { vm_rss_kb: 0, vm_hwm_kb: 0 });
    assert_eq!(
        parse_proc_status("VmRSS: 99999999999999999999 kB\n"),
        ProcMem { vm_rss_kb: 0, vm_hwm_kb: 0 }
    );
    assert_eq!(parse_proc_status("VmRSS: -5 kB\n"), ProcMem { vm_rss_kb: 0, vm_hwm_kb: 0 });
}

#[test]
fn parsing_follows_line_and_number_rules() {
    // Keys are trimmed, a leading '+' is accepted, CRLF endings work, the
    // last line needs no newline, later lines win.
    assert_eq!(
        parse_proc_status("  VmHWM \t: +12 kB\r\nVmRSS:7\nVmRSS:\t8 kB"),
        ProcMem { vm_rss_kb: 8, vm_hwm_kb: 12 }
    );
    assert_eq!(parse_proc_status("VmRSS:\u{3000}42\u{a0}kB"), ProcMem { vm_rss_kb: 42, vm_hwm_kb: 0 });
    assert_eq!(parse_proc_status("vmrss: 5\n"), ProcMem { vm_rss_kb: 0, vm_hwm_kb: 0 });
    assert_eq!(
        parse_proc_status("VmRSS: 18446744073709551615 kB"),
        ProcMem { vm_rss_kb: u64::MAX, vm_hwm_kb: 0 }
    );
    assert_eq!(parse_proc_status("VmRSS: 5:6\n"), ProcMem { vm_rss_kb: 0, vm_hwm_kb: 0 });
}

#[test]
fn bench_verdicts() {
    assert_eq!(rss_trend(30 * 1024 + 1), RssTrend::Rising);
    assert_eq!(rss_trend(30 * 1024), RssTrend::Steady);
    assert_eq!(rss_trend(-10 * 1024 - 1), RssTrend::Falling);
    assert_eq!(rss_trend(0), RssTrend::Steady);
    assert_eq!(leak_verdict(10 * 1024 * 1024 + 1, 0), LeakVerdict::HeapLeak);
    assert_eq!(leak_verdict(0, 200 * 1024 + 1), LeakVerdict::RssGrowth);
    assert_eq!(leak_verdict(10 * 1024 * 1024, 200 * 1024), LeakVerdict::NoGrowth);
    assert_eq!(batch_concurrency(0, 5), 5);
    assert_eq!(batch_concurrency(8, 5), 8);
}
