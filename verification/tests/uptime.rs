use aegl_bot::uptime::{get_process_info, uptime_message, ProcessStats};

#[test]
fn process_lines() {
    let stats = ProcessStats { num_threads: 12, vsize: 123_456_789, rss: 2_500, page_size: 4096 };
    assert_eq!(
        get_process_info(Some(stats)),
        "- 🧵 12 threads\n- 📃 123,456,789 bytes (30,140 pages) virtual memory\n- 📃 10,240,000 bytes (2,500 pages) resident memory"
    );
    assert_eq!(get_process_info(None), "- Couldn't access process information");
}

#[test]
fn uptime_reply() {
    assert_eq!(uptime_message("2 hours ago", "- x"), "- ⏰ Started 2 hours ago\n- x");
}
