//! The bot's uptime report.

use vstd::prelude::*;
use crate::numbers::{decimal, i64_decimal, u64_with_commas, with_commas};
use crate::text::{chars_to_string, extend_chars, push_str};

verus! {

/// The figures the report shows about the bot's own process.
pub struct ProcessStats {
    pub num_threads: i64,
    /// Virtual memory size in bytes.
    pub vsize: u64,
    /// Resident set size in pages.
    pub rss: u64,
    /// Bytes per memory page.
    pub page_size: u64,
}

/// The process lines of the report.
pub open spec fn process_info_text(info: Option<ProcessStats>) -> Seq<char> {
    match info {
        None => "- Couldn't access process information"@,
        Some(p) => "- 🧵 "@ + decimal(p.num_threads as int) + " threads\n- 📃 "@ + with_commas(
            p.vsize as nat,
        ) + " bytes ("@ + with_commas((p.vsize / p.page_size) as nat)
            + " pages) virtual memory\n- 📃 "@ + with_commas((p.rss * p.page_size) as nat)
            + " bytes ("@ + with_commas(p.rss as nat) + " pages) resident memory"@,
    }
}

/// The process lines of the report, from the process's figures where they
/// could be read.
pub fn get_process_info(info: Option<ProcessStats>) -> (r: String)
    requires
        match info {
            Some(p) => p.page_size > 0 && p.rss * p.page_size <= u64::MAX,
            None => true,
        },
    ensures
        r@ == process_info_text(info),
{
    match info {
        None => "- Couldn't access process information".to_owned(),
        Some(p) => {
            let mut v: Vec<char> = Vec::new();
            push_str(&mut v, "- 🧵 ");
            extend_chars(&mut v, i64_decimal(p.num_threads).as_slice());
            push_str(&mut v, " threads\n- 📃 ");
            extend_chars(&mut v, u64_with_commas(p.vsize).as_slice());
            push_str(&mut v, " bytes (");
            extend_chars(&mut v, u64_with_commas(p.vsize / p.page_size).as_slice());
            push_str(&mut v, " pages) virtual memory\n- 📃 ");
            extend_chars(&mut v, u64_with_commas(p.rss * p.page_size).as_slice());
            push_str(&mut v, " bytes (");
            extend_chars(&mut v, u64_with_commas(p.rss).as_slice());
            push_str(&mut v, " pages) resident memory");
            chars_to_string(v.as_slice())
        },
    }
}

/// The uptime reply: when the bot started, then the process lines.
pub fn uptime_message(started: &str, process_info: &str) -> (r: String)
    ensures
        r@ == "- ⏰ Started "@ + started@ + "\n"@ + process_info@,
{
    let mut v: Vec<char> = Vec::new();
    push_str(&mut v, "- ⏰ Started ");
    push_str(&mut v, started);
    push_str(&mut v, "\n");
    push_str(&mut v, process_info);
    chars_to_string(v.as_slice())
}

} // verus!
