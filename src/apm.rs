//! The pieces of a performance measurement report that are decided here:
//! the context record, the device id read from system tool output, and the
//! page-load durations derived from reported timestamps.
use vstd::prelude::*;
use crate::dispatch::CommandPlan;
use crate::number::{decimal_u128, parse_u128};
use crate::platform::{label_of, platform_label, PlatformKind};
use crate::text::{
    contains, contains_text, lines, pieces, split_lines, split_on, text_eq, trim, trimmed, views,
};

verus! {

/// The context that accompanies every measurement.
#[derive(Clone, Debug)]
pub struct ContextData {
    pub client_time: u64,
    pub name_tracker: String,
    pub platform: String,
    pub app_version: String,
    pub os_version: String,
    pub device_model: String,
    pub device_id: String,
    pub package: String,
    pub network_type: String,
    pub matched_path: String,
    pub route: String,
    pub user_agent: String,
    pub artifact_name: String,
    pub artifact_version: String,
    pub network_quality: String,
    pub device_level: String,
    pub user_id: String,
}

pub open spec fn device_or_unknown(d: Option<String>) -> Seq<char> {
    match d {
        Some(s) => s@,
        None => "unknown"@,
    }
}

impl ContextData {
    /// The context of a report made at `client_time` (milliseconds since the
    /// epoch) on a `platform` host whose device id is `device_id`, if known.
    pub fn new(client_time: u64, platform: PlatformKind, device_id: Option<String>) -> (r: Self)
        ensures
            r.client_time == client_time,
            r.platform@ == label_of(platform),
            r.device_id@ == device_or_unknown(device_id),
            r.user_id@ == device_or_unknown(device_id),
            r.user_agent@ == Seq::<char>::empty(),
            r.name_tracker@ == "wapT"@,
            r.app_version@ == "discovery-0.0.0"@,
            r.os_version@ == "unknown"@,
            r.device_model@ == Seq::<char>::empty(),
            r.package@ == Seq::<char>::empty(),
            r.network_type@ == "unknown"@,
            r.matched_path@ == "/apm/errorlistdetail"@,
            r.route@ == "http://local.xiaohongshu.com:1388/apm/errorlistdetail"@,
            r.artifact_name@ == "xhs-electron-printer"@,
            r.artifact_version@ == "1.122.2-68"@,
            r.network_quality@ == "UNKNOWN"@,
            r.device_level@ == "0"@,
    {
        let id = match device_id {
            Some(d) => d,
            None => String::from_str("unknown"),
        };
        ContextData {
            client_time,
            name_tracker: String::from_str("wapT"),
            platform: platform_label(platform),
            app_version: String::from_str("discovery-0.0.0"),
            os_version: String::from_str("unknown"),
            device_model: String::new(),
            device_id: id.clone(),
            package: String::new(),
            network_type: String::from_str("unknown"),
            matched_path: String::from_str("/apm/errorlistdetail"),
            route: String::from_str("http://local.xiaohongshu.com:1388/apm/errorlistdetail"),
            user_agent: String::new(),
            artifact_name: String::from_str("xhs-electron-printer"),
            artifact_version: String::from_str("1.122.2-68"),
            network_quality: String::from_str("UNKNOWN"),
            device_level: String::from_str("0"),
            user_id: id,
        }
    }
}

/// A named measurement with its fields and context.
#[derive(Clone, Debug)]
pub struct Measurement {
    pub measurement_name: String,
    pub measurement_data: Vec<(String, String)>,
    pub context_data: ContextData,
}

/// The duration to report for a page-load field: for the `windows_lcp` and
/// `mac_lcp` fields of an `app_performance` measurement whose value reads as
/// a timestamp later than the process start, the time elapsed since the
/// start; nothing otherwise.
pub open spec fn lcp_duration(name: Seq<char>, key: Seq<char>, value: Seq<char>, start: u128) -> Option<u128> {
    if name == "app_performance"@ && (key == "windows_lcp"@ || key == "mac_lcp"@) {
        match decimal_u128(value) {
            Some(t) => if t > start {
                Some((t - start) as u128)
            } else {
                None
            },
            None => None,
        }
    } else {
        None
    }
}

/// The adjusted value of one field of a measurement; see `lcp_duration`.
pub fn adjusted_lcp(name: &str, key: &str, value: &str, start_time: u128) -> (r: Option<u128>)
    ensures
        r == lcp_duration(name@, key@, value@, start_time),
{
    if !text_eq(name, "app_performance") {
        return None;
    }
    if !(text_eq(key, "windows_lcp") || text_eq(key, "mac_lcp")) {
        return None;
    }
    match parse_u128(value) {
        Some(t) => if t > start_time {
            Some(t - start_time)
        } else {
            None
        },
        None => None,
    }
}

/// The device id in `wmic csproduct get uuid` output: its second line,
/// trimmed, if that is not empty.
pub open spec fn windows_device_id_of(out: Seq<char>) -> Option<Seq<char>> {
    let ls = lines(out);
    if ls.len() > 1 && trimmed(ls[1]).len() > 0 {
        Some(trimmed(ls[1]))
    } else {
        None
    }
}

/// Reads the device id from `wmic csproduct get uuid` output.
pub fn windows_device_id(out: &str) -> (r: Option<String>)
    ensures
        match r {
            Some(id) => windows_device_id_of(out@) == Some(id@),
            None => windows_device_id_of(out@) is None,
        },
{
    let ls = split_lines(out);
    if ls.len() < 2 {
        return None;
    }
    proof {
        assert(views(ls@)[1] == ls@[1]@);
    }
    let id = trim(ls[1].as_str());
    if id.as_str().unicode_len() == 0 {
        return None;
    }
    Some(id)
}

/// The command whose output carries the Windows device id.
pub fn windows_device_id_plan() -> (r: CommandPlan)
    ensures
        r@.program == "wmic"@,
        r@.args == seq!["csproduct"@, "get"@, "uuid"@],
        r@.env.len() == 0,
{
    let r = CommandPlan {
        program: String::from_str("wmic"),
        args: vec![String::from_str("csproduct"), String::from_str("get"), String::from_str("uuid")],
        env: Vec::new(),
    };
    proof {
        assert(r@.args =~= seq!["csproduct"@, "get"@, "uuid"@]);
    }
    r
}

pub open spec fn uuid_marker() -> Seq<char> {
    "\"IOPlatformUUID\""@
}

/// The first line of `ls` that holds the platform-UUID key.
pub open spec fn is_first_uuid_line(ls: Seq<Seq<char>>, k: int) -> bool {
    0 <= k < ls.len() && contains_text(ls[k], uuid_marker()) && forall|j: int|
        0 <= j < k ==> !contains_text(#[trigger] ls[j], uuid_marker())
}

/// The device id in `ioreg -rd1 -c IOPlatformExpertDevice` output: on the
/// first line that holds the platform-UUID key, the fourth piece between
/// double quotes, trimmed, if that is not empty.
pub open spec fn mac_device_id_of(out: Seq<char>) -> Option<Seq<char>> {
    let ls = lines(out);
    if exists|k: int| is_first_uuid_line(ls, k) {
        let k = choose|k: int| is_first_uuid_line(ls, k);
        let ps = pieces(ls[k], '"');
        if ps.len() > 3 && trimmed(ps[3]).len() > 0 {
            Some(trimmed(ps[3]))
        } else {
            None
        }
    } else {
        None
    }
}

/// Reads the device id from `ioreg -rd1 -c IOPlatformExpertDevice` output.
pub fn mac_device_id(out: &str) -> (r: Option<String>)
    ensures
        match r {
            Some(id) => mac_device_id_of(out@) == Some(id@),
            None => mac_device_id_of(out@) is None,
        },
{
    let ls = split_lines(out);
    let ghost lv = lines(out@);
    let mut k: usize = 0;
    while k < ls.len()
        invariant
            k <= ls@.len(),
            views(ls@) == lv,
            lv == lines(out@),
            forall|j: int| 0 <= j < k ==> !contains_text(#[trigger] lv[j], uuid_marker()),
        decreases ls@.len() - k,
    {
        proof {
            assert(views(ls@)[k as int] == ls@[k as int]@);
        }
        if contains(ls[k].as_str(), "\"IOPlatformUUID\"") {
            proof {
                assert(is_first_uuid_line(lv, k as int));
                let c = choose|c: int| is_first_uuid_line(lv, c);
                assert(c == k) by {
                    if c < k {
                        assert(!contains_text(lv[c], uuid_marker()));
                    } else if c > k {
                        assert(!contains_text(lv[k as int], uuid_marker()));
                    }
                }
            }
            let ps = split_on(ls[k].as_str(), '"');
            if ps.len() < 4 {
                return None;
            }
            proof {
                assert(views(ps@)[3] == ps@[3]@);
            }
            let id = trim(ps[3].as_str());
            if id.as_str().unicode_len() == 0 {
                return None;
            }
            return Some(id);
        }
        k = k + 1;
    }
    proof {
        assert forall|c: int| !is_first_uuid_line(lv, c) by {
            if 0 <= c < lv.len() {
                assert(!contains_text(lv[c], uuid_marker()));
            }
        }
    }
    None
}

/// The command whose output carries the macOS device id.
pub fn mac_device_id_plan() -> (r: CommandPlan)
    ensures
        r@.program == "ioreg"@,
        r@.args == seq!["-rd1"@, "-c"@, "IOPlatformExpertDevice"@],
        r@.env.len() == 0,
{
    let r = CommandPlan {
        program: String::from_str("ioreg"),
        args: vec![
            String::from_str("-rd1"),
            String::from_str("-c"),
            String::from_str("IOPlatformExpertDevice"),
        ],
        env: Vec::new(),
    };
    proof {
        assert(r@.args =~= seq!["-rd1"@, "-c"@, "IOPlatformExpertDevice"@]);
    }
    r
}

} // verus!
