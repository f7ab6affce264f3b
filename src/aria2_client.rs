//! The download daemon's side: its JSON-RPC requests, the jobs it reports,
//! and how per-job detail is joined onto them.

use vstd::prelude::*;
use vstd::string::*;
use crate::text::parsed_unsigned;
use crate::text::parse_unsigned;
use crate::utils::{rounded_div, tenths_text, tenths_string, rounded_quotient};

verus! {

/// The daemon's local JSON-RPC endpoint.
pub const RPC_ENDPOINT: &'static str = "http://localhost:6800/jsonrpc";

/// A parameter of a JSON-RPC call: a string, or a list of strings.
pub enum RpcParam {
    Text(String),
    List(Vec<String>),
}

/// A JSON-RPC 2.0 call to the daemon; an empty `params` is sent without a
/// `params` member.
pub struct RpcRequest {
    pub method: String,
    pub id: String,
    pub params: Vec<RpcParam>,
}

impl RpcRequest {
    /// The version query, which also serves as the daemon's liveness probe.
    pub fn get_version(id: &str) -> (r: RpcRequest)
        ensures
            r.method@ == "aria2.getVersion"@,
            r.id@ == id@,
            r.params@.len() == 0,
    {
        RpcRequest { method: String::from_str("aria2.getVersion"), id: String::from_str(id), params: Vec::new() }
    }

    /// The listing of active jobs.
    pub fn tell_active() -> (r: RpcRequest)
        ensures
            r.method@ == "aria2.tellActive"@,
            r.id@ == "active"@,
            r.params@.len() == 0,
    {
        RpcRequest { method: String::from_str("aria2.tellActive"), id: String::from_str("active"), params: Vec::new() }
    }

    /// The detail of the job `gid`, under the id `status_{gid}`.
    pub fn tell_status(gid: &str) -> (r: RpcRequest)
        ensures
            r.method@ == "aria2.tellStatus"@,
            r.id@ == "status_"@ + gid@,
            r.params@.len() == 1,
            r.params@[0] matches RpcParam::Text(g) && g@ == gid@,
    {
        let mut id = String::from_str("status_");
        id.append(gid);
        let mut params = Vec::new();
        params.push(RpcParam::Text(String::from_str(gid)));
        RpcRequest { method: String::from_str("aria2.tellStatus"), id, params }
    }

    /// A new job retrieving `uri`.
    pub fn add_uri(uri: &str) -> (r: RpcRequest)
        ensures
            r.method@ == "aria2.addUri"@,
            r.id@ == "1"@,
            r.params@.len() == 1,
            r.params@[0] matches RpcParam::List(l) && l@.len() == 1 && l@[0]@ == uri@,
    {
        let mut uris = Vec::new();
        uris.push(String::from_str(uri));
        let mut params = Vec::new();
        params.push(RpcParam::List(uris));
        RpcRequest { method: String::from_str("aria2.addUri"), id: String::from_str("1"), params }
    }
}

/// A reply's string result, or `unknown` where the reply has none.
pub fn result_or_unknown(result: Option<String>) -> (r: String)
    ensures
        result matches Some(s) ==> r == s,
        result is None ==> r@ == "unknown"@,
{
    match result {
        Some(s) => s,
        None => String::from_str("unknown"),
    }
}

/// One active job as the daemon reports it; sizes and rate arrive as
/// decimal text. `file_name` is filled from the job's detail, where that
/// could be had.
#[derive(Debug)]
pub struct TorrentStatus {
    pub gid: String,
    pub status: String,
    pub total_length: String,
    pub completed_length: String,
    pub download_speed: String,
    pub info_hash: Option<String>,
    pub file_name: Option<String>,
}

/// The share done, as ` (12.3%)`, where both sizes are numbers and the total
/// is not zero; empty otherwise.
pub open spec fn percent_text(completed: Seq<char>, total: Seq<char>) -> Seq<char> {
    match (parsed_unsigned(completed, u64::MAX as nat), parsed_unsigned(total, u64::MAX as nat)) {
        (Some(c), Some(t)) => if t > 0 {
            " ("@ + tenths_text(rounded_div(1000 * c, t)) + "%)"@
        } else {
            Seq::empty()
        },
        _ => Seq::empty(),
    }
}

/// The label of a job: its file name, or `Download ` and the first eight
/// characters of its id.
pub open spec fn label_text(gid: Seq<char>, file_name: Option<Seq<char>>) -> Seq<char> {
    match file_name {
        Some(f) => f,
        None => "Download "@ + (if gid.len() <= 8 {
            gid
        } else {
            gid.take(8)
        }),
    }
}

pub open spec fn opt_string_view(o: Option<String>) -> Option<Seq<char>> {
    match o {
        Some(s) => Some(s@),
        None => None,
    }
}

fn clone_opt(o: &Option<String>) -> (r: Option<String>)
    ensures
        r == *o,
{
    match o {
        Some(s) => Some(s.clone()),
        None => None,
    }
}

impl TorrentStatus {
    /// The share of the job done, as ` (12.3%)`; empty where a size is no
    /// number or the total is zero.
    pub fn progress_text(&self) -> (r: String)
        ensures
            r@ == percent_text(self.completed_length@, self.total_length@),
    {
        proof {
            reveal_strlit(" (");
            reveal_strlit("%)");
        }
        let c = parse_unsigned(self.completed_length.as_str(), u64::MAX);
        let t = parse_unsigned(self.total_length.as_str(), u64::MAX);
        match (c, t) {
            (Some(c), Some(t)) => {
                if t > 0 {
                    let n: u128 = 1000 * (c as u128);
                    assert(n / (t as u128) <= n) by (nonlinear_arith)
                        requires
                            t > 0,
                    {
                    }
                    let tenths = rounded_quotient(n, t as u128);
                    let mut out = String::from_str(" (");
                    let num = tenths_string(tenths);
                    out.append(num.as_str());
                    out.append("%)");
                    out
                } else {
                    String::new()
                }
            },
            _ => String::new(),
        }
    }

    /// The job's label: its file name, or `Download ` and the first eight
    /// characters of its id.
    pub fn display_name(&self) -> (r: String)
        ensures
            r@ == label_text(self.gid@, opt_string_view(self.file_name)),
    {
        match &self.file_name {
            Some(f) => f.clone(),
            None => {
                let len = self.gid.as_str().unicode_len();
                let end: usize = if len <= 8 {
                    len
                } else {
                    8
                };
                let mut out = String::from_str("Download ");
                out.append(self.gid.as_str().substring_char(0, end));
                proof {
                    if len <= 8 {
                        assert(self.gid@.subrange(0, end as int) =~= self.gid@);
                    }
                }
                out
            },
        }
    }

    /// This job with `name` as its file name.
    pub fn with_file_name(&self, name: Option<String>) -> (r: TorrentStatus)
        ensures
            r.gid == self.gid,
            r.status == self.status,
            r.total_length == self.total_length,
            r.completed_length == self.completed_length,
            r.download_speed == self.download_speed,
            r.info_hash == self.info_hash,
            r.file_name == name,
    {
        TorrentStatus {
            gid: self.gid.clone(),
            status: self.status.clone(),
            total_length: self.total_length.clone(),
            completed_length: self.completed_length.clone(),
            download_speed: self.download_speed.clone(),
            info_hash: clone_opt(&self.info_hash),
            file_name: name,
        }
    }
}

/// Joins per-job detail onto the listing, by position: job `i` takes name
/// `i`, and a job without one (its lookup failed or timed out) keeps no file
/// name. Every job of the listing stays, in its order.
pub fn attach_file_names(jobs: &Vec<TorrentStatus>, names: Vec<Option<String>>) -> (r: Vec<
    TorrentStatus,
>)
    ensures
        r@.len() == jobs@.len(),
        forall|i: int|
            0 <= i < jobs@.len() ==> {
                &&& (#[trigger] r@[i]).gid == jobs@[i].gid
                &&& r@[i].status == jobs@[i].status
                &&& r@[i].total_length == jobs@[i].total_length
                &&& r@[i].completed_length == jobs@[i].completed_length
                &&& r@[i].download_speed == jobs@[i].download_speed
                &&& r@[i].info_hash == jobs@[i].info_hash
                &&& r@[i].file_name == if i < names@.len() {
                    names@[i]
                } else {
                    None
                }
            },
{
    let mut out: Vec<TorrentStatus> = Vec::new();
    let mut i: usize = 0;
    while i < jobs.len()
        invariant
            i <= jobs@.len(),
            out@.len() == i,
            forall|k: int|
                0 <= k < i ==> {
                    &&& (#[trigger] out@[k]).gid == jobs@[k].gid
                    &&& out@[k].status == jobs@[k].status
                    &&& out@[k].total_length == jobs@[k].total_length
                    &&& out@[k].completed_length == jobs@[k].completed_length
                    &&& out@[k].download_speed == jobs@[k].download_speed
                    &&& out@[k].info_hash == jobs@[k].info_hash
                    &&& out@[k].file_name == if k < names@.len() {
                        names@[k]
                    } else {
                        None
                    }
                },
        decreases jobs@.len() - i,
    {
        let name = if i < names.len() {
            clone_opt(&names[i])
        } else {
            None
        };
        out.push(jobs[i].with_file_name(name));
        i = i + 1;
    }
    out
}

} // verus!
