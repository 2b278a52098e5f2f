//! The liveness endpoint: a fixed report, sent as a JSON object.

use vstd::prelude::*;
use crate::reply::{ok_reply, Reply, ReplyView};

verus! {

/// What the liveness endpoint reports.
#[derive(Debug, PartialEq, Eq)]
pub struct HealthReport {
    pub status: String,
    pub service: String,
    pub version: String,
}

/// A report as three texts.
pub ghost struct HealthReportView {
    pub status: Seq<char>,
    pub service: Seq<char>,
    pub version: Seq<char>,
}

impl View for HealthReport {
    type V = HealthReportView;

    open spec fn view(&self) -> HealthReportView {
        HealthReportView { status: self.status@, service: self.service@, version: self.version@ }
    }
}

/// The one report that this service ever gives.
pub open spec fn fixed_report() -> HealthReportView {
    HealthReportView { status: "ok"@, service: "note-backend"@, version: "0.1.0"@ }
}

/// The members of the JSON object that carries a report, as pairs of a name
/// and a text, in the order in which they are handed to the encoder.
pub open spec fn report_members(report: HealthReportView) -> Seq<(Seq<char>, Seq<char>)> {
    seq![
        ("status"@, report.status),
        ("service"@, report.service),
        ("version"@, report.version),
    ]
}

/// The bytes that `serde_json` writes, in its compact form, for the JSON
/// object that is built by inserting the given members in order, each value a
/// JSON string.
pub uninterp spec fn json_object_bytes(members: Seq<(Seq<char>, Seq<char>)>) -> Seq<u8>;

/// The content type of a JSON document.
pub open spec fn json_content_type() -> Seq<char> {
    "application/json"@
}

/// The reply of the liveness endpoint.
pub open spec fn health_reply() -> ReplyView {
    ok_reply(json_content_type(), json_object_bytes(report_members(fixed_report())))
}

/// One member of a JSON object whose value is a text.
struct Member {
    name: String,
    text: String,
}

/// The members of a vector as pairs of texts, in order.
spec fn member_views(members: Seq<Member>) -> Seq<(Seq<char>, Seq<char>)> {
    Seq::new(members.len(), |i: int| (members[i].name@, members[i].text@))
}

/// Calls `serde_json`: collects the members into a `serde_json::Map`, wraps it
/// as `Value::Object` and writes it with `Value`'s `Display`, which gives the
/// compact form. The contract claims only that the bytes are those that
/// `json_object_bytes` names for these members; nothing here was proved.
#[verifier::external_body]
fn encode_object(members: &Vec<Member>) -> (bytes: Vec<u8>)
    ensures
        bytes@ == json_object_bytes(member_views(members@)),
{
    let object: serde_json::Map<String, serde_json::Value> = members
        .iter()
        .map(|member| (member.name.clone(), serde_json::Value::String(member.text.clone())))
        .collect();
    serde_json::Value::Object(object).to_string().into_bytes()
}

impl HealthReport {
    /// Writes the report as a JSON object with the members `status`,
    /// `service` and `version`, each a JSON string.
    pub fn to_json(&self) -> (document: Vec<u8>)
        ensures
            document@ == json_object_bytes(report_members(self@)),
    {
        let members = vec![
            Member { name: "status".to_owned(), text: self.status.clone() },
            Member { name: "service".to_owned(), text: self.service.clone() },
            Member { name: "version".to_owned(), text: self.version.clone() },
        ];
        assert(member_views(members@) =~= report_members(self@));
        encode_object(&members)
    }
}

/// The report of the liveness endpoint. It does not depend on anything.
pub fn health_report() -> (report: HealthReport)
    ensures
        report@ == fixed_report(),
{
    HealthReport {
        status: "ok".to_owned(),
        service: "note-backend".to_owned(),
        version: "0.1.0".to_owned(),
    }
}

/// Wraps an encoded JSON document as a successful reply.
pub fn json_reply(document: Vec<u8>) -> (reply: Reply)
    ensures
        reply@ == ok_reply(json_content_type(), document@),
{
    Reply::ok("application/json", document)
}

/// Answers the liveness endpoint: a successful reply whose body is the fixed
/// report as a JSON object. It takes nothing from the request.
pub fn health_check() -> (reply: Reply)
    ensures
        reply@ == health_reply(),
{
    json_reply(health_report().to_json())
}

} // verus!
