//! Report curation — the console's only WRITE path. It writes a ResearchReport's SPEC
//! only, never its status.
//!
//! The backend talks to the API server; what it asks of it and what it answers is decided
//! here.

use vstd::prelude::*;
use crate::dossier::parts::{or_empty, text_or};
use crate::experiment::ExperimentCondition;
use crate::json::Json;
use crate::meta::ObjectMeta;
use crate::models::{ConditionMessageDto, ReportDetailDto, ReportSpecDto};
use crate::numeral::signed;
use crate::research_report::{Reference, ReportSubject, ResearchReport, ResearchReportSpec};
use crate::snapshot::{copy_text, copy_text_map, copy_texts, ms_of, to_ms};
use crate::text::{chars_of, trim, trimmed};

verus! {

broadcast use vstd::seq_lib::group_seq_properties;

/// The request was met.
pub const OK: u16 = 200;

/// The request was wrong.
pub const BAD_REQUEST: u16 = 400;

/// What was asked for does not exist.
pub const NOT_FOUND: u16 = 404;

/// What was to be written has changed, or exists already.
pub const CONFLICT: u16 = 409;

/// The backend itself failed.
pub const INTERNAL_SERVER_ERROR: u16 = 500;

/// The API server failed.
pub const BAD_GATEWAY: u16 = 502;

/// A request that was not met: the status of the answer, and what it says.
#[derive(Debug, PartialEq)]
pub struct Refusal {
    pub status: u16,
    pub message: String,
}

/// The refusal has the status and says the text.
pub open spec fn refuses(r: Refusal, status: u16, message: Seq<char>) -> bool {
    r.status == status && r.message@ == message
}

// ---------------------------------------------------------------------------
// Names
// ---------------------------------------------------------------------------

/// The characters of a DNS label.
pub open spec fn label_char(c: char) -> bool {
    'a' <= c <= 'z' || '0' <= c <= '9' || c == '-'
}

/// The name is a DNS label: one to 63 lowercase letters, digits and hyphens, with no hyphen
/// at either end.
pub open spec fn is_label(name: Seq<char>) -> bool {
    &&& 1 <= name.len() <= 63
    &&& forall|i: int| 0 <= i < name.len() ==> label_char(#[trigger] name[i])
    &&& name[0] != '-'
    &&& name[name.len() - 1] != '-'
}

/// RFC 1123 DNS label rules for a new report name.
pub fn valid_name(name: &str) -> (r: bool)
    ensures
        r == is_label(name@),
{
    let v = chars_of(name);
    if v.len() == 0 || v.len() > 63 {
        return false;
    }
    let mut i: usize = 0;
    while i < v.len()
        invariant
            i <= v.len(),
            v@ == name@,
            forall|k: int| 0 <= k < i ==> label_char(#[trigger] name@[k]),
        decreases v.len() - i,
    {
        let c = v[i];
        if !(('a' <= c && c <= 'z') || ('0' <= c && c <= '9') || c == '-') {
            assert(!label_char(name@[i as int]));
            return false;
        }
        i = i + 1;
    }
    v[0] != '-' && v[v.len() - 1] != '-'
}

fn blank(s: &str) -> (r: bool)
    ensures
        r == (trimmed(s@).len() == 0),
{
    trim(s).as_str().is_empty()
}

// ---------------------------------------------------------------------------
// Specs
// ---------------------------------------------------------------------------

/// The spec is that of the payload, with the references and the subject read from it.
pub open spec fn is_spec_of(
    dto: ReportSpecDto,
    references: Seq<Reference>,
    about: Option<ReportSubject>,
    s: ResearchReportSpec,
) -> bool {
    &&& s.campaign_ref@ == dto.campaign_ref@
    &&& s.title == dto.title
    &&& s.included_experiments@ == dto.included_experiments@
    &&& s.excluded_experiments@ == dto.excluded_experiments@
    &&& s.sections.entries() == dto.sections.entries()
    &&& s.seeded_hypotheses@ == dto.seeded_hypotheses@
    &&& s.references@ == references
    &&& s.about == about
}

/// What the payload reads as: a spec, or a refusal of the references, or else of the subject.
/// A value that is `null` is never refused.
pub open spec fn is_reading(
    dto: ReportSpecDto,
    references: Result<Vec<Reference>, String>,
    about: Result<Option<ReportSubject>, String>,
    r: Result<ResearchReportSpec, Refusal>,
) -> bool {
    match r {
        Ok(s) => {
            &&& dto.references is Null || references is Ok
            &&& dto.about is Null || about is Ok
            &&& is_spec_of(
                dto,
                if dto.references is Null {
                    Seq::empty()
                } else {
                    references->Ok_0@
                },
                if dto.about is Null {
                    None
                } else {
                    about->Ok_0
                },
                s,
            )
        },
        Err(e) => if !(dto.references is Null) && references is Err {
            refuses(e, BAD_REQUEST, "invalid references: "@ + references->Err_0@)
        } else {
            !(dto.about is Null) && about is Err && refuses(
                e,
                BAD_REQUEST,
                "invalid about: "@ + about->Err_0@,
            )
        },
    }
}

/// The spec that the payload describes. `references` and `about` are what reading these two
/// values of the payload gave, or what was wrong with them; a `null` stands for nothing, and
/// is not read.
pub fn spec_from_dto(
    dto: &ReportSpecDto,
    references: Result<Vec<Reference>, String>,
    about: Result<Option<ReportSubject>, String>,
) -> (r: Result<ResearchReportSpec, Refusal>)
    ensures
        is_reading(*dto, references, about, r),
{
    let references: Vec<Reference> = if dto.references.is_null() {
        Vec::new()
    } else {
        match references {
            Ok(v) => v,
            Err(e) => {
                let mut message = "invalid references: ".to_owned();
                message.append(e.as_str());
                return Err(Refusal { status: BAD_REQUEST, message });
            },
        }
    };
    let about: Option<ReportSubject> = if dto.about.is_null() {
        None
    } else {
        match about {
            Ok(a) => a,
            Err(e) => {
                let mut message = "invalid about: ".to_owned();
                message.append(e.as_str());
                return Err(Refusal { status: BAD_REQUEST, message });
            },
        }
    };
    Ok(
        ResearchReportSpec {
            campaign_ref: dto.campaign_ref.clone(),
            title: copy_text(&dto.title),
            included_experiments: copy_texts(&dto.included_experiments),
            excluded_experiments: copy_texts(&dto.excluded_experiments),
            sections: copy_text_map(&dto.sections),
            seeded_hypotheses: copy_texts(&dto.seeded_hypotheses),
            references,
            about,
        },
    )
}

/// The condition with its message.
pub open spec fn is_message(c: ExperimentCondition, r: ConditionMessageDto) -> bool {
    &&& r.ctype@ == text_or(c.condition_type, Seq::empty())
    &&& r.status@ == text_or(c.status, Seq::empty())
    &&& r.reason@ == text_or(c.reason, Seq::empty())
    &&& r.message@ == text_or(c.message, Seq::empty())
}

/// The conditions of the report.
pub open spec fn report_conditions(p: ResearchReport) -> Seq<ExperimentCondition> {
    match p.status {
        Some(s) => match s.conditions {
            Some(v) => v@,
            None => Seq::empty(),
        },
        None => Seq::empty(),
    }
}

/// The detail is that of the report.
pub open spec fn is_detail(p: ResearchReport, references: Json, about: Json, r: ReportDetailDto) -> bool {
    &&& r.spec.namespace@ == p.metadata.in_namespace()
    &&& r.spec.name@ == p.metadata.named()
    &&& r.spec.campaign_ref@ == p.spec.campaign_ref@
    &&& r.spec.title == p.spec.title
    &&& r.spec.included_experiments@ == p.spec.included_experiments@
    &&& r.spec.excluded_experiments@ == p.spec.excluded_experiments@
    &&& r.spec.sections.entries() == p.spec.sections.entries()
    &&& r.spec.seeded_hypotheses@ == p.spec.seeded_hypotheses@
    &&& r.spec.references == references
    &&& r.spec.about == about
    &&& r.spec.resource_version == p.metadata.resource_version
    &&& (match p.status {
        Some(s) => {
            &&& r.phase == s.phase
            &&& r.included_count == s.included_count
            &&& r.dataset_uri == s.dataset_uri
            &&& r.last_assembled_time == s.last_assembled_time
        },
        None => {
            &&& r.phase is None
            &&& r.included_count is None
            &&& r.dataset_uri is None
            &&& r.last_assembled_time is None
        },
    })
    &&& r.conditions@.len() == report_conditions(p).len()
    &&& forall|i: int|
        0 <= i < r.conditions@.len() ==> is_message(
            report_conditions(p)[i],
            #[trigger] r.conditions@[i],
        )
    &&& r.created_at.deep_view() == ms_of(p.metadata.creation_timestamp)
}

fn messages(v: &Vec<ExperimentCondition>) -> (r: Vec<ConditionMessageDto>)
    ensures
        r@.len() == v@.len(),
        forall|i: int| 0 <= i < r@.len() ==> is_message(v@[i], #[trigger] r@[i]),
{
    let mut out: Vec<ConditionMessageDto> = Vec::new();
    let mut i: usize = 0;
    while i < v.len()
        invariant
            i <= v.len(),
            out@.len() == i,
            forall|k: int| 0 <= k < i ==> is_message(v@[k], #[trigger] out@[k]),
        decreases v.len() - i,
    {
        let c = &v[i];
        out.push(
            ConditionMessageDto {
                ctype: or_empty(&c.condition_type),
                status: or_empty(&c.status),
                reason: or_empty(&c.reason),
                message: or_empty(&c.message),
            },
        );
        i = i + 1;
    }
    out
}

/// The report as the curator loads it. `references` and `about` are these two fields of its
/// spec as JSON values.
pub fn detail_of(p: &ResearchReport, references: Json, about: Json) -> (r: ReportDetailDto)
    ensures
        is_detail(*p, references, about, r),
{
    let spec = ReportSpecDto {
        namespace: p.metadata.namespace_or_default(),
        name: p.metadata.name_any(),
        campaign_ref: p.spec.campaign_ref.clone(),
        title: copy_text(&p.spec.title),
        included_experiments: copy_texts(&p.spec.included_experiments),
        excluded_experiments: copy_texts(&p.spec.excluded_experiments),
        sections: copy_text_map(&p.spec.sections),
        seeded_hypotheses: copy_texts(&p.spec.seeded_hypotheses),
        references,
        about,
        resource_version: copy_text(&p.metadata.resource_version),
    };
    let mut r = ReportDetailDto {
        spec,
        phase: None,
        included_count: None,
        dataset_uri: None,
        last_assembled_time: None,
        conditions: Vec::new(),
        created_at: to_ms(&p.metadata.creation_timestamp),
    };
    if let Some(s) = &p.status {
        r.phase = copy_text(&s.phase);
        r.included_count = s.included_count;
        r.dataset_uri = copy_text(&s.dataset_uri);
        r.last_assembled_time = copy_text(&s.last_assembled_time);
        if let Some(v) = &s.conditions {
            r.conditions = messages(v);
        }
    }
    r
}

// ---------------------------------------------------------------------------
// Requests
// ---------------------------------------------------------------------------

/// What the answer to a preview without a campaign says.
pub open spec fn campaign_required() -> Seq<char> {
    "campaignRef is required"@
}

/// What the answer to a name that is no label says.
pub open spec fn label_required() -> Seq<char> {
    "name must be a DNS label: lowercase letters, digits, '-', max 63"@
}

/// What the answer to an update without a version says.
pub open spec fn version_required() -> Seq<char> {
    "resourceVersion is required to update"@
}

/// Whether a draft can be previewed: it has a campaign.
pub fn check_preview(dto: &ReportSpecDto) -> (r: Result<(), Refusal>)
    ensures
        r is Ok <==> trimmed(dto.campaign_ref@).len() > 0,
        r matches Err(e) ==> refuses(e, BAD_REQUEST, campaign_required()),
{
    if blank(dto.campaign_ref.as_str()) {
        return Err(
            Refusal { status: BAD_REQUEST, message: "campaignRef is required".to_owned() },
        );
    }
    Ok(())
}

/// Whether a report may be created from the payload, as far as the payload tells: its name is
/// a DNS label, and it has a campaign.
pub fn check_create(dto: &ReportSpecDto) -> (r: Result<(), Refusal>)
    ensures
        r is Ok <==> is_label(dto.name@) && trimmed(dto.campaign_ref@).len() > 0,
        r matches Err(e) ==> if !is_label(dto.name@) {
            refuses(e, BAD_REQUEST, label_required())
        } else {
            refuses(e, BAD_REQUEST, campaign_required())
        },
{
    if !valid_name(dto.name.as_str()) {
        return Err(
            Refusal {
                status: BAD_REQUEST,
                message: "name must be a DNS label: lowercase letters, digits, '-', max 63".to_owned(),
            },
        );
    }
    check_preview(dto)
}

/// The answer to a report on a campaign that does not exist.
pub fn missing_campaign(dto: &ReportSpecDto) -> (r: Refusal)
    ensures
        refuses(
            r,
            BAD_REQUEST,
            "campaign '"@ + dto.campaign_ref@ + "' not found in namespace '"@ + dto.namespace@
                + "'"@,
        ),
{
    let mut message = "campaign '".to_owned();
    message.append(dto.campaign_ref.as_str());
    message.append("' not found in namespace '");
    message.append(dto.namespace.as_str());
    message.append("'");
    Refusal { status: BAD_REQUEST, message }
}

/// The version that a report is to be replaced at: the one that the draft was loaded from, so
/// a concurrent change (another curator, the drive's write-up) is a conflict, not a silent
/// overwrite.
pub fn check_replace(dto: &ReportSpecDto) -> (r: Result<String, Refusal>)
    ensures
        r is Ok <==> dto.resource_version is Some,
        r matches Ok(rv) ==> dto.resource_version == Some(rv),
        r matches Err(e) ==> refuses(e, BAD_REQUEST, version_required()),
{
    match &dto.resource_version {
        Some(rv) => Ok(rv.clone()),
        None => Err(
            Refusal {
                status: BAD_REQUEST,
                message: "resourceVersion is required to update".to_owned(),
            },
        ),
    }
}

/// The answer for a report that does not exist.
pub fn missing_report(namespace: &str, name: &str) -> (r: Refusal)
    ensures
        refuses(r, NOT_FOUND, "report "@ + namespace@ + "/"@ + name@ + " not found"@),
{
    let mut message = "report ".to_owned();
    message.append(namespace);
    message.append("/");
    message.append(name);
    message.append(" not found");
    Refusal { status: NOT_FOUND, message }
}

/// The report `r` is `current` with its spec and its version replaced.
pub open spec fn is_replacement(
    current: ResearchReport,
    spec: ResearchReportSpec,
    rv: String,
    r: ResearchReport,
) -> bool {
    &&& r.spec == spec
    &&& r.status == current.status
    &&& r.metadata == (ObjectMeta { resource_version: Some(rv), ..current.metadata })
}

/// The report with the spec replaced as a whole, so removing a section removes it, and at the
/// version that the draft was loaded from. Everything else is as it was.
pub fn replacement(current: ResearchReport, spec: ResearchReportSpec, rv: String) -> (r:
    ResearchReport)
    ensures
        is_replacement(current, spec, rv, r),
{
    let mut r = current;
    r.spec = spec;
    r.metadata.resource_version = Some(rv);
    r
}

/// The report has a name, and nothing that only a cluster gives it.
pub open spec fn is_new(name: Seq<char>, r: ResearchReport) -> bool {
    &&& r.metadata.name.deep_view() == Some(name)
    &&& r.metadata.generate_name is None
    &&& r.metadata.namespace is None
    &&& r.metadata.creation_timestamp is None
    &&& r.metadata.resource_version is None
    &&& r.metadata.owner_references is None
    &&& r.status is None
}

/// A report that is not in the cluster yet: a name and a spec, and no status.
pub fn new_report(name: &str, spec: ResearchReportSpec) -> (r: ResearchReport)
    ensures
        is_new(name@, r),
        r.spec == spec,
{
    ResearchReport {
        metadata: ObjectMeta {
            name: Some(name.to_owned()),
            generate_name: None,
            namespace: None,
            creation_timestamp: None,
            resource_version: None,
            owner_references: None,
        },
        spec,
        status: None,
    }
}

/// The answer to a creation that the API server did not carry out: `code` is the status that
/// the API server gave, where it gave one, and `error` what went wrong.
pub fn create_failed(dto: &ReportSpecDto, code: Option<u16>, error: String) -> (r: Refusal)
    ensures
        if code == Some(CONFLICT) {
            refuses(r, CONFLICT, "a report named '"@ + dto.name@ + "' already exists"@)
        } else {
            refuses(r, BAD_GATEWAY, error@)
        },
{
    if let Some(c) = code {
        if c == CONFLICT {
            let mut message = "a report named '".to_owned();
            message.append(dto.name.as_str());
            message.append("' already exists");
            return Refusal { status: CONFLICT, message };
        }
    }
    Refusal { status: BAD_GATEWAY, message: error }
}

/// The answer to a replacement that the API server did not carry out.
pub fn replace_failed(code: Option<u16>, error: String) -> (r: Refusal)
    ensures
        if code == Some(CONFLICT) {
            refuses(
                r,
                CONFLICT,
                "the report changed since it was loaded; reload it and reapply your edits"@,
            )
        } else {
            refuses(r, BAD_GATEWAY, error@)
        },
{
    if let Some(c) = code {
        if c == CONFLICT {
            return Refusal {
                status: CONFLICT,
                message: "the report changed since it was loaded; reload it and reapply your edits".to_owned(),
            };
        }
    }
    Refusal { status: BAD_GATEWAY, message: error }
}

/// What is owed of a payload before anything is asked of the cluster: the name and the campaign
/// first, then what the payload reads as.
pub open spec fn is_creation(
    dto: ReportSpecDto,
    references: Result<Vec<Reference>, String>,
    about: Result<Option<ReportSubject>, String>,
    r: Result<ResearchReport, Refusal>,
) -> bool {
    if !is_label(dto.name@) {
        r matches Err(e) && refuses(e, BAD_REQUEST, label_required())
    } else if trimmed(dto.campaign_ref@).len() == 0 {
        r matches Err(e) && refuses(e, BAD_REQUEST, campaign_required())
    } else {
        match r {
            Ok(p) => {
                &&& is_new(dto.name@, p)
                &&& is_reading(dto, references, about, Ok(p.spec))
            },
            Err(e) => is_reading(dto, references, about, Err(e)),
        }
    }
}

/// The report to create from the payload, or why it is refused unseen.
pub fn plan_create(
    dto: &ReportSpecDto,
    references: Result<Vec<Reference>, String>,
    about: Result<Option<ReportSubject>, String>,
) -> (r: Result<ResearchReport, Refusal>)
    ensures
        is_creation(*dto, references, about, r),
{
    if let Err(e) = check_create(dto) {
        return Err(e);
    }
    match spec_from_dto(dto, references, about) {
        Ok(spec) => Ok(new_report(dto.name.as_str(), spec)),
        Err(e) => Err(e),
    }
}

/// What is owed of a payload that replaces a report: the version first, then what the payload
/// reads as.
pub open spec fn is_update(
    dto: ReportSpecDto,
    references: Result<Vec<Reference>, String>,
    about: Result<Option<ReportSubject>, String>,
    r: Result<(ResearchReportSpec, String), Refusal>,
) -> bool {
    match dto.resource_version {
        None => r matches Err(e) && refuses(e, BAD_REQUEST, version_required()),
        Some(rv) => match r {
            Ok(p) => p.1 == rv && is_reading(dto, references, about, Ok(p.0)),
            Err(e) => is_reading(dto, references, about, Err(e)),
        },
    }
}

/// The spec to put in place of the report's, and the version to replace it at; or why the
/// payload is refused unseen. The version is asked for first.
pub fn plan_replace(
    dto: &ReportSpecDto,
    references: Result<Vec<Reference>, String>,
    about: Result<Option<ReportSubject>, String>,
) -> (r: Result<(ResearchReportSpec, String), Refusal>)
    ensures
        is_update(*dto, references, about, r),
{
    match check_replace(dto) {
        Err(e) => Err(e),
        Ok(rv) => match spec_from_dto(dto, references, about) {
            Ok(spec) => Ok((spec, rv)),
            Err(e) => Err(e),
        },
    }
}

/// The replacement of the report that was found, or the answer where none was.
pub fn replace_found(
    namespace: &str,
    name: &str,
    current: Option<ResearchReport>,
    plan: (ResearchReportSpec, String),
) -> (r: Result<ResearchReport, Refusal>)
    ensures
        match current {
            None => r matches Err(e) && refuses(
                e,
                NOT_FOUND,
                "report "@ + namespace@ + "/"@ + name@ + " not found"@,
            ),
            Some(p) => r matches Ok(q) && is_replacement(p, plan.0, plan.1, q),
        },
{
    match current {
        None => Err(missing_report(namespace, name)),
        Some(p) => Ok(replacement(p, plan.0, plan.1)),
    }
}

/// Saving a report as it was loaded changes nothing: the spec that its own payload describes
/// is the spec that it had.
pub proof fn a_loaded_report_saves_as_it_was(
    p: ResearchReport,
    references: Json,
    about: Json,
    detail: ReportDetailDto,
    s: ResearchReportSpec,
)
    requires
        is_detail(p, references, about, detail),
        is_spec_of(detail.spec, p.spec.references@, p.spec.about, s),
    ensures
        s.campaign_ref@ == p.spec.campaign_ref@,
        s.title == p.spec.title,
        s.included_experiments@ == p.spec.included_experiments@,
        s.excluded_experiments@ == p.spec.excluded_experiments@,
        s.sections.entries() == p.spec.sections.entries(),
        s.seeded_hypotheses@ == p.spec.seeded_hypotheses@,
        s.references@ == p.spec.references@,
        s.about == p.spec.about,
{
}

// ---------------------------------------------------------------------------
// What is accepted
// ---------------------------------------------------------------------------

/// A name is taken exactly when it is a DNS label: two labels with a hyphen between them are one
/// again as long as they stay within sixty-three characters; nothing empty or longer is one, nor
/// what begins or ends with a hyphen, nor what holds anything but small letters, digits and
/// hyphens.
pub proof fn names_are_dns_labels(a: Seq<char>, b: Seq<char>, i: int)
    ensures
        is_label(a) && is_label(b) ==> (is_label(a + seq!['-'] + b) <==> a.len() + b.len() <= 62),
        is_label(a) ==> !is_label(a + seq!['-']) && !is_label(seq!['-'] + a),
        a.len() == 0 || a.len() > 63 ==> !is_label(a),
        0 <= i < a.len() && ('A' <= a[i] <= 'Z' || a[i] == '_' || a[i] == '.' || a[i] == '/'
            || a[i] == ' ') ==> !is_label(a),
        a.len() == 1 && ('a' <= a[0] <= 'z' || '0' <= a[0] <= '9') ==> is_label(a),
{
    let s = a + seq!['-'] + b;
    if is_label(a) && is_label(b) {
        assert forall|k: int| 0 <= k < s.len() implies label_char(#[trigger] s[k]) by {
            if k < a.len() {
                assert(label_char(a[k]));
            } else if k > a.len() {
                assert(label_char(b[k - a.len() - 1]));
            }
        }
        assert(s[0] == a[0]);
        assert(s[s.len() - 1] == b[b.len() - 1]);
    }
    if is_label(a) {
        let t = a + seq!['-'];
        assert(t[t.len() - 1] == '-');
        let u = seq!['-'] + a;
        assert(u[0] == '-');
    }
    if 0 <= i < a.len() && is_label(a) {
        assert(label_char(a[i]));
    }
}

/// A report is created exactly when its name is a label, it has a campaign, and what the payload
/// gives of references and subject can be read; whatever is refused is a bad request, and what is
/// wrong with the name is said first.
pub proof fn a_report_is_created_or_refused(
    dto: ReportSpecDto,
    references: Result<Vec<Reference>, String>,
    about: Result<Option<ReportSubject>, String>,
    r: Result<ResearchReport, Refusal>,
)
    requires
        is_creation(dto, references, about, r),
    ensures
        r is Ok <==> is_label(dto.name@) && trimmed(dto.campaign_ref@).len() > 0 && (
        dto.references is Null || references is Ok) && (dto.about is Null || about is Ok),
        r matches Err(e) ==> e.status == 400,
        r matches Err(e) ==> (!is_label(dto.name@) ==> e.message@
            == "name must be a DNS label: lowercase letters, digits, '-', max 63"@),
        r matches Err(e) ==> (is_label(dto.name@) && trimmed(dto.campaign_ref@).len() == 0
            ==> e.message@ == "campaignRef is required"@),
        r matches Ok(p) ==> {
            &&& p.metadata.name is Some && p.metadata.name->0@ == dto.name@
            &&& p.metadata.resource_version is None
            &&& p.metadata.creation_timestamp is None
            &&& p.status is None
            &&& p.spec.campaign_ref@ == dto.campaign_ref@
            &&& p.spec.title == dto.title
            &&& p.spec.included_experiments@ == dto.included_experiments@
            &&& p.spec.excluded_experiments@ == dto.excluded_experiments@
            &&& p.spec.sections.entries() == dto.sections.entries()
            &&& p.spec.seeded_hypotheses@ == dto.seeded_hypotheses@
            &&& dto.references is Null ==> p.spec.references@.len() == 0
            &&& !(dto.references is Null) ==> p.spec.references@ == references->Ok_0@
            &&& dto.about is Null ==> p.spec.about is None
            &&& !(dto.about is Null) ==> p.spec.about == about->Ok_0
        },
{
}

/// A report is updated exactly when the payload says which version it was loaded from and can be
/// read; the version that is handed on is that one, and every part of the spec is the payload's.
pub proof fn a_report_is_updated_from_a_version(
    dto: ReportSpecDto,
    references: Result<Vec<Reference>, String>,
    about: Result<Option<ReportSubject>, String>,
    r: Result<(ResearchReportSpec, String), Refusal>,
)
    requires
        is_update(dto, references, about, r),
    ensures
        r is Ok <==> dto.resource_version is Some && (dto.references is Null || references is Ok)
            && (dto.about is Null || about is Ok),
        r matches Ok(p) ==> dto.resource_version == Some(p.1),
        r matches Ok(p) ==> p.0.campaign_ref@ == dto.campaign_ref@ && p.0.title == dto.title
            && p.0.included_experiments@ == dto.included_experiments@ && p.0.excluded_experiments@
            == dto.excluded_experiments@ && p.0.sections.entries() == dto.sections.entries()
            && p.0.seeded_hypotheses@ == dto.seeded_hypotheses@,
        r matches Err(e) ==> e.status == 400,
        r matches Err(e) ==> (dto.resource_version is None ==> e.message@
            == "resourceVersion is required to update"@),
{
}

/// A reading that fails says what could not be read, the references before the subject.
pub proof fn what_could_not_be_read_is_named(
    dto: ReportSpecDto,
    references: Result<Vec<Reference>, String>,
    about: Result<Option<ReportSubject>, String>,
    e: Refusal,
)
    requires
        is_reading(dto, references, about, Err(e)),
    ensures
        e.status == 400,
        !(dto.references is Null) && references is Err ==> e.message@ == "invalid references: "@
            + references->Err_0@,
        dto.references is Null || references is Ok ==> !(dto.about is Null) && about is Err
            && e.message@ == "invalid about: "@ + about->Err_0@,
{
}

/// A replacement changes the spec and the version and nothing else.
pub proof fn a_replacement_changes_spec_and_version(
    current: ResearchReport,
    spec: ResearchReportSpec,
    rv: String,
    r: ResearchReport,
)
    requires
        is_replacement(current, spec, rv, r),
    ensures
        r.spec == spec,
        r.metadata.resource_version == Some(rv),
        r.metadata.name == current.metadata.name,
        r.metadata.namespace == current.metadata.namespace,
        r.metadata.generate_name == current.metadata.generate_name,
        r.metadata.creation_timestamp == current.metadata.creation_timestamp,
        r.metadata.owner_references == current.metadata.owner_references,
        r.status == current.status,
{
}

/// The detail of a report gives every part of it back: what is included apart from what is
/// excluded, the version that it was loaded at, and of the status each thing under its own name.
pub proof fn a_detail_gives_the_report_back(
    p: ResearchReport,
    references: Json,
    about: Json,
    r: ReportDetailDto,
    i: int,
)
    requires
        is_detail(p, references, about, r),
    ensures
        r.spec.name@ == p.metadata.named(),
        r.spec.namespace@ == p.metadata.in_namespace(),
        r.spec.campaign_ref@ == p.spec.campaign_ref@,
        r.spec.title == p.spec.title,
        r.spec.included_experiments@ == p.spec.included_experiments@,
        r.spec.excluded_experiments@ == p.spec.excluded_experiments@,
        r.spec.seeded_hypotheses@ == p.spec.seeded_hypotheses@,
        r.spec.sections.entries() == p.spec.sections.entries(),
        r.spec.resource_version == p.metadata.resource_version,
        r.spec.references == references && r.spec.about == about,
        p.status is None ==> r.phase is None && r.included_count is None && r.dataset_uri is None
            && r.last_assembled_time is None && r.conditions@.len() == 0,
        p.status matches Some(s) ==> r.phase == s.phase && r.included_count == s.included_count
            && r.dataset_uri == s.dataset_uri && r.last_assembled_time == s.last_assembled_time,
        p.status matches Some(s) ==> (s.conditions matches Some(cs) ==> r.conditions@.len()
            == cs@.len() && (0 <= i < cs@.len() ==> {
            let m = r.conditions@[i];
            &&& cs@[i].condition_type matches Some(t) ==> m.ctype@ == t@
            &&& cs@[i].status matches Some(t) ==> m.status@ == t@
            &&& cs@[i].reason matches Some(t) ==> m.reason@ == t@
            &&& cs@[i].message matches Some(t) ==> m.message@ == t@
        })),
        p.metadata.creation_timestamp matches Some(t) ==> r.created_at is Some
            && r.created_at->0@ == signed(t.millis as int),
{
    if 0 <= i < r.conditions@.len() {
        assert(is_message(report_conditions(p)[i], r.conditions@[i]));
    }
}

/// What exists already is answered as a conflict, whatever else goes wrong as a failure behind the
/// console; what does not exist is answered as missing.
pub proof fn a_failure_is_answered_by_its_cause(
    dto: &ReportSpecDto,
    code: Option<u16>,
    error: String,
    created: Refusal,
    replaced: Refusal,
    namespace: &str,
    name: &str,
    missing: Refusal,
    unknown: Refusal,
)
    requires
        call_ensures(create_failed, (dto, code, error), created),
        call_ensures(replace_failed, (code, error), replaced),
        call_ensures(missing_report, (namespace, name), missing),
        call_ensures(missing_campaign, (dto,), unknown),
    ensures
        created.status == 409 <==> code == Some(409u16),
        created.status == 502 <==> code != Some(409u16),
        created.status == 502 ==> created.message@ == error@,
        created.status == 409 ==> created.message@ == "a report named '"@ + dto.name@
            + "' already exists"@,
        replaced.status == 409 <==> code == Some(409u16),
        replaced.status == 502 <==> code != Some(409u16),
        replaced.status == 502 ==> replaced.message@ == error@,
        missing.status == 404,
        missing.message@ == "report "@ + namespace@ + "/"@ + name@ + " not found"@,
        unknown.status == 400,
        unknown.message@ == "campaign '"@ + dto.campaign_ref@ + "' not found in namespace '"@
            + dto.namespace@ + "'"@,
{
}

} // verus!
