use athena::experiment::ExperimentCondition;
use athena::json::Json;
use athena::meta::{ObjectMeta, Time};
use athena::models::ReportSpecDto;
use athena::reports::{
    check_create, check_preview, check_replace, create_failed, detail_of, missing_campaign,
    missing_report, new_report, plan_create, plan_replace, replace_failed, replace_found,
    replacement, spec_from_dto, valid_name, Refusal, BAD_GATEWAY, BAD_REQUEST, CONFLICT, NOT_FOUND,
};
use athena::research_report::{
    Reference, ReportSubject, ResearchReport, ResearchReportSpec, ResearchReportStatus,
};
use athena::textmap::TextMap;

fn refusal(status: u16, message: &str) -> Refusal {
    Refusal { status, message: message.to_string() }
}

fn dto() -> ReportSpecDto {
    ReportSpecDto {
        namespace: "ns".into(),
        name: "r1".into(),
        campaign_ref: "camp".into(),
        title: Some("T".into()),
        excluded_experiments: vec!["e2".into()],
        sections: TextMap::of(vec![("Findings".to_string(), "x".to_string())]),
        resource_version: Some("7".into()),
        ..Default::default()
    }
}

fn reference(key: &str) -> Reference {
    Reference {
        key: key.into(),
        title: "A".into(),
        url: None,
        doi: None,
        supports: None,
    }
}

fn spec() -> ResearchReportSpec {
    spec_from_dto(&dto(), Ok(vec![]), Ok(None)).unwrap()
}

fn report() -> ResearchReport {
    ResearchReport {
        metadata: ObjectMeta {
            name: Some("r1".into()),
            resource_version: Some("7".into()),
            creation_timestamp: Some(Time { millis: 1500, nanos: 0 }),
            ..Default::default()
        },
        spec: spec(),
        status: Some(ResearchReportStatus {
            phase: Some("Ready".into()),
            included_count: Some(3),
            conditions: Some(vec![ExperimentCondition {
                condition_type: Some("Fresh".into()),
                status: Some("True".into()),
                reason: None,
                message: Some("m".into()),
                last_transition_time: None,
            }]),
            ..Default::default()
        }),
    }
}

#[test]
fn names_are_dns_labels() {
    assert!(valid_name("a"));
    assert!(valid_name("my-report-2025"));
    assert!(valid_name(&"a".repeat(63)));
    assert!(!valid_name(&"a".repeat(64)));
    assert!(!valid_name(""));
    assert!(!valid_name("-a"));
    assert!(!valid_name("a-"));
    assert!(!valid_name("Bad"));
    assert!(!valid_name("a_b"));
    assert!(!valid_name("é"));
}

#[test]
fn a_payload_reads_as_the_spec_it_describes() {
    let s = spec();
    assert_eq!(s.campaign_ref, "camp");
    assert_eq!(s.title.as_deref(), Some("T"));
    assert_eq!(s.excluded_experiments, vec!["e2".to_string()]);
    assert_eq!(s.sections.get("Findings").unwrap(), "x");
    assert!(s.references.is_empty());
    assert!(s.about.is_none());
    let mut d = dto();
    d.references = Json::Array(vec![]);
    d.about = Json::Bool(true);
    let subject = ReportSubject { kind: "Experiment".into(), name: "e".into(), motivation: None };
    let s = spec_from_dto(&d, Ok(vec![reference("a")]), Ok(Some(subject))).unwrap();
    assert_eq!(s.references[0].key, "a");
    assert_eq!(s.about.unwrap().name, "e");
}

#[test]
fn what_cannot_be_read_is_refused_unless_it_is_null() {
    let bad = || Err("no list".to_string());
    let off = || Err("no subject".to_string());
    assert!(spec_from_dto(&dto(), bad(), off()).is_ok());
    let mut d = dto();
    d.references = Json::Bool(false);
    assert_eq!(
        spec_from_dto(&d, bad(), Ok(None)).err(),
        Some(refusal(BAD_REQUEST, "invalid references: no list"))
    );
    d.about = Json::Bool(false);
    assert_eq!(
        spec_from_dto(&d, bad(), off()).err(),
        Some(refusal(BAD_REQUEST, "invalid references: no list"))
    );
    assert_eq!(
        spec_from_dto(&d, Ok(vec![]), off()).err(),
        Some(refusal(BAD_REQUEST, "invalid about: no subject"))
    );
}

#[test]
fn a_preview_needs_a_campaign() {
    assert!(check_preview(&dto()).is_ok());
    let mut d = dto();
    d.campaign_ref = " \t".into();
    assert_eq!(check_preview(&d).err(), Some(refusal(BAD_REQUEST, "campaignRef is required")));
}

#[test]
fn a_creation_needs_a_name_before_a_campaign() {
    assert!(check_create(&dto()).is_ok());
    let mut d = dto();
    d.campaign_ref = "".into();
    assert_eq!(check_create(&d).err(), Some(refusal(BAD_REQUEST, "campaignRef is required")));
    d.name = "Bad_Name".into();
    let label = refusal(
        BAD_REQUEST,
        "name must be a DNS label: lowercase letters, digits, '-', max 63",
    );
    assert_eq!(check_create(&d).err(), Some(label));
    d.references = Json::Bool(false);
    assert!(plan_create(&d, Err("x".into()), Ok(None)).err().unwrap().message.starts_with("name"));
    d.name = "good".into();
    assert_eq!(
        plan_create(&d, Err("x".into()), Ok(None)).err(),
        Some(refusal(BAD_REQUEST, "campaignRef is required"))
    );
    d.campaign_ref = "camp".into();
    assert_eq!(
        plan_create(&d, Err("x".into()), Ok(None)).err(),
        Some(refusal(BAD_REQUEST, "invalid references: x"))
    );
    let p = plan_create(&d, Ok(vec![reference("a")]), Ok(None)).unwrap();
    assert_eq!(p.metadata.name.as_deref(), Some("good"));
    assert_eq!(p.spec.references.len(), 1);
    assert!(p.status.is_none());
}

#[test]
fn an_update_names_the_version_it_was_loaded_at() {
    assert_eq!(check_replace(&dto()), Ok("7".to_string()));
    let mut d = dto();
    d.resource_version = None;
    let required = refusal(BAD_REQUEST, "resourceVersion is required to update");
    assert_eq!(check_replace(&d), Err(refusal(BAD_REQUEST, "resourceVersion is required to update")));
    assert_eq!(plan_replace(&d, Ok(vec![]), Ok(None)).err(), Some(required));
    let (spec, rv) = plan_replace(&dto(), Ok(vec![]), Ok(None)).unwrap();
    assert_eq!(rv, "7");
    let gone = replace_found("ns", "r1", None, (spec.clone(), rv.clone())).err();
    assert_eq!(gone, Some(refusal(NOT_FOUND, "report ns/r1 not found")));
    let mut old = report();
    old.spec.sections = TextMap::of(vec![("Old".to_string(), "gone".to_string())]);
    old.metadata.resource_version = Some("9".into());
    let next = replace_found("ns", "r1", Some(old), (spec, rv)).unwrap();
    assert_eq!(next.metadata.resource_version.as_deref(), Some("7"));
    assert_eq!(next.metadata.name.as_deref(), Some("r1"));
    assert!(next.spec.sections.get("Old").is_none());
    assert!(next.spec.sections.get("Findings").is_some());
    assert!(next.status.is_some());
}

#[test]
fn refusals_say_what_is_missing_or_in_the_way() {
    assert_eq!(
        missing_campaign(&dto()),
        refusal(BAD_REQUEST, "campaign 'camp' not found in namespace 'ns'")
    );
    assert_eq!(missing_report("ns", "r"), refusal(NOT_FOUND, "report ns/r not found"));
    assert_eq!(
        create_failed(&dto(), Some(409), "e".into()),
        refusal(CONFLICT, "a report named 'r1' already exists")
    );
    assert_eq!(create_failed(&dto(), Some(500), "e".into()), refusal(BAD_GATEWAY, "e"));
    assert_eq!(create_failed(&dto(), None, "e".into()), refusal(BAD_GATEWAY, "e"));
    assert_eq!(
        replace_failed(Some(409), "e".into()),
        refusal(
            CONFLICT,
            "the report changed since it was loaded; reload it and reapply your edits"
        )
    );
    assert_eq!(replace_failed(None, "e".into()), refusal(BAD_GATEWAY, "e"));
}

#[test]
fn a_report_saves_as_it_was_loaded() {
    let p = report();
    let d = detail_of(&p, Json::Array(vec![]), Json::Null);
    assert_eq!(d.spec.namespace, "default");
    assert_eq!(d.spec.name, "r1");
    assert_eq!(d.phase.as_deref(), Some("Ready"));
    assert_eq!(d.included_count, Some(3));
    assert_eq!(d.created_at.as_deref(), Some("1500"));
    assert_eq!(d.conditions.len(), 1);
    assert_eq!(d.conditions[0].ctype, "Fresh");
    assert_eq!(d.conditions[0].reason, "");
    assert_eq!(d.conditions[0].message, "m");
    let s = spec_from_dto(&d.spec, Ok(vec![]), Ok(None)).unwrap();
    assert_eq!(s.campaign_ref, p.spec.campaign_ref);
    assert_eq!(s.excluded_experiments, p.spec.excluded_experiments);
    assert_eq!(s.sections.get("Findings"), p.spec.sections.get("Findings"));
    let n = new_report("r2", s);
    assert_eq!(n.metadata.name.as_deref(), Some("r2"));
    assert!(n.metadata.resource_version.is_none());
    let q = replacement(n, spec(), "8".into());
    assert_eq!(q.metadata.resource_version.as_deref(), Some("8"));
}
