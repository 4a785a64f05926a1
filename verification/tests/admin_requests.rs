use openai_resources::admin::{AdminAuditLogEffectiveAtParams, AdminAuditLogListParams, AdminInviteRole, AuditLogs, OrganizationUserRoles};
use openai_resources::error::ErrorKind;
use openai_resources::request::{HttpMethod, RequestBody};

#[test]
fn audit_log_query_order() {
    let params = AdminAuditLogListParams {
        actor_emails: Some(vec!["a@x.io".to_string()]),
        actor_ids: None,
        after: Some("cursor".to_string()),
        before: None,
        effective_at: Some(AdminAuditLogEffectiveAtParams { gt: Some(5), gte: None, lt: Some(-1), lte: None }),
        event_types: None,
        limit: Some(20),
        project_ids: None,
        resource_ids: None,
    };
    let req = AuditLogs::new().list(params.into_query_params()).unwrap();
    assert_eq!(req.method, HttpMethod::Get);
    assert_eq!(
        req.path,
        "/organization/audit_logs?actor_emails=a%40x.io&after=cursor&limit=20&effective_at%5Bgt%5D=5&effective_at%5Blt%5D=-1"
    );
}

#[test]
fn role_paths_encode_ids_and_refuse_blanks() {
    let roles = OrganizationUserRoles::new();
    let req = roles.retrieve("user 1", "role/2").unwrap();
    assert_eq!(req.path, "/organization/users/user%201/roles/role%2F2");
    let err = roles.retrieve(" ", "role").unwrap_err();
    assert_eq!(err.kind, ErrorKind::Validation);
    assert_eq!(err.message, "user_id cannot be blank");
    let err = roles.retrieve("u", "").unwrap_err();
    assert_eq!(err.message, "role_id cannot be blank");
    let req = roles.create("u", "{\"role_id\":\"r\"}".to_string()).unwrap();
    assert_eq!(req.method, HttpMethod::Post);
    assert!(matches!(req.body, RequestBody::Json(ref b) if b == "{\"role_id\":\"r\"}"));
}

#[test]
fn open_literals_round_trip() {
    let r = AdminInviteRole::from_text("owner");
    assert_eq!(r, AdminInviteRole::Owner);
    assert_eq!(r.as_str(), "owner");
    let u = AdminInviteRole::from_text("auditor");
    assert_eq!(u, AdminInviteRole::Unknown("auditor".to_string()));
    assert_eq!(u.as_str(), "auditor");
}
