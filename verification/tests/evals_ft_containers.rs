use openai_resources::containers::{ContainerFileCreateParams, ContainerFileUpload, ContainerListParams, ContainerOrder, Containers};
use openai_resources::conversations::{ConversationItemListParams, Conversations};
use openai_resources::common::ListOrder;
use openai_resources::evals::{EvalListParams, EvalOrderBy, EvalOutputItemStatus, EvalRunStatus, Evals};
use openai_resources::fine_tuning::{AutoOrNumber, FineTuningJobEvent, FineTuningJobListParams, FineTuningJobs};
use openai_resources::models::Models;
use openai_resources::request::{HttpMethod, RequestBody};

#[test]
fn eval_status_aliases() {
    assert_eq!(EvalRunStatus::from_wire("running"), EvalRunStatus::InProgress);
    assert_eq!(EvalRunStatus::from_wire("succeeded"), EvalRunStatus::Completed);
    assert_eq!(EvalRunStatus::from_wire("cancelled"), EvalRunStatus::Canceled);
    assert_eq!(EvalRunStatus::from_wire("queued"), EvalRunStatus::Queued);
    assert_eq!(EvalRunStatus::from_wire("paused"), EvalRunStatus::Unknown("paused".to_string()));
    assert_eq!(EvalOutputItemStatus::from_wire("passed"), EvalOutputItemStatus::Pass);
    assert_eq!(EvalRunStatus::default(), EvalRunStatus::Unknown("unknown".to_string()));
}

#[test]
fn eval_requests() {
    let req = Evals::new().list(EvalListParams { order_by: Some(EvalOrderBy::UpdatedAt), ..Default::default() }).unwrap();
    assert_eq!(req.path, "/evals?order_by=updated_at");
    let req = Evals::new().runs().cancel("ev 1", "run_1").unwrap();
    assert_eq!(req.method, HttpMethod::Post);
    assert_eq!(req.path, "/evals/ev%201/runs/run_1");
    assert_eq!(Evals::new().runs().output_items().retrieve("e", "r", " ").unwrap_err().message, "output_item_id cannot be blank");
}

#[test]
fn fine_tuning_job_listing_with_metadata() {
    let params = FineTuningJobListParams {
        after: None,
        limit: Some(2),
        metadata: Some(vec![("env".to_string(), "prod".to_string())]),
    };
    let req = FineTuningJobs::new().list(params).unwrap();
    assert_eq!(req.path, "/fine_tuning/jobs?limit=2&metadata%5Benv%5D=prod");
    assert_eq!(FineTuningJobs::new().pause("ftjob-1").unwrap().path, "/fine_tuning/jobs/ftjob-1/pause");
}

#[test]
fn hyperparameters_auto_or_number() {
    assert_eq!(AutoOrNumber::Auto.to_json(), "\"auto\"");
    assert_eq!(AutoOrNumber::Number(3).to_json(), "3");
    assert_eq!(AutoOrNumber::from_json_parts(Some("auto"), None), Some(AutoOrNumber::Auto));
    assert_eq!(AutoOrNumber::from_json_parts(None, Some(8)), Some(AutoOrNumber::Number(8)));
    assert_eq!(AutoOrNumber::from_json_parts(Some("many"), None), None);
}

#[test]
fn container_requests() {
    let req = Containers::new().list(ContainerListParams { name: Some("box 1".to_string()), order: Some(ContainerOrder::Desc), ..Default::default() });
    assert_eq!(req.path, "/containers?name=box+1&order=desc");
    let req = Containers::new().files().create("cntr_1", ContainerFileCreateParams::FileId("file-9".to_string())).unwrap();
    assert_eq!(req.path, "/containers/cntr_1/files");
    assert!(matches!(req.body, RequestBody::Json(ref b) if b == "{\"file_id\":\"file-9\"}"));
    let upload = ContainerFileUpload::new("a.txt".to_string(), "text/plain".to_string(), vec![1]);
    let req = Containers::new().files().create("cntr_1", ContainerFileCreateParams::Upload(upload)).unwrap();
    assert!(matches!(req.body, RequestBody::Multipart(ref p) if p.len() == 1));
    let err = Containers::new().files().create("cntr_1", ContainerFileCreateParams::FileId(" ".to_string())).unwrap_err();
    assert_eq!(err.message, "file_id cannot be blank");
}

#[test]
fn conversation_ids_trimmed_and_unreserved() {
    let req = Conversations::new().retrieve(" conv:1 ").unwrap();
    assert_eq!(req.path, "/conversations/conv%3A1");
    let params = ConversationItemListParams { limit: Some(5), order: Some(ListOrder::Asc), includes: vec!["x.y".to_string()], ..Default::default() };
    let req = Conversations::new().items().list("c", params).unwrap();
    assert_eq!(req.path, "/conversations/c/items?include=x.y&limit=5&order=asc");
    assert_eq!(Conversations::new().items().delete("c", "  ").unwrap_err().message, "item_id cannot be blank");
}

#[test]
fn model_ids_are_trimmed_not_encoded() {
    assert_eq!(Models::new().retrieve(" ft:gpt:org ").unwrap().path, "/models/ft:gpt:org");
    assert_eq!(Models::new().list().path, "/models");
    assert_eq!(Models::new().delete("").unwrap_err().message, "model_id cannot be blank");
}

#[test]
fn job_event_type_falls_back_to_extra_type() {
    let mut event = FineTuningJobEvent::default();
    assert_eq!(event.event_type(), None);
    event.extra.insert("type".to_string(), serde_json::Value::String("metrics".to_string()));
    assert_eq!(event.event_type(), Some("metrics"));
    event.event_type = Some("message".to_string());
    assert_eq!(event.event_type(), Some("message"));
    let mut other = FineTuningJobEvent::default();
    other.extra.insert("type".to_string(), serde_json::Value::Bool(true));
    assert_eq!(other.event_type(), None);
}
