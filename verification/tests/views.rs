use block_server::response::ApiResponse;
use block_server::types::ServiceError;
use block_server::views::{project_view, ViewSelector};

fn parent_ok(body: &str) -> ApiResponse {
    ApiResponse {
        status: 200,
        cache_control: Some("public, max-age=31536000".to_string()),
        content_type: Some("application/json; charset=utf-8".to_string()),
        location: None,
        body: body.to_string(),
    }
}

fn parent_redirect(location: &str) -> ApiResponse {
    ApiResponse {
        status: 302,
        cache_control: Some("public, max-age=86400".to_string()),
        content_type: None,
        location: Some(location.to_string()),
        body: String::new(),
    }
}

#[test]
fn shard_view_picks_matching_shard() {
    let parent = parent_ok("{\"shards\":[{\"shard_id\":0,\"chunk\":{\"x\":1}},{\"shard_id\":1}]}");
    let a = project_view(parent, ViewSelector::Shard(0)).unwrap();
    assert_eq!(a.status, 200);
    assert_eq!(a.body, "{\"shard_id\":0,\"chunk\":{\"x\":1}}");
    assert_eq!(a.cache_control.as_deref(), Some("public, max-age=31536000"));
}

#[test]
fn shard_view_missing_id_is_null() {
    let parent = parent_ok("{\"shards\":[{\"shard_id\":0},{\"shard_id\":1}]}");
    let a = project_view(parent, ViewSelector::Shard(7)).unwrap();
    assert_eq!(a.body, "null");
}

#[test]
fn shard_view_takes_first_match() {
    let parent = parent_ok(
        "{\"shards\":[{\"shard_id\":2,\"tag\":\"first\"},{\"shard_id\":2,\"tag\":\"second\"}]}",
    );
    let a = project_view(parent, ViewSelector::Shard(2)).unwrap();
    assert_eq!(a.body, "{\"shard_id\":2,\"tag\":\"first\"}");
}

#[test]
fn chunk_view_projects_into_shard() {
    let parent = parent_ok("{\"shards\":[{\"shard_id\":0,\"chunk\":{\"x\":1}},{\"shard_id\":1}]}");
    let a = project_view(parent, ViewSelector::Chunk(0)).unwrap();
    assert_eq!(a.body, "{\"x\":1}");
    let parent = parent_ok("{\"shards\":[{\"shard_id\":0,\"chunk\":{\"x\":1}},{\"shard_id\":1}]}");
    let a = project_view(parent, ViewSelector::Chunk(1)).unwrap();
    assert_eq!(a.body, "null");
}

#[test]
fn headers_view_projects_block_member() {
    let parent = parent_ok("{\"block\":{\"header\":{\"height\":5}},\"shards\":[]}");
    let a = project_view(parent, ViewSelector::Headers).unwrap();
    assert_eq!(a.body, "{\"header\":{\"height\":5}}");
    assert_eq!(a.cache_control.as_deref(), Some("public, max-age=31536000"));

    let parent = parent_ok("{\"shards\":[]}");
    let a = project_view(parent, ViewSelector::Headers).unwrap();
    assert_eq!(a.body, "null");
}

#[test]
fn redirect_gains_view_segment() {
    let parent = parent_redirect("/v0/block/123456789");
    let a = project_view(parent, ViewSelector::Headers).unwrap();
    assert_eq!(a.status, 302);
    assert_eq!(a.location.as_deref(), Some("/v0/block/123456789/headers"));

    let parent = parent_redirect("https://a2.example.com/v0/block/5000");
    let a = project_view(parent, ViewSelector::Shard(3)).unwrap();
    assert_eq!(
        a.location.as_deref(),
        Some("https://a2.example.com/v0/block/5000/shard/3")
    );

    let parent = parent_redirect("/v0/block/1");
    let a = project_view(parent, ViewSelector::Chunk(0)).unwrap();
    assert_eq!(a.location.as_deref(), Some("/v0/block/1/chunk/0"));
}

#[test]
fn unparsable_body_is_internal_data_error() {
    let parent = parent_ok("{not json");
    assert_eq!(
        project_view(parent, ViewSelector::Headers),
        Err(ServiceError::InternalDataError)
    );
}

#[test]
fn other_statuses_pass_through() {
    let parent = ApiResponse {
        status: 404,
        cache_control: None,
        content_type: None,
        location: None,
        body: "{\"error\":\"x\"}".to_string(),
    };
    let a = project_view(parent.clone(), ViewSelector::Shard(0)).unwrap();
    assert_eq!(a, parent);
}
