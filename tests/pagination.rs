use ghost_relay::ghost::{Member, MembersResponse, Meta, Pagination};
use ghost_relay::pagination::{FetchError, PageStep, Paginator, Phase, PAGE_DELAY_MS, PAGE_SIZE};

fn member(id: &str) -> Member {
    Member {
        id: id.to_string(),
        email: format!("{}@example.com", id),
        name: None,
        status: "free".to_string(),
        created_at: String::new(),
        updated_at: String::new(),
        other: serde_json::Value::Null,
    }
}

fn page(page: u32, pages: u32, ids: &[&str]) -> MembersResponse {
    MembersResponse {
        members: ids.iter().map(|i| member(i)).collect(),
        meta: Meta {
            pagination: Pagination {
                page,
                limit: 100,
                pages,
                total: ids.len() as u32,
                next: None,
                prev: None,
            },
        },
    }
}

#[test]
fn three_pages_are_concatenated_with_two_delays() {
    let pages = vec![page(1, 3, &["a", "b"]), page(2, 3, &["c"]), page(3, 3, &["d", "e"])];
    let mut p = Paginator::new();
    let mut requested = vec![p.page()];
    let mut delays = 0;
    for resp in pages {
        match p.on_response(200, Some(resp)) {
            PageStep::Fetch { page, delay_ms } => {
                assert_eq!(delay_ms, PAGE_DELAY_MS);
                delays += 1;
                requested.push(page);
            }
            PageStep::Done => break,
            PageStep::Failed(e) => panic!("unexpected failure {:?}", e),
        }
    }
    assert_eq!(p.phase(), Phase::Finished);
    assert_eq!(requested, vec![1, 2, 3]);
    assert_eq!(delays, 2);
    let ids: Vec<String> = p.into_members().into_iter().map(|m| m.id).collect();
    assert_eq!(ids, vec!["a", "b", "c", "d", "e"]);
}

#[test]
fn zero_pages_end_after_one_fetch() {
    let mut p = Paginator::new();
    assert_eq!(p.page(), 1);
    assert_eq!(p.on_response(200, Some(page(1, 0, &[]))), PageStep::Done);
    assert_eq!(p.phase(), Phase::Finished);
    assert!(p.into_members().is_empty());
}

#[test]
fn single_last_page_ends_after_one_fetch() {
    let mut p = Paginator::new();
    assert_eq!(p.on_response(200, Some(page(1, 1, &["x"]))), PageStep::Done);
    assert_eq!(p.into_members().len(), 1);
}

#[test]
fn non_success_status_fails_the_walk() {
    let mut p = Paginator::new();
    assert_eq!(p.on_response(200, Some(page(1, 2, &["a"]))), PageStep::Fetch { page: 2, delay_ms: 100 });
    assert_eq!(p.on_response(401, None), PageStep::Failed(FetchError::Api(401)));
    assert_eq!(p.phase(), Phase::Failed(FetchError::Api(401)));
    let mut q = Paginator::new();
    assert_eq!(q.on_response(302, Some(page(1, 1, &[]))), PageStep::Failed(FetchError::Api(302)));
}

#[test]
fn undecodable_page_fails_the_walk() {
    let mut p = Paginator::new();
    assert_eq!(p.on_response(299, None), PageStep::Failed(FetchError::Decode));
    assert_eq!(p.phase(), Phase::Failed(FetchError::Decode));
}

#[test]
fn page_size_is_one_hundred() {
    assert_eq!(PAGE_SIZE, 100);
}
