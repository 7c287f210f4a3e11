use doi::{settle_fetch, settle_resolution, Answer, DoiError};

fn answer(status: u16, url: &str, body: &str) -> Answer {
    Answer { status, url: url.to_string(), body: body.to_string() }
}

#[test]
fn resolution_returns_final_url() {
    let r = settle_resolution(Ok(answer(200, "https://ieeexplore.ieee.org/document/10437992/", "")));
    assert_eq!(r, Ok("https://ieeexplore.ieee.org/document/10437992/".to_string()));
}

#[test]
fn resolution_accepts_teapot_status() {
    let r = settle_resolution(Ok(answer(418, "https://publisher.example/doc", "")));
    assert_eq!(r, Ok("https://publisher.example/doc".to_string()));
}

#[test]
fn resolution_rejects_other_error_statuses() {
    assert_eq!(
        settle_resolution(Ok(answer(404, "https://doi.org/10.1109/TCSII.2030.fake", ""))),
        Err(DoiError::Rejected(404))
    );
    assert_eq!(settle_resolution(Ok(answer(400, "u", ""))), Err(DoiError::Rejected(400)));
    assert_eq!(settle_resolution(Ok(answer(417, "u", ""))), Err(DoiError::Rejected(417)));
    assert_eq!(settle_resolution(Ok(answer(419, "u", ""))), Err(DoiError::Rejected(419)));
    assert_eq!(settle_resolution(Ok(answer(500, "u", ""))), Err(DoiError::Rejected(500)));
    assert_eq!(settle_resolution(Ok(answer(399, "u", ""))), Ok("u".to_string()));
}

#[test]
fn resolution_reports_transport_failure() {
    assert_eq!(
        settle_resolution(Err("dns failed".to_string())),
        Err(DoiError::Transport("dns failed".to_string()))
    );
}

#[test]
fn fetch_returns_body_on_success() {
    assert_eq!(settle_fetch(Ok(answer(200, "u", "{}"))), Ok("{}".to_string()));
    assert_eq!(settle_fetch(Ok(answer(299, "u", "x"))), Ok("x".to_string()));
}

#[test]
fn fetch_rejects_non_success_statuses() {
    assert_eq!(settle_fetch(Ok(answer(418, "u", "tea"))), Err(DoiError::Rejected(418)));
    assert_eq!(settle_fetch(Ok(answer(404, "u", ""))), Err(DoiError::Rejected(404)));
    assert_eq!(settle_fetch(Ok(answer(302, "u", ""))), Err(DoiError::Rejected(302)));
    assert_eq!(settle_fetch(Ok(answer(199, "u", ""))), Err(DoiError::Rejected(199)));
    assert_eq!(
        settle_fetch(Err("timeout".to_string())),
        Err(DoiError::Transport("timeout".to_string()))
    );
}
