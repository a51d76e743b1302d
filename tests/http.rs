use bottle::http::health_reply;
use bottle::http::home_reply;
use bottle::http::not_found_reply;
use bottle::http::route;
use bottle::http::store_reply;
use bottle::http::Route;
use bottle::storage::StoreError;

#[test]
fn routes_known_paths() {
    assert_eq!(route("GET", "/"), Route::Home);
    assert_eq!(route("GET", "/health"), Route::Health);
    assert_eq!(route("POST", "/msg"), Route::StoreMessage);
}

#[test]
fn routes_everything_else_to_not_found() {
    assert_eq!(route("POST", "/"), Route::NotFound);
    assert_eq!(route("GET", "/msg"), Route::NotFound);
    assert_eq!(route("GET", "/healthz"), Route::NotFound);
    assert_eq!(route("GET", ""), Route::NotFound);
}

#[test]
fn fixed_replies() {
    let home = home_reply();
    assert_eq!((home.status, home.body.as_str()), (200, "Message in a Bottle\u{2122}"));
    let missing = not_found_reply();
    assert_eq!((missing.status, missing.body.as_str()), (404, "Not found"));
}

#[test]
fn health_replies() {
    let ok = health_reply(Ok(()));
    assert_eq!((ok.status, ok.body.as_str()), (200, "All good!"));
    let down = health_reply(Err(StoreError { detail: String::from("Connection refused") }));
    assert_eq!((down.status, down.body.as_str()), (500, "Connection refused"));
}

#[test]
fn store_replies() {
    let bad = store_reply(None);
    assert_eq!((bad.status, bad.body.as_str()), (400, "Invalid bottle"));
    let ok = store_reply(Some(Ok(String::from("msg-1"))));
    assert_eq!((ok.status, ok.body.as_str()), (200, "Gotcha! ACK"));
    let failed = store_reply(Some(Err(StoreError { detail: String::from("x") })));
    assert_eq!((failed.status, failed.body.as_str()), (500, "Something went wrong"));
}
