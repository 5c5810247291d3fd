use hello_service::bootstrap::{bootstrap, Bootstrap};
use hello_service::responder::hello;

fn expect_greeting() {
    let reply = hello();
    assert_eq!(reply.status, 200);
    assert_eq!(reply.body, "{\"message\":\"Hello World\"}");
}

#[test]
fn unset_starts_sixteen_workers() {
    let plan = bootstrap(None);
    assert_eq!(plan.workers, 16);
    expect_greeting();
}

#[test]
fn four_starts_four_workers() {
    let plan = bootstrap(Some("4"));
    assert_eq!(plan.workers, 4);
    expect_greeting();
}

#[test]
fn text_falls_back_to_sixteen_workers() {
    let plan = bootstrap(Some("abc"));
    assert_eq!(plan.workers, 16);
    expect_greeting();
}

#[test]
fn zero_workers_is_accepted() {
    let plan = bootstrap(Some("0"));
    assert_eq!(plan.workers, 0);
    expect_greeting();
}

#[test]
fn listens_on_port_8000_of_every_interface() {
    assert_eq!(bootstrap(None).bind_address, "0.0.0.0:8000");
    assert_eq!(bootstrap(Some("4")).bind_address, "0.0.0.0:8000");
    assert_eq!(bootstrap(Some("abc")).bind_address, "0.0.0.0:8000");
}

#[test]
fn serves_get_on_the_root_path() {
    assert_eq!(bootstrap(None).route_method, "GET");
    assert_eq!(bootstrap(None).route_path, "/");
    assert_eq!(bootstrap(Some("32")).route_method, "GET");
    assert_eq!(bootstrap(Some("32")).route_path, "/");
}

#[test]
fn plan_is_exact() {
    assert_eq!(
        bootstrap(Some("+12")),
        Bootstrap {
            workers: 12,
            bind_address: "0.0.0.0:8000".to_string(),
            route_method: "GET".to_string(),
            route_path: "/".to_string(),
        }
    );
}
