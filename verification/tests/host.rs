use logview::ScriptHost;

#[test]
fn a_valid_chunk_succeeds() {
    let mut host = ScriptHost::new();
    assert!(host.execute("x = 1"));
}

#[test]
fn an_empty_chunk_succeeds() {
    let mut host = ScriptHost::new();
    assert!(host.execute(""));
}

#[test]
fn a_malformed_chunk_fails_and_the_host_goes_on() {
    let mut host = ScriptHost::new();
    assert!(!host.execute("x = = 1"));
    assert!(host.execute("x = 2"));
    assert!(host.execute("assert(x == 2)"));
}

#[test]
fn a_runtime_error_fails_and_the_host_goes_on() {
    let mut host = ScriptHost::new();
    assert!(!host.execute("error('boom')"));
    assert!(!host.execute("local t = nil; return t.field"));
    assert!(host.execute("y = 3"));
    assert!(host.execute("assert(y == 3)"));
}

#[test]
fn bindings_persist_between_calls() {
    let mut host = ScriptHost::new();
    assert!(host.execute("counter = 10"));
    assert!(host.execute("counter = counter + 5"));
    assert!(host.execute("assert(counter == 15)"));
    assert!(!host.execute("assert(counter == 16)"));
}

#[test]
fn hosts_do_not_share_bindings() {
    let mut first = ScriptHost::new();
    let mut second = ScriptHost::new();
    assert!(first.execute("shared = 1"));
    assert!(second.execute("assert(shared == nil)"));
}

#[test]
fn the_quit_text_is_nothing_special_to_the_host() {
    let mut host = ScriptHost::new();
    assert!(!host.execute("quit()"));
}
