use ga_component::querystring::cleanup_querystring;

#[test]
fn cleanup_querystring_replaces_correctly() {
    let input = "ep[page_type]=checkout&epn[page_number]=1&up[user_id]=123&upn[user_age]=30";
    let expected = "ep.page_type=checkout&epn.page_number=1&up.user_id=123&upn.user_age=30";
    let result = cleanup_querystring(input).unwrap();
    assert_eq!(result, expected);
}

#[test]
fn cleanup_querystring_handles_empty_string() {
    let input = "";
    let expected = "";
    let result = cleanup_querystring(input).unwrap();
    assert_eq!(result, expected);
}

#[test]
fn cleanup_querystring_handles_no_replacements() {
    let input = "some_param=value&another_param=value2";
    let expected = "some_param=value&another_param=value2";
    let result = cleanup_querystring(input).unwrap();
    assert_eq!(result, expected);
}

#[test]
fn cleanup_querystring_handles_partial_replacements() {
    let input = "ep[page_type]=checkout&some_param=value";
    let expected = "ep.page_type=checkout&some_param=value";
    let result = cleanup_querystring(input).unwrap();
    assert_eq!(result, expected);
}

#[test]
fn cleanup_querystring_handles_multiple_replacements() {
    let input = "ep[page_type]=checkout&ep[page_name]=home&up[user_id]=123";
    let expected = "ep.page_type=checkout&ep.page_name=home&up.user_id=123";
    let result = cleanup_querystring(input).unwrap();
    assert_eq!(result, expected);
}

#[test]
fn cleanup_rewrite_is_idempotent() {
    let once = cleanup_querystring("ep[a]=1&epn[b]=2&x=3").unwrap();
    let twice = cleanup_querystring(&once).unwrap();
    assert_eq!(once, "ep.a=1&epn.b=2&x=3");
    assert_eq!(twice, once);
}

#[test]
fn cleanup_leaves_other_brackets() {
    let input = "xp[a]=1&e[b]=2&p[c]=3";
    assert_eq!(cleanup_querystring(input).unwrap(), input);
}

#[test]
fn cleanup_handles_unclosed_bracket() {
    assert_eq!(cleanup_querystring("ep[abc").unwrap(), "ep.abc");
    assert_eq!(cleanup_querystring("upn[").unwrap(), "upn.");
}

#[test]
fn cleanup_prefix_at_end() {
    assert_eq!(cleanup_querystring("a=ep").unwrap(), "a=ep");
    assert_eq!(cleanup_querystring("ep[").unwrap(), "ep.");
}

#[test]
fn cleanup_twice_differs_when_a_key_remains() {
    let once = cleanup_querystring("ep[xep[y]").unwrap();
    assert_eq!(once, "ep.xep[y");
    let twice = cleanup_querystring(&once).unwrap();
    assert_eq!(twice, "ep.xep.y");
}
