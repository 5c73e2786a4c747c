use selinux::context::interpret_get;
use selinux::Context;
use selinux::ContextBuilder;

const CONTEXT: &str = "user_u:role_r:type_t:s0-s0:c0.c1023";
const CONTEXT_WITHOUT_RANGE: &str = "user_u:role_r:type_t";

#[test]
fn context_basic() {
    let mut context = Context::new(CONTEXT).unwrap();
    assert_eq!(context.user(), "user_u");
    assert_eq!(context._type(), "type_t");
    assert_eq!(context.role(), "role_r");
    assert_eq!(context.range(), "s0-s0:c0.c1023");

    context.set_type("unconfined_t");
    assert_eq!(context._type(), "unconfined_t");

    context.set_range("s0");
    assert_eq!(context.range(), "s0");

    assert_eq!(context.to_string(), "user_u:role_r:unconfined_t:s0");

    let context = Context::new(CONTEXT_WITHOUT_RANGE).unwrap();
    assert_eq!(context.range(), "");
    assert_eq!(context._type(), "type_t");

    let context1 = Context::new(CONTEXT).unwrap();
    let context2 = Context::new(CONTEXT).unwrap();
    assert_eq!(context1, context2);
}

#[test]
fn test_formatter() {
    let context = Context::new(CONTEXT).unwrap();
    assert_eq!(context.to_string(), CONTEXT);
}

#[test]
fn parse_concrete_scenario() {
    let text = "unconfined_u:unconfined_r:unconfined_t:s0-s0:c0.c1023";
    let context = Context::new(text).unwrap();
    assert_eq!(context.user(), "unconfined_u");
    assert_eq!(context.role(), "unconfined_r");
    assert_eq!(context._type(), "unconfined_t");
    assert_eq!(context.range(), "s0-s0:c0.c1023");
    assert_eq!(context.to_string(), text);
}

#[test]
fn parse_rejects_too_few_components() {
    assert!(Context::new("user_u:role_r").is_none());
    assert!(Context::new("user_u").is_none());
    assert!(Context::new("").is_none());
}

#[test]
fn range_keeps_embedded_colons() {
    let context = Context::new("u:r:t:s0-s0:c0.c1023").unwrap();
    assert_eq!(context.range(), "s0-s0:c0.c1023");
}

#[test]
fn missing_range_is_empty_and_serializes_with_trailing_colon() {
    let context = Context::new("user_u:role_r:type_t").unwrap();
    assert_eq!(context.range(), "");
    assert_eq!(context.to_string(), "user_u:role_r:type_t:");

    let reparsed = Context::new(&context.to_string()).unwrap();
    assert_eq!(reparsed, context);
}

#[test]
fn round_trip_with_at_least_four_components() {
    for text in [
        "user_u:role_r:type_t:s0",
        "user_u:role_r:type_t:",
        "u:r:t:s0-s0:c0.c1023",
        "a:b:c:d:e:f",
    ] {
        let context = Context::new(text).unwrap();
        assert_eq!(context.to_string(), text);
    }
}

#[test]
fn field_mutation_changes_only_that_field() {
    let mut context = Context::new(CONTEXT).unwrap();
    context.set_type("unconfined_t");
    assert_eq!(context._type(), "unconfined_t");
    assert_eq!(context.to_string(), "user_u:role_r:unconfined_t:s0-s0:c0.c1023");

    context.set_user("staff_u");
    context.set_role("staff_r");
    context.set_range("s0");
    assert_eq!(context.to_string(), "staff_u:staff_r:unconfined_t:s0");
}

#[test]
fn empty_leading_components_are_rejected() {
    assert!(Context::new("::").is_none());
    assert!(Context::new(":::").is_none());
    assert!(Context::new("::type_t").is_none());
    assert!(Context::new("user_u::type_t").is_none());
    assert!(Context::new("user_u:role_r:").is_none());
    assert!(Context::new("user_u:role_r::s0").is_none());
}

#[test]
fn builder_requires_leading_fields() {
    let mut builder = ContextBuilder::new();
    assert!(builder.build().is_none());

    builder.user("user_u");
    assert!(builder.build().is_none());
    builder.role("role_r");
    assert!(builder.build().is_none());
    builder._type("type_t");

    let context = builder.build().unwrap();
    assert_eq!(context.user(), "user_u");
    assert_eq!(context.role(), "role_r");
    assert_eq!(context._type(), "type_t");
    assert_eq!(context.range(), "");

    builder.range("s0");
    let context = builder.build().unwrap();
    assert_eq!(context.range(), "s0");
    assert_eq!(context.to_string(), "user_u:role_r:type_t:s0");
}

#[test]
fn builder_default_is_empty() {
    let builder: ContextBuilder = Default::default();
    assert!(builder.build().is_none());
}

#[test]
fn getter_outcome_interpretation() {
    let fetched = interpret_get(0, Some(CONTEXT));
    assert_eq!(fetched.unwrap().to_string(), CONTEXT);

    assert!(interpret_get(-1, Some(CONTEXT)).is_none());
    assert!(interpret_get(-1, None).is_none());
    assert!(interpret_get(0, None).is_none());
    assert!(interpret_get(0, Some("not-a-context")).is_none());
}
