use tracing_atrace::format::begins_with;
use tracing_atrace::{Field, FieldRules};

fn fields(pairs: &[(&str, &str)]) -> Vec<Field> {
    pairs.iter().map(|(name, value)| Field::new(name, value)).collect()
}

#[test]
fn field_keeps_name_and_value() {
    let field = Field::new("id", "42");
    assert_eq!(field.name, "id");
    assert_eq!(field.value, "42");
}

#[test]
fn default_rules_reserve_the_log_prefix() {
    let rules = FieldRules::new();
    assert_eq!(rules.data_field, "message");
    assert_eq!(rules.reserved_prefix, Some("log.".to_string()));
}

#[test]
fn label_without_fields_is_the_name() {
    let rules = FieldRules::new();
    assert_eq!(rules.span_label("req", &fields(&[])), "req");
    assert_eq!(rules.span_label("", &fields(&[])), "");
}

#[test]
fn event_text_without_fields_is_empty() {
    let rules = FieldRules::new();
    assert_eq!(rules.event_text(&fields(&[])), "");
}

#[test]
fn label_puts_each_field_behind_a_comma() {
    let rules = FieldRules::new();
    assert_eq!(rules.span_label("req", &fields(&[("id", "42")])), "req,id=42");
    assert_eq!(rules.span_label("span_a", &fields(&[("x", "1")])), "span_a,x=1");
    assert_eq!(
        rules.span_label("req", &fields(&[("a", "1"), ("b", "2"), ("c", "3")])),
        "req,a=1,b=2,c=3"
    );
}

#[test]
fn event_text_separates_fields_by_one_space() {
    let rules = FieldRules::new();
    assert_eq!(rules.event_text(&fields(&[("n", "3")])), "n=3");
    assert_eq!(rules.event_text(&fields(&[("msg", "hello"), ("n", "3")])), "msg=hello n=3");
    assert_eq!(rules.event_text(&fields(&[("a", "1"), ("b", "2"), ("c", "3")])), "a=1 b=2 c=3");
}

#[test]
fn message_alone_is_the_bare_value() {
    let rules = FieldRules::new();
    let only = fields(&[("message", "\"hello\"")]);
    assert_eq!(rules.event_text(&only), "\"hello\"");
    assert_eq!(rules.span_label("req", &only), "req,\"hello\"");
}

#[test]
fn message_among_others_keeps_its_place() {
    let rules = FieldRules::new();
    let some = fields(&[("a", "1"), ("message", "done"), ("b", "2")]);
    assert_eq!(rules.event_text(&some), "a=1 done b=2");
    assert_eq!(rules.span_label("job", &some), "job,a=1,done,b=2");
}

#[test]
fn fields_keep_the_order_presented() {
    let rules = FieldRules::new();
    assert_eq!(rules.event_text(&fields(&[("b", "2"), ("a", "1")])), "b=2 a=1");
    assert_eq!(rules.span_label("s", &fields(&[("b", "2"), ("a", "1")])), "s,b=2,a=1");
}

#[test]
fn reserved_fields_are_absent_in_both_modes() {
    let rules = FieldRules::new();
    let some = fields(&[("log.target", "app"), ("n", "3"), ("log.line", "7")]);
    assert_eq!(rules.event_text(&some), "n=3");
    assert_eq!(rules.span_label("req", &some), "req,n=3");
    let between = fields(&[("a", "1"), ("log.file", "x.rs"), ("b", "2")]);
    assert_eq!(rules.event_text(&between), "a=1 b=2");
    assert_eq!(rules.span_label("req", &between), "req,a=1,b=2");
}

#[test]
fn only_reserved_fields_render_nothing() {
    let rules = FieldRules::new();
    let some = fields(&[("log.target", "app"), ("log.line", "7")]);
    assert_eq!(rules.event_text(&some), "");
    assert_eq!(rules.span_label("req", &some), "req");
}

#[test]
fn a_name_that_only_resembles_the_prefix_is_kept() {
    let rules = FieldRules::new();
    let some = fields(&[("log", "1"), ("logx", "2"), ("xlog.", "3"), ("log.", "4")]);
    assert_eq!(rules.event_text(&some), "log=1 logx=2 xlog.=3");
}

#[test]
fn formatting_twice_gives_the_same_text() {
    let rules = FieldRules::new();
    let some = fields(&[("message", "hi"), ("log.x", "0"), ("n", "3")]);
    assert_eq!(rules.span_label("req", &some), rules.span_label("req", &some));
    assert_eq!(rules.event_text(&some), rules.event_text(&some));
    assert_eq!(rules.span_label("req", &some), "req,hi,n=3");
    assert_eq!(rules.event_text(&some), "hi n=3");
}

#[test]
fn another_data_field_takes_the_place_of_message() {
    let rules = FieldRules::new().with_data_field(Some("msg".to_string()));
    let some = fields(&[("msg", "hello"), ("message", "m"), ("n", "3")]);
    assert_eq!(rules.event_text(&some), "hello message=m n=3");
    assert_eq!(rules.span_label("req", &some), "req,hello,message=m,n=3");
}

#[test]
fn the_data_field_is_kept_even_under_the_reserved_prefix() {
    let rules = FieldRules::new().with_data_field(Some("log.text".to_string()));
    let some = fields(&[("log.text", "kept"), ("log.line", "7")]);
    assert_eq!(rules.event_text(&some), "kept");
    assert_eq!(rules.span_label("req", &some), "req,kept");
}

#[test]
fn without_a_reserved_prefix_every_field_is_kept() {
    let rules = FieldRules::new().with_reserved_prefix(None);
    let some = fields(&[("log.target", "app"), ("n", "3")]);
    assert_eq!(rules.event_text(&some), "log.target=app n=3");
    assert_eq!(rules.span_label("req", &some), "req,log.target=app,n=3");
}

#[test]
fn another_reserved_prefix_can_be_chosen() {
    let rules = FieldRules::new().with_reserved_prefix(Some("otel.".to_string()));
    let some = fields(&[("otel.kind", "server"), ("log.target", "app")]);
    assert_eq!(rules.event_text(&some), "log.target=app");
}

#[test]
fn an_empty_value_still_takes_its_place() {
    let rules = FieldRules::new();
    let some = fields(&[("message", ""), ("n", "3")]);
    assert_eq!(rules.event_text(&some), " n=3");
    assert_eq!(rules.span_label("req", &some), "req,,n=3");
    assert_eq!(rules.event_text(&fields(&[("n", "")])), "n=");
}

#[test]
fn text_outside_ascii_is_kept_as_it_is() {
    let rules = FieldRules::new();
    let some = fields(&[("größe", "\"zwölf\""), ("名前", "値")]);
    assert_eq!(rules.event_text(&some), "größe=\"zwölf\" 名前=値");
    assert_eq!(rules.span_label("späne", &some), "späne,größe=\"zwölf\",名前=値");
}

#[test]
fn render_into_appends_one_contribution() {
    let rules = FieldRules::new();
    let mut out = String::from("so far:");
    rules.render_into(&Field::new("n", "3"), &mut out);
    assert_eq!(out, "so far:n=3");
    rules.render_into(&Field::new("message", "hi"), &mut out);
    assert_eq!(out, "so far:n=3hi");
}

#[test]
fn rules_tell_data_and_reserved_names() {
    let rules = FieldRules::new();
    assert!(rules.is_data(&Field::new("message", "")));
    assert!(!rules.is_data(&Field::new("messages", "")));
    assert!(!rules.is_data(&Field::new("messag", "")));
    assert!(!rules.is_data(&Field::new("msg", "")));
    assert!(rules.skips(&Field::new("log.target", "")));
    assert!(!rules.skips(&Field::new("message", "")));
    assert!(!rules.skips(&Field::new("target", "")));
}

#[test]
fn begins_with_compares_whole_characters() {
    assert!(begins_with("log.target", "log."));
    assert!(begins_with("log.", "log."));
    assert!(begins_with("anything", ""));
    assert!(begins_with("", ""));
    assert!(!begins_with("log", "log."));
    assert!(!begins_with("", "log."));
    assert!(!begins_with("lag.x", "log."));
    assert!(begins_with("éa", "é"));
    assert!(!begins_with("ea", "é"));
}

#[test]
fn choosing_no_data_field_means_message() {
    let rules = FieldRules::new().with_data_field(Some("msg".to_string())).with_data_field(None);
    assert_eq!(rules.data_field, "message");
    assert_eq!(rules.reserved_prefix, Some("log.".to_string()));
    assert_eq!(rules, FieldRules::new());
}

#[test]
fn choosing_a_prefix_leaves_the_data_field() {
    let rules = FieldRules::new().with_data_field(Some("msg".to_string())).with_reserved_prefix(None);
    assert_eq!(rules.data_field, "msg");
    assert_eq!(rules.reserved_prefix, None);
}

#[test]
fn an_empty_reserved_prefix_leaves_only_the_data_field() {
    let rules = FieldRules::new().with_reserved_prefix(Some(String::new()));
    let some = fields(&[("a", "1"), ("message", "kept"), ("b", "2")]);
    assert_eq!(rules.event_text(&some), "kept");
    assert_eq!(rules.span_label("req", &some), "req,kept");
}
