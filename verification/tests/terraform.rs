use costctl_core::adapters::terraform::{check_format, map_action, parse_plan, ParseError};
use costctl_core::ir::{Action, ResourceChange, SpecState};
use costctl_core::json::JsonValue;

/// The library's JSON model of a document read with serde_json.
fn to_json(v: serde_json::Value) -> JsonValue {
    match v {
        serde_json::Value::Null => JsonValue::Null,
        serde_json::Value::Bool(b) => JsonValue::Bool(b),
        serde_json::Value::Number(n) => JsonValue::Number(n.to_string()),
        serde_json::Value::String(s) => JsonValue::Str(s),
        serde_json::Value::Array(items) => JsonValue::Array(items.into_iter().map(to_json).collect()),
        serde_json::Value::Object(map) => {
            JsonValue::Object(map.into_iter().map(|(k, v)| (k, to_json(v))).collect())
        }
    }
}

fn parse(text: &str) -> Result<Vec<ResourceChange>, ParseError> {
    parse_plan(to_json(serde_json::from_str(text).expect("test documents are JSON")))
}

#[test]
fn maps_all_actions_and_filters_noise() {
    let json = r#"{
      "format_version": "1.2",
      "resource_changes": [
        {"address":"aws_instance.a","type":"aws_instance","name":"a","mode":"managed",
         "change":{"actions":["create"],"before":null,"after":{"instance_type":"t3.large"},"after_unknown":{"id":true}}},
        {"address":"aws_instance.b","type":"aws_instance","name":"b","mode":"managed",
         "change":{"actions":["update"],"before":{"instance_type":"t3.small"},"after":{"instance_type":"t3.large"}}},
        {"address":"aws_instance.c","type":"aws_instance","name":"c","mode":"managed",
         "change":{"actions":["delete"],"before":{"instance_type":"t3.large"},"after":null}},
        {"address":"aws_instance.d","type":"aws_instance","name":"d","mode":"managed",
         "change":{"actions":["create","delete"],"before":{"x":1},"after":{"x":2}}},
        {"address":"aws_instance.e","type":"aws_instance","name":"e","mode":"managed",
         "change":{"actions":["delete","create"],"before":{"x":1},"after":{"x":2}}},
        {"address":"aws_instance.f","type":"aws_instance","name":"f","mode":"managed",
         "change":{"actions":["no-op"],"before":{"x":1},"after":{"x":1}}},
        {"address":"data.aws_ami.g","type":"aws_ami","name":"g","mode":"data",
         "change":{"actions":["read"],"before":null,"after":{"id":"ami-1"}}},
        {"address":"data.aws_x.h","type":"aws_x","name":"h","mode":"data",
         "change":{"actions":["create"],"before":null,"after":{}}}
      ]
    }"#;

    let changes = parse(json).unwrap();

    // create, update, delete, replace, replace — no-op dropped; both data sources dropped.
    let got: Vec<_> = changes.iter().map(|c| (c.name.as_str(), c.action)).collect();
    assert_eq!(
        got,
        vec![
            ("a", Action::Create),
            ("b", Action::Update),
            ("c", Action::Delete),
            ("d", Action::Replace),
            ("e", Action::Replace),
        ]
    );

    // A delete reads its spec from the `before` side.
    let deleted = changes.iter().find(|c| c.name == "c").unwrap();
    assert_eq!(
        deleted.attr(SpecState::Before, "instance_type").and_then(|v| v.as_str()),
        Some("t3.large")
    );
}

#[test]
fn rejects_json_that_is_not_a_plan() {
    // Valid JSON, but no format_version => not a terraform plan.
    let err = parse(r#"{"hello":"world"}"#).unwrap_err();
    assert!(matches!(err, ParseError::NotAPlan));
}

#[test]
fn rejects_plan_missing_resource_changes() {
    // Supported format_version but no resource_changes => not a usable plan
    // (must not be silently treated as zero changes).
    let err = parse(r#"{"format_version":"1.2"}"#).unwrap_err();
    assert!(matches!(err, ParseError::NotAPlan));
}

#[test]
fn rejects_unsupported_format_version() {
    let err = parse(r#"{"format_version":"2.0","resource_changes":[]}"#).unwrap_err();
    assert!(matches!(err, ParseError::UnsupportedFormat { .. }));
}

#[test]
fn unsupported_format_names_the_version_found() {
    let err = parse(r#"{"format_version":"10.1","resource_changes":[]}"#).unwrap_err();
    assert_eq!(err, ParseError::UnsupportedFormat { found: "10.1".into() });
}

#[test]
fn format_major_one_is_accepted_in_any_minor() {
    assert!(check_format(Some("1")).is_ok());
    assert!(check_format(Some("1.0")).is_ok());
    assert!(check_format(Some("1.2")).is_ok());
    assert!(matches!(check_format(Some("1x")), Err(ParseError::UnsupportedFormat { .. })));
    assert!(matches!(check_format(Some("")), Err(ParseError::UnsupportedFormat { .. })));
    assert!(matches!(check_format(None), Err(ParseError::NotAPlan)));
}

#[test]
fn empty_resource_changes_is_zero_changes() {
    let changes = parse(r#"{"format_version":"1.0","resource_changes":[]}"#).unwrap();
    assert!(changes.is_empty());
}

#[test]
fn malformed_documents_are_json_errors() {
    let bad = [
        r#"[1, 2]"#,
        r#"{"format_version": 1.2, "resource_changes": []}"#,
        r#"{"format_version": "1.2", "resource_changes": {}}"#,
        r#"{"format_version": "1.2", "resource_changes": [{"type":"t","name":"n","mode":"managed","change":{"actions":[]}}]}"#,
        r#"{"format_version": "1.2", "resource_changes": [{"address":"a","type":"t","name":"n","mode":"managed","change":{"actions":[1]}}]}"#,
        r#"{"format_version": "2.0", "resource_changes": [{"address":"a","type":"t","name":"n","mode":"managed"}]}"#,
    ];
    for text in bad {
        assert!(matches!(parse(text), Err(ParseError::Json(_))), "{text}");
    }
}

#[test]
fn null_sides_and_non_object_sides_are_absent() {
    let changes = parse(
        r#"{"format_version":"1.1","resource_changes":[
          {"address":"a.b","type":"a","name":"b","mode":"managed",
           "change":{"actions":["create"],"before":null,"after":[1],"after_unknown":{"id":true}}}]}"#,
    )
    .unwrap();
    assert_eq!(changes.len(), 1);
    assert!(changes[0].before.is_none());
    assert!(changes[0].after.is_none());
    assert!(changes[0].is_unknown("id"));
}

#[test]
fn action_lists_map_to_actions() {
    let names = |xs: &[&str]| xs.iter().map(|x| x.to_string()).collect::<Vec<_>>();
    assert_eq!(map_action(&names(&["create"])), Some(Action::Create));
    assert_eq!(map_action(&names(&["update"])), Some(Action::Update));
    assert_eq!(map_action(&names(&["delete"])), Some(Action::Delete));
    assert_eq!(map_action(&names(&["create", "delete"])), Some(Action::Replace));
    assert_eq!(map_action(&names(&["delete", "create"])), Some(Action::Replace));
    assert_eq!(map_action(&names(&["no-op"])), None);
    assert_eq!(map_action(&names(&["read"])), None);
    assert_eq!(map_action(&names(&["create", "create"])), None);
    assert_eq!(map_action(&names(&[])), None);
}

#[test]
fn unknown_members_are_ignored() {
    let changes = parse(
        r#"{"format_version":"1.2","terraform_version":"1.5.7","planned_values":{},
            "resource_changes":[
              {"address":"aws_instance.a","type":"aws_instance","name":"a","mode":"managed",
               "index":0,"provider_name":"aws",
               "change":{"actions":["create"],"after":{"instance_type":"t3.large"},"replace_paths":[]}}]}"#,
    )
    .unwrap();
    assert_eq!(changes.len(), 1);
    assert_eq!(changes[0].address, "aws_instance.a");
    assert!(changes[0].before.is_none());
}

#[test]
fn extra_members_anywhere_read_the_same() {
    let base = r#"{"format_version":"1.2","resource_changes":[
        {"address":"aws_instance.a","type":"aws_instance","name":"a","mode":"managed",
         "change":{"actions":["update"],"before":{"instance_type":"t3.small"},
                   "after":{"instance_type":"t3.large"},"after_unknown":{}}}]}"#;
    let extended = r#"{"planned_values":{"x":true},"format_version":"1.2","applyable":true,
        "resource_changes":[
        {"index":0,"address":"aws_instance.a","type":"aws_instance","provider_name":"aws",
         "name":"a","mode":"managed",
         "change":{"replace_paths":[["ami"]],"actions":["update"],"before":{"instance_type":"t3.small"},
                   "before_sensitive":{},"after":{"instance_type":"t3.large"},"after_unknown":{},
                   "importing":null},
         "action_reason":"replace_because_cannot_update"}],
        "configuration":{}}"#;
    assert_eq!(parse(extended), parse(base));
    assert_eq!(parse(base).unwrap().len(), 1);

    // An unsupported version stays the same error with extra members around it.
    let old = r#"{"format_version":"0.2","resource_changes":[]}"#;
    let old_extended = r#"{"terraform_version":"0.12","format_version":"0.2","resource_changes":[]}"#;
    assert_eq!(parse(old_extended), parse(old));
}

fn obj(members: Vec<(&str, JsonValue)>) -> JsonValue {
    JsonValue::Object(members.into_iter().map(|(k, v)| (k.to_string(), v)).collect())
}

fn st(text: &str) -> JsonValue {
    JsonValue::Str(text.to_string())
}

/// A plan with one managed create; `top`, `change` and `detail` add members at each level.
fn plan_with(
    top: Vec<(&str, JsonValue)>,
    change: Vec<(&str, JsonValue)>,
    detail: Vec<(&str, JsonValue)>,
) -> JsonValue {
    let mut d = vec![
        ("actions", JsonValue::Array(vec![st("create")])),
        ("after", obj(vec![("instance_type", st("t3.large"))])),
    ];
    d.extend(detail);
    let mut c = vec![
        ("address", st("aws_instance.a")),
        ("type", st("aws_instance")),
        ("name", st("a")),
        ("mode", st("managed")),
        ("change", obj(d)),
    ];
    c.extend(change);
    let mut t = vec![("format_version", st("1.2")), ("resource_changes", JsonValue::Array(vec![obj(c)]))];
    t.extend(top);
    obj(t)
}

#[test]
fn a_repeated_schema_member_is_a_json_error() {
    assert_eq!(parse_plan(plan_with(vec![], vec![], vec![])).unwrap().len(), 1);
    let repeated = [
        plan_with(vec![("format_version", st("1.2"))], vec![], vec![]),
        plan_with(vec![("resource_changes", JsonValue::Array(vec![]))], vec![], vec![]),
        plan_with(vec![], vec![("address", st("aws_instance.b"))], vec![]),
        plan_with(vec![], vec![("mode", st("managed"))], vec![]),
        plan_with(vec![], vec![], vec![("actions", JsonValue::Array(vec![st("create")]))]),
        plan_with(vec![], vec![], vec![("after", JsonValue::Null)]),
    ];
    for doc in repeated {
        assert!(matches!(parse_plan(doc), Err(ParseError::Json(_))));
    }
}

#[test]
fn repeated_members_outside_the_schema_are_accepted() {
    // Unread members may repeat; inside `after` the last occurrence of an attribute wins.
    let doc = plan_with(
        vec![("terraform_version", st("1.5.7")), ("terraform_version", st("1.9.8"))],
        vec![("index", JsonValue::Null), ("index", JsonValue::Null)],
        vec![("before", JsonValue::Null)],
    );
    let changes = parse_plan(doc).unwrap();
    assert_eq!(changes.len(), 1);
    let mut d = obj(vec![
        ("actions", JsonValue::Array(vec![st("create")])),
        ("after", obj(vec![("instance_type", st("t3.small")), ("instance_type", st("t3.large"))])),
    ]);
    if let JsonValue::Object(m) = &mut d {
        m.push(("replace_paths".to_string(), JsonValue::Array(vec![])));
    }
    let doc = obj(vec![
        ("format_version", st("1.2")),
        (
            "resource_changes",
            JsonValue::Array(vec![obj(vec![
                ("address", st("aws_instance.a")),
                ("type", st("aws_instance")),
                ("name", st("a")),
                ("mode", st("managed")),
                ("change", d),
            ])]),
        ),
    ]);
    let changes = parse_plan(doc).unwrap();
    assert_eq!(
        changes[0].attr(SpecState::After, "instance_type").and_then(|v| v.as_str()),
        Some("t3.large")
    );
}

/// A `terraform show -json` plan in the shape Terraform 1.5 writes: three instances and a NAT
/// gateway to create, alongside the members the reader does not use.
const SAMPLE: &str = r#"{
  "format_version": "1.2",
  "terraform_version": "1.5.7",
  "planned_values": {"root_module": {"resources": [
    {"address": "aws_instance.web[0]", "mode": "managed", "type": "aws_instance", "name": "web", "index": 0,
     "provider_name": "registry.terraform.io/hashicorp/aws", "schema_version": 1,
     "values": {"ami": "ami-0c55b159cbfafe1f0", "instance_type": "t3.large", "tags": {"Name": "web"}},
     "sensitive_values": {"tags": {}}}
  ]}},
  "resource_changes": [
    {"address": "aws_instance.web[0]", "mode": "managed", "type": "aws_instance", "name": "web", "index": 0,
     "provider_name": "registry.terraform.io/hashicorp/aws",
     "change": {"actions": ["create"], "before": null,
       "after": {"ami": "ami-0c55b159cbfafe1f0", "instance_type": "t3.large", "tags": {"Name": "web"},
                 "ebs_optimized": null, "monitoring": null},
       "after_unknown": {"arn": true, "id": true, "private_ip": true, "public_ip": true, "tags": {}},
       "before_sensitive": false, "after_sensitive": {"tags": {}}}},
    {"address": "aws_instance.web[1]", "mode": "managed", "type": "aws_instance", "name": "web", "index": 1,
     "provider_name": "registry.terraform.io/hashicorp/aws",
     "change": {"actions": ["create"], "before": null,
       "after": {"ami": "ami-0c55b159cbfafe1f0", "instance_type": "t3.large", "tags": {"Name": "web"}},
       "after_unknown": {"arn": true, "id": true, "private_ip": true, "tags": {}},
       "before_sensitive": false, "after_sensitive": {"tags": {}}}},
    {"address": "aws_instance.worker", "mode": "managed", "type": "aws_instance", "name": "worker",
     "provider_name": "registry.terraform.io/hashicorp/aws",
     "change": {"actions": ["create"], "before": null,
       "after": {"ami": "ami-0c55b159cbfafe1f0", "instance_type": "t3.medium", "tags": null},
       "after_unknown": {"arn": true, "id": true, "private_ip": true},
       "before_sensitive": false, "after_sensitive": {}}},
    {"address": "aws_nat_gateway.main", "mode": "managed", "type": "aws_nat_gateway", "name": "main",
     "provider_name": "registry.terraform.io/hashicorp/aws",
     "change": {"actions": ["create"], "before": null,
       "after": {"connectivity_type": "public", "tags": null},
       "after_unknown": {"allocation_id": true, "id": true, "network_interface_id": true, "subnet_id": true},
       "before_sensitive": false, "after_sensitive": {}}}
  ],
  "configuration": {"provider_config": {"aws": {"name": "aws", "full_name": "registry.terraform.io/hashicorp/aws",
    "expressions": {"region": {"constant_value": "us-east-1"}}}}},
  "timestamp": "2024-05-01T12:00:00Z",
  "applyable": true,
  "complete": true,
  "errored": false
}"#;

#[test]
fn parses_real_terraform_plan() {
    let changes = parse(SAMPLE).unwrap();

    // 3 aws_instance + 1 aws_nat_gateway, all managed creates.
    assert_eq!(changes.len(), 4);
    assert!(changes.iter().all(|c| c.action == Action::Create));

    let instances: Vec<_> = changes.iter().filter(|c| c.rtype == "aws_instance").collect();
    assert_eq!(instances.len(), 3);

    // instance_type is a real value on the `after` side...
    assert_eq!(
        instances[0].attr(SpecState::After, "instance_type").and_then(|v| v.as_str()),
        Some("t3.large")
    );
    // ...while `id` is computed-at-apply, so it must read as unknown ("not estimated").
    assert!(instances[0].is_unknown("id"));
}

/// A plan with one `null_resource` to create, as the given Terraform version writes it.
fn null_resource_plan(format_version: &str, terraform_version: &str, extra: &str) -> String {
    format!(
        r#"{{"format_version":"{format_version}","terraform_version":"{terraform_version}",
  "planned_values":{{"root_module":{{"resources":[{{"address":"null_resource.example","mode":"managed",
    "type":"null_resource","name":"example","provider_name":"registry.terraform.io/hashicorp/null",
    "schema_version":0,"values":{{"triggers":null}},"sensitive_values":{{}}}}]}}}},
  "resource_changes":[{{"address":"null_resource.example","mode":"managed","type":"null_resource",
    "name":"example","provider_name":"registry.terraform.io/hashicorp/null",
    "change":{{"actions":["create"],"before":null,"after":{{"triggers":null}},
      "after_unknown":{{"id":true}},"before_sensitive":false,"after_sensitive":{{}}}}}}],
  "configuration":{{"provider_config":{{"null":{{"name":"null","full_name":"registry.terraform.io/hashicorp/null"}}}},
    "root_module":{{"resources":[{{"address":"null_resource.example","mode":"managed","type":"null_resource",
      "name":"example","provider_config_key":"null","schema_version":0}}]}}}}{extra}}}"#
    )
}

/// Compatibility matrix: plans written by several Terraform versions must all parse —
/// format_version 1.0 (TF 1.1) through 1.2 (TF 1.5/1.9).
#[test]
fn parses_plans_across_terraform_versions() {
    let fixtures: Vec<(&str, String)> = vec![
        ("1.1.9", null_resource_plan("1.0", "1.1.9", "")),
        ("1.5.7", null_resource_plan("1.2", "1.5.7", r#","timestamp":"2024-05-01T12:00:00Z""#)),
        (
            "1.9.8",
            null_resource_plan(
                "1.2",
                "1.9.8",
                r#","timestamp":"2024-11-01T12:00:00Z","applyable":true,"complete":true,"errored":false"#,
            ),
        ),
    ];
    for (version, json) in &fixtures {
        let changes = parse(json).unwrap_or_else(|e| panic!("TF {version} plan failed to parse: {e:?}"));
        assert_eq!(changes.len(), 1, "TF {version}: expected one resource change");
        let rc = &changes[0];
        assert_eq!(rc.rtype, "null_resource", "TF {version}");
        assert_eq!(rc.action, Action::Create, "TF {version}");
        assert!(rc.is_unknown("id"), "TF {version}: computed id should read as unknown");
    }
}

#[test]
fn records_may_be_written_as_arrays_by_position() {
    // The document, a change and its `change` record in positional form.
    let changes = parse(
        r#"["1.2", [["aws_instance.a", "aws_instance", "a", "managed",
                     [["create"], null, {"instance_type": "t3.large"}]]]]"#,
    )
    .unwrap();
    assert_eq!(changes.len(), 1);
    assert_eq!(changes[0].address, "aws_instance.a");
    assert_eq!(changes[0].action, Action::Create);
    assert!(changes[0].before.is_none());
    assert!(changes[0].after_unknown.is_none());
    assert_eq!(
        changes[0].attr(SpecState::After, "instance_type").and_then(|v| v.as_str()),
        Some("t3.large")
    );
    // A positional change record may stop after `actions`; a positional plan has both fields.
    assert_eq!(parse(r#"["1.0", [["x.a", "x", "a", "managed", [["delete"]]]]]"#).unwrap().len(), 1);
    assert!(matches!(parse(r#"[null, []]"#), Err(ParseError::NotAPlan)));
    // Too few or too many positions is malformed.
    for text in [
        r#"["1.2"]"#,
        r#"["1.2", [], 3]"#,
        r#"["1.2", [["x.a", "x", "a", "managed"]]]"#,
        r#"["1.2", [["x.a", "x", "a", "managed", []]]]"#,
        r#"["1.2", [["x.a", "x", "a", "managed", [["create"], null, null, null, null]]]]"#,
        r#"[]"#,
    ] {
        assert!(matches!(parse(text), Err(ParseError::Json(_))), "{text}");
    }
}
