use squadconv::document::Node;
use squadconv::model::{DecodeError, Fault, Field, Member, Squad};
use squadconv::transcode::{
    deliver, emit_yaml, parse_json, read_squad, transcode, transcode_document, transcode_text,
    write_squad, Delivery, TranscodeError,
};

const AVENGERS: &str = "{\"squadName\":\"Avengers\",\"homeTown\":\"New York\",\"formed\":1963,\"secretBase\":\"Tower\",\"active\":true,\"members\":[{\"name\":\"Tony\",\"age\":45,\"secretIdentity\":\"Iron Man\",\"powers\":[\"tech\"]}]}";

const AVENGERS_YAML: &str = "---\nsquadName: Avengers\nhomeTown: New York\nformed: 1963\nsecretBase: Tower\nactive: true\nmembers:\n  - name: Tony\n    age: 45\n    secretIdentity: Iron Man\n    powers:\n      - tech\n";

fn words(s: &str) -> Node {
    Node::Text(s.to_string())
}

fn whole(n: i64) -> Node {
    Node::Number(Some(n))
}

fn record(entries: Vec<(&str, Node)>) -> Node {
    Node::Record(entries.into_iter().map(|(k, v)| (k.to_string(), v)).collect())
}

fn tony() -> Member {
    Member {
        name: "Tony".to_string(),
        age: 45,
        secret_identity: "Iron Man".to_string(),
        powers: vec!["tech".to_string()],
    }
}

fn avengers() -> Squad {
    Squad {
        squad_name: "Avengers".to_string(),
        home_town: "New York".to_string(),
        formed: 1963,
        secret_base: "Tower".to_string(),
        active: true,
        members: vec![tony()],
    }
}

fn squad_entries() -> Vec<(&'static str, Node)> {
    vec![
        ("squadName", words("Avengers")),
        ("homeTown", words("New York")),
        ("formed", whole(1963)),
        ("secretBase", words("Tower")),
        ("active", Node::Bool(true)),
    ]
}

#[test]
fn known_input_gives_known_yaml() {
    assert_eq!(transcode_text(AVENGERS.as_bytes()), Ok(AVENGERS_YAML.to_string()));
}

#[test]
fn without_output_the_text_goes_to_stdout_as_a_line() {
    let mut line = AVENGERS_YAML.to_string();
    line.push('\n');
    assert_eq!(transcode(AVENGERS.as_bytes(), None), Ok(Delivery::Stdout { content: line }));
}

#[test]
fn with_output_the_text_goes_to_the_file() {
    assert_eq!(
        transcode(AVENGERS.as_bytes(), Some("out/squad.yaml".to_string())),
        Ok(Delivery::File {
            path: "out/squad.yaml".to_string(),
            content: AVENGERS_YAML.to_string()
        })
    );
}

#[test]
fn deliver_adds_the_line_end_for_stdout_only() {
    assert_eq!(
        deliver("a: 1\n".to_string(), None),
        Delivery::Stdout { content: "a: 1\n\n".to_string() }
    );
    assert_eq!(
        deliver("a: 1\n".to_string(), Some("f".to_string())),
        Delivery::File { path: "f".to_string(), content: "a: 1\n".to_string() }
    );
    assert_eq!(deliver(String::new(), None), Delivery::Stdout { content: "\n".to_string() });
}

#[test]
fn produced_yaml_reads_back_with_the_same_fields() {
    let text = transcode_text(AVENGERS.as_bytes()).unwrap();
    let value: serde_yaml::Value = serde_yaml::from_str(&text).unwrap();
    let key = |k: &str| serde_yaml::Value::String(k.to_string());
    let top = value.as_mapping().unwrap();
    assert_eq!(top.len(), 6);
    assert_eq!(top.get(&key("squadName")).unwrap().as_str(), Some("Avengers"));
    assert_eq!(top.get(&key("homeTown")).unwrap().as_str(), Some("New York"));
    assert_eq!(top.get(&key("formed")).unwrap().as_i64(), Some(1963));
    assert_eq!(top.get(&key("secretBase")).unwrap().as_str(), Some("Tower"));
    assert_eq!(top.get(&key("active")).unwrap().as_bool(), Some(true));
    let members = top.get(&key("members")).unwrap().as_sequence().unwrap();
    assert_eq!(members.len(), 1);
    let member = members[0].as_mapping().unwrap();
    assert_eq!(member.len(), 4);
    assert_eq!(member.get(&key("name")).unwrap().as_str(), Some("Tony"));
    assert_eq!(member.get(&key("age")).unwrap().as_i64(), Some(45));
    assert_eq!(member.get(&key("secretIdentity")).unwrap().as_str(), Some("Iron Man"));
    let powers = member.get(&key("powers")).unwrap().as_sequence().unwrap();
    assert_eq!(powers.len(), 1);
    assert_eq!(powers[0].as_str(), Some("tech"));
}

#[test]
fn keys_come_in_field_order_whatever_the_input_order() {
    let shuffled = "{\"members\":[],\"active\":false,\"secretBase\":\"b\",\"formed\":-5,\"homeTown\":\"h\",\"squadName\":\"s\"}";
    assert_eq!(
        transcode_text(shuffled.as_bytes()),
        Ok("---\nsquadName: s\nhomeTown: h\nformed: -5\nsecretBase: b\nactive: false\nmembers: []\n"
            .to_string())
    );
}

#[test]
fn parse_json_gives_the_tree() {
    let node = parse_json(b" [1, \"a\", null, true, {\"k\": 2.5, \"b\": [false]}, -7] ").unwrap();
    let expected = Node::List(vec![
        whole(1),
        words("a"),
        Node::Null,
        Node::Bool(true),
        record(vec![("b", Node::List(vec![Node::Bool(false)])), ("k", Node::Number(None))]),
        whole(-7),
    ]);
    assert_eq!(node, expected);
}

#[test]
fn parse_json_number_limits() {
    assert_eq!(parse_json(b"9223372036854775807"), Ok(whole(i64::MAX)));
    assert_eq!(parse_json(b"-9223372036854775808"), Ok(whole(i64::MIN)));
    assert_eq!(parse_json(b"9223372036854775808"), Ok(Node::Number(None)));
    assert_eq!(parse_json(b"1e3"), Ok(Node::Number(None)));
    assert_eq!(parse_json(b"0"), Ok(whole(0)));
}

#[test]
fn parse_json_refuses_what_is_no_json() {
    for input in ["", "{", "{\"a\":}", "[1,]", "{\"a\":1} x", "nul", "'a'", "{\"a\" 1}"] {
        let res = parse_json(input.as_bytes());
        assert!(matches!(res, Err(TranscodeError::Syntax(_))), "{:?}", input);
    }
    assert!(matches!(parse_json(&[0xff, 0xfe]), Err(TranscodeError::Syntax(_))));
}

#[test]
fn syntax_error_carries_the_parsers_words() {
    for input in ["{\"squadName\": ", "", "[1,]", "{\"a\":1} x", "nul"] {
        let own = serde_json::from_slice::<serde_json::Value>(input.as_bytes()).unwrap_err();
        assert_eq!(
            parse_json(input.as_bytes()),
            Err(TranscodeError::Syntax(own.to_string())),
            "{:?}",
            input
        );
        assert_eq!(
            transcode(input.as_bytes(), None),
            Err(TranscodeError::Syntax(own.to_string()))
        );
    }
    assert_eq!(
        parse_json(b"{\"squadName\": "),
        Err(TranscodeError::Syntax(
            "EOF while parsing a value at line 1 column 14".to_string()
        ))
    );
}

#[test]
fn malformed_input_gives_nothing_to_deliver() {
    let res = transcode(b"{\"squadName\":\"Avengers\"", Some("out.yaml".to_string()));
    assert!(matches!(res, Err(TranscodeError::Syntax(_))));
    let res = transcode(b"not json", None);
    assert!(matches!(res, Err(TranscodeError::Syntax(_))));
}

#[test]
fn squad_from_its_document() {
    let mut entries = squad_entries();
    entries.push((
        "members",
        Node::List(vec![record(vec![
            ("name", words("Tony")),
            ("age", whole(45)),
            ("secretIdentity", words("Iron Man")),
            ("powers", Node::List(vec![words("tech")])),
        ])]),
    ));
    assert_eq!(Squad::from_node(&record(entries)), Ok(avengers()));
}

#[test]
fn squad_round_trip() {
    let squad = avengers();
    assert_eq!(Squad::from_node(&squad.to_node()), Ok(squad));
}

#[test]
fn squad_round_trip_without_members() {
    let mut squad = avengers();
    squad.members.clear();
    assert_eq!(Squad::from_node(&squad.to_node()), Ok(squad));
    let squad = Squad::default();
    assert_eq!(Squad::from_node(&squad.to_node()), Ok(squad));
}

#[test]
fn squad_round_trip_with_many_members() {
    let mut squad = avengers();
    squad.members.push(Member::default());
    squad.members.push(Member {
        name: "Thor \"Odinson\"".to_string(),
        age: i64::MIN,
        secret_identity: "".to_string(),
        powers: vec!["".to_string(), "thunder\n".to_string(), "powers".to_string()],
    });
    squad.formed = i64::MAX;
    assert_eq!(Squad::from_node(&squad.to_node()), Ok(squad));
}

#[test]
fn member_round_trip() {
    let member = tony();
    assert_eq!(Member::from_node(&member.to_node()), Ok(member));
    let member = Member::default();
    assert_eq!(Member::from_node(&member.to_node()), Ok(member));
}

#[test]
fn to_node_writes_the_fields_in_order() {
    let expected = record(vec![
        ("name", words("Tony")),
        ("age", whole(45)),
        ("secretIdentity", words("Iron Man")),
        ("powers", Node::List(vec![words("tech")])),
    ]);
    assert_eq!(tony().to_node(), expected);
    let mut entries = squad_entries();
    entries.push(("members", Node::List(vec![expected])));
    assert_eq!(avengers().to_node(), record(entries));
}

#[test]
fn defaults() {
    let squad = Squad::default();
    assert_eq!(squad.squad_name, "");
    assert_eq!(squad.home_town, "");
    assert_eq!(squad.formed, 0);
    assert_eq!(squad.secret_base, "");
    assert!(!squad.active);
    assert!(squad.members.is_empty());
    let member = Member::default();
    assert_eq!(member.name, "");
    assert_eq!(member.age, 0);
    assert_eq!(member.secret_identity, "");
    assert!(member.powers.is_empty());
}

#[test]
fn field_keys() {
    assert_eq!(Field::SquadName.as_str(), "squadName");
    assert_eq!(Field::HomeTown.as_str(), "homeTown");
    assert_eq!(Field::Formed.as_str(), "formed");
    assert_eq!(Field::SecretBase.as_str(), "secretBase");
    assert_eq!(Field::Active.as_str(), "active");
    assert_eq!(Field::Members.as_str(), "members");
    assert_eq!(Field::Name.as_str(), "name");
    assert_eq!(Field::Age.as_str(), "age");
    assert_eq!(Field::SecretIdentity.as_str(), "secretIdentity");
    assert_eq!(Field::Powers.as_str(), "powers");
}

#[test]
fn missing_powers_gives_an_empty_list() {
    let input = "{\"squadName\":\"A\",\"homeTown\":\"B\",\"formed\":1,\"secretBase\":\"C\",\"active\":false,\"members\":[{\"name\":\"Tony\",\"age\":45,\"secretIdentity\":\"Iron Man\"}]}";
    let node = parse_json(input.as_bytes()).unwrap();
    let squad = Squad::from_node(&node).unwrap();
    assert_eq!(squad.members.len(), 1);
    assert_eq!(squad.members[0].powers, Vec::<String>::new());
    assert_eq!(squad.members[0].name, "Tony");
    assert_eq!(
        transcode_text(input.as_bytes()),
        Ok("---\nsquadName: A\nhomeTown: B\nformed: 1\nsecretBase: C\nactive: false\nmembers:\n  - name: Tony\n    age: 45\n    secretIdentity: Iron Man\n    powers: []\n".to_string())
    );
}

#[test]
fn missing_members_gives_an_empty_list() {
    let squad = Squad::from_node(&record(squad_entries())).unwrap();
    assert!(squad.members.is_empty());
    assert_eq!(squad.squad_name, "Avengers");
}

#[test]
fn extra_fields_are_ignored() {
    let input = "{\"leader\":\"Steve\",\"squadName\":\"Avengers\",\"homeTown\":\"New York\",\"budget\":{\"usd\":1e9},\"formed\":1963,\"secretBase\":\"Tower\",\"active\":true,\"members\":[{\"name\":\"Tony\",\"age\":45,\"suit\":[1,2,3],\"secretIdentity\":\"Iron Man\",\"powers\":[\"tech\"]}],\"zz\":null}";
    let node = parse_json(input.as_bytes()).unwrap();
    assert_eq!(Squad::from_node(&node), Ok(avengers()));
    assert_eq!(transcode_text(input.as_bytes()), Ok(AVENGERS_YAML.to_string()));
}

#[test]
fn keys_are_camel_case_only() {
    let mut entries = squad_entries();
    entries[0] = ("squad_name", words("Avengers"));
    assert_eq!(
        Squad::from_node(&record(entries)),
        Err(DecodeError::Squad(Fault::Missing(Field::SquadName)))
    );
    let member = record(vec![
        ("name", words("Tony")),
        ("age", whole(45)),
        ("secret_identity", words("Iron Man")),
    ]);
    assert_eq!(Member::from_node(&member), Err(Fault::Missing(Field::SecretIdentity)));
}

#[test]
fn each_required_squad_field_is_missed() {
    let fields =
        [Field::SquadName, Field::HomeTown, Field::Formed, Field::SecretBase, Field::Active];
    for (i, field) in fields.iter().enumerate() {
        let mut entries = squad_entries();
        entries.remove(i);
        assert_eq!(
            Squad::from_node(&record(entries)),
            Err(DecodeError::Squad(Fault::Missing(*field)))
        );
    }
}

#[test]
fn each_squad_field_of_wrong_type_is_reported() {
    let fields =
        [Field::SquadName, Field::HomeTown, Field::Formed, Field::SecretBase, Field::Active];
    for (i, field) in fields.iter().enumerate() {
        let mut entries = squad_entries();
        entries[i].1 = Node::Null;
        assert_eq!(
            Squad::from_node(&record(entries)),
            Err(DecodeError::Squad(Fault::Mismatch(*field)))
        );
    }
    let mut entries = squad_entries();
    entries.push(("members", words("none")));
    assert_eq!(
        Squad::from_node(&record(entries)),
        Err(DecodeError::Squad(Fault::Mismatch(Field::Members)))
    );
    let mut entries = squad_entries();
    entries[2].1 = Node::Number(None);
    assert_eq!(
        Squad::from_node(&record(entries)),
        Err(DecodeError::Squad(Fault::Mismatch(Field::Formed)))
    );
}

#[test]
fn the_first_fault_in_field_order_is_reported() {
    let node = record(vec![("active", words("yes")), ("formed", words("long ago"))]);
    assert_eq!(Squad::from_node(&node), Err(DecodeError::Squad(Fault::Missing(Field::SquadName))));
    let node = record(vec![
        ("active", words("yes")),
        ("squadName", words("A")),
        ("homeTown", words("B")),
        ("formed", words("long ago")),
    ]);
    assert_eq!(Squad::from_node(&node), Err(DecodeError::Squad(Fault::Mismatch(Field::Formed))));
}

#[test]
fn the_first_entry_of_a_name_counts() {
    let mut entries = squad_entries();
    entries.push(("squadName", whole(3)));
    let squad = Squad::from_node(&record(entries)).unwrap();
    assert_eq!(squad.squad_name, "Avengers");
}

#[test]
fn what_is_no_record_is_no_squad() {
    for node in [Node::Null, Node::Bool(true), whole(1), words("squad"), Node::List(vec![])] {
        assert_eq!(Squad::from_node(&node), Err(DecodeError::Squad(Fault::NotRecord)));
        assert_eq!(Member::from_node(&node), Err(Fault::NotRecord));
    }
    assert_eq!(
        transcode_text(b"[\"Avengers\",\"New York\",1963,\"Tower\",true,[]]"),
        Err(TranscodeError::Shape(DecodeError::Squad(Fault::NotRecord)))
    );
}

#[test]
fn member_faults_carry_the_position() {
    let good = tony().to_node();
    let mut entries = squad_entries();
    entries.push((
        "members",
        Node::List(vec![
            good,
            tony().to_node(),
            record(vec![("name", words("Thor")), ("age", words("1500"))]),
            Node::Null,
        ]),
    ));
    assert_eq!(
        Squad::from_node(&record(entries)),
        Err(DecodeError::Member(2, Fault::Mismatch(Field::Age)))
    );
    let mut entries = squad_entries();
    entries.push(("members", Node::List(vec![whole(1)])));
    assert_eq!(Squad::from_node(&record(entries)), Err(DecodeError::Member(0, Fault::NotRecord)));
}

#[test]
fn member_faults() {
    let base = || {
        vec![
            ("name", words("Tony")),
            ("age", whole(45)),
            ("secretIdentity", words("Iron Man")),
            ("powers", Node::List(vec![words("tech")])),
        ]
    };
    let fields = [Field::Name, Field::Age, Field::SecretIdentity];
    for (i, field) in fields.iter().enumerate() {
        let mut entries = base();
        entries.remove(i);
        assert_eq!(Member::from_node(&record(entries)), Err(Fault::Missing(*field)));
        let mut entries = base();
        entries[i].1 = Node::Bool(false);
        assert_eq!(Member::from_node(&record(entries)), Err(Fault::Mismatch(*field)));
    }
    let mut entries = base();
    entries[3].1 = Node::List(vec![words("tech"), whole(1)]);
    assert_eq!(Member::from_node(&record(entries)), Err(Fault::Mismatch(Field::Powers)));
    let mut entries = base();
    entries[3].1 = Node::Null;
    assert_eq!(Member::from_node(&record(entries)), Err(Fault::Mismatch(Field::Powers)));
}

#[test]
fn shape_errors_through_the_text() {
    let input = "{\"squadName\":\"A\",\"homeTown\":\"B\",\"formed\":1963.5,\"secretBase\":\"C\",\"active\":true,\"members\":[]}";
    assert_eq!(
        transcode_text(input.as_bytes()),
        Err(TranscodeError::Shape(DecodeError::Squad(Fault::Mismatch(Field::Formed))))
    );
    let input = "{\"squadName\":\"A\",\"homeTown\":\"B\",\"formed\":1,\"secretBase\":\"C\",\"members\":[]}";
    assert_eq!(
        transcode(input.as_bytes(), None),
        Err(TranscodeError::Shape(DecodeError::Squad(Fault::Missing(Field::Active))))
    );
    let input = "{\"squadName\":\"A\",\"homeTown\":\"B\",\"formed\":1,\"secretBase\":\"C\",\"active\":true,\"members\":[{\"name\":\"x\",\"age\":1,\"secretIdentity\":\"y\",\"powers\":[\"a\",2]}]}";
    assert_eq!(
        transcode_text(input.as_bytes()),
        Err(TranscodeError::Shape(DecodeError::Member(0, Fault::Mismatch(Field::Powers))))
    );
}

#[test]
fn transcode_document_writes_the_squad_only() {
    let mut entries = squad_entries();
    entries.insert(0, ("note", words("to be dropped")));
    entries.push(("members", Node::List(vec![tony().to_node()])));
    assert_eq!(transcode_document(&record(entries)), Ok(AVENGERS_YAML.to_string()));
    assert_eq!(
        transcode_document(&Node::Null),
        Err(TranscodeError::Shape(DecodeError::Squad(Fault::NotRecord)))
    );
}

#[test]
fn emit_yaml_of_a_plain_document() {
    let node = record(vec![
        ("a", whole(-3)),
        ("b", Node::List(vec![Node::Bool(false), Node::Null, words("x y")])),
        ("c", record(vec![("d", words("e"))])),
    ]);
    assert_eq!(
        emit_yaml(&node),
        Ok("---\na: -3\nb:\n  - false\n  - ~\n  - x y\nc:\n  d: e\n".to_string())
    );
    assert_eq!(emit_yaml(&words("plain")), Ok("---\nplain\n".to_string()));
}

#[test]
fn emit_yaml_refuses_what_is_not_plain() {
    assert_eq!(emit_yaml(&Node::Number(None)), Err(TranscodeError::NotPlain));
    let twice = record(vec![("a", whole(1)), ("b", whole(2)), ("a", whole(3))]);
    assert_eq!(emit_yaml(&twice), Err(TranscodeError::NotPlain));
    let deep = Node::List(vec![record(vec![("a", Node::List(vec![Node::Number(None)]))])]);
    assert_eq!(emit_yaml(&deep), Err(TranscodeError::NotPlain));
}

#[test]
fn plain_and_not_plain() {
    assert!(Node::Null.is_plain());
    assert!(Node::Bool(false).is_plain());
    assert!(whole(0).is_plain());
    assert!(words("").is_plain());
    assert!(Node::List(vec![]).is_plain());
    assert!(Node::Record(vec![]).is_plain());
    assert!(!Node::Number(None).is_plain());
    assert!(record(vec![("a", whole(1)), ("A", whole(1))]).is_plain());
    assert!(!record(vec![("a", whole(1)), ("a", whole(1))]).is_plain());
    assert!(!record(vec![("a", whole(1)), ("b", whole(1)), ("c", whole(1)), ("b", whole(1))])
        .is_plain());
    assert!(!Node::List(vec![whole(1), Node::Number(None)]).is_plain());
    assert!(!record(vec![("a", record(vec![("b", whole(1)), ("b", whole(2))]))]).is_plain());
    assert!(avengers().to_node().is_plain());
    assert!(Squad::default().to_node().is_plain());
}

fn json_of(node: &Node) -> serde_json::Value {
    match node {
        Node::Null => serde_json::Value::Null,
        Node::Bool(b) => serde_json::Value::Bool(*b),
        Node::Number(Some(n)) => serde_json::Value::Number(serde_json::Number::from(*n)),
        Node::Number(None) => panic!("not plain"),
        Node::Text(s) => serde_json::Value::String(s.clone()),
        Node::List(items) => serde_json::Value::Array(items.iter().map(json_of).collect()),
        Node::Record(entries) => serde_json::Value::Object(
            entries.iter().map(|(k, v)| (k.clone(), json_of(v))).collect(),
        ),
    }
}

fn through_json_text(squad: &Squad) -> Squad {
    let written = serde_json::to_string(&json_of(&squad.to_node())).unwrap();
    let node = parse_json(written.as_bytes()).unwrap();
    Squad::from_node(&node).unwrap()
}

#[test]
fn squad_round_trip_through_json_text() {
    let squad = avengers();
    assert_eq!(through_json_text(&squad), squad);
    let squad = Squad::default();
    assert_eq!(through_json_text(&squad), squad);
    let mut squad = avengers();
    squad.members.clear();
    assert_eq!(through_json_text(&squad), squad);
    let mut squad = avengers();
    squad.formed = i64::MIN;
    squad.squad_name = "\"quoted\" \\ \u{1F9B8} \n".to_string();
    squad.members.push(Member {
        name: "".to_string(),
        age: i64::MAX,
        secret_identity: "{}".to_string(),
        powers: vec![],
    });
    assert_eq!(through_json_text(&squad), squad);
}

#[test]
fn texts_that_look_like_other_values_stay_texts() {
    let mut squad = avengers();
    squad.squad_name = "true".to_string();
    squad.home_town = "1963".to_string();
    squad.secret_base = "".to_string();
    squad.members.clear();
    let yaml = emit_yaml(&squad.to_node()).unwrap();
    let value: serde_yaml::Value = serde_yaml::from_str(&yaml).unwrap();
    let key = |k: &str| serde_yaml::Value::String(k.to_string());
    let top = value.as_mapping().unwrap();
    assert_eq!(top.get(&key("squadName")).unwrap().as_str(), Some("true"));
    assert_eq!(top.get(&key("homeTown")).unwrap().as_str(), Some("1963"));
    assert_eq!(top.get(&key("secretBase")).unwrap().as_str(), Some(""));
    assert_eq!(top.get(&key("formed")).unwrap().as_i64(), Some(1963));
}

#[test]
fn deep_json_is_refused_by_the_parser_not_by_a_crash() {
    let deep = format!("{}{}", "[".repeat(200), "]".repeat(200));
    assert!(matches!(parse_json(deep.as_bytes()), Err(TranscodeError::Syntax(_))));
    let fine = format!("{}{}", "[".repeat(100), "]".repeat(100));
    let mut node = parse_json(fine.as_bytes()).unwrap();
    let mut depth = 0;
    while let Node::List(mut items) = node {
        depth += 1;
        if items.is_empty() {
            break;
        }
        assert_eq!(items.len(), 1);
        node = items.pop().unwrap();
    }
    assert_eq!(depth, 100);
}

#[test]
fn json_escapes_are_resolved() {
    let node = parse_json(b"\"a\\u0041\\n\\t\\\"\\\\\\/\\ud83e\\uddb8\"").unwrap();
    assert_eq!(node, words("aA\n\t\"\\/\u{1F9B8}"));
    assert!(matches!(parse_json(b"\"\\ud83e\""), Err(TranscodeError::Syntax(_))));
    assert!(matches!(parse_json(b"\"\\x41\""), Err(TranscodeError::Syntax(_))));
}

#[test]
fn a_later_json_member_of_the_same_name_wins() {
    let node = parse_json(b"{\"a\": 1, \"b\": 2, \"a\": 3}").unwrap();
    assert_eq!(node, record(vec![("a", whole(3)), ("b", whole(2))]));
    assert!(node.is_plain());
}

#[test]
fn odd_texts_survive_the_yaml_text() {
    let texts = [
        "",
        " ",
        "  leading",
        "trailing  ",
        "two\nlines",
        "trailing newline\n",
        "\n",
        "tab\there",
        "a: b",
        "a #b",
        "#a",
        "- a",
        "---",
        "...",
        "[a]",
        "{a}",
        "a, b",
        "&a",
        "*a",
        "!a",
        "|",
        ">",
        "%a",
        "@a",
        "`a`",
        "'single'",
        "\"double\"",
        "back\\slash",
        "null",
        "~",
        "true",
        "false",
        "yes",
        "no",
        "on",
        "off",
        "1",
        "-1",
        "1.5",
        "1e3",
        "0x1F",
        ".inf",
        "-.inf",
        ".nan",
        "2001-12-14",
        "\u{e9}\u{4e2d}\u{1F9B8}",
        "\u{7f}",
        "?",
        ":",
        "-",
        "a:",
        ":a",
        "key: [1, 2]",
    ];
    let key = serde_yaml::Value::String("squadName".to_string());
    let mut lost = Vec::new();
    for text in texts {
        let mut squad = Squad::default();
        squad.squad_name = text.to_string();
        let yaml = emit_yaml(&squad.to_node()).unwrap();
        let value: serde_yaml::Value = serde_yaml::from_str(&yaml).unwrap();
        let back = value.as_mapping().unwrap().get(&key).unwrap();
        if back.as_str() != Some(text) {
            lost.push(text);
        }
    }
    assert_eq!(lost, Vec::<&str>::new());
}

#[test]
fn a_text_in_octal_spelling_is_written_bare() {
    let mut squad = Squad::default();
    squad.squad_name = "0o17".to_string();
    let yaml = emit_yaml(&squad.to_node()).unwrap();
    assert!(yaml.starts_with("---\nsquadName: 0o17\n"), "{:?}", yaml);
}

#[test]
fn read_squad_gives_the_squad_or_the_error() {
    assert_eq!(read_squad(AVENGERS.as_bytes()), Ok(avengers()));
    let own = serde_json::from_slice::<serde_json::Value>(b"{").unwrap_err();
    assert_eq!(read_squad(b"{"), Err(TranscodeError::Syntax(own.to_string())));
    assert_eq!(
        read_squad(b"{}"),
        Err(TranscodeError::Shape(DecodeError::Squad(Fault::Missing(Field::SquadName))))
    );
    assert_eq!(
        read_squad(b"7"),
        Err(TranscodeError::Shape(DecodeError::Squad(Fault::NotRecord)))
    );
}

#[test]
fn write_squad_gives_the_yaml_text() {
    assert_eq!(write_squad(&avengers()), Ok(AVENGERS_YAML.to_string()));
    assert_eq!(
        write_squad(&Squad::default()),
        Ok("---\nsquadName: \"\"\nhomeTown: \"\"\nformed: 0\nsecretBase: \"\"\nactive: false\nmembers: []\n"
            .to_string())
    );
}

#[test]
fn reading_then_writing_is_transcoding() {
    let squad = read_squad(AVENGERS.as_bytes()).unwrap();
    assert_eq!(write_squad(&squad), transcode_text(AVENGERS.as_bytes()));
}

#[test]
fn an_extra_member_must_still_be_well_formed() {
    let input = AVENGERS.replacen("{", "{\"extra\": 1e999, ", 1);
    assert!(matches!(read_squad(input.as_bytes()), Err(TranscodeError::Syntax(_))));
    let deep = format!("{}{}", "[".repeat(200), "]".repeat(200));
    let input = AVENGERS.replacen("{", &format!("{{\"extra\": {}, ", deep), 1);
    assert!(matches!(transcode_text(input.as_bytes()), Err(TranscodeError::Syntax(_))));
}

#[test]
fn a_squad_field_given_twice_takes_the_later_value() {
    let input = AVENGERS.replacen("{", "{\"squadName\": \"X-Men\", ", 1);
    assert_eq!(read_squad(input.as_bytes()), Ok(avengers()));
}
