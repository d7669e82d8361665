use enum_other::{
    conversions, other, Args, Conversions, Discriminant, EnumDecl, Literal, Member, Resolved,
    Scalar, TransformError, Transformed, Value, ValueType, Variant,
};

fn decl(name: &str, members: Vec<Member>) -> EnumDecl {
    EnumDecl { name: name.to_string(), members }
}

fn num(n: i128) -> Value {
    Value::Single(Scalar::Int(n))
}

fn text(s: &str) -> Value {
    Value::Single(Scalar::Text(s.to_string()))
}

fn rgb(r: i128, g: i128, b: i128) -> Value {
    Value::Tuple(vec![Scalar::Int(r), Scalar::Int(g), Scalar::Int(b)])
}

fn rgb_fields(r: i128, g: i128, b: i128) -> Vec<Scalar> {
    vec![Scalar::Int(r), Scalar::Int(g), Scalar::Int(b)]
}

fn lit(n: &str) -> Literal {
    Literal::Int { negative: false, text: n.to_string() }
}

fn build(args: &Args, d: &EnumDecl) -> (Transformed, Conversions) {
    let t = other(args, d).unwrap();
    let c = conversions(d, &t).unwrap();
    (t, c)
}

fn index_of(t: &Transformed, name: &str) -> usize {
    t.members.iter().position(|m| m == name).unwrap()
}

fn audio_channels(fallback: Option<&str>) -> (Transformed, Conversions) {
    let d = decl(
        "AudioChannels",
        vec![
            Member::with("Mono", Discriminant::integer("1", false)),
            Member::with("Stereo", Discriminant::integer("2", false)),
        ],
    );
    let args = Args::parse(ValueType::Scalar("u8".to_string()), fallback);
    build(&args, &d)
}

#[test]
fn audio_channels_default_fallback() {
    let (t, c) = audio_channels(None);
    assert_eq!(t.fallback, "Other");
    assert_eq!(t.fallback_fields, vec!["u8".to_string()]);
    assert_eq!(c.from_value(&num(2)), Variant::Member(index_of(&t, "Stereo")));
    assert_eq!(c.to_value(&Variant::Member(index_of(&t, "Mono"))), num(1));
    assert_eq!(c.from_value(&num(8)), Variant::Fallback(vec![Scalar::Int(8)]));
    assert_eq!(c.to_value(&Variant::Fallback(vec![Scalar::Int(6)])), num(6));
}

#[test]
fn audio_channels_custom_fallback() {
    let (t, c) = audio_channels(Some("Surround"));
    assert_eq!(t.fallback, "Surround");
    assert_eq!(c.from_value(&num(8)), Variant::Fallback(vec![Scalar::Int(8)]));
    assert_eq!(c.from_value(&num(2)), Variant::Member(index_of(&t, "Stereo")));
    assert_eq!(c.to_value(&Variant::Member(index_of(&t, "Mono"))), num(1));
    assert_eq!(c.to_value(&Variant::Fallback(vec![Scalar::Int(6)])), num(6));
}

#[test]
fn fallback_name_that_is_no_identifier_is_replaced() {
    let args = Args::parse(ValueType::Scalar("u8".to_string()), Some("1st"));
    assert_eq!(args.other_ident, "Other");
    let args = Args::parse(ValueType::Scalar("u8".to_string()), Some(""));
    assert_eq!(args.other_ident, "Other");
    let args = Args::parse(ValueType::Scalar("u8".to_string()), Some("Unknown"));
    assert_eq!(args.other_ident, "Unknown");
}

#[test]
fn digits_with_omitted_discriminants() {
    let d = decl(
        "Digit",
        vec![
            Member::with("Thousandths", Discriminant::integer("3", true)),
            Member::plain("Hundredths"),
            Member::plain("Tenths"),
            Member::plain("Unit"),
            Member::plain("Tens"),
            Member::plain("Hundreds"),
            Member::plain("Thousands"),
        ],
    );
    let args = Args::parse(ValueType::Scalar("i16".to_string()), None);
    let (t, c) = build(&args, &d);
    assert_eq!(
        t.resolved,
        vec![
            Resolved::Written,
            Resolved::Inferred(-2),
            Resolved::Inferred(-1),
            Resolved::Inferred(0),
            Resolved::Inferred(1),
            Resolved::Inferred(2),
            Resolved::Inferred(3),
        ]
    );
    assert_eq!(c.from_value(&num(2)), Variant::Member(index_of(&t, "Hundreds")));
    assert_eq!(c.to_value(&Variant::Member(index_of(&t, "Tenths"))), num(-1));
    assert_eq!(c.from_value(&num(6)), Variant::Fallback(vec![Scalar::Int(6)]));
    assert_eq!(c.to_value(&Variant::Fallback(vec![Scalar::Int(-4)])), num(-4));
    assert_eq!(c.from_value(&num(-3)), Variant::Member(index_of(&t, "Thousandths")));
}

#[test]
fn inference_starts_at_zero_and_resets_on_literal() {
    let d = decl(
        "Dimension",
        vec![
            Member::plain("Point"),
            Member::plain("Line"),
            Member::with("Surface", Discriminant::integer("10", false)),
            Member::plain("Solid"),
        ],
    );
    let args = Args::parse(ValueType::Scalar("u8".to_string()), None);
    let (t, c) = build(&args, &d);
    assert_eq!(
        t.resolved,
        vec![
            Resolved::Inferred(0),
            Resolved::Inferred(1),
            Resolved::Written,
            Resolved::Inferred(11),
        ]
    );
    assert_eq!(c.values, vec![num(0), num(1), num(10), num(11)]);
}

#[test]
fn inference_continues_past_non_integer_discriminants() {
    let d = decl(
        "Mixed",
        vec![
            Member::with("A", Discriminant::integer("4", false)),
            Member::with("B", Discriminant::Expr("LIMIT".to_string())),
            Member::plain("C"),
        ],
    );
    let args = Args::parse(ValueType::Scalar("u8".to_string()), None);
    let t = other(&args, &d).unwrap();
    assert_eq!(t.resolved, vec![Resolved::Written, Resolved::Written, Resolved::Inferred(6)]);
    assert_eq!(conversions(&d, &t), None);
}

#[test]
fn integer_literal_forms_are_read_by_value() {
    let d = decl(
        "Forms",
        vec![
            Member::with("Hex", Discriminant::integer("0x10", false)),
            Member::plain("Next"),
            Member::with("Suffixed", Discriminant::integer("1_000u16", false)),
        ],
    );
    let args = Args::parse(ValueType::Scalar("u16".to_string()), None);
    let (t, c) = build(&args, &d);
    assert_eq!(t.resolved[1], Resolved::Inferred(17));
    assert_eq!(c.values, vec![num(16), num(17), num(1000)]);
}

#[test]
fn overflowing_literal_is_rejected() {
    let d = decl(
        "Big",
        vec![
            Member::with("Small", Discriminant::integer("1", false)),
            Member::with("Huge", Discriminant::integer("99999999999999999999999", false)),
            Member::with("Bad", Discriminant::integer("not a number", false)),
        ],
    );
    let args = Args::parse(ValueType::Scalar("u64".to_string()), None);
    assert_eq!(other(&args, &d), Err(TransformError::MalformedDiscriminant { member: 1 }));
}

#[test]
fn isize_bounds_are_accepted() {
    let d = decl(
        "Bounds",
        vec![
            Member::with("Low", Discriminant::integer("9223372036854775807", true)),
            Member::with("High", Discriminant::integer("9223372036854775807", false)),
            Member::plain("Beyond"),
        ],
    );
    let args = Args::parse(ValueType::Scalar("i128".to_string()), None);
    let (t, c) = build(&args, &d);
    assert_eq!(t.resolved[2], Resolved::Inferred(9223372036854775808));
    assert_eq!(c.values[0], num(-9223372036854775807));
}

fn http_method() -> (Transformed, Conversions) {
    let names = ["Get", "Head", "Post", "Put", "Delete", "Options", "Patch"];
    let texts = ["GET", "HEAD", "POST", "PUT", "DELETE", "OPTIONS", "PATCH"];
    let members = names
        .iter()
        .zip(texts.iter())
        .map(|(n, s)| Member::with(n, Discriminant::text(s)))
        .collect();
    let d = decl("HttpMethod", members);
    let args = Args::parse(ValueType::Scalar("String".to_string()), None);
    build(&args, &d)
}

#[test]
fn http_method_textual() {
    let (t, c) = http_method();
    assert!(t.textual);
    assert_eq!(c.to_value(&Variant::Member(index_of(&t, "Put"))), text("PUT"));
    assert_eq!(c.from_value(&text("GET")), Variant::Member(index_of(&t, "Get")));
    assert_eq!(
        c.from_value(&text("TRACE")),
        Variant::Fallback(vec![Scalar::Text("TRACE".to_string())])
    );
    assert_eq!(
        c.to_value(&Variant::Fallback(vec![Scalar::Text("CONNECT".to_string())])),
        text("CONNECT")
    );
}

fn color() -> (Transformed, Conversions) {
    let table: [(&str, [&str; 3]); 8] = [
        ("Black", ["0", "0", "0"]),
        ("Red", ["255", "0", "0"]),
        ("Green", ["0", "255", "0"]),
        ("Blue", ["0", "0", "255"]),
        ("Yellow", ["255", "255", "0"]),
        ("Magenta", ["255", "0", "255"]),
        ("Cyan", ["0", "255", "255"]),
        ("White", ["255", "255", "255"]),
    ];
    let members = table
        .iter()
        .map(|(n, e)| Member::with(n, Discriminant::Tuple(e.iter().map(|x| lit(x)).collect())))
        .collect();
    let d = decl("Color", members);
    let ty = ValueType::Tuple(vec!["u8".to_string(), "u8".to_string(), "u8".to_string()]);
    let args = Args::parse(ty, None);
    build(&args, &d)
}

#[test]
fn color_tuples() {
    let (t, c) = color();
    assert!(t.tuple);
    assert!(!t.textual);
    assert_eq!(t.fallback_fields, vec!["u8".to_string(); 3]);
    assert_eq!(c.from_value(&rgb(0, 0, 255)), Variant::Member(index_of(&t, "Blue")));
    assert_eq!(c.to_value(&Variant::Member(index_of(&t, "Magenta"))), rgb(255, 0, 255));
    assert_eq!(c.from_value(&rgb(255, 0, 127)), Variant::Fallback(rgb_fields(255, 0, 127)));
    assert_eq!(c.to_value(&Variant::Fallback(rgb_fields(255, 127, 0))), rgb(255, 127, 0));
}

#[test]
fn signals() {
    let table = [
        ("Hangup", "1"),
        ("Interrupt", "2"),
        ("Quit", "3"),
        ("IllegalInstruction", "4"),
        ("BreakpointTrap", "5"),
        ("Abort", "6"),
        ("FloatingPointException", "8"),
        ("Kill", "9"),
        ("SegmentationFault", "11"),
        ("BrokenPipe", "13"),
        ("Alarm", "14"),
        ("Terminate", "15"),
    ];
    let members = table
        .iter()
        .map(|(n, v)| Member::with(n, Discriminant::integer(v, false)))
        .collect();
    let d = decl("Signal", members);
    let args = Args::parse(ValueType::Scalar("u8".to_string()), None);
    let (t, c) = build(&args, &d);
    assert_eq!(c.from_value(&num(9)), Variant::Member(index_of(&t, "Kill")));
    assert_eq!(c.to_value(&Variant::Member(index_of(&t, "Interrupt"))), num(2));
    assert_eq!(c.from_value(&num(7)), Variant::Fallback(vec![Scalar::Int(7)]));
    assert_eq!(c.to_value(&Variant::Fallback(vec![Scalar::Int(19)])), num(19));
}

#[test]
fn duplicate_discriminants_first_match_wins() {
    let d = decl(
        "Dup",
        vec![
            Member::with("A", Discriminant::integer("1", false)),
            Member::with("B", Discriminant::integer("1", false)),
        ],
    );
    let args = Args::parse(ValueType::Scalar("u8".to_string()), None);
    let (_, c) = build(&args, &d);
    assert_eq!(c.from_value(&num(1)), Variant::Member(0));
    assert_eq!(c.to_value(&Variant::Member(1)), num(1));
}

#[test]
fn empty_declaration_sends_everything_to_fallback() {
    let d = decl("Empty", vec![]);
    let args = Args::parse(ValueType::Scalar("u8".to_string()), None);
    let (t, c) = build(&args, &d);
    assert!(t.members.is_empty());
    assert!(!t.textual);
    assert_eq!(c.from_value(&num(0)), Variant::Fallback(vec![Scalar::Int(0)]));
}

#[test]
fn round_trip_for_every_member() {
    let (t, c) = color();
    for i in 0..t.members.len() {
        let v = c.to_value(&Variant::Member(i));
        assert_eq!(c.from_value(&v), Variant::Member(i));
    }
}

#[test]
fn transforming_twice_gives_the_same_result() {
    let (t1, _) = http_method();
    let (t2, _) = http_method();
    assert_eq!(t1, t2);
}
