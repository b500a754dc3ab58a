use msir::amf::{clone_values, number_as_u32, Amf0Value, NUMBER_ONE, NUMBER_TWO, NUMBER_ZERO};
use msir::message::builders::{NUMBER_127, NUMBER_239, NUMBER_252, NUMBER_3575};
use msir::message::request::Request;
use msir::message::types::DEFAULT_SID_NUMBER;
use msir::message::RtmpMessage;

#[test]
fn number_constants_are_the_bits_of_their_doubles() {
    assert_eq!(NUMBER_ZERO, 0.0f64.to_bits());
    assert_eq!(NUMBER_ONE, 1.0f64.to_bits());
    assert_eq!(NUMBER_TWO, 2.0f64.to_bits());
    assert_eq!(NUMBER_127, 127.0f64.to_bits());
    assert_eq!(NUMBER_239, 239.0f64.to_bits());
    assert_eq!(NUMBER_252, 252.0f64.to_bits());
    assert_eq!(NUMBER_3575, 3575.0f64.to_bits());
    assert_eq!(DEFAULT_SID_NUMBER, 1.0f64.to_bits());
}

#[test]
fn number_as_u32_agrees_with_the_cast_of_the_double() {
    let samples: Vec<f64> = vec![
        0.0,
        -0.0,
        0.5,
        0.999999,
        1.0,
        1.5,
        2.0,
        3.9999999,
        4.0,
        255.0,
        1000.7,
        65535.99,
        2147483647.0,
        2147483648.5,
        4294967294.9,
        4294967295.0,
        4294967295.5,
        4294967296.0,
        1e20,
        -1.0,
        -123456.0,
        5e-324,
        2.2250738585072014e-308,
        f64::MAX,
        f64::MIN,
        f64::INFINITY,
        f64::NEG_INFINITY,
        f64::NAN,
    ];
    for x in samples {
        assert_eq!(number_as_u32(x.to_bits()), x as u32, "for {}", x);
    }
}

#[test]
fn number_as_u32_of_small_integers() {
    let mut n: u32 = 0;
    while n < 5000 {
        assert_eq!(number_as_u32((n as f64).to_bits()), n);
        n += 1;
    }
    assert_eq!(number_as_u32(1000.0f64.to_bits()), 1000);
}

#[test]
fn object_get_finds_the_first_property_of_a_key() {
    let obj = Amf0Value::object(vec![
        ("tcUrl", Amf0Value::Utf8String("rtmp://h/live".to_string())),
        ("objectEncoding", Amf0Value::Number(3.0f64.to_bits())),
        ("tcUrl", Amf0Value::Null),
    ]);
    match obj.get("tcUrl") {
        Some(Amf0Value::Utf8String(s)) => assert_eq!(s, "rtmp://h/live"),
        other => panic!("unexpected {:?}", other),
    }
    match obj.get("objectEncoding") {
        Some(Amf0Value::Number(n)) => assert_eq!(*n, 3.0f64.to_bits()),
        other => panic!("unexpected {:?}", other),
    }
    assert!(obj.get("app").is_none());
    assert!(Amf0Value::Null.get("tcUrl").is_none());
    assert!(Amf0Value::Utf8String("tcUrl".to_string()).get("tcUrl").is_none());
}

#[test]
fn object_keeps_the_order_of_its_properties() {
    let obj = Amf0Value::object(vec![
        ("b", Amf0Value::Boolean(true)),
        ("a", Amf0Value::Undefined),
    ]);
    match obj {
        Amf0Value::Object(props) => {
            assert_eq!(props.len(), 2);
            assert_eq!(props[0].0, "b");
            assert!(matches!(props[0].1, Amf0Value::Boolean(true)));
            assert_eq!(props[1].0, "a");
            assert!(matches!(props[1].1, Amf0Value::Undefined));
        }
        other => panic!("unexpected {:?}", other),
    }
}

#[test]
fn clone_copies_nested_objects() {
    let inner = Amf0Value::object(vec![("x", Amf0Value::Number(7))]);
    let outer = Amf0Value::object(vec![("in", inner), ("s", Amf0Value::Utf8String("t".to_string()))]);
    let copy = outer.clone();
    assert_eq!(format!("{:?}", copy), format!("{:?}", outer));
    let list = vec![outer, Amf0Value::Null, Amf0Value::Boolean(false)];
    let copies = clone_values(&list);
    assert_eq!(format!("{:?}", copies), format!("{:?}", list));
}

#[test]
fn unique_keys_are_told_from_repeated_ones() {
    let plain = Amf0Value::object(vec![
        ("a", Amf0Value::Number(NUMBER_ONE)),
        ("b", Amf0Value::Null),
        ("c", Amf0Value::object(vec![("a", Amf0Value::Boolean(true))])),
    ]);
    assert!(plain.has_unique_keys());
    assert!(Amf0Value::Null.has_unique_keys());
    assert!(Amf0Value::object(vec![]).has_unique_keys());

    let twice = Amf0Value::object(vec![
        ("a", Amf0Value::Number(NUMBER_ONE)),
        ("b", Amf0Value::Null),
        ("a", Amf0Value::Number(NUMBER_TWO)),
    ]);
    assert!(!twice.has_unique_keys());

    let inside = Amf0Value::object(vec![(
        "outer",
        Amf0Value::StrictArray(vec![
            Amf0Value::Undefined,
            Amf0Value::object(vec![("k", Amf0Value::Null), ("k", Amf0Value::Null)]),
        ]),
    )]);
    assert!(!inside.has_unique_keys());
    assert!(Amf0Value::StrictArray(vec![plain, Amf0Value::Utf8String("x".to_string())]).has_unique_keys());
}

#[test]
fn with_unique_keys_the_order_of_properties_does_not_matter() {
    let one = Amf0Value::object(vec![
        ("a", Amf0Value::Number(NUMBER_ONE)),
        ("b", Amf0Value::Number(NUMBER_TWO)),
    ]);
    let other = Amf0Value::object(vec![
        ("b", Amf0Value::Number(NUMBER_TWO)),
        ("a", Amf0Value::Number(NUMBER_ONE)),
    ]);
    for key in ["a", "b", "c"] {
        let x = one.get(key).map(|v| format!("{:?}", v));
        let y = other.get(key).map(|v| format!("{:?}", v));
        assert_eq!(x, y);
    }
}

fn holds_unique_keys(msg: &RtmpMessage) -> bool {
    match msg {
        RtmpMessage::Amf0Command { command_object, additional_arguments, .. } => {
            command_object.has_unique_keys() && additional_arguments.iter().all(|v| v.has_unique_keys())
        }
        RtmpMessage::Amf0Data { values, .. } => values.iter().all(|v| v.has_unique_keys()),
        _ => true,
    }
}

#[test]
fn the_messages_of_the_relay_hold_each_key_once() {
    let mut req = Request::parse_from("rtmp://h/live?k=1".to_string()).unwrap();
    req.stream = Some("s".to_string());
    let built = vec![
        RtmpMessage::new_null(NUMBER_ONE),
        RtmpMessage::new_on_bw_done(),
        RtmpMessage::new_play_stream("s".to_string()),
        RtmpMessage::new_create_stream(),
        RtmpMessage::new_create_stream_res(NUMBER_TWO),
        RtmpMessage::new_release_stream_res(NUMBER_TWO),
        RtmpMessage::new_fcpublish_res(NUMBER_TWO),
        RtmpMessage::new_sample_access(),
        RtmpMessage::new_on_fcpublish(),
        RtmpMessage::new_on_fcunpublish(),
        RtmpMessage::new_on_status_publish_start(),
        RtmpMessage::new_on_status_unpublish(),
        RtmpMessage::new_on_status_play_reset(),
        RtmpMessage::new_on_status_play_start(),
        RtmpMessage::new_on_status_pause(),
        RtmpMessage::new_on_status_unpause(),
        RtmpMessage::new_on_status_data_start(),
        RtmpMessage::new_connect_app(&req, "me".to_string()),
        RtmpMessage::new_connect_app_res(NUMBER_ZERO),
    ];
    for msg in &built {
        assert!(holds_unique_keys(msg), "{:?}", msg);
    }
}
