use panono_client::catalog::{decode_status, decode_upf_infos, ResponseCapture, ResponseDelete};
use panono_client::json::{parse_json, Decode, Json, JsonNumber};
use panono_client::options::{
    decode_option, decode_option_list, CameraOption, Constraint, ResponseGetOption, StringOrNumber,
};

fn parse(text: &str) -> Json {
    parse_json(text).expect("valid JSON")
}

#[test]
fn options() {
    let j = parse(
        r#"{
            "options": [{
                    "constraints": [{
                        "constraint": "values",
                        "value": [true, false]
                    }],
                    "name": "AutoExposure",
                    "type": "Boolean"
                },
                {
                    "constraints": [{
                        "constraint": "values",
                        "value": ["0", "3000", "4500", "5500", "6500", "8000"]
                    }],
                    "name": "ColorTemperature",
                    "type": "Enumeration"
                },
                {
                    "constraints": [{
                            "constraint": "min",
                            "value": "0.25"
                        },
                        {
                            "constraint": "max",
                            "value": "2000"
                        }
                    ],
                    "name": "ExposureTime",
                    "type": "Number"
                },
                {
                    "constraints": [{
                        "constraint": "values",
                        "value": ["50", "100", "200", "400", "800"]
                    }],
                    "name": "ISO",
                    "type": "Enumeration"
                },
                {
                    "constraints": [{
                            "constraint": "min",
                            "value": 0
                        },
                        {
                            "constraint": "max",
                            "value": 10000
                        }
                    ],
                    "name": "TriggerDelay",
                    "type": "Integer"
                }
            ]
        }"#,
    );
    decode_option_list(&j).unwrap();
}

#[test]
fn constraint() {
    let j = parse(
        r#"{
            "constraints": [{
                "constraint": "values",
                "value": [true, false]
            }],
            "name": "AutoExposure",
            "type": "Boolean"
        }"#,
    );
    decode_option(&j).unwrap();
}

#[test]
fn option_list_contents() {
    let j = parse(
        r#"{"options":[
            {"type":"Boolean","name":"AutoExposure","constraints":[{"constraint":"values","value":[true,false]}]},
            {"type":"Integer","name":"TriggerDelay","constraints":[{"constraint":"min","value":0},{"constraint":"max","value":10000}]}
        ]}"#,
    );
    let list = decode_option_list(&j).unwrap();
    assert_eq!(list.options.len(), 2);
    match &list.options[0] {
        CameraOption::Boolean { name, constraints } => {
            assert_eq!(name, "AutoExposure");
            assert_eq!(constraints.len(), 1);
            assert!(matches!(&constraints[0], Constraint::Values { value } if value == &vec![true, false]));
        }
        _ => panic!("expected a Boolean option"),
    }
    match &list.options[1] {
        CameraOption::Integer { name, constraints } => {
            assert_eq!(name, "TriggerDelay");
            assert!(matches!(constraints[0], Constraint::Min { value: 0 }));
            assert!(matches!(constraints[1], Constraint::Max { value: 10000 }));
        }
        _ => panic!("expected an Integer option"),
    }
}

#[test]
fn number_bounds_stay_text_until_parsed() {
    let j = parse(
        r#"{"type":"Number","name":"ExposureTime","constraints":[{"constraint":"min","value":"0.25"},{"constraint":"max","value":"2000"}]}"#,
    );
    match decode_option(&j).unwrap() {
        CameraOption::Number { name, constraints } => {
            assert_eq!(name, "ExposureTime");
            match (&constraints[0], &constraints[1]) {
                (Constraint::Min { value: min }, Constraint::Max { value: max }) => {
                    assert_eq!(min, "0.25");
                    assert_eq!(max, "2000");
                    assert_eq!(min.parse::<f64>().unwrap(), 0.25);
                    assert_eq!(max.parse::<f64>().unwrap(), 2000.0);
                }
                _ => panic!("expected min then max"),
            }
        }
        _ => panic!("expected a Number option"),
    }
    // Text that is no number is accepted at decode time as well.
    let odd = parse(r#"{"type":"Number","name":"X","constraints":[{"constraint":"min","value":"low"}]}"#);
    assert!(decode_option(&odd).is_some());
}

#[test]
fn constraint_type_must_match_option_type() {
    let j = parse(r#"{"type":"Boolean","name":"A","constraints":[{"constraint":"values","value":[1,2]}]}"#);
    assert!(decode_option(&j).is_none());
    let k = parse(r#"{"type":"Integer","name":"A","constraints":[{"constraint":"min","value":"1"}]}"#);
    assert!(decode_option(&k).is_none());
    let unknown = parse(r#"{"type":"Float","name":"A","constraints":[]}"#);
    assert!(decode_option(&unknown).is_none());
    let bad_tag = parse(r#"{"type":"Integer","name":"A","constraints":[{"constraint":"between","value":1}]}"#);
    assert!(decode_option(&bad_tag).is_none());
}

#[test]
fn option_value_true_is_bool() {
    let r = ResponseGetOption::decode(&parse(r#"{"name":"AutoExposure","value":true}"#)).unwrap();
    assert_eq!(r.name, "AutoExposure");
    assert!(matches!(r.value, StringOrNumber::Bool(true)));
}

#[test]
fn option_value_quoted_is_string() {
    let r = ResponseGetOption::decode(&parse(r#"{"name":"ISO","value":"50"}"#)).unwrap();
    assert!(matches!(r.value, StringOrNumber::String(ref s) if s == "50"));
}

#[test]
fn option_value_bare_is_number() {
    let r = ResponseGetOption::decode(&parse(r#"{"name":"ISO","value":50}"#)).unwrap();
    assert!(matches!(r.value, StringOrNumber::Number(JsonNumber::PosInt(50))));
    let f = ResponseGetOption::decode(&parse(r#"{"name":"ExposureTime","value":0.25}"#)).unwrap();
    match f.value {
        StringOrNumber::Number(JsonNumber::Float(t)) => assert_eq!(t.parse::<f64>().unwrap(), 0.25),
        _ => panic!("expected a float"),
    }
    assert!(ResponseGetOption::decode(&parse(r#"{"name":"X","value":null}"#)).is_none());
}

#[test]
fn status_result_reads_every_member() {
    let j = parse(
        r#"{"auth_token":"tok","capture_available":true,"current_time":"2020","device_id":"d",
            "firmware_update_url":"u","firmware_version":"1.2","is_auth":true,"serial_number":"s",
            "storage":{"internal":{"total":100,"usage":40}},"update_ready":false}"#,
    );
    let s = decode_status(&j).unwrap();
    assert!(s.is_auth);
    assert!(!s.update_ready);
    assert_eq!(s.auth_token, "tok");
    assert_eq!(s.storage.len(), 1);
    assert_eq!(s.storage[0].0, "internal");
    assert_eq!(s.storage[0].1.total, 100);
    assert_eq!(s.storage[0].1.usage, 40);
    let missing = parse(r#"{"is_auth":true}"#);
    assert!(decode_status(&missing).is_none());
}

#[test]
fn other_results() {
    let d = ResponseDelete::decode(&parse(r#"{"panorama":true,"preview":false}"#)).unwrap();
    assert!(d.panorama && !d.preview);
    let u = decode_upf_infos(&parse(
        r#"{"is_full":false,"upf_infos":[{"capture_date":"2020-01-01","image_id":"ab","preview_url":"p","size":12,"upf_url":"http://x/ab.upf"}]}"#,
    ))
    .unwrap();
    assert!(!u.is_full);
    assert_eq!(u.upf_infos.len(), 1);
    assert_eq!(u.upf_infos[0].image_id, "ab");
    assert_eq!(u.upf_infos[0].size, 12);
    let c = ResponseCapture::decode(&parse(
        r#"{"capture_available":true,"options":{"AutoExposure":true,"ColorTemperature":"0","ExposureTime":0.5,"ISO":"100","TriggerDelay":0}}"#,
    ))
    .unwrap();
    assert!(c.capture_available);
    assert_eq!(c.options.iso, "100");
    assert!(matches!(c.options.trigger_delay, JsonNumber::PosInt(0)));
    let neg = decode_upf_infos(&parse(
        r#"{"is_full":false,"upf_infos":[{"capture_date":"","image_id":"","preview_url":"","size":-1,"upf_url":""}]}"#,
    ));
    assert!(neg.is_none());
}
