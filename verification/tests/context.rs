use codesign_verify::macos::context::{Certificate, Context, SecOID, SecProperty};
use codesign_verify::value::{Dictionary, Value};
use codesign_verify::Name;
use std::collections::HashMap;

fn text(value: &str) -> Value {
    Value::Text(value.to_string())
}

fn dictionary(entries: Vec<(&str, Value)>) -> Dictionary {
    Dictionary {
        entries: entries
            .into_iter()
            .map(|(key, value)| (key.to_string(), value))
            .collect(),
    }
}

fn property(kind: &str, label: &str, value: Value) -> Value {
    Value::Dictionary(dictionary(vec![
        ("type", text(kind)),
        ("label", text(label)),
        ("value", value),
    ]))
}

fn entry(label: &str, value: &str) -> Value {
    property("string", label, text(value))
}

fn context_with(values: Vec<(&str, Value)>, all: Vec<(&str, Value)>) -> Context {
    Context::new(
        Certificate {
            der: vec![1, 2, 3],
            values: dictionary(values),
        },
        dictionary(all),
    )
}

fn no_name() -> Name {
    Name {
        common_name: None,
        organization: None,
        organization_unit: None,
        country: None,
    }
}

fn as_map(properties: Option<Vec<(String, String)>>) -> Option<HashMap<String, String>> {
    properties.map(|pairs| pairs.into_iter().collect())
}

#[test]
fn keys_are_spelled_as_the_framework_spells_them() {
    assert_eq!(SecProperty::Value.to_cfstr(), "value");
    assert_eq!(SecProperty::Label.to_cfstr(), "label");
    assert_eq!(SecProperty::Type.to_cfstr(), "type");
    assert_eq!(SecOID::SubjectName.to_cfstr(), "2.16.840.1.113741.2.1.1.1.8");
    assert_eq!(SecOID::IssuerName.to_cfstr(), "2.16.840.1.113741.2.1.1.1.5");
    assert_eq!(SecOID::Serial.to_cfstr(), "2.16.840.1.113741.2.1.1.1.3");
    assert_eq!(SecOID::CommonName.to_cfstr(), "2.5.4.3");
    assert_eq!(SecOID::Country.to_cfstr(), "2.5.4.6");
    assert_eq!(SecOID::Org.to_cfstr(), "2.5.4.10");
    assert_eq!(SecOID::OrgUnit.to_cfstr(), "2.5.4.11");
}

#[test]
fn a_full_name_is_read_whatever_the_order() {
    let ctx = context_with(
        vec![(
            "2.16.840.1.113741.2.1.1.1.8",
            property(
                "section",
                "Subject Name",
                Value::Array(vec![
                    entry("2.5.4.6", "CH"),
                    entry("2.5.4.10", "Example AG"),
                    entry("2.5.4.3", "Example Signing"),
                    entry("2.5.4.11", "Releases"),
                ]),
            ),
        )],
        vec![],
    );
    assert_eq!(
        ctx.subject_name(),
        Name {
            common_name: Some("Example Signing".to_string()),
            organization: Some("Example AG".to_string()),
            organization_unit: Some("Releases".to_string()),
            country: Some("CH".to_string()),
        }
    );
    assert_eq!(ctx.issuer_name(), no_name());
}

#[test]
fn attributes_that_are_not_there_are_none() {
    let ctx = context_with(
        vec![(
            "2.16.840.1.113741.2.1.1.1.5",
            property(
                "section",
                "Issuer Name",
                Value::Array(vec![entry("2.5.4.10", "Example Root")]),
            ),
        )],
        vec![],
    );
    assert_eq!(
        ctx.issuer_name(),
        Name {
            common_name: None,
            organization: Some("Example Root".to_string()),
            organization_unit: None,
            country: None,
        }
    );
    assert_eq!(ctx.subject_name(), no_name());
}

#[test]
fn entries_under_other_identifiers_are_passed_over() {
    let ctx = context_with(
        vec![(
            "2.16.840.1.113741.2.1.1.1.8",
            property(
                "section",
                "Subject Name",
                Value::Array(vec![
                    entry("0.9.2342.19200300.100.1.1", "ABCDE12345"),
                    property("string", "2.5.4.7", text("Cupertino")),
                    property("number", "2.5.4.5", Value::Number(7)),
                    Value::Dictionary(dictionary(vec![
                        ("label", Value::Number(3)),
                        ("value", text("numbered")),
                    ])),
                    entry("2.5.4.3", "Developer ID Application: Example (ABCDE12345)"),
                ]),
            ),
        )],
        vec![],
    );
    assert_eq!(
        ctx.subject_name().common_name.as_deref(),
        Some("Developer ID Application: Example (ABCDE12345)")
    );
    assert_eq!(ctx.subject_name().organization, None);
}

#[test]
fn the_first_entry_with_a_label_is_the_one_read() {
    let values = vec![
        entry("2.5.4.10", "First"),
        entry("2.5.4.10", "Second"),
    ];
    assert_eq!(
        Context::get_string(&values, SecOID::Org).as_deref(),
        Some("First")
    );
    assert_eq!(
        Context::get_sub_value(&values, SecOID::Org),
        Some(&text("First"))
    );
    assert_eq!(Context::get_sub_value(&values, SecOID::Country), None);
    assert_eq!(Context::get_sub_value(&vec![], SecOID::Country), None);
}

#[test]
fn an_unreadable_value_costs_its_own_field_only() {
    let readable = vec![
        entry("2.5.4.3", "Example Signing"),
        entry("2.5.4.10", "Example AG"),
        entry("2.5.4.11", "Releases"),
        entry("2.5.4.6", "CH"),
    ];
    let section_of = |values: Vec<Value>| {
        context_with(
            vec![(
                "2.16.840.1.113741.2.1.1.1.8",
                property("section", "Subject Name", Value::Array(values)),
            )],
            vec![],
        )
    };
    assert_eq!(
        section_of(readable).subject_name(),
        Name {
            common_name: Some("Example Signing".to_string()),
            organization: Some("Example AG".to_string()),
            organization_unit: Some("Releases".to_string()),
            country: Some("CH".to_string()),
        }
    );

    let data_for_organization = vec![
        entry("2.5.4.3", "Example Signing"),
        property("data", "2.5.4.10", Value::Data(vec![0xff, 0xfe])),
        entry("2.5.4.11", "Releases"),
        entry("2.5.4.6", "CH"),
    ];
    assert_eq!(
        section_of(data_for_organization).subject_name(),
        Name {
            common_name: Some("Example Signing".to_string()),
            organization: None,
            organization_unit: Some("Releases".to_string()),
            country: Some("CH".to_string()),
        }
    );

    let no_value_for_organization = vec![
        entry("2.5.4.3", "Example Signing"),
        Value::Dictionary(dictionary(vec![("label", text("2.5.4.10"))])),
        entry("2.5.4.11", "Releases"),
        entry("2.5.4.6", "CH"),
    ];
    assert_eq!(
        section_of(no_value_for_organization).subject_name(),
        Name {
            common_name: Some("Example Signing".to_string()),
            organization: None,
            organization_unit: Some("Releases".to_string()),
            country: Some("CH".to_string()),
        }
    );
}

#[test]
fn an_entry_without_a_label_ends_the_scan() {
    let values = vec![
        entry("2.5.4.3", "Before"),
        Value::Dictionary(dictionary(vec![("value", text("unlabelled"))])),
        entry("2.5.4.10", "After"),
    ];
    assert_eq!(
        Context::get_string(&values, SecOID::CommonName).as_deref(),
        Some("Before")
    );
    assert_eq!(Context::get_string(&values, SecOID::Org), None);

    let values = vec![text("stray"), entry("2.5.4.10", "After")];
    assert_eq!(Context::get_string(&values, SecOID::Org), None);
}

#[test]
fn a_section_of_another_kind_gives_no_name() {
    let as_string = context_with(
        vec![(
            "2.16.840.1.113741.2.1.1.1.8",
            property(
                "string",
                "Subject Name",
                Value::Array(vec![entry("2.5.4.10", "Example AG")]),
            ),
        )],
        vec![],
    );
    assert_eq!(as_string.subject_name(), no_name());
    assert!(as_string.get_as_section(SecOID::SubjectName).is_none());

    let not_an_array = context_with(
        vec![(
            "2.16.840.1.113741.2.1.1.1.8",
            property("section", "Subject Name", text("Example AG")),
        )],
        vec![],
    );
    assert_eq!(not_an_array.subject_name(), no_name());
    assert_eq!(
        not_an_array.get(SecOID::SubjectName, "section"),
        Some(&text("Example AG"))
    );

    let untyped = context_with(
        vec![(
            "2.16.840.1.113741.2.1.1.1.8",
            Value::Dictionary(dictionary(vec![(
                "value",
                Value::Array(vec![entry("2.5.4.10", "Example AG")]),
            )])),
        )],
        vec![],
    );
    assert_eq!(untyped.subject_name(), no_name());
    assert_eq!(untyped.get(SecOID::SubjectName, "section"), None);

    let no_dictionary = context_with(
        vec![("2.16.840.1.113741.2.1.1.1.8", text("Example AG"))],
        vec![],
    );
    assert_eq!(no_dictionary.subject_name(), no_name());
}

#[test]
fn serial_is_the_string_property() {
    let ctx = context_with(
        vec![(
            "2.16.840.1.113741.2.1.1.1.3",
            property("string", "Serial Number", text("12 AB 00 7F")),
        )],
        vec![],
    );
    assert_eq!(ctx.serial().as_deref(), Some("12 AB 00 7F"));
    assert_eq!(
        ctx.get_as_string(SecOID::Serial).map(|text| text.as_str()),
        Some("12 AB 00 7F")
    );

    let as_data = context_with(
        vec![(
            "2.16.840.1.113741.2.1.1.1.3",
            property("data", "Serial Number", Value::Data(vec![0x12, 0xab])),
        )],
        vec![],
    );
    assert_eq!(as_data.serial(), None);

    let mislabelled = context_with(
        vec![(
            "2.16.840.1.113741.2.1.1.1.3",
            property("string", "Serial Number", Value::Number(18)),
        )],
        vec![],
    );
    assert_eq!(mislabelled.serial(), None);
    assert_eq!(context_with(vec![], vec![]).serial(), None);
}

#[test]
fn all_properties_of_a_bundle() {
    let ctx = context_with(
        vec![],
        vec![
            (
                "info-plist",
                Value::Dictionary(dictionary(vec![
                    ("CFBundleName", text("Example")),
                    ("CFBundleIdentifier", text("com.example.app")),
                    ("CFBundleVersion", text("1432")),
                    ("CFBundleShortVersionString", text("2.1.0")),
                ])),
            ),
            ("teamid", text("ABCDE12345")),
            ("platform-identifier", Value::Number(0)),
            ("unique", Value::Data(vec![0x00, 0x1f, 0xa0, 0xff])),
        ],
    );
    assert_eq!(
        ctx.additional_properties(),
        Some(vec![
            ("bundle_id".to_string(), "com.example.app".to_string()),
            ("short_version".to_string(), "2.1.0".to_string()),
            ("bundle_version".to_string(), "1432".to_string()),
            ("team_id".to_string(), "ABCDE12345".to_string()),
            ("platform_id".to_string(), "0".to_string()),
            ("cd_hash".to_string(), "001FA0FF".to_string()),
        ])
    );
    assert_eq!(as_map(ctx.additional_properties()).unwrap().len(), 6);
    assert_eq!(ctx.team_id().as_deref(), Some("ABCDE12345"));
    assert_eq!(ctx.cd_hash().as_deref(), Some("001FA0FF"));
    assert_eq!(ctx.platform_id().as_deref(), Some("0"));
    let plist = ctx.info_plist().unwrap();
    assert_eq!(ctx.key(plist, "CFBundleName").as_deref(), Some("Example"));
    assert_eq!(ctx.key(plist, "CFBundleExecutable"), None);
}

#[test]
fn properties_that_are_not_there_are_left_out() {
    let ctx = context_with(
        vec![],
        vec![
            ("unique", Value::Data(vec![0xde, 0xad, 0xbe, 0xef])),
            (
                "info-plist",
                Value::Dictionary(dictionary(vec![
                    ("CFBundleIdentifier", text("com.example.tool")),
                    ("CFBundleVersion", Value::Number(12)),
                ])),
            ),
            ("teamid", Value::Other),
            ("platform-identifier", text("15")),
        ],
    );
    assert_eq!(
        as_map(ctx.additional_properties()),
        Some(HashMap::from([
            ("bundle_id".to_string(), "com.example.tool".to_string()),
            ("cd_hash".to_string(), "DEADBEEF".to_string()),
        ]))
    );
}

#[test]
fn cd_hash_is_always_among_the_properties() {
    let ctx = context_with(vec![], vec![("unique", Value::Data(vec![]))]);
    assert_eq!(
        ctx.additional_properties(),
        Some(vec![("cd_hash".to_string(), "".to_string())])
    );

    let ctx = context_with(
        vec![],
        vec![
            ("teamid", text("ABCDE12345")),
            ("unique", Value::Data(vec![0x0a])),
            ("info-plist", Value::Array(vec![])),
        ],
    );
    let properties = as_map(ctx.additional_properties()).unwrap();
    assert_eq!(properties.get("cd_hash").map(String::as_str), Some("0A"));
    assert_eq!(
        properties.get("team_id").map(String::as_str),
        Some("ABCDE12345")
    );
    assert_eq!(properties.len(), 2);
}

#[test]
fn without_a_cd_hash_there_are_no_properties() {
    assert_eq!(context_with(vec![], vec![]).additional_properties(), None);

    let ctx = context_with(
        vec![],
        vec![
            ("teamid", text("ABCDE12345")),
            ("platform-identifier", Value::Number(2)),
            (
                "info-plist",
                Value::Dictionary(dictionary(vec![(
                    "CFBundleIdentifier",
                    text("com.example.app"),
                )])),
            ),
        ],
    );
    assert_eq!(ctx.additional_properties(), None);
    assert_eq!(ctx.team_id().as_deref(), Some("ABCDE12345"));

    let ctx = context_with(vec![], vec![("unique", text("AEE97B85"))]);
    assert_eq!(ctx.additional_properties(), None);
    assert_eq!(ctx.cd_hash(), None);
}

#[test]
fn a_negative_platform_identifier_keeps_its_sign() {
    let ctx = context_with(
        vec![],
        vec![
            ("unique", Value::Data(vec![0x01])),
            ("platform-identifier", Value::Number(-3)),
        ],
    );
    assert_eq!(
        ctx.additional_properties(),
        Some(vec![
            ("platform_id".to_string(), "-3".to_string()),
            ("cd_hash".to_string(), "01".to_string()),
        ])
    );
}

#[test]
fn thumbprint_goes_by_the_encoding_alone() {
    let bare = Context::new(
        Certificate {
            der: b"hello world".to_vec(),
            values: dictionary(vec![]),
        },
        dictionary(vec![]),
    );
    let dressed = Context::new(
        Certificate {
            der: b"hello world".to_vec(),
            values: dictionary(vec![(
                "2.16.840.1.113741.2.1.1.1.3",
                property("string", "Serial Number", text("01")),
            )]),
        },
        dictionary(vec![("unique", Value::Data(vec![0x01]))]),
    );
    assert_eq!(
        bare.sha256_thumbprint(),
        "b94d27b9934d3e08a52e52d7da7dabfac484efe37a5380ee9088f7ace2efcde9"
    );
    assert_eq!(bare.sha256_thumbprint(), dressed.sha256_thumbprint());
    assert_ne!(
        bare.sha256_thumbprint(),
        context_with(vec![], vec![]).sha256_thumbprint()
    );
}
