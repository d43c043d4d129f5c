use nft_metadata::metadata::{Attribute, Creator, FileAttr, Metadata, Property};
use serde_json::Value;

fn record_to_json(record: &Metadata) -> Value {
    let mut obj = serde_json::Map::new();
    obj.insert("name".to_string(), Value::String(record.name.clone()));
    if let Some(symbol) = &record.symbol {
        obj.insert("symbol".to_string(), Value::String(symbol.clone()));
    }
    obj.insert(
        "description".to_string(),
        Value::String(record.description.clone()),
    );
    if let Some(basis_points) = record.seller_fee_basis_points {
        obj.insert(
            "seller_fee_basis_points".to_string(),
            Value::Number(basis_points.into()),
        );
    }
    obj.insert("image".to_string(), Value::String(record.image.clone()));
    if let Some(animation_url) = &record.animation_url {
        obj.insert(
            "animation_url".to_string(),
            Value::String(animation_url.clone()),
        );
    }
    if let Some(external_url) = &record.external_url {
        obj.insert(
            "external_url".to_string(),
            Value::String(external_url.clone()),
        );
    }
    let attributes = record
        .attributes
        .iter()
        .map(|attribute| {
            let mut a = serde_json::Map::new();
            a.insert(
                "trait_type".to_string(),
                Value::String(attribute.trait_type.clone()),
            );
            a.insert("value".to_string(), Value::String(attribute.value.clone()));
            Value::Object(a)
        })
        .collect();
    obj.insert("attributes".to_string(), Value::Array(attributes));

    let mut properties = serde_json::Map::new();
    let files = record
        .properties
        .files
        .iter()
        .map(|file| {
            let mut f = serde_json::Map::new();
            f.insert("uri".to_string(), Value::String(file.uri.clone()));
            f.insert("type".to_string(), Value::String(file.file_type.clone()));
            Value::Object(f)
        })
        .collect();
    properties.insert("files".to_string(), Value::Array(files));
    if let Some(creators) = &record.properties.creators {
        let creators = creators
            .iter()
            .map(|creator| {
                let mut c = serde_json::Map::new();
                c.insert(
                    "address".to_string(),
                    Value::String(creator.address.clone()),
                );
                c.insert("share".to_string(), Value::Number(creator.share.into()));
                Value::Object(c)
            })
            .collect();
        properties.insert("creators".to_string(), Value::Array(creators));
    }
    if let Some(category) = &record.properties.category {
        properties.insert("category".to_string(), Value::String(category.clone()));
    }
    obj.insert("properties".to_string(), Value::Object(properties));
    Value::Object(obj)
}

fn string_field(obj: &serde_json::Map<String, Value>, key: &str) -> String {
    obj.get(key).unwrap().as_str().unwrap().to_string()
}

fn opt_string_field(obj: &serde_json::Map<String, Value>, key: &str) -> Option<String> {
    obj.get(key).map(|v| v.as_str().unwrap().to_string())
}

fn record_from_json(value: &Value) -> Metadata {
    let obj = value.as_object().unwrap();
    let properties = obj.get("properties").unwrap().as_object().unwrap();
    Metadata {
        name: string_field(obj, "name"),
        symbol: opt_string_field(obj, "symbol"),
        description: string_field(obj, "description"),
        seller_fee_basis_points: obj
            .get("seller_fee_basis_points")
            .map(|v| u16::try_from(v.as_u64().unwrap()).unwrap()),
        image: string_field(obj, "image"),
        animation_url: opt_string_field(obj, "animation_url"),
        external_url: opt_string_field(obj, "external_url"),
        attributes: obj
            .get("attributes")
            .unwrap()
            .as_array()
            .unwrap()
            .iter()
            .map(|v| {
                let a = v.as_object().unwrap();
                Attribute {
                    trait_type: string_field(a, "trait_type"),
                    value: string_field(a, "value"),
                }
            })
            .collect(),
        properties: Property {
            files: properties
                .get("files")
                .unwrap()
                .as_array()
                .unwrap()
                .iter()
                .map(|v| {
                    let f = v.as_object().unwrap();
                    FileAttr {
                        uri: string_field(f, "uri"),
                        file_type: string_field(f, "type"),
                    }
                })
                .collect(),
            creators: properties.get("creators").map(|v| {
                v.as_array()
                    .unwrap()
                    .iter()
                    .map(|v| {
                        let c = v.as_object().unwrap();
                        Creator {
                            address: string_field(c, "address"),
                            share: u16::try_from(c.get("share").unwrap().as_u64().unwrap())
                                .unwrap(),
                        }
                    })
                    .collect()
            }),
            category: opt_string_field(properties, "category"),
        },
    }
}

#[test]
fn round_trip_preserves_valid_record() {
    let mut record = Metadata {
        name: "Foo".to_string(),
        symbol: Some("FOO".to_string()),
        description: "A test asset".to_string(),
        seller_fee_basis_points: Some(500),
        image: "https://x/y.png".to_string(),
        animation_url: Some("https://x/a.mp4".to_string()),
        external_url: None,
        attributes: vec![Attribute {
            trait_type: "color".to_string(),
            value: "blue".to_string(),
        }],
        properties: Property {
            files: vec![FileAttr {
                uri: "https://x/y.png".to_string(),
                file_type: "image/png".to_string(),
            }],
            creators: Some(vec![Creator {
                address: "11111111111111111111111111111111".to_string(),
                share: 100,
            }]),
            category: Some("video".to_string()),
        },
    };
    assert_eq!(record.validate(), Ok(()));

    let text = serde_json::to_string(&record_to_json(&record)).unwrap();
    let parsed: Value = serde_json::from_str(&text).unwrap();
    let mut reread = record_from_json(&parsed);
    assert_eq!(reread, record);

    // re-validation succeeds and performs no new mutation
    assert_eq!(reread.validate(), Ok(()));
    assert_eq!(reread, record);
}

#[test]
fn absent_optional_fields_are_omitted_from_output() {
    let record = Metadata {
        name: "Foo".to_string(),
        symbol: None,
        description: String::new(),
        seller_fee_basis_points: None,
        image: "https://x/y.png".to_string(),
        animation_url: None,
        external_url: None,
        attributes: vec![],
        properties: Property {
            files: vec![],
            creators: None,
            category: Some("image".to_string()),
        },
    };
    let value = record_to_json(&record);
    let obj = value.as_object().unwrap();
    for key in [
        "symbol",
        "seller_fee_basis_points",
        "animation_url",
        "external_url",
    ] {
        assert!(!obj.contains_key(key));
    }
    assert!(!obj
        .get("properties")
        .unwrap()
        .as_object()
        .unwrap()
        .contains_key("creators"));
    assert_eq!(record_from_json(&value), record);
}
