use std::sync::Arc;

use threadshare::settings::{Property, PropertyKind, PropertyValue, Settings};

fn text(value: PropertyValue<&'static str>) -> Option<String> {
    match value {
        PropertyValue::Text(text) => text,
        _ => panic!("no text"),
    }
}

fn number(value: PropertyValue<&'static str>) -> u32 {
    match value {
        PropertyValue::Number(number) => number,
        _ => panic!("no number"),
    }
}

fn caps(value: PropertyValue<&'static str>) -> Option<Arc<&'static str>> {
    match value {
        PropertyValue::Caps(caps) => caps,
        _ => panic!("no caps"),
    }
}

#[test]
fn defaults() {
    let settings = Settings::<&'static str>::default();
    assert_eq!(settings.address, Some("127.0.0.1".to_string()));
    assert_eq!(settings.port, 5000);
    assert_eq!(settings.caps, None);
    assert_eq!(settings.chunk_size, 4096);
    assert_eq!(settings.context, "");
    assert_eq!(settings.context_wait, 0);
}

#[test]
fn set_and_get() {
    let mut settings = Settings::<&'static str>::default();
    settings.set_property(0, PropertyValue::Text(Some("::1".to_string())));
    let foo_bar = Arc::new("foo/bar");
    settings.set_property(1, PropertyValue::Number(40000));
    settings.set_property(2, PropertyValue::Caps(Some(foo_bar.clone())));
    settings.set_property(3, PropertyValue::Number(160));
    settings.set_property(4, PropertyValue::Text(Some("context-0".to_string())));
    settings.set_property(5, PropertyValue::Number(1));
    assert_eq!(text(settings.get_property(0)), Some("::1".to_string()));
    assert_eq!(number(settings.get_property(1)), 40000);
    let got = caps(settings.get_property(2)).unwrap();
    assert!(Arc::ptr_eq(&got, &foo_bar));
    assert_eq!(number(settings.get_property(3)), 160);
    assert_eq!(text(settings.get_property(4)), Some("context-0".to_string()));
    assert_eq!(number(settings.get_property(5)), 1);
    let copy = settings.clone();
    assert_eq!(copy.port, 40000);
    assert_eq!(copy.caps, Some(Arc::new("foo/bar")));
}

#[test]
fn set_leaves_other_properties() {
    let mut settings = Settings::<&'static str>::default();
    settings.set_property(3, PropertyValue::Number(1));
    assert_eq!(number(settings.get_property(1)), 5000);
    assert_eq!(number(settings.get_property(5)), 0);
}

#[test]
fn absent_text() {
    let mut settings = Settings::<&'static str>::default();
    settings.set_property(0, PropertyValue::Text(None));
    assert_eq!(text(settings.get_property(0)), None);
    settings.set_property(4, PropertyValue::Text(Some("shared".to_string())));
    settings.set_property(4, PropertyValue::Text(None));
    assert_eq!(text(settings.get_property(4)), Some("".to_string()));
}

#[test]
fn properties_in_order() {
    let mut names: Vec<&str> = Vec::new();
    let mut index = 0;
    while let Some(property) = Property::at(index) {
        names.push(property.describe().name);
        index += 1;
    }
    assert_eq!(
        names,
        vec!["address", "port", "caps", "chunk-size", "context", "context-wait"]
    );
}

#[test]
fn property_descriptions() {
    let port = Property::Port.describe();
    assert_eq!(port.nick, "Port");
    assert_eq!(port.blurb, "Port to receive packets from");
    assert!(matches!(port.kind, PropertyKind::Number { min: 0, max: 65535, default: 5000 }));
    let chunk = Property::ChunkSize.describe();
    assert!(matches!(chunk.kind, PropertyKind::Number { min: 0, max: 65535, default: 4096 }));
    let wait = Property::ContextWait.describe();
    assert!(matches!(wait.kind, PropertyKind::Number { min: 0, max: 1000, default: 0 }));
    assert_eq!(wait.blurb, "Throttle poll loop to run at most once every this many ms");
    let address = Property::Address.describe();
    assert!(matches!(address.kind, PropertyKind::Text(Some("127.0.0.1"))));
    let context = Property::Context.describe();
    assert!(matches!(context.kind, PropertyKind::Text(Some(""))));
    assert!(matches!(Property::Caps.describe().kind, PropertyKind::Caps));
}

#[test]
fn setting_a_property_to_its_own_value() {
    let mut settings = Settings::<&'static str>::default();
    settings.set_property(4, PropertyValue::Text(Some("shared".to_string())));
    for id in 0..6 {
        let value = settings.get_property(id);
        settings.set_property(id, value);
    }
    assert_eq!(settings.address, Some("127.0.0.1".to_string()));
    assert_eq!(settings.port, 5000);
    assert_eq!(settings.caps, None);
    assert_eq!(settings.chunk_size, 4096);
    assert_eq!(settings.context, "shared");
    assert_eq!(settings.context_wait, 0);
}
